use hyprconnect::error::CoreError;
use hyprconnect::media::{media_status_text, plan_media, player_list_text, MediaPlan};
use hyprconnect::model::MediaAction;

fn s(x: &str) -> String {
    x.to_string()
}

#[test]
fn status_reads_each_property_independently() {
    let text = media_status_text(
        &Some(s("s \"Spotify\"")),
        &None,
        &Some(s("s \"Artist\"")),
        &Some(s("b true")),
        &Some(s("i 40")),
    );
    assert_eq!(text, "Player: Spotify\nState: Playing\nTitle: --\nArtist: Artist\nVolume: 40%");
    let text = media_status_text(&None, &None, &None, &Some(s("b maybe")), &None);
    assert_eq!(text, "Player: Unknown\nState: Paused\nTitle: --\nArtist: --\nVolume: 0%");
}

#[test]
fn player_list_report() {
    assert_eq!(player_list_text("as 2 \"Spotify\" \"VLC\""), "Players:\nSpotify\nVLC");
    assert_eq!(player_list_text("as 0"), "No phone media players reported");
}

fn call(p: MediaPlan) -> (Vec<String>, String) {
    match p {
        MediaPlan::Call { args, ok_message } | MediaPlan::SetProperty { args, ok_message } => (args, ok_message),
        other => panic!("unexpected {other:?}"),
    }
}

#[test]
fn media_actions() {
    let (args, m) = call(plan_media("abc", MediaAction::Next));
    assert_eq!(args[1], "call");
    assert_eq!(args[5..], [s("sendAction"), s("s"), s("Next")]);
    assert_eq!(m, "Sent Next to abc");
    let (args, m) = call(plan_media("abc", MediaAction::VolumeSet { value: 55 }));
    assert_eq!(
        args,
        vec![
            s("--user"),
            s("set-property"),
            s("org.kde.kdeconnect"),
            s("/modules/kdeconnect/devices/abc/mprisremote"),
            s("org.kde.kdeconnect.device.mprisremote"),
            s("volume"),
            s("i"),
            s("55"),
        ]
    );
    assert_eq!(m, "Set phone media volume to 55% on abc");
    let (args, m) = call(plan_media("abc", MediaAction::PlayerSet { name: s("VLC") }));
    assert_eq!(args[5..], [s("player"), s("s"), s("VLC")]);
    assert_eq!(m, "Set active phone player to 'VLC'");
    match plan_media("abc", MediaAction::VolumeSet { value: 101 }) {
        MediaPlan::Reject(e) => {
            assert_eq!(e, CoreError::VolumeOutOfRange { value: 101 });
            assert_eq!(e.message(), "volume must be between 0 and 100, not 101");
        }
        other => panic!("unexpected {other:?}"),
    }
    match plan_media("abc", MediaAction::Status) {
        MediaPlan::Status { reads } => {
            let props: Vec<&str> = reads.iter().map(|r| r[5].as_str()).collect();
            assert_eq!(props, vec!["player", "title", "artist", "isPlaying", "volume"]);
            assert_eq!(reads[0][3], "/modules/kdeconnect/devices/abc/mprisremote");
            assert_eq!(reads[0][4], "org.kde.kdeconnect.device.mprisremote");
        }
        other => panic!("unexpected {other:?}"),
    }
    match plan_media("abc", MediaAction::PlayerList) {
        MediaPlan::PlayerList { args } => assert_eq!(args[5], "playerList"),
        other => panic!("unexpected {other:?}"),
    }
}
