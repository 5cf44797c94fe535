//! The remote media player of a device, reached through the property bus:
//! which bus command each action takes, and how replies read as text.
use vstd::prelude::*;
use crate::devices::string_texts;
use crate::error::{join2, join3, CoreError};
use crate::model::MediaAction;
use crate::poller::{reply_bool, reply_int, reply_string};
use crate::reply::{
    parse_dbus_bool, parse_dbus_int, parse_dbus_string, parse_dbus_string_array, quoted_items,
};
use crate::text::{decimal, decimal_text, signed_decimal, signed_text};

verus! {

/// The bus object of a device's plugin.
pub open spec fn plugin_path(dev: Seq<char>, plugin: Seq<char>) -> Seq<char> {
    "/modules/kdeconnect/devices/"@ + dev + "/"@ + plugin
}

pub fn plugin_object_path(dev: &str, plugin: &str) -> (r: String)
    ensures
        r@ == plugin_path(dev@, plugin@),
{
    let mut r = join3("/modules/kdeconnect/devices/", dev, "/");
    r.append(plugin);
    r
}

/// Arguments of a property read: `busctl --user get-property`.
pub open spec fn get_args(path: Seq<char>, iface: Seq<char>, prop: Seq<char>) -> Seq<Seq<char>> {
    seq!["--user"@, "get-property"@, "org.kde.kdeconnect"@, path, iface, prop]
}

/// Arguments of a method call with its signature and argument.
pub open spec fn call_args(
    path: Seq<char>,
    member: Seq<char>,
    sig: Seq<char>,
    value: Seq<char>,
) -> Seq<Seq<char>> {
    seq![
        "--user"@,
        "call"@,
        "org.kde.kdeconnect"@,
        path,
        "org.kde.kdeconnect.device.mprisremote"@,
        member,
        sig,
        value,
    ]
}

/// Arguments of a property write.
pub open spec fn set_args(
    path: Seq<char>,
    prop: Seq<char>,
    sig: Seq<char>,
    value: Seq<char>,
) -> Seq<Seq<char>> {
    seq![
        "--user"@,
        "set-property"@,
        "org.kde.kdeconnect"@,
        path,
        "org.kde.kdeconnect.device.mprisremote"@,
        prop,
        sig,
        value,
    ]
}

fn strings6(a: &str, b: &str, c: &str, d: &str, e: &str, f: &str) -> (r: Vec<String>)
    ensures
        string_texts(r@) == seq![a@, b@, c@, d@, e@, f@],
{
    let mut r: Vec<String> = Vec::new();
    r.push(a.to_owned());
    r.push(b.to_owned());
    r.push(c.to_owned());
    r.push(d.to_owned());
    r.push(e.to_owned());
    r.push(f.to_owned());
    assert(string_texts(r@) == seq![a@, b@, c@, d@, e@, f@]);
    r
}

/// The `busctl` arguments that read property `prop` of interface `iface` on
/// object `path`.
pub fn get_property_args(path: &str, iface: &str, prop: &str) -> (r: Vec<String>)
    ensures
        string_texts(r@) == get_args(path@, iface@, prop@),
{
    strings6("--user", "get-property", "org.kde.kdeconnect", path, iface, prop)
}

fn bus_args(verb: &str, path: &str, member: &str, sig: &str, value: &str) -> (r: Vec<String>)
    ensures
        string_texts(r@) == seq!["--user"@, verb@, "org.kde.kdeconnect"@, path@,
            "org.kde.kdeconnect.device.mprisremote"@, member@, sig@, value@],
{
    let mut r = strings6(
        "--user",
        verb,
        "org.kde.kdeconnect",
        path,
        "org.kde.kdeconnect.device.mprisremote",
        member,
    );
    let ghost before = r@;
    r.push(sig.to_owned());
    r.push(value.to_owned());
    assert(string_texts(r@) == string_texts(before).push(sig@).push(value@));
    r
}

/// How a media action is carried out.
#[derive(Debug)]
pub enum MediaPlan {
    /// Make these five property reads (player, title, artist, playing state,
    /// volume), then report their replies with `media_status_text`.
    Status { reads: Vec<Vec<String>> },
    /// Read the player list with these `busctl` arguments, then report it
    /// with `player_list_text`.
    PlayerList { args: Vec<String> },
    /// Make this method call; on success answer `ok_message`.
    Call { args: Vec<String>, ok_message: String },
    /// Make this property write; on success answer `ok_message`.
    SetProperty { args: Vec<String>, ok_message: String },
    /// The action cannot be carried out.
    Reject(CoreError),
}

/// The interface of the remote media player.
pub open spec fn mpris_iface() -> Seq<char> {
    "org.kde.kdeconnect.device.mprisremote"@
}

pub open spec fn action_name(a: MediaAction) -> Seq<char> {
    match a {
        MediaAction::PlayPause => "PlayPause"@,
        MediaAction::Next => "Next"@,
        MediaAction::Previous => "Previous"@,
        _ => "Stop"@,
    }
}

/// The plan of `action` on the player of device `dev`.
pub open spec fn media_plan_ok(dev: Seq<char>, action: MediaAction, r: MediaPlan) -> bool {
    let path = plugin_path(dev, "mprisremote"@);
    match action {
        MediaAction::Status => r matches MediaPlan::Status { reads } && reads@.len() == 5
            && string_texts(reads@[0]@) == get_args(path, mpris_iface(), "player"@)
            && string_texts(reads@[1]@) == get_args(path, mpris_iface(), "title"@)
            && string_texts(reads@[2]@) == get_args(path, mpris_iface(), "artist"@)
            && string_texts(reads@[3]@) == get_args(path, mpris_iface(), "isPlaying"@)
            && string_texts(reads@[4]@) == get_args(path, mpris_iface(), "volume"@),
        MediaAction::PlayerList => r matches MediaPlan::PlayerList { args } && string_texts(args@)
            == get_args(path, mpris_iface(), "playerList"@),
        MediaAction::Seek { ms } => r matches MediaPlan::Call { args, ok_message }
            && string_texts(args@) == call_args(path, "seek"@, "i"@, signed_decimal(ms as int))
            && ok_message@ == "Seeked "@ + dev + " by "@ + signed_decimal(ms as int) + "ms"@,
        MediaAction::VolumeSet { value } => if value <= 100 {
            r matches MediaPlan::SetProperty { args, ok_message } && string_texts(args@)
                == set_args(path, "volume"@, "i"@, decimal(value as nat)) && ok_message@
                == "Set phone media volume to "@ + decimal(value as nat) + "% on "@ + dev
        } else {
            r matches MediaPlan::Reject(CoreError::VolumeOutOfRange { value: v }) && v == value
        },
        MediaAction::PlayerSet { name } => r matches MediaPlan::SetProperty { args, ok_message }
            && string_texts(args@) == set_args(path, "player"@, "s"@, name@) && ok_message@
            == "Set active phone player to '"@ + name@ + "'"@,
        _ => r matches MediaPlan::Call { args, ok_message } && string_texts(args@) == call_args(
            path,
            "sendAction"@,
            "s"@,
            action_name(action),
        ) && ok_message@ == "Sent "@ + action_name(action) + " to "@ + dev,
    }
}

/// How `action` is carried out on the player of device `dev`.
pub fn plan_media(dev: &str, action: MediaAction) -> (r: MediaPlan)
    ensures
        media_plan_ok(dev@, action, r),
{
    let path = plugin_object_path(dev, "mprisremote");
    match action {
        MediaAction::Status => {
            let iface = "org.kde.kdeconnect.device.mprisremote";
            let mut reads: Vec<Vec<String>> = Vec::new();
            reads.push(get_property_args(path.as_str(), iface, "player"));
            reads.push(get_property_args(path.as_str(), iface, "title"));
            reads.push(get_property_args(path.as_str(), iface, "artist"));
            reads.push(get_property_args(path.as_str(), iface, "isPlaying"));
            reads.push(get_property_args(path.as_str(), iface, "volume"));
            MediaPlan::Status { reads }
        },
        MediaAction::PlayerList => MediaPlan::PlayerList {
            args: get_property_args(
                path.as_str(),
                "org.kde.kdeconnect.device.mprisremote",
                "playerList",
            ),
        },
        MediaAction::Seek { ms } => {
            let n = signed_text(ms as i64);
            let args = bus_args("call", path.as_str(), "seek", "i", n.as_str());
            let mut ok_message = join3("Seeked ", dev, " by ");
            ok_message.append(n.as_str());
            ok_message.append("ms");
            MediaPlan::Call { args, ok_message }
        },
        MediaAction::VolumeSet { value } => {
            if value > 100 {
                return MediaPlan::Reject(CoreError::VolumeOutOfRange { value });
            }
            let n = decimal_text(value as u64);
            let args = bus_args("set-property", path.as_str(), "volume", "i", n.as_str());
            let mut ok_message = join3("Set phone media volume to ", n.as_str(), "% on ");
            ok_message.append(dev);
            MediaPlan::SetProperty { args, ok_message }
        },
        MediaAction::PlayerSet { name } => {
            let args = bus_args("set-property", path.as_str(), "player", "s", name.as_str());
            let ok_message = join3("Set active phone player to '", name.as_str(), "'");
            MediaPlan::SetProperty { args, ok_message }
        },
        MediaAction::PlayPause => send_action(path.as_str(), dev, "PlayPause"),
        MediaAction::Next => send_action(path.as_str(), dev, "Next"),
        MediaAction::Previous => send_action(path.as_str(), dev, "Previous"),
        MediaAction::Stop => send_action(path.as_str(), dev, "Stop"),
    }
}

fn send_action(path: &str, dev: &str, name: &str) -> (r: MediaPlan)
    ensures
        r matches MediaPlan::Call { args, ok_message } && string_texts(args@) == call_args(
            path@,
            "sendAction"@,
            "s"@,
            name@,
        ) && ok_message@ == "Sent "@ + name@ + " to "@ + dev@,
{
    let args = bus_args("call", path, "sendAction", "s", name);
    let ok_message = join3("Sent ", name, " to ");
    let mut m = ok_message;
    m.append(dev);
    MediaPlan::Call { args, ok_message: m }
}

pub open spec fn or_text(v: Option<Seq<char>>, fallback: Seq<char>) -> Seq<char> {
    match v {
        Some(s) => s,
        None => fallback,
    }
}

/// The status report of the player, from the replies of its `player`,
/// `title`, `artist`, `isPlaying` and `volume` properties; each is absent when
/// its read failed, and each unreadable value falls back on its own.
pub open spec fn status_text(
    player: Option<String>,
    title: Option<String>,
    artist: Option<String>,
    playing: Option<String>,
    volume: Option<String>,
) -> Seq<char> {
    let is_playing = match reply_bool(playing) {
        Some(b) => b,
        None => false,
    };
    let vol = match reply_int(volume) {
        Some(v) => v as int,
        None => 0,
    };
    "Player: "@ + or_text(reply_string(player), "Unknown"@) + "\nState: "@ + (if is_playing {
        "Playing"@
    } else {
        "Paused"@
    }) + "\nTitle: "@ + or_text(reply_string(title), "--"@) + "\nArtist: "@ + or_text(
        reply_string(artist),
        "--"@,
    ) + "\nVolume: "@ + signed_decimal(vol) + "%"@
}

fn string_or(reply: &Option<String>, fallback: &str) -> (r: String)
    ensures
        r@ == or_text(reply_string(*reply), fallback@),
{
    let v = match reply {
        Some(s) => parse_dbus_string(s.as_str()),
        None => None,
    };
    match v {
        Some(s) => s,
        None => fallback.to_owned(),
    }
}

pub fn media_status_text(
    player: &Option<String>,
    title: &Option<String>,
    artist: &Option<String>,
    playing: &Option<String>,
    volume: &Option<String>,
) -> (r: String)
    ensures
        r@ == status_text(*player, *title, *artist, *playing, *volume),
{
    let is_playing = match playing {
        Some(s) => match parse_dbus_bool(s.as_str()) {
            Some(b) => b,
            None => false,
        },
        None => false,
    };
    let vol: i32 = match volume {
        Some(s) => match parse_dbus_int(s.as_str()) {
            Some(v) => v,
            None => 0,
        },
        None => 0,
    };
    let mut r = "Player: ".to_owned();
    r.append(string_or(player, "Unknown").as_str());
    r.append("\nState: ");
    r.append(if is_playing { "Playing" } else { "Paused" });
    r.append("\nTitle: ");
    r.append(string_or(title, "--").as_str());
    r.append("\nArtist: ");
    r.append(string_or(artist, "--").as_str());
    r.append("\nVolume: ");
    r.append(signed_text(vol as i64).as_str());
    r.append("%");
    r
}

/// `items` joined with newlines.
pub open spec fn joined_lines(items: Seq<Seq<char>>) -> Seq<char>
    decreases items.len(),
{
    if items.len() == 0 {
        Seq::empty()
    } else if items.len() == 1 {
        items[0]
    } else {
        joined_lines(items.drop_last()) + "\n"@ + items.last()
    }
}

/// The report of a player-list reply.
pub open spec fn player_list_report(reply: Seq<char>) -> Seq<char> {
    let items = quoted_items(reply);
    if items.len() == 0 {
        "No phone media players reported"@
    } else {
        "Players:\n"@ + joined_lines(items)
    }
}

pub fn player_list_text(reply: &str) -> (r: String)
    ensures
        r@ == player_list_report(reply@),
{
    let items = parse_dbus_string_array(reply);
    let ghost its = items@.map_values(|s: String| s@);
    if items.len() == 0 {
        return "No phone media players reported".to_owned();
    }
    let mut body = items[0].clone();
    assert(its.take(1).drop_last() == Seq::<Seq<char>>::empty());
    assert(joined_lines(its.take(1)) == its[0]);
    let mut i: usize = 1;
    while i < items.len()
        invariant
            1 <= i <= items.len(),
            its == items@.map_values(|s: String| s@),
            body@ == joined_lines(its.take(i as int)),
        decreases items.len() - i,
    {
        body.append("\n");
        body.append(items[i].as_str());
        assert(its.take(i as int + 1).drop_last() == its.take(i as int));
        i = i + 1;
    }
    assert(its.take(items.len() as int) == its);
    join2("Players:\n", body.as_str())
}

} // verus!
