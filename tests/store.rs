use std::sync::Arc;

use tokio::sync::RwLock;

use hyprconnect::model::{DaemonState, DeviceState};
use hyprconnect::poller::{reconcile, DeviceReplies};
use hyprconnect::store::{is_fully_formed, StateStore};

fn s(x: &str) -> String {
    x.to_string()
}

fn snapshot(n: usize, at: i64) -> DaemonState {
    let paired: Vec<DeviceReplies> = (0..n)
        .map(|i| DeviceReplies {
            id: format!("dev{i}"),
            name: format!("Device {i}"),
            mount_reply: None,
            charge_reply: Some(format!("i {}", i % 101)),
            charging_reply: None,
            strength_reply: None,
            network_reply: None,
        })
        .collect();
    reconcile(&paired, &vec![s("extra")], &None, at)
}

#[test]
fn store_starts_empty_and_installs_whole_snapshots() {
    let mut store = StateStore::new();
    let first = store.read();
    assert!(first.devices.is_empty());
    assert_eq!(first.updated_at, None);
    let next = snapshot(3, 10);
    assert!(store.replace(next.clone()));
    assert_eq!(store.read(), next);
}

#[test]
fn store_refuses_malformed_snapshots() {
    let mut store = StateStore::new();
    let good = snapshot(2, 1);
    assert!(store.replace(good.clone()));
    let mut dup = good.clone();
    let copy: DeviceState = dup.devices[0].clone();
    dup.devices.push(copy);
    assert!(!is_fully_formed(&dup));
    assert!(!store.replace(dup));
    let mut bad = good.clone();
    bad.devices[0].battery_percent = Some(150);
    assert!(!store.replace(bad));
    let mut bad = good.clone();
    bad.devices[0].mounted = true;
    bad.devices[0].mount_point = None;
    assert!(!store.replace(bad));
    assert_eq!(store.read(), good);
}

#[test]
fn concurrent_readers_see_whole_snapshots() {
    let rt = tokio::runtime::Builder::new_multi_thread().worker_threads(4).build().unwrap();
    let store = Arc::new(RwLock::new(StateStore::new()));
    rt.block_on(async {
        let writer = {
            let store = store.clone();
            tokio::spawn(async move {
                for k in 1..200i64 {
                    assert!(store.write().await.replace(snapshot((k % 7) as usize, k)));
                    tokio::task::yield_now().await;
                }
            })
        };
        let mut readers = Vec::new();
        for _ in 0..4 {
            let store = store.clone();
            readers.push(tokio::spawn(async move {
                for _ in 0..200 {
                    let snap = store.read().await.read();
                    assert!(is_fully_formed(&snap));
                    if let Some(at) = snap.updated_at {
                        assert_eq!(snap.devices.len(), (at % 7) as usize + 1);
                    }
                    tokio::task::yield_now().await;
                }
            }));
        }
        writer.await.unwrap();
        for r in readers {
            r.await.unwrap();
        }
    });
}
