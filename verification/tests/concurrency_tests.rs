//! The store behind one lock, driven from concurrently scheduled tasks,
//! the way the adapter runs it.

use recruit_core::lifecycle::{create_with_token, handle_join, Render};
use recruit_core::store::SessionStore;
use std::sync::Arc;
use tokio::sync::Mutex;

#[test]
fn racing_joins_on_last_slot_close_exactly_once() {
    let runtime = tokio::runtime::Builder::new_multi_thread()
        .worker_threads(2)
        .enable_all()
        .build()
        .unwrap();
    runtime.block_on(async {
        let store = Arc::new(Mutex::new(SessionStore::new()));
        create_with_token(&mut *store.lock().await, 1, "Valorant".to_string(), 1).unwrap();

        let mut tasks = Vec::new();
        for name in ["alice", "bob"] {
            let store = Arc::clone(&store);
            tasks.push(tokio::spawn(async move {
                let mut guard = store.lock().await;
                handle_join(&mut guard, 1, name.to_string())
            }));
        }
        let mut closed = 0;
        let mut not_found = 0;
        for task in tasks {
            match task.await.unwrap() {
                Render::ClosedAck { .. } => closed += 1,
                Render::NotFound => not_found += 1,
                other => panic!("unexpected render: {:?}", render_name(&other)),
            }
        }
        assert_eq!(closed, 1);
        assert_eq!(not_found, 1);
        assert!(!store.lock().await.contains(1));
    });
}

#[test]
fn racing_joins_hand_out_each_count_once() {
    let runtime = tokio::runtime::Builder::new_multi_thread()
        .worker_threads(4)
        .enable_all()
        .build()
        .unwrap();
    runtime.block_on(async {
        let store = Arc::new(Mutex::new(SessionStore::new()));
        create_with_token(&mut *store.lock().await, 9, "OverWatch 2".to_string(), 4).unwrap();

        let mut tasks = Vec::new();
        for name in ["a", "b", "c", "d"] {
            let store = Arc::clone(&store);
            tasks.push(tokio::spawn(async move {
                let mut guard = store.lock().await;
                handle_join(&mut guard, 9, name.to_string())
            }));
        }
        let mut counts_seen = Vec::new();
        let mut closed = 0;
        for task in tasks {
            match task.await.unwrap() {
                Render::JoinAck { remaining, .. } => counts_seen.push(remaining),
                Render::ClosedAck { .. } => closed += 1,
                other => panic!("unexpected render: {:?}", render_name(&other)),
            }
        }
        counts_seen.sort();
        assert_eq!(counts_seen, vec![1, 2, 3]);
        assert_eq!(closed, 1);
        assert!(!store.lock().await.contains(9));
    });
}

fn render_name(render: &Render) -> &'static str {
    match render {
        Render::Announce { .. } => "Announce",
        Render::JoinAck { .. } => "JoinAck",
        Render::ClosedAck { .. } => "ClosedAck",
        Render::CancelledAck { .. } => "CancelledAck",
        Render::NotFound => "NotFound",
    }
}
