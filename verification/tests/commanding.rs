use chat_relay::commands::forget::run;
use chat_relay::commands::respond;
use chat_relay::history::{HistoryStore, Turn};

fn filled() -> HistoryStore {
    let mut store = HistoryStore::new();
    store.append(42, Turn::user("a".to_string()));
    store.append(43, Turn::user("b".to_string()));
    store
}

#[test]
fn forget_one_channel() {
    let mut store = filled();
    assert_eq!(run(&mut store, Some(42)), "forgetting channel <#42>");
    assert!(!store.contains(42));
    assert!(store.contains(43));
}

#[test]
fn forget_an_absent_channel_still_confirms() {
    let mut store = filled();
    assert_eq!(
        run(&mut store, Some(1270867600309489756)),
        "forgetting channel <#1270867600309489756>"
    );
    assert!(store.contains(42));
    assert!(store.contains(43));
}

#[test]
fn forget_everything() {
    let mut store = filled();
    assert_eq!(run(&mut store, None), "forgetting everything");
    assert!(!store.contains(42));
    assert!(!store.contains(43));
}

#[test]
fn respond_knows_forget() {
    let mut store = filled();
    assert_eq!(respond(&mut store, "forget", Some(43)), "forgetting channel <#43>");
    assert!(!store.contains(43));
    assert_eq!(respond(&mut store, "forget", None), "forgetting everything");
    assert!(!store.contains(42));
}

#[test]
fn respond_rejects_other_commands() {
    let mut store = filled();
    assert_eq!(respond(&mut store, "remember", None), "Error, command not implemented!");
    assert_eq!(respond(&mut store, "", Some(42)), "Error, command not implemented!");
    assert!(store.contains(42));
    assert!(store.contains(43));
}
