use chat_relay::history::{copy_turns, HistoryStore, Role, Turn};

fn texts(turns: &[Turn]) -> Vec<(Role, String)> {
    turns.iter().map(|t| (t.role, t.content.clone())).collect()
}

#[test]
fn new_store_is_empty() {
    let store = HistoryStore::new();
    assert!(!store.contains(1));
    assert_eq!(store.turn_count(1), None);
}

#[test]
fn get_or_create_makes_an_empty_transcript() {
    let mut store = HistoryStore::new();
    assert!(store.get_or_create(5).is_empty());
    assert!(store.contains(5));
    assert_eq!(store.turn_count(5), Some(0));
    assert!(!store.contains(6));
}

#[test]
fn get_or_create_keeps_what_is_there() {
    let mut store = HistoryStore::new();
    store.append(5, Turn::user("a".to_string()));
    let turns = store.get_or_create(5);
    assert_eq!(texts(&turns), vec![(Role::User, "a".to_string())]);
    assert_eq!(store.turn_count(5), Some(1));
}

#[test]
fn append_keeps_arrival_order() {
    let mut store = HistoryStore::new();
    store.append(1, Turn::user("q1".to_string()));
    store.append(1, Turn::assistant("a1".to_string()));
    store.append(1, Turn::user("q2".to_string()));
    assert_eq!(
        texts(&store.get_or_create(1)),
        vec![
            (Role::User, "q1".to_string()),
            (Role::Assistant, "a1".to_string()),
            (Role::User, "q2".to_string()),
        ]
    );
}

#[test]
fn interleaved_keys_keep_their_own_order() {
    let mut store = HistoryStore::new();
    store.append(1, Turn::user("a1".to_string()));
    store.append(2, Turn::user("b1".to_string()));
    store.append(1, Turn::assistant("a2".to_string()));
    store.append(3, Turn::user("c1".to_string()));
    store.append(2, Turn::assistant("b2".to_string()));
    store.append(1, Turn::user("a3".to_string()));
    assert_eq!(
        texts(&store.get_or_create(1)),
        vec![
            (Role::User, "a1".to_string()),
            (Role::Assistant, "a2".to_string()),
            (Role::User, "a3".to_string()),
        ]
    );
    assert_eq!(
        texts(&store.get_or_create(2)),
        vec![(Role::User, "b1".to_string()), (Role::Assistant, "b2".to_string())]
    );
    assert_eq!(texts(&store.get_or_create(3)), vec![(Role::User, "c1".to_string())]);
}

#[test]
fn remove_is_idempotent() {
    let mut store = HistoryStore::new();
    store.append(1, Turn::user("a".to_string()));
    store.append(2, Turn::user("b".to_string()));
    store.remove(1);
    assert!(!store.contains(1));
    store.remove(1);
    assert!(!store.contains(1));
    store.remove(99);
    assert!(!store.contains(99));
    assert_eq!(store.turn_count(2), Some(1));
}

#[test]
fn clear_all_then_get_or_create_is_empty() {
    let mut store = HistoryStore::new();
    store.append(1, Turn::user("a".to_string()));
    store.append(2, Turn::user("b".to_string()));
    store.clear_all();
    assert!(!store.contains(1));
    assert!(!store.contains(2));
    assert!(store.get_or_create(1).is_empty());
    assert!(store.get_or_create(7).is_empty());
}

#[test]
fn turns_carry_their_role() {
    let user = Turn::user("u".to_string());
    let assistant = Turn::assistant("a".to_string());
    assert_eq!(user.role, Role::User);
    assert_eq!(user.content, "u");
    assert_eq!(assistant.role, Role::Assistant);
    assert_eq!(assistant.content, "a");
    let copy = assistant.duplicate();
    assert_eq!((copy.role, copy.content.as_str()), (Role::Assistant, "a"));
    assert_eq!(texts(&copy_turns(&vec![user, assistant])).len(), 2);
}
