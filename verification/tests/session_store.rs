//! The session store: create, find, remove.

use qutebrowser_agent::store::SessionStore;
use qutebrowser_agent::types::Session;

#[test]
fn create_then_find_then_remove() {
    let mut store = SessionStore::new();
    let id = store.create().expect("fresh identifier");
    assert!(!id.is_empty());
    assert_eq!(store.sessions.len(), 1);
    let at = store.find(&id).expect("present");
    assert_eq!(store.sessions[at].id, id);
    let removed = store.remove(&id).expect("removed");
    assert_eq!(removed.id, id);
    assert!(store.find(&id).is_none());
    assert!(store.remove(&id).is_none());
}

#[test]
fn insert_refuses_duplicate_identifier() {
    let mut store = SessionStore::new();
    assert!(store.insert(Session::new(String::from("dup"))));
    assert!(!store.insert(Session::new(String::from("dup"))));
    assert_eq!(store.sessions.len(), 1);
}

#[test]
fn remove_keeps_other_sessions_in_order() {
    let mut store = SessionStore::new();
    assert!(store.insert(Session::new(String::from("a"))));
    assert!(store.insert(Session::new(String::from("b"))));
    assert!(store.insert(Session::new(String::from("c"))));
    store.remove(&String::from("b")).expect("removed");
    let ids: Vec<&str> = store.sessions.iter().map(|s| s.id.as_str()).collect();
    assert_eq!(ids, vec!["a", "c"]);
}

#[test]
fn distinct_sessions_get_distinct_identifiers() {
    let mut store = SessionStore::new();
    let a = store.create().unwrap();
    let b = store.create().unwrap();
    assert_ne!(a, b);
    assert_eq!(store.sessions.len(), 2);
}

#[test]
fn error_response_holds_the_text() {
    let e = qutebrowser_agent::types::ErrorResponse::new("Session not found");
    assert_eq!(e.error, "Session not found");
}
