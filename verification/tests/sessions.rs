use http_server::session::{get_session_id, SessionStore, FIXED_SESSION_ID};

#[test]
fn a_new_store_is_empty() {
    assert_eq!(SessionStore::new().len(), 0);
    assert_eq!(SessionStore::with_sequential_ids().len(), 0);
}

#[test]
fn no_cookie_resolves_to_nothing() {
    let mut store = SessionStore::new();
    assert_eq!(store.lookup(&None), None);
    store.create();
    assert_eq!(store.lookup(&None), None);
    assert_eq!(get_session_id(&None, &store), None);
}

#[test]
fn an_unknown_cookie_resolves_to_nothing() {
    let mut store = SessionStore::new();
    assert_eq!(store.lookup(&Some("12345".to_string())), None);
    store.create();
    assert_eq!(store.lookup(&Some("1234".to_string())), None);
    assert_eq!(store.lookup(&Some("123456".to_string())), None);
    assert_eq!(store.lookup(&Some(String::new())), None);
    assert_eq!(get_session_id(&Some("54321".to_string()), &store), None);
}

#[test]
fn a_created_session_is_live_until_it_is_removed() {
    let mut store = SessionStore::with_sequential_ids();
    let first = store.create();
    let second = store.create();
    assert_eq!(store.lookup(&Some(first.clone())), Some(first.clone()));
    assert_eq!(get_session_id(&Some(first.clone()), &store), Some(first.clone()));
    store.remove(&second);
    let third = store.create();
    assert_eq!(store.lookup(&Some(first.clone())), Some(first.clone()));
    assert_eq!(store.lookup(&Some(second.clone())), None);
    assert_eq!(store.lookup(&Some(third.clone())), Some(third));
    store.remove(&first);
    assert_eq!(store.lookup(&Some(first.clone())), None);
    assert_eq!(get_session_id(&Some(first), &store), None);
}

#[test]
fn removing_an_absent_session_changes_nothing() {
    let mut store = SessionStore::new();
    store.remove("12345");
    assert_eq!(store.len(), 0);
    let id = store.create();
    store.remove("54321");
    assert_eq!(store.len(), 1);
    assert_eq!(store.lookup(&Some(id.clone())), Some(id));
}

#[test]
fn the_fixed_identifier_is_given_to_every_login() {
    assert_eq!(FIXED_SESSION_ID, "12345");
    let mut store = SessionStore::new();
    assert_eq!(store.create(), "12345");
    assert_eq!(store.create(), "12345");
    assert_eq!(store.create(), "12345");
}

#[test]
fn logins_with_the_fixed_identifier_share_one_session() {
    let mut store = SessionStore::new();
    let mut ids = Vec::new();
    for _ in 0..50 {
        ids.push(store.create());
    }
    ids.sort();
    ids.dedup();
    assert_eq!(ids.len(), 1);
    assert_eq!(store.len(), 1);
    store.remove("12345");
    assert_eq!(store.len(), 0);
}

#[test]
fn sequential_identifiers_are_the_numerals_in_order() {
    let mut store = SessionStore::with_sequential_ids();
    for n in 0..1234usize {
        assert_eq!(store.create(), n.to_string());
    }
}

#[test]
fn logins_with_sequential_identifiers_each_have_a_session() {
    let mut store = SessionStore::with_sequential_ids();
    let mut ids = Vec::new();
    for _ in 0..200 {
        ids.push(store.create());
    }
    assert_eq!(store.len(), 200);
    ids.sort();
    ids.dedup();
    assert_eq!(ids.len(), 200);
    for id in ids {
        assert_eq!(store.lookup(&Some(id.clone())), Some(id));
    }
}

#[test]
fn a_removed_sequential_identifier_is_not_given_out_again() {
    let mut store = SessionStore::with_sequential_ids();
    let first = store.create();
    store.remove(&first);
    let second = store.create();
    assert_ne!(first, second);
    assert_eq!(store.len(), 1);
}

#[test]
fn the_store_counts_the_distinct_identifiers_given_out() {
    let mut fixed = SessionStore::new();
    let mut sequential = SessionStore::with_sequential_ids();
    for stage in 1..20usize {
        let mut fixed_ids = Vec::new();
        let mut sequential_ids = Vec::new();
        for _ in 0..stage {
            fixed_ids.push(fixed.create());
            sequential_ids.push(sequential.create());
        }
        fixed_ids.sort();
        fixed_ids.dedup();
        assert_eq!(fixed.len(), fixed_ids.len());
        sequential_ids.sort();
        sequential_ids.dedup();
        assert_eq!(sequential_ids.len(), stage);
    }
    assert_eq!(fixed.len(), 1);
    assert_eq!(sequential.len(), 190);
}
