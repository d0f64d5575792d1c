use deadman::store::{CheckInOutcome, Store};

fn store_with(id: &str, name: &str, chat: i64, interval: u32, t: u64) -> Store {
    let mut st = Store::new();
    st.create(id.to_string(), name.to_string(), chat, interval, t)
        .expect("fresh id");
    st
}

#[test]
fn test_not_dead() {
    let mut st = store_with("test_id", "Tester", 1, 60, 50);
    let old_last = st.get("test_id").unwrap().last_check_in;
    let outcome = st.check_in("test_id", 100);
    assert_eq!(outcome, CheckInOutcome::Accepted);
    let last = st.get("test_id").unwrap().last_check_in;
    assert!(old_last < last);
}

#[test]
fn check_in_unknown_id_returns_not_found_and_mutates_nothing() {
    let mut st = store_with("known", "Kay", 2, 60, 10);
    let outcome = st.check_in("unknown-id", 99);
    assert_eq!(outcome, CheckInOutcome::NotFound);
    assert_eq!(st.len(), 1);
    let s = st.get("known").unwrap();
    assert_eq!(s.last_check_in, 10);
    assert_eq!(s.notified_at, None);
}

#[test]
fn check_in_on_empty_store_returns_not_found() {
    let mut st = Store::new();
    assert_eq!(st.check_in("anyone", 5), CheckInOutcome::NotFound);
    assert_eq!(st.len(), 0);
}

#[test]
fn check_in_twice_is_idempotent_and_keeps_second_timestamp() {
    let mut st = store_with("s", "Sam", 3, 1, 0);
    assert_eq!(st.check_in("s", 10), CheckInOutcome::Accepted);
    assert_eq!(st.check_in("s", 11), CheckInOutcome::Accepted);
    let s = st.get("s").unwrap();
    assert_eq!(s.last_check_in, 11);
    assert_eq!(s.notified_at, None);
    // not overdue: the deadline counts from the second call
    assert!(st.find_overdue(71).is_empty());
    assert_eq!(st.find_overdue(72).len(), 1);
}

#[test]
fn create_rejects_duplicate_id() {
    let mut st = store_with("dup", "One", 4, 60, 0);
    let second = st.create("dup".to_string(), "Two".to_string(), 5, 60, 1);
    assert!(second.is_err());
    assert_eq!(st.len(), 1);
    assert_eq!(st.get("dup").unwrap().display_name, "One");
}

#[test]
fn mark_notified_sets_marker_and_check_in_clears_it() {
    let mut st = store_with("m", "Mia", 6, 1, 0);
    assert!(st.mark_notified("m", 61).is_ok());
    assert_eq!(st.get("m").unwrap().notified_at, Some(61));
    assert_eq!(st.check_in("m", 65), CheckInOutcome::Accepted);
    assert_eq!(st.get("m").unwrap().notified_at, None);
    assert!(st.mark_notified("ghost", 70).is_err());
}
