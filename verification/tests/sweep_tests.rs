use deadman::store::{CheckInOutcome, Store};
use deadman::sweep::notification_text;

fn one_subject(interval: u32, t: u64) -> Store {
    let mut st = Store::new();
    st.create("id-1".to_string(), "Bob".to_string(), 42, interval, t)
        .expect("fresh id");
    st
}

#[test]
fn not_overdue_until_interval_elapses() {
    let st = one_subject(1, 100);
    // deadline is 100 + 60; overdue only strictly after it
    assert!(st.find_overdue(100).is_empty());
    assert!(st.find_overdue(160).is_empty());
    assert_eq!(st.find_overdue(161).len(), 1);
}

#[test]
fn check_in_defers_notification_for_a_full_interval() {
    let mut st = one_subject(1, 0);
    assert_eq!(st.find_overdue(61).len(), 1);
    assert_eq!(st.check_in("id-1", 100), CheckInOutcome::Accepted);
    assert!(st.find_overdue(160).is_empty());
    assert_eq!(st.find_overdue(161).len(), 1);
}

#[test]
fn successful_send_is_recorded_once_per_episode() {
    let mut st = one_subject(1, 0);
    let plan = st.find_overdue(61);
    assert_eq!(plan.len(), 1);
    assert_eq!(plan[0].subject_id, "id-1");
    assert_eq!(plan[0].contact_channel_id, 42);
    assert!(st.record_send_outcome("id-1", 61, true).is_ok());
    assert_eq!(st.get("id-1").unwrap().notified_at, Some(61));
    // later sweeps before a new check-in plan nothing more
    assert!(st.find_overdue(62).is_empty());
    assert!(st.find_overdue(1_000_000).is_empty());
}

#[test]
fn failed_send_is_offered_again_to_the_next_sweep() {
    let mut st = one_subject(1, 0);
    assert_eq!(st.find_overdue(61).len(), 1);
    assert!(st.record_send_outcome("id-1", 61, false).is_ok());
    assert_eq!(st.get("id-1").unwrap().notified_at, None);
    assert_eq!(st.find_overdue(121).len(), 1);
}

#[test]
fn notified_subject_reenters_only_after_becoming_overdue_again() {
    let mut st = one_subject(1, 0);
    assert!(st.record_send_outcome("id-1", 61, true).is_ok());
    assert_eq!(st.check_in("id-1", 65), CheckInOutcome::Accepted);
    assert_eq!(st.get("id-1").unwrap().notified_at, None);
    assert!(st.find_overdue(125).is_empty());
    assert_eq!(st.find_overdue(126).len(), 1);
}

#[test]
fn concrete_minute_interval_scenario() {
    // interval one minute, created at t = 0, never checked in
    let mut st = one_subject(1, 0);
    // sweep at t = 61: exactly one notification, marked at 61
    let plan = st.find_overdue(61);
    assert_eq!(plan.len(), 1);
    assert!(st.record_send_outcome("id-1", 61, true).is_ok());
    assert_eq!(st.get("id-1").unwrap().notified_at, Some(61));
    // check-in at t = 65 resets the timer and clears the marker
    assert_eq!(st.check_in("id-1", 65), CheckInOutcome::Accepted);
    let s = st.get("id-1").unwrap();
    assert_eq!(s.last_check_in, 65);
    assert_eq!(s.notified_at, None);
    // sweep at t = 70: not overdue yet, nothing is sent
    assert!(st.find_overdue(70).is_empty());
}

#[test]
fn notification_text_names_subject_and_formats_timestamp() {
    assert_eq!(
        notification_text("Bob", 61),
        "Check if Bob is still alive. Last message was sent at 1970-01-01T00:01:01+00:00"
    );
    assert_eq!(
        notification_text("Ada", 946684800),
        "Check if Ada is still alive. Last message was sent at 2000-01-01T00:00:00+00:00"
    );
}

#[test]
fn plan_covers_exactly_the_unnotified_overdue_subjects() {
    let mut st = Store::new();
    st.create("a".to_string(), "Ann".to_string(), 1, 1, 0).unwrap();
    st.create("b".to_string(), "Ben".to_string(), 2, 1, 500).unwrap();
    st.create("c".to_string(), "Cal".to_string(), 3, 1, 0).unwrap();
    st.record_send_outcome("c", 61, true).unwrap();
    let plan = st.find_overdue(100);
    // "a" is overdue and unnotified; "b" is fresh; "c" was already notified
    assert_eq!(plan.len(), 1);
    assert_eq!(plan[0].subject_id, "a");
    assert_eq!(plan[0].contact_channel_id, 1);
    assert_eq!(
        plan[0].text,
        "Check if Ann is still alive. Last message was sent at 1970-01-01T00:00:00+00:00"
    );
}
