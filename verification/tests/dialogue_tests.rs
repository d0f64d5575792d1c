use deadman::NOTIFY_DELAY_MINUTES;
use deadman::dialogue::{handle_event, Command, Event, State};
use deadman::store::Store;

const HELP: &str = "These commands are supported: /help - display this text. /start - begin a registration. /cancel - discard the dialogue.";
const UNHANDLED: &str = "Unable to handle the message. Type /help to see the usage.";

#[test]
fn default_session_state_is_start() {
    assert_eq!(State::default(), State::Start);
}

#[test]
fn registration_creates_exactly_one_subject() {
    let mut st = Store::new();
    let (state, reply) = handle_event(&mut st, State::Start, Event::Command(Command::Start), 7, 42);
    assert_eq!(state, State::ReceiveFullName);
    assert_eq!(reply, "Let's start! What's your full name?");
    assert_eq!(st.len(), 0);

    let (state, reply) = handle_event(&mut st, state, Event::Text("Alice".to_string()), 7, 42);
    assert_eq!(state, State::Start);
    assert_eq!(st.len(), 1);
    let id = {
        let s = st.get_by_index(0);
        assert_eq!(s.display_name, "Alice");
        assert_eq!(s.contact_channel_id, 7);
        assert_eq!(s.last_check_in, 42);
        assert_eq!(s.interval_minutes, NOTIFY_DELAY_MINUTES);
        assert_eq!(s.notified_at, None);
        assert_eq!(s.id.len(), 36);
        s.id.clone()
    };
    assert_eq!(reply, format!("You are registered with id '{}'", id));
}

#[test]
fn two_registrations_generate_distinct_ids() {
    let mut st = Store::new();
    handle_event(&mut st, State::ReceiveFullName, Event::Text("One".to_string()), 1, 0);
    handle_event(&mut st, State::ReceiveFullName, Event::Text("Two".to_string()), 2, 0);
    assert_eq!(st.len(), 2);
    assert_ne!(st.get_by_index(0).id, st.get_by_index(1).id);
}

#[test]
fn cancel_after_start_returns_to_start_with_no_subject() {
    let mut st = Store::new();
    let (state, _) = handle_event(&mut st, State::Start, Event::Command(Command::Start), 7, 0);
    assert_eq!(state, State::ReceiveFullName);
    let (state, reply) = handle_event(&mut st, state, Event::Command(Command::Cancel), 7, 0);
    assert_eq!(state, State::Start);
    assert_eq!(reply, "Cancelling the dialogue.");
    assert_eq!(st.len(), 0);
}

#[test]
fn help_works_from_any_state_without_changing_it() {
    let mut st = Store::new();
    let (state, reply) = handle_event(&mut st, State::Start, Event::Command(Command::Help), 7, 0);
    assert_eq!(state, State::Start);
    assert_eq!(reply, HELP);
    let (state, reply) =
        handle_event(&mut st, State::ReceiveFullName, Event::Command(Command::Help), 7, 0);
    assert_eq!(state, State::ReceiveFullName);
    assert_eq!(reply, HELP);
    assert_eq!(st.len(), 0);
}

#[test]
fn unmatched_messages_leave_the_state_unchanged() {
    let mut st = Store::new();
    let (state, reply) = handle_event(&mut st, State::Start, Event::Text("hi".to_string()), 7, 0);
    assert_eq!(state, State::Start);
    assert_eq!(reply, UNHANDLED);

    let (state, reply) = handle_event(&mut st, State::ReceiveFullName, Event::NonText, 7, 0);
    assert_eq!(state, State::ReceiveFullName);
    assert_eq!(reply, UNHANDLED);

    let (state, reply) =
        handle_event(&mut st, State::ReceiveFullName, Event::Command(Command::Start), 7, 0);
    assert_eq!(state, State::ReceiveFullName);
    assert_eq!(reply, UNHANDLED);
    assert_eq!(st.len(), 0);
}
