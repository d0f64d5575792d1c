//! The registration dialogue: a per-conversation state machine that collects
//! a display name, binds it to the originating channel, and creates the
//! subject record. Session state is in-memory only and lost on restart; an
//! interrupted registration is simply restarted by the user.
use vstd::prelude::*;
use vstd::string::StringExecFns;
use crate::NOTIFY_DELAY_MINUTES;
use crate::store::{DuplicateId, Store, has_id};
use crate::subject::{MAX_TIMESTAMP, SubjectModel};

verus! {

/// Conversational state of one registration dialogue.
#[derive(Clone, Copy, PartialEq, Eq, Structural, Debug)]
pub enum State {
    /// Nothing in progress; a begin-registration command is awaited.
    Start,
    /// The begin command was seen; the next plain text is the display name.
    ReceiveFullName,
}

impl Default for State {
    /// A fresh conversation starts in `Start`.
    fn default() -> (s: Self)
        ensures
            s == State::Start,
    {
        State::Start
    }
}

/// A recognized command token of the conversational transport.
#[derive(Clone, Copy, PartialEq, Eq, Structural, Debug)]
pub enum Command {
    /// Show the static usage text.
    Help,
    /// Begin a registration.
    Start,
    /// Discard the dialogue in progress.
    Cancel,
}

/// One inbound conversational event, as the transport hands it over.
pub enum Event {
    /// A recognized command token.
    Command(Command),
    /// A plain text message.
    Text(String),
    /// A message that carries no text at all.
    NonText,
}

/// What the dialogue decides to do in response to one event.
pub enum Action {
    /// Prompt for the subject's display name.
    AskName,
    /// Show the static usage text, leaving the dialogue as it was.
    ShowHelp,
    /// Acknowledge that the dialogue was discarded.
    AckCancel,
    /// Create a subject with this display name.
    Register(String),
    /// Report that the message matched no branch, changing nothing.
    Unhandled,
}

/// Prompt emitted when a registration begins.
pub open spec fn ask_name_text() -> Seq<char> {
    "Let's start! What's your full name?"@
}

/// The static usage text.
pub open spec fn help_text() -> Seq<char> {
    "These commands are supported: /help - display this text. /start - begin a registration. /cancel - discard the dialogue."@
}

/// Acknowledgement of a cancelled dialogue.
pub open spec fn cancel_text() -> Seq<char> {
    "Cancelling the dialogue."@
}

/// Reply to a message that matched no branch.
pub open spec fn unhandled_text() -> Seq<char> {
    "Unable to handle the message. Type /help to see the usage."@
}

/// Reply when the store refused the new record; no subject was created.
pub open spec fn register_failed_text() -> Seq<char> {
    "Registration failed, nothing was stored. Please try again."@
}

/// Reply announcing a completed registration: it quotes the fresh id.
pub open spec fn registered_text(id: Seq<char>) -> Seq<char> {
    "You are registered with id '"@ + id + "'"@
}

/// The subject record a completed registration creates.
pub open spec fn registered_subject(
    id: Seq<char>,
    display_name: Seq<char>,
    contact_channel_id: int,
    now: int,
) -> SubjectModel {
    SubjectModel {
        id: id,
        display_name: display_name,
        contact_channel_id: contact_channel_id,
        last_check_in: now,
        interval_minutes: NOTIFY_DELAY_MINUTES as int,
        notified_at: None,
    }
}

/// The transition table of the dialogue: from a state and an inbound event to
/// the next state and the action owed in reply. Cancel works from any state
/// and discards partial progress; help works from any state and changes
/// nothing; a plain text while a name is awaited completes the episode; any
/// unmatched message leaves the state unchanged.
pub fn transition(state: State, event: Event) -> (r: (State, Action))
    ensures
        match event {
            Event::Command(Command::Cancel) => r.0 == State::Start && r.1 is AckCancel,
            Event::Command(Command::Help) => r.0 == state && r.1 is ShowHelp,
            Event::Command(Command::Start) => if state == State::Start {
                r.0 == State::ReceiveFullName && r.1 is AskName
            } else {
                r.0 == state && r.1 is Unhandled
            },
            Event::Text(name) => if state == State::ReceiveFullName {
                r.0 == State::Start && (r.1 matches Action::Register(n) && n@ == name@)
            } else {
                r.0 == state && r.1 is Unhandled
            },
            Event::NonText => r.0 == state && r.1 is Unhandled,
        },
{
    match event {
        Event::Command(Command::Cancel) => (State::Start, Action::AckCancel),
        Event::Command(Command::Help) => (state, Action::ShowHelp),
        Event::Command(Command::Start) => {
            if state == State::Start {
                (State::ReceiveFullName, Action::AskName)
            } else {
                (state, Action::Unhandled)
            }
        },
        Event::Text(name) => {
            if state == State::ReceiveFullName {
                (State::Start, Action::Register(name))
            } else {
                (state, Action::Unhandled)
            }
        },
        Event::NonText => (state, Action::Unhandled),
    }
}

/// Relies on uuid's `Uuid::new_v4` and its hyphenated rendering: a random
/// version-4 UUID as 36 characters of text. Nothing more can be promised of
/// a randomly drawn value.
#[verifier::external_body]
fn fresh_id() -> (r: String)
    ensures
        r@.len() == 36,
{
    uuid::Uuid::new_v4().hyphenated().to_string()
}

/// Completes a registration: draws a fresh id and inserts a subject with the
/// given display name, the originating channel, the configured default
/// interval, and `last_check_in = now`. Fails, leaving the store unchanged,
/// only when the drawn id collides with one already bound; ids are random, so
/// success cannot be owed, but each outcome is stated exactly.
pub fn register(store: &mut Store, display_name: String, contact_channel_id: i64, now: u64) -> (r:
    Result<String, DuplicateId>)
    requires
        old(store).wf(),
        now <= MAX_TIMESTAMP,
    ensures
        final(store).wf(),
        match r {
            Ok(id) => !has_id(old(store)@, id@) && id@.len() == 36 && final(store)@ == old(
                store,
            )@.push(registered_subject(id@, display_name@, contact_channel_id as int, now as int)),
            Err(_) => final(store)@ == old(store)@,
        },
{
    let id = fresh_id();
    let id_copy = id.clone();
    match store.create(id_copy, display_name, contact_channel_id, NOTIFY_DELAY_MINUTES, now) {
        Ok(()) => Ok(id),
        Err(e) => Err(e),
    }
}

/// One full dialogue step for one conversation: applies the transition table
/// to the event, performs the registration it may call for, and returns the
/// next session state with the reply text owed to the channel. Every branch
/// other than a completed registration leaves the store untouched; a
/// completed registration appends exactly one well-formed subject and the
/// reply quotes its fresh id, or, when the store refused the record, reports
/// failure with nothing stored.
pub fn handle_event(
    store: &mut Store,
    state: State,
    event: Event,
    contact_channel_id: i64,
    now: u64,
) -> (r: (State, String))
    requires
        old(store).wf(),
        now <= MAX_TIMESTAMP,
    ensures
        final(store).wf(),
        match event {
            Event::Command(Command::Cancel) => r.0 == State::Start && r.1@ == cancel_text()
                && final(store)@ == old(store)@,
            Event::Command(Command::Help) => r.0 == state && r.1@ == help_text() && final(store)@
                == old(store)@,
            Event::Command(Command::Start) => if state == State::Start {
                r.0 == State::ReceiveFullName && r.1@ == ask_name_text() && final(store)@ == old(
                    store,
                )@
            } else {
                r.0 == state && r.1@ == unhandled_text() && final(store)@ == old(store)@
            },
            Event::Text(name) => if state == State::ReceiveFullName {
                r.0 == State::Start && {
                    ||| (exists|id: Seq<char>|
                        {
                            &&& !has_id(old(store)@, id)
                            &&& final(store)@ == old(store)@.push(
                                registered_subject(
                                    id,
                                    name@,
                                    contact_channel_id as int,
                                    now as int,
                                ),
                            )
                            &&& r.1@ == registered_text(id)
                        })
                    ||| (final(store)@ == old(store)@ && r.1@ == register_failed_text())
                }
            } else {
                r.0 == state && r.1@ == unhandled_text() && final(store)@ == old(store)@
            },
            Event::NonText => r.0 == state && r.1@ == unhandled_text() && final(store)@ == old(
                store,
            )@,
        },
{
    let (next, action) = transition(state, event);
    match action {
        Action::AskName => (next, "Let's start! What's your full name?".to_owned()),
        Action::ShowHelp => (
            next,
            "These commands are supported: /help - display this text. /start - begin a registration. /cancel - discard the dialogue.".to_owned(),
        ),
        Action::AckCancel => (next, "Cancelling the dialogue.".to_owned()),
        Action::Unhandled => (next, "Unable to handle the message. Type /help to see the usage.".to_owned()),
        Action::Register(name) => {
            match register(store, name, contact_channel_id, now) {
                Ok(id) => {
                    let mut reply = "You are registered with id '".to_owned();
                    reply.append(id.as_str());
                    reply.append("'");
                    proof {
                        assert(reply@ == registered_text(id@));
                    }
                    (next, reply)
                },
                Err(_) => (
                    next,
                    "Registration failed, nothing was stored. Please try again.".to_owned(),
                ),
            }
        },
    }
}

} // verus!
