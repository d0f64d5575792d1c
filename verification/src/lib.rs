//! A dead man's switch liveness monitor: subjects register with a check-in
//! interval; a periodic sweep notifies a contact channel once per overdue
//! episode; an accepted check-in resets the timer and ends the episode.
use vstd::prelude::*;

pub mod dialogue;
pub mod store;
pub mod subject;
pub mod sweep;
pub mod time;

verus! {

/// Default check-in interval, in minutes, given to a newly registered subject.
pub const NOTIFY_DELAY_MINUTES: u32 = 60;

/// Fixed wait, in minutes, between two runs of the overdue sweep.
pub const CHECK_INTERVAL_MINUTES: u64 = 1;

} // verus!
