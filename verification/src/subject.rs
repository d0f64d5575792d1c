//! The monitored entity and the timing rules that decide when it is overdue.
use vstd::prelude::*;

verus! {

/// Largest timestamp a subject may carry: the last second of year 9999,
/// comfortably inside the calendar range of the time formatter.
pub const MAX_TIMESTAMP: u64 = 253402300799;

/// A monitored entity. `last_check_in` and `notified_at` are seconds-resolution
/// Unix timestamps; `notified_at` is set while a notification for the current
/// overdue episode has been delivered and is cleared by any accepted check-in.
pub struct Subject {
    pub id: String,
    pub display_name: String,
    pub contact_channel_id: i64,
    pub last_check_in: u64,
    pub interval_minutes: u32,
    pub notified_at: Option<u64>,
}

/// The mathematical value of a `Subject`.
pub ghost struct SubjectModel {
    pub id: Seq<char>,
    pub display_name: Seq<char>,
    pub contact_channel_id: int,
    pub last_check_in: int,
    pub interval_minutes: int,
    pub notified_at: Option<int>,
}

impl View for Subject {
    type V = SubjectModel;

    open spec fn view(&self) -> SubjectModel {
        SubjectModel {
            id: self.id@,
            display_name: self.display_name@,
            contact_channel_id: self.contact_channel_id as int,
            last_check_in: self.last_check_in as int,
            interval_minutes: self.interval_minutes as int,
            notified_at: match self.notified_at {
                Some(t) => Some(t as int),
                None => None,
            },
        }
    }
}

/// Instant after which the subject counts as overdue.
pub open spec fn deadline(s: SubjectModel) -> int {
    s.last_check_in + s.interval_minutes * 60
}

/// A subject is overdue exactly when more than `interval_minutes * 60` seconds
/// have passed since its last accepted check-in.
pub open spec fn is_overdue(s: SubjectModel, now: int) -> bool {
    now > deadline(s)
}

/// The sweep notifies a subject exactly when it is overdue and no notification
/// was sent yet for the current overdue episode.
pub open spec fn needs_notification(s: SubjectModel, now: int) -> bool {
    is_overdue(s, now) && s.notified_at is None
}

/// Validity of a single subject: a positive interval that fits the stored
/// width, and timestamps inside the supported calendar range.
pub open spec fn wf_subject(s: SubjectModel) -> bool {
    &&& 1 <= s.interval_minutes <= u32::MAX
    &&& 0 <= s.last_check_in <= MAX_TIMESTAMP
    &&& (s.notified_at matches Some(t) ==> 0 <= t <= MAX_TIMESTAMP)
}

/// The subject after an accepted check-in at `now`: the timer restarts and the
/// current overdue episode, if any, ends.
pub open spec fn with_check_in(s: SubjectModel, now: int) -> SubjectModel {
    SubjectModel { last_check_in: now, notified_at: None, ..s }
}

/// The subject after a notification dispatched at `now` was recorded.
pub open spec fn with_notified(s: SubjectModel, now: int) -> SubjectModel {
    SubjectModel { notified_at: Some(now), ..s }
}

impl Subject {
    /// Decides overdue status exactly as `is_overdue` states it.
    pub fn overdue_at(&self, now: u64) -> (r: bool)
        requires
            wf_subject(self@),
        ensures
            r == is_overdue(self@, now as int),
    {
        self.last_check_in + (self.interval_minutes as u64) * 60 < now
    }
}

} // verus!
