//! The subject store: the single shared record of every monitored subject,
//! with the narrow single-row updates the check-in handler and the sweep use.
use vstd::prelude::*;
use crate::subject::{
    MAX_TIMESTAMP, Subject, SubjectModel, needs_notification, wf_subject, with_check_in,
    with_notified,
};
use crate::sweep::{Notification, note_of, notification_text, sweep_plan};

verus! {

/// Outcome of a check-in request, as reported to the caller.
#[derive(Clone, Copy, PartialEq, Eq, Structural, Debug)]
pub enum CheckInOutcome {
    /// The subject exists; its timer was reset.
    Accepted,
    /// No subject carries the supplied id; nothing was changed.
    NotFound,
    /// The persistence collaborator itself failed. The in-memory store never
    /// produces it; the variant exists for callers that persist elsewhere.
    StoreError,
}

/// Failure of a single-row store update: no row matched the given id.
#[derive(Clone, Copy, PartialEq, Eq, Structural, Debug)]
pub struct NotFound;

/// Failure of an insertion: the supplied id is already bound to a subject.
#[derive(Clone, Copy, PartialEq, Eq, Structural, Debug)]
pub struct DuplicateId;

/// Some subject of `ss` carries the id.
pub open spec fn has_id(ss: Seq<SubjectModel>, id: Seq<char>) -> bool {
    exists|i: int| 0 <= i < ss.len() && ss[i].id == id
}

/// The store after an accepted check-in at `now` for the subject with `id`:
/// that subject's timer restarts and its pending-notification marker clears;
/// every other subject is untouched.
pub open spec fn store_check_in(ss: Seq<SubjectModel>, id: Seq<char>, now: int) -> Seq<
    SubjectModel,
> {
    ss.map_values(|s: SubjectModel| if s.id == id { with_check_in(s, now) } else { s })
}

/// The store after a notification dispatched at `now` was recorded for the
/// subject with `id`; every other subject is untouched.
pub open spec fn store_mark_notified(ss: Seq<SubjectModel>, id: Seq<char>, now: int) -> Seq<
    SubjectModel,
> {
    ss.map_values(|s: SubjectModel| if s.id == id { with_notified(s, now) } else { s })
}

/// Law: check-ins are idempotent. Of two consecutive accepted check-ins for
/// the same id, the second alone determines the store: the timer reads the
/// second call's timestamp and no duplicate effect remains.
pub proof fn lemma_check_in_idempotent(ss: Seq<SubjectModel>, id: Seq<char>, t1: int, t2: int)
    ensures
        store_check_in(store_check_in(ss, id, t1), id, t2) == store_check_in(ss, id, t2),
{
    assert(store_check_in(store_check_in(ss, id, t1), id, t2) =~= store_check_in(ss, id, t2));
}

/// In-memory subject store. It is the one shared mutable resource of the
/// monitor; callers serialize access to it.
pub struct Store {
    subjects: Vec<Subject>,
}

impl View for Store {
    type V = Seq<SubjectModel>;

    closed spec fn view(&self) -> Seq<SubjectModel> {
        self.subjects@.map_values(|s: Subject| s@)
    }
}

/// Relies on str's PartialEq implementation: two string slices are equal
/// exactly when their character sequences are equal.
#[verifier::external_body]
fn str_eq(a: &str, b: &str) -> (r: bool)
    ensures
        r == (a@ == b@),
{
    a == b
}

impl Store {
    /// Validity: every subject is well formed and no id is bound twice.
    pub open spec fn wf(&self) -> bool {
        &&& forall|i: int| 0 <= i < self@.len() ==> wf_subject(#[trigger] self@[i])
        &&& forall|i: int, j: int|
            0 <= i < j < self@.len() ==> self@[i].id != self@[j].id
    }

    /// An empty store.
    pub fn new() -> (s: Store)
        ensures
            s@ == Seq::<SubjectModel>::empty(),
            s.wf(),
    {
        let s = Store { subjects: Vec::new() };
        proof {
            assert(s@ =~= Seq::<SubjectModel>::empty());
        }
        s
    }

    /// Number of registered subjects.
    pub fn len(&self) -> (n: usize)
        ensures
            n == self@.len(),
    {
        self.subjects.len()
    }

    /// Position of the subject carrying `id`, if any.
    fn find_index(&self, id: &str) -> (r: Option<usize>)
        ensures
            match r {
                Some(i) => i < self@.len() && self@[i as int].id == id@,
                None => !has_id(self@, id@),
            },
    {
        let n = self.subjects.len();
        let mut i: usize = 0;
        while i < n
            invariant
                n == self.subjects@.len(),
                i <= n,
                forall|j: int| 0 <= j < i ==> self@[j].id != id@,
            decreases n - i,
        {
            if str_eq(self.subjects[i].id.as_str(), id) {
                assert(self@[i as int].id == id@);
                return Some(i);
            }
            i += 1;
        }
        None
    }

    /// Read access to the subject at a position, in registration order.
    pub fn get_by_index(&self, i: usize) -> (s: &Subject)
        requires
            i < self@.len(),
        ensures
            s@ == self@[i as int],
    {
        &self.subjects[i]
    }

    /// Read access to the subject carrying `id`.
    pub fn get(&self, id: &str) -> (r: Option<&Subject>)
        ensures
            match r {
                Some(s) => has_id(self@, id@) && s@.id == id@ && self@.contains(s@),
                None => !has_id(self@, id@),
            },
    {
        match self.find_index(id) {
            Some(i) => {
                let s = &self.subjects[i];
                proof {
                    assert(self@[i as int] == s@);
                }
                Some(s)
            },
            None => None,
        }
    }

    /// Accepts a check-in at `now` for the subject with `id`: sets
    /// `last_check_in = now` and clears `notified_at` on that one row. Fails
    /// with `NotFound`, touching nothing, when no subject carries the id.
    pub fn record_check_in(&mut self, id: &str, now: u64) -> (r: Result<(), NotFound>)
        requires
            old(self).wf(),
            now <= MAX_TIMESTAMP,
        ensures
            final(self).wf(),
            final(self)@ == store_check_in(old(self)@, id@, now as int),
            r is Ok <==> has_id(old(self)@, id@),
            r is Err ==> final(self)@ == old(self)@,
    {
        let ghost ss0 = self@;
        match self.find_index(id) {
            Some(i) => {
                self.subjects[i].last_check_in = now;
                self.subjects[i].notified_at = None;
                proof {
                    assert forall|j: int| 0 <= j < ss0.len() implies self@[j]
                        == store_check_in(ss0, id@, now as int)[j] by {
                        if j != i {
                            assert(ss0[j].id != id@);
                        }
                    }
                    assert(self@ =~= store_check_in(ss0, id@, now as int));
                }
                Ok(())
            },
            None => {
                proof {
                    assert(self@ =~= store_check_in(ss0, id@, now as int));
                }
                Err(NotFound)
            },
        }
    }

    /// Records at `now` that a notification was dispatched for the subject
    /// with `id`: sets `notified_at = Some(now)` on that one row. Fails with
    /// `NotFound`, touching nothing, when no subject carries the id.
    pub fn mark_notified(&mut self, id: &str, now: u64) -> (r: Result<(), NotFound>)
        requires
            old(self).wf(),
            now <= MAX_TIMESTAMP,
        ensures
            final(self).wf(),
            final(self)@ == store_mark_notified(old(self)@, id@, now as int),
            r is Ok <==> has_id(old(self)@, id@),
            r is Err ==> final(self)@ == old(self)@,
    {
        let ghost ss0 = self@;
        match self.find_index(id) {
            Some(i) => {
                self.subjects[i].notified_at = Some(now);
                proof {
                    assert forall|j: int| 0 <= j < ss0.len() implies self@[j]
                        == store_mark_notified(ss0, id@, now as int)[j] by {
                        if j != i {
                            assert(ss0[j].id != id@);
                        }
                    }
                    assert(self@ =~= store_mark_notified(ss0, id@, now as int));
                }
                Ok(())
            },
            None => {
                proof {
                    assert(self@ =~= store_mark_notified(ss0, id@, now as int));
                }
                Err(NotFound)
            },
        }
    }

    /// Inserts a new subject under the supplied id with `last_check_in = now`
    /// and no pending notification. Fails, touching nothing, when the id is
    /// already bound: ids are never reused.
    pub fn create(
        &mut self,
        id: String,
        display_name: String,
        contact_channel_id: i64,
        interval_minutes: u32,
        now: u64,
    ) -> (r: Result<(), DuplicateId>)
        requires
            old(self).wf(),
            interval_minutes >= 1,
            now <= MAX_TIMESTAMP,
        ensures
            final(self).wf(),
            r is Ok <==> !has_id(old(self)@, id@),
            r is Ok ==> final(self)@ == old(self)@.push(
                SubjectModel {
                    id: id@,
                    display_name: display_name@,
                    contact_channel_id: contact_channel_id as int,
                    last_check_in: now as int,
                    interval_minutes: interval_minutes as int,
                    notified_at: None,
                },
            ),
            r is Err ==> final(self)@ == old(self)@,
    {
        match self.find_index(id.as_str()) {
            Some(_) => Err(DuplicateId),
            None => {
                let subject = Subject {
                    id,
                    display_name,
                    contact_channel_id,
                    last_check_in: now,
                    interval_minutes,
                    notified_at: None,
                };
                let ghost m = subject@;
                self.subjects.push(subject);
                proof {
                    assert(self@ =~= old(self)@.push(m));
                }
                Ok(())
            },
        }
    }

    /// One sweep's read: the notifications owed at `now`, exactly one for
    /// each subject that is overdue with no notification yet for its current
    /// overdue episode, in store order.
    pub fn find_overdue(&self, now: u64) -> (r: Vec<Notification>)
        requires
            self.wf(),
        ensures
            r@.len() == sweep_plan(self@, now as int).len(),
            forall|k: int| 0 <= k < r@.len() ==> r@[k]@ == sweep_plan(self@, now as int)[k],
    {
        let n = self.subjects.len();
        let mut out: Vec<Notification> = Vec::new();
        let mut i: usize = 0;
        while i < n
            invariant
                self.wf(),
                n == self.subjects@.len(),
                i <= n,
                out@.len() == sweep_plan(self@.take(i as int), now as int).len(),
                forall|k: int|
                    0 <= k < out@.len() ==> out@[k]@ == sweep_plan(
                        self@.take(i as int),
                        now as int,
                    )[k],
            decreases n - i,
        {
            let ghost prefix = self@.take(i as int);
            let ghost prefix1 = self@.take(i as int + 1);
            proof {
                assert(self@[i as int] == self.subjects@[i as int]@);
                assert(prefix1.drop_last() =~= prefix);
                assert(prefix1.last() == self@[i as int]);
            }
            let s = &self.subjects[i];
            if s.overdue_at(now) && s.notified_at.is_none() {
                let text = notification_text(s.display_name.as_str(), s.last_check_in);
                let note = Notification {
                    subject_id: s.id.clone(),
                    contact_channel_id: s.contact_channel_id,
                    text,
                };
                proof {
                    assert(note@ == note_of(s@));
                    assert(sweep_plan(prefix1, now as int) == sweep_plan(prefix, now as int).push(
                        note_of(self@[i as int]),
                    ));
                }
                out.push(note);
            } else {
                proof {
                    assert(sweep_plan(prefix1, now as int) == sweep_plan(prefix, now as int));
                }
            }
            i += 1;
        }
        proof {
            assert(self@.take(n as int) =~= self@);
        }
        out
    }

    /// One sweep's write, applied per subject once its send was attempted: a
    /// successful send is recorded through `mark_notified`, closing the
    /// episode against repeat notifications; a failed send records nothing,
    /// so the same subject is offered again to the next sweep.
    pub fn record_send_outcome(&mut self, id: &str, now: u64, sent: bool) -> (r: Result<
        (),
        NotFound,
    >)
        requires
            old(self).wf(),
            now <= MAX_TIMESTAMP,
        ensures
            final(self).wf(),
            sent ==> final(self)@ == store_mark_notified(old(self)@, id@, now as int),
            sent ==> (r is Ok <==> has_id(old(self)@, id@)),
            !sent ==> final(self)@ == old(self)@ && r is Ok,
    {
        if sent {
            self.mark_notified(id, now)
        } else {
            Ok(())
        }
    }

    /// The check-in handler: accepts a liveness signal at `now` for the
    /// subject with `id`, ending any current overdue episode; reports
    /// `NotFound`, with no mutation, for an unknown id. The in-memory store
    /// cannot fail, so `StoreError` is never returned.
    pub fn check_in(&mut self, id: &str, now: u64) -> (r: CheckInOutcome)
        requires
            old(self).wf(),
            now <= MAX_TIMESTAMP,
        ensures
            final(self).wf(),
            final(self)@ == store_check_in(old(self)@, id@, now as int),
            r is Accepted <==> has_id(old(self)@, id@),
            r is NotFound <==> !has_id(old(self)@, id@),
            r is NotFound ==> final(self)@ == old(self)@,
    {
        match self.record_check_in(id, now) {
            Ok(()) => CheckInOutcome::Accepted,
            Err(NotFound) => CheckInOutcome::NotFound,
        }
    }
}

} // verus!
