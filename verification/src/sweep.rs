//! The overdue sweep's read side: which subjects are owed a notification at a
//! given instant, and the exact text each notification carries.
use vstd::prelude::*;
use vstd::string::StringExecFns;
use crate::store::{store_check_in, store_mark_notified};
use crate::subject::{MAX_TIMESTAMP, SubjectModel, needs_notification};
use crate::time::{format_rfc3339, rfc3339_of};

verus! {

/// One notification the sweep owes: who to tell, where, and with what text.
pub struct Notification {
    pub subject_id: String,
    pub contact_channel_id: i64,
    pub text: String,
}

/// The mathematical value of a `Notification`.
pub ghost struct NotificationModel {
    pub subject_id: Seq<char>,
    pub contact_channel_id: int,
    pub text: Seq<char>,
}

impl View for Notification {
    type V = NotificationModel;

    open spec fn view(&self) -> NotificationModel {
        NotificationModel {
            subject_id: self.subject_id@,
            contact_channel_id: self.contact_channel_id as int,
            text: self.text@,
        }
    }
}

/// The text sent for an overdue subject: its display name and the
/// human-readable timestamp of its last accepted check-in.
pub open spec fn message_of(s: SubjectModel) -> Seq<char> {
    "Check if "@ + s.display_name + " is still alive. Last message was sent at "@ + rfc3339_of(
        s.last_check_in,
    )
}

/// The notification owed for an overdue subject.
pub open spec fn note_of(s: SubjectModel) -> NotificationModel {
    NotificationModel {
        subject_id: s.id,
        contact_channel_id: s.contact_channel_id,
        text: message_of(s),
    }
}

/// Everything one sweep at `now` must send: one notification for each subject
/// that is overdue with no notification yet for its current overdue episode,
/// in store order.
pub open spec fn sweep_plan(ss: Seq<SubjectModel>, now: int) -> Seq<NotificationModel>
    decreases ss.len(),
{
    if ss.len() == 0 {
        Seq::empty()
    } else if needs_notification(ss.last(), now) {
        sweep_plan(ss.drop_last(), now).push(note_of(ss.last()))
    } else {
        sweep_plan(ss.drop_last(), now)
    }
}

/// The sweep at `now` plans some notification for the subject id.
pub open spec fn planned(ss: Seq<SubjectModel>, now: int, id: Seq<char>) -> bool {
    exists|k: int| 0 <= k < sweep_plan(ss, now).len() && sweep_plan(ss, now)[k].subject_id == id
}

/// A sweep plans a notification for an id exactly when some subject carrying
/// that id is overdue with no notification yet for its current episode.
pub proof fn lemma_planned_iff_needs(ss: Seq<SubjectModel>, now: int, id: Seq<char>)
    ensures
        planned(ss, now, id) <==> exists|j: int|
            0 <= j < ss.len() && ss[j].id == id && needs_notification(ss[j], now),
    decreases ss.len(),
{
    if ss.len() == 0 {
        assert(!planned(ss, now, id));
    } else {
        let dl = ss.drop_last();
        let plan = sweep_plan(ss, now);
        let dplan = sweep_plan(dl, now);
        lemma_planned_iff_needs(dl, now, id);
        assert(forall|j: int| 0 <= j < dl.len() ==> dl[j] == ss[j]);
        if planned(ss, now, id) {
            let k = choose|k: int| 0 <= k < plan.len() && plan[k].subject_id == id;
            if needs_notification(ss.last(), now) {
                if k < dplan.len() {
                    assert(dplan[k].subject_id == id);
                    assert(planned(dl, now, id));
                    let j = choose|j: int|
                        0 <= j < dl.len() && dl[j].id == id && needs_notification(dl[j], now);
                    assert(ss[j].id == id && needs_notification(ss[j], now));
                } else {
                    assert(plan[k] == note_of(ss.last()));
                    assert(ss[ss.len() - 1].id == id && needs_notification(ss[ss.len() - 1], now));
                }
            } else {
                assert(dplan[k].subject_id == id);
                assert(planned(dl, now, id));
                let j = choose|j: int|
                    0 <= j < dl.len() && dl[j].id == id && needs_notification(dl[j], now);
                assert(ss[j].id == id && needs_notification(ss[j], now));
            }
        }
        if exists|j: int| 0 <= j < ss.len() && ss[j].id == id && needs_notification(ss[j], now) {
            let j = choose|j: int|
                0 <= j < ss.len() && ss[j].id == id && needs_notification(ss[j], now);
            if j == ss.len() - 1 {
                assert(needs_notification(ss.last(), now));
                assert(plan[plan.len() - 1] == note_of(ss.last()));
                assert(plan[plan.len() - 1].subject_id == id);
                assert(planned(ss, now, id));
            } else {
                assert(dl[j].id == id && needs_notification(dl[j], now));
                assert(planned(dl, now, id));
                let k = choose|k: int| 0 <= k < dplan.len() && dplan[k].subject_id == id;
                assert(plan[k].subject_id == id);
                assert(planned(ss, now, id));
            }
        }
    }
}

/// Law: a sweep never notifies one subject twice. With every id bound at most
/// once, the plan holds at most one notification per subject id.
pub proof fn lemma_plan_one_per_subject(ss: Seq<SubjectModel>, now: int)
    requires
        forall|i: int, j: int| 0 <= i < j < ss.len() ==> ss[i].id != ss[j].id,
    ensures
        forall|k1: int, k2: int|
            0 <= k1 < k2 < sweep_plan(ss, now).len() ==> sweep_plan(ss, now)[k1].subject_id
                != sweep_plan(ss, now)[k2].subject_id,
    decreases ss.len(),
{
    if ss.len() == 0 {
    } else {
        let dl = ss.drop_last();
        let plan = sweep_plan(ss, now);
        let dplan = sweep_plan(dl, now);
        lemma_plan_one_per_subject(dl, now);
        assert(forall|j: int| 0 <= j < dl.len() ==> dl[j] == ss[j]);
        if needs_notification(ss.last(), now) {
            assert forall|k1: int, k2: int| 0 <= k1 < k2 < plan.len() implies plan[k1].subject_id
                != plan[k2].subject_id by {
                if k2 == plan.len() - 1 {
                    assert(plan[k2] == note_of(ss.last()));
                    assert(plan[k1] == dplan[k1]);
                    if dplan[k1].subject_id == ss.last().id {
                        lemma_planned_iff_needs(dl, now, ss.last().id);
                        assert(planned(dl, now, ss.last().id));
                        let j = choose|j: int|
                            0 <= j < dl.len() && dl[j].id == ss.last().id && needs_notification(
                                dl[j],
                                now,
                            );
                        assert(ss[j].id == ss[ss.len() - 1].id);
                        assert(false);
                    }
                } else {
                    assert(plan[k1] == dplan[k1] && plan[k2] == dplan[k2]);
                }
            }
        }
    }
}

/// Law: immediately after an accepted check-in at `t`, no sweep plans a
/// notification for that subject until more than `interval_minutes * 60`
/// seconds have passed since `t`.
pub proof fn lemma_check_in_defers_notification(ss: Seq<SubjectModel>, i: int, t: int, now: int)
    requires
        0 <= i < ss.len(),
        forall|j: int| 0 <= j < ss.len() && ss[j].id == ss[i].id ==> j == i,
        now <= t + ss[i].interval_minutes * 60,
    ensures
        !planned(store_check_in(ss, ss[i].id, t), now, ss[i].id),
{
    let id = ss[i].id;
    let ss2 = store_check_in(ss, id, t);
    lemma_planned_iff_needs(ss2, now, id);
    assert forall|j: int| 0 <= j < ss2.len() && ss2[j].id == id implies !needs_notification(
        ss2[j],
        now,
    ) by {
        assert(ss2[j].id == ss[j].id);
        assert(j == i);
        assert(ss2[i].last_check_in == t && ss2[i].interval_minutes == ss[i].interval_minutes);
    }
}

/// Law: once a notification is recorded for a subject's overdue episode, no
/// sweep at any instant plans another notification for it before its next
/// accepted check-in.
pub proof fn lemma_notified_not_replanned(ss: Seq<SubjectModel>, i: int, t: int, now: int)
    requires
        0 <= i < ss.len(),
        forall|j: int| 0 <= j < ss.len() && ss[j].id == ss[i].id ==> j == i,
    ensures
        !planned(store_mark_notified(ss, ss[i].id, t), now, ss[i].id),
{
    let id = ss[i].id;
    let ss2 = store_mark_notified(ss, id, t);
    lemma_planned_iff_needs(ss2, now, id);
    assert forall|j: int| 0 <= j < ss2.len() && ss2[j].id == id implies !needs_notification(
        ss2[j],
        now,
    ) by {
        assert(ss2[j].id == ss[j].id);
        assert(j == i);
        assert(ss2[i].notified_at == Some(t));
    }
}

/// Law: an accepted check-in at `t` clears the pending-notification marker,
/// and the subject re-enters the set a sweep notifies exactly when it becomes
/// overdue again relative to `t`.
pub proof fn lemma_check_in_reopens_episode(ss: Seq<SubjectModel>, i: int, t: int, now: int)
    requires
        0 <= i < ss.len(),
        forall|j: int| 0 <= j < ss.len() && ss[j].id == ss[i].id ==> j == i,
    ensures
        store_check_in(ss, ss[i].id, t)[i].notified_at is None,
        planned(store_check_in(ss, ss[i].id, t), now, ss[i].id) <==> now > t
            + ss[i].interval_minutes * 60,
{
    let id = ss[i].id;
    let ss2 = store_check_in(ss, id, t);
    lemma_planned_iff_needs(ss2, now, id);
    assert(ss2[i].id == id && ss2[i].last_check_in == t && ss2[i].interval_minutes
        == ss[i].interval_minutes && ss2[i].notified_at is None);
    assert forall|j: int| 0 <= j < ss2.len() && ss2[j].id == id implies j == i by {
        assert(ss2[j].id == ss[j].id);
    }
}

/// Builds the message text exactly as `message_of` states it.
pub fn notification_text(display_name: &str, last_check_in: u64) -> (r: String)
    requires
        last_check_in <= MAX_TIMESTAMP,
    ensures
        r@ == "Check if "@ + display_name@ + " is still alive. Last message was sent at "@
            + rfc3339_of(last_check_in as int),
{
    let mut text = "Check if ".to_owned();
    text.append(display_name);
    text.append(" is still alive. Last message was sent at ");
    let stamp = format_rfc3339(last_check_in);
    text.append(stamp.as_str());
    text
}

} // verus!
