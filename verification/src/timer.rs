//! The delayed-action scheduler: one-shot actions against a device handle,
//! run once their due time has passed.
//!
//! Scheduling never cancels or deduplicates: two delayed actions against
//! the same device both run, and the later-executing one wins on device
//! state. The queue itself is pure bookkeeping; the unverified shell only
//! supplies clock readings and calls back when time has passed.

use vstd::prelude::*;
use crate::controller::{DeviceAction, action_wf};

verus! {

/// One pending delayed action: which device, what to do, and when it is due.
pub struct DelayedAction {
    pub due_ms: u64,
    pub device_id: String,
    pub action: DeviceAction,
}

/// Mathematical image of a pending action.
#[verifier::ext_equal]
pub struct DelayedActionView {
    pub due_ms: u64,
    pub device_id: Seq<char>,
    pub action: DeviceAction,
}

impl View for DelayedAction {
    type V = DelayedActionView;

    open spec fn view(&self) -> DelayedActionView {
        DelayedActionView { due_ms: self.due_ms, device_id: self.device_id@, action: self.action }
    }
}

impl DelayedAction {
    /// A field-preserving copy (the derived clone would say nothing about
    /// the identifier).
    fn duplicate(&self) -> (c: DelayedAction)
        ensures
            c@ == self@,
    {
        DelayedAction {
            due_ms: self.due_ms,
            device_id: self.device_id.clone(),
            action: self.action,
        }
    }
}

/// The pending entries due at `now`, in scheduling order.
pub open spec fn due_entries(q: Seq<DelayedActionView>, now_ms: u64) -> Seq<DelayedActionView>
    decreases q.len(),
{
    if q.len() == 0 {
        Seq::empty()
    } else {
        due_entries(q.take(q.len() - 1), now_ms) + if q[q.len() - 1].due_ms <= now_ms {
            seq![q[q.len() - 1]]
        } else {
            Seq::empty()
        }
    }
}

/// The pending entries not yet due at `now`, in scheduling order.
pub open spec fn rest_entries(q: Seq<DelayedActionView>, now_ms: u64) -> Seq<DelayedActionView>
    decreases q.len(),
{
    if q.len() == 0 {
        Seq::empty()
    } else {
        rest_entries(q.take(q.len() - 1), now_ms) + if q[q.len() - 1].due_ms > now_ms {
            seq![q[q.len() - 1]]
        } else {
            Seq::empty()
        }
    }
}

/// The delay queue. Entries are appended on scheduling and removed exactly
/// once, when they fire; there is no cancellation.
pub struct Timer {
    pub pending: Vec<DelayedAction>,
}

/// The mathematical image of a queue of delayed actions.
pub open spec fn queue_view(v: Seq<DelayedAction>) -> Seq<DelayedActionView> {
    Seq::new(v.len(), |i: int| v[i]@)
}

impl Timer {
    pub open spec fn pending_view(&self) -> Seq<DelayedActionView> {
        queue_view(self.pending@)
    }

    /// Every queued action carries a valid brightness.
    pub open spec fn wf(&self) -> bool {
        forall|i: int| 0 <= i < self.pending@.len() ==> action_wf(
            (#[trigger] self.pending@[i])@.action,
        )
    }

    pub fn new() -> (t: Timer)
        ensures
            t.pending_view() == Seq::<DelayedActionView>::empty(),
            t.wf(),
    {
        let t = Timer { pending: Vec::new() };
        proof {
            assert(t.pending_view() =~= Seq::<DelayedActionView>::empty());
        }
        t
    }

    /// Schedules `action` against `device_id` once, `delay_ms` from `now_ms`.
    /// Nothing is deduplicated and nothing can be withdrawn.
    pub fn delay(&mut self, now_ms: u64, delay_ms: u64, device_id: String, action: DeviceAction)
        requires
            old(self).wf(),
            now_ms + delay_ms <= u64::MAX,
            action_wf(action),
        ensures
            final(self).wf(),
            final(self).pending_view() == old(self).pending_view() + seq![
                DelayedActionView {
                    due_ms: (now_ms + delay_ms) as u64,
                    device_id: device_id@,
                    action,
                },
            ],
    {
        let due_ms = now_ms + delay_ms;
        self.pending.push(DelayedAction { due_ms, device_id, action });
        proof {
            assert(self.pending_view() =~~= old(self).pending_view() + seq![
                DelayedActionView { due_ms, device_id: self.pending@.last().device_id@, action },
            ]);
        }
    }

    /// Removes and returns every entry whose due time has passed, keeping
    /// the others; both keep their scheduling order. Each fired entry is
    /// handed out exactly once.
    pub fn take_due(&mut self, now_ms: u64) -> (due: Vec<DelayedAction>)
        requires
            old(self).wf(),
        ensures
            final(self).wf(),
            queue_view(due@) == due_entries(old(self).pending_view(), now_ms),
            final(self).pending_view() == rest_entries(old(self).pending_view(), now_ms),
            forall|i: int| 0 <= i < queue_view(due@).len() ==> action_wf(
                (#[trigger] queue_view(due@)[i]).action,
            ),
    {
        let ghost whole = self.pending_view();
        let n = self.pending.len();
        let mut due: Vec<DelayedAction> = Vec::new();
        let mut keep: Vec<DelayedAction> = Vec::new();
        let mut k: usize = 0;
        proof {
            assert(whole.take(0) =~= Seq::<DelayedActionView>::empty());
            assert(queue_view(due@) =~= Seq::<DelayedActionView>::empty());
            assert(queue_view(keep@) =~= Seq::<DelayedActionView>::empty());
            assert(due_entries(whole.take(0), now_ms) =~= Seq::<DelayedActionView>::empty());
            assert(rest_entries(whole.take(0), now_ms) =~= Seq::<DelayedActionView>::empty());
        }
        while k < n
            invariant
                k <= n,
                n == self.pending@.len(),
                old(self).wf(),
                self.pending_view() == whole,
                whole == old(self).pending_view(),
                queue_view(due@) == due_entries(whole.take(k as int), now_ms),
                queue_view(keep@) == rest_entries(whole.take(k as int), now_ms),
            decreases n - k,
        {
            let entry = self.pending[k].duplicate();
            let ghost sub = whole.take(k as int + 1);
            proof {
                assert(sub.take(k as int) =~= whole.take(k as int));
                assert(sub[k as int] == whole[k as int]);
            }
            if entry.due_ms <= now_ms {
                due.push(entry);
                proof {
                    assert(queue_view(due@) =~~= due_entries(sub, now_ms));
                    assert(queue_view(keep@) =~~= rest_entries(sub, now_ms));
                }
            } else {
                keep.push(entry);
                proof {
                    assert(queue_view(due@) =~~= due_entries(sub, now_ms));
                    assert(queue_view(keep@) =~~= rest_entries(sub, now_ms));
                }
            }
            k = k + 1;
        }
        proof {
            assert(whole.take(n as int) =~= whole);
        }
        self.pending = keep;
        proof {
            assert(self.pending_view() =~~= rest_entries(whole, now_ms));
            assert forall|i: int| 0 <= i < whole.len() implies action_wf(
                (#[trigger] whole[i]).action,
            ) by {
                assert(whole[i] == old(self).pending@[i]@);
            }
            lemma_rest_entries_wf(whole, now_ms);
            lemma_due_entries_wf(whole, now_ms);
            assert forall|i: int| 0 <= i < self.pending@.len() implies action_wf(
                (#[trigger] self.pending@[i])@.action,
            ) by {
                assert(self.pending_view()[i] == self.pending@[i]@);
                assert(action_wf(rest_entries(whole, now_ms)[i].action));
            }
        }
        due
    }
}

/// Every entry handed out as due comes from the queue as it was, so it
/// kept its valid brightness.
proof fn lemma_due_entries_wf(q: Seq<DelayedActionView>, now_ms: u64)
    requires
        forall|i: int| 0 <= i < q.len() ==> action_wf((#[trigger] q[i]).action),
    ensures
        forall|i: int| 0 <= i < due_entries(q, now_ms).len() ==> action_wf(
            (#[trigger] due_entries(q, now_ms)[i]).action,
        ),
    decreases q.len(),
{
    if q.len() > 0 {
        let prefix = q.take(q.len() - 1);
        assert(forall|i: int| 0 <= i < prefix.len() ==> prefix[i] == q[i]);
        lemma_due_entries_wf(prefix, now_ms);
    }
}

/// The kept entries come from the queue as it was, too.
proof fn lemma_rest_entries_wf(q: Seq<DelayedActionView>, now_ms: u64)
    requires
        forall|i: int| 0 <= i < q.len() ==> action_wf((#[trigger] q[i]).action),
    ensures
        forall|i: int| 0 <= i < rest_entries(q, now_ms).len() ==> action_wf(
            (#[trigger] rest_entries(q, now_ms)[i]).action,
        ),
    decreases q.len(),
{
    if q.len() > 0 {
        let prefix = q.take(q.len() - 1);
        assert(forall|i: int| 0 <= i < prefix.len() ==> prefix[i] == q[i]);
        lemma_rest_entries_wf(prefix, now_ms);
    }
}

} // verus!
