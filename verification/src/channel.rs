//! The coalescing, latest-wins publish policy of the two inter-component
//! queues. Telemetry is a continuously refreshed signal, not a log: a
//! producer enqueues a new value only when the queue is fully drained, and
//! silently discards it otherwise, so a slow consumer sees the freshest
//! value instead of an ever-growing backlog.

use vstd::prelude::*;

verus! {

/// Capacity of each inter-component queue. The publish policy keeps at most
/// one value pending, so this bound is never the limiting factor.
pub const CHANNEL_CAPACITY: usize = 100;

/// A bounded queue with the latest-wins publish discipline.
pub struct LatestWins<T> {
    pending: Vec<T>,
}

/// What one send attempt leaves pending: a new value is accepted only when
/// nothing is pending, and is discarded otherwise.
pub open spec fn send_step<T>(pending: Seq<T>, value: T) -> Seq<T> {
    if pending.len() == 0 {
        seq![value]
    } else {
        pending
    }
}

/// What a whole burst of send attempts, with no drain in between, leaves
/// pending.
pub open spec fn send_all<T>(pending: Seq<T>, values: Seq<T>) -> Seq<T>
    decreases values.len(),
{
    if values.len() == 0 {
        pending
    } else {
        send_all(send_step(pending, values.first()), values.drop_first())
    }
}

impl<T> LatestWins<T> {
    /// The values sent but not yet delivered, oldest first.
    pub closed spec fn pending_values(self) -> Seq<T> {
        self.pending@
    }

    /// The queue never holds more than its capacity.
    pub open spec fn wf(self) -> bool {
        self.pending_values().len() <= CHANNEL_CAPACITY
    }

    pub fn new() -> (r: LatestWins<T>)
        ensures
            r.pending_values() == Seq::<T>::empty(),
            r.wf(),
    {
        LatestWins { pending: Vec::new() }
    }

    /// One non-blocking send attempt: accepts `value` only when the queue
    /// is fully drained, and discards it otherwise. Returns whether the
    /// value was accepted.
    pub fn try_send(&mut self, value: T) -> (sent: bool)
        requires
            old(self).wf(),
        ensures
            final(self).wf(),
            final(self).pending_values() == send_step(old(self).pending_values(), value),
            sent == (old(self).pending_values().len() == 0),
    {
        if self.pending.len() == 0 {
            self.pending.push(value);
            proof {
                assert(self.pending_values() =~= send_step(old(self).pending_values(), value));
            }
            true
        } else {
            false
        }
    }

    /// One non-blocking receive attempt: takes the oldest pending value, if
    /// any.
    pub fn try_recv(&mut self) -> (r: Option<T>)
        requires
            old(self).wf(),
        ensures
            final(self).wf(),
            old(self).pending_values().len() == 0 ==> {
                &&& r is None
                &&& final(self).pending_values() == old(self).pending_values()
            },
            old(self).pending_values().len() > 0 ==> {
                &&& r == Some(old(self).pending_values().first())
                &&& final(self).pending_values() == old(self).pending_values().drop_first()
            },
    {
        if self.pending.len() == 0 {
            None
        } else {
            let v = self.pending.remove(0);
            proof {
                assert(self.pending_values() =~= old(self).pending_values().drop_first());
            }
            Some(v)
        }
    }
}

/// Once something is pending, further sends change nothing.
proof fn lemma_send_all_saturated<T>(pending: Seq<T>, values: Seq<T>)
    requires
        pending.len() > 0,
    ensures
        send_all(pending, values) == pending,
    decreases values.len(),
{
    if values.len() > 0 {
        lemma_send_all_saturated(pending, values.drop_first());
    }
}

/// The latest-wins law: a burst of sends into a drained queue, with no
/// drain in between, leaves exactly one pending value — the first of the
/// burst — no matter how many values the burst held.
pub proof fn lemma_latest_wins_burst<T>(values: Seq<T>)
    requires
        values.len() > 0,
    ensures
        send_all(Seq::<T>::empty(), values) == seq![values.first()],
{
    lemma_send_all_saturated(seq![values.first()], values.drop_first());
}

} // verus!
