//! Runs of the queue: records added by the ingestor interleaved with the
//! scheduler's polls, and what every such run guarantees.
use vstd::prelude::*;
use crate::queue::{PendingRelease, poll_step};

verus! {

/// One thing that happens to the queue.
#[derive(Clone, Copy, Debug, PartialEq, Eq, Structural)]
pub enum QueueEvent {
    /// The ingestor appends a record.
    Enqueue(PendingRelease),
    /// The scheduler polls at the given time, in nanoseconds.
    Poll(u64),
}

/// A release that a run observed: the record and the time of the poll that released it.
pub type Release = (PendingRelease, u64);

/// Replays `events` from the queue `q`: the queue at the end, and the releases
/// in the order they happened.
pub open spec fn replay(q: Seq<PendingRelease>, events: Seq<QueueEvent>) -> (Seq<PendingRelease>, Seq<Release>)
    decreases events.len(),
{
    if events.len() == 0 {
        (q, Seq::empty())
    } else {
        let prev = replay(q, events.drop_last());
        match events.last() {
            QueueEvent::Enqueue(r) => (prev.0.push(r), prev.1),
            QueueEvent::Poll(t) => {
                let step = poll_step(prev.0, t);
                match step.1 {
                    Some(r) => (step.0, prev.1.push((r, t))),
                    None => (step.0, prev.1),
                }
            },
        }
    }
}

/// The records that `events` append, in order.
pub open spec fn enqueued(events: Seq<QueueEvent>) -> Seq<PendingRelease>
    decreases events.len(),
{
    if events.len() == 0 {
        Seq::empty()
    } else {
        let prev = enqueued(events.drop_last());
        match events.last() {
            QueueEvent::Enqueue(r) => prev.push(r),
            QueueEvent::Poll(_) => prev,
        }
    }
}

/// The records of a sequence of releases, in the same order.
pub open spec fn released_records(rel: Seq<Release>) -> Seq<PendingRelease> {
    rel.map_values(|p: Release| p.0)
}

/// Every record that was ever in the queue is either released or still
/// waiting, and never both: the releases followed by the queue left at the end
/// are exactly the records at the start followed by those enqueued.
pub proof fn lemma_release_accounting(q: Seq<PendingRelease>, events: Seq<QueueEvent>)
    ensures
        released_records(replay(q, events).1) + replay(q, events).0 == q + enqueued(events),
    decreases events.len(),
{
    if events.len() > 0 {
        let pre = events.drop_last();
        lemma_release_accounting(q, pre);
        let prev = replay(q, pre);
        match events.last() {
            QueueEvent::Enqueue(r) => {
                assert(released_records(prev.1) + prev.0.push(r) =~= (released_records(prev.1)
                    + prev.0).push(r));
                assert(q + enqueued(pre).push(r) =~= (q + enqueued(pre)).push(r));
            },
            QueueEvent::Poll(t) => {
                let step = poll_step(prev.0, t);
                if let Some(r) = step.1 {
                    assert(released_records(prev.1.push((r, t))) =~= released_records(
                        prev.1,
                    ).push(r));
                    assert(released_records(prev.1).push(r) + step.0 =~= released_records(
                        prev.1,
                    ) + prev.0);
                }
            },
        }
    }
}

/// Releases happen in enqueue order: the records released so far are a prefix
/// of the records at the start followed by those enqueued, and the queue left
/// is the rest of them.
pub proof fn lemma_fifo_release(q: Seq<PendingRelease>, events: Seq<QueueEvent>)
    ensures
        ({
            let all = q + enqueued(events);
            let n = replay(q, events).1.len();
            &&& n <= all.len()
            &&& released_records(replay(q, events).1) == all.take(n as int)
            &&& replay(q, events).0 == all.skip(n as int)
        }),
{
    lemma_release_accounting(q, events);
    let all = q + enqueued(events);
    let rel = released_records(replay(q, events).1);
    let rest = replay(q, events).0;
    assert(rel.len() == replay(q, events).1.len());
    assert(all.take(rel.len() as int) =~= rel);
    assert(all.skip(rel.len() as int) =~= rest);
}

/// No key is released before its hold time has passed: every release happens
/// at a poll strictly later than the record's press time plus its hold time.
pub proof fn lemma_minimum_hold(q: Seq<PendingRelease>, events: Seq<QueueEvent>)
    ensures
        forall|i: int|
            0 <= i < replay(q, events).1.len() ==> #[trigger] replay(q, events).1[i].1
                > replay(q, events).1[i].0.issued_at + replay(q, events).1[i].0.hold_ns(),
    decreases events.len(),
{
    if events.len() > 0 {
        lemma_minimum_hold(q, events.drop_last());
    }
}

/// Whether every event of `events` is a poll at which every record of `q` is due.
pub open spec fn all_due_polls(q: Seq<PendingRelease>, events: Seq<QueueEvent>) -> bool {
    forall|k: int|
        0 <= k < events.len() ==> match #[trigger] events[k] {
            QueueEvent::Poll(t) => forall|i: int| 0 <= i < q.len() ==> #[trigger] q[i].due_at(t),
            QueueEvent::Enqueue(_) => false,
        }
}

/// Each poll at which the whole queue is due releases one record, in order.
proof fn lemma_due_polls_release(q: Seq<PendingRelease>, events: Seq<QueueEvent>)
    requires
        all_due_polls(q, events),
    ensures
        ({
            let m = if events.len() <= q.len() { events.len() as int } else { q.len() as int };
            &&& replay(q, events).0 == q.skip(m)
            &&& released_records(replay(q, events).1) == q.take(m)
        }),
    decreases events.len(),
{
    if events.len() == 0 {
        assert(q.skip(0) =~= q);
        assert(released_records(Seq::<Release>::empty()) =~= q.take(0));
    } else {
        let pre = events.drop_last();
        assert(all_due_polls(q, pre)) by {
            assert forall|k: int| 0 <= k < pre.len() implies match #[trigger] pre[k] {
                QueueEvent::Poll(t) => forall|i: int|
                    0 <= i < q.len() ==> #[trigger] q[i].due_at(t),
                QueueEvent::Enqueue(_) => false,
            } by {
                assert(pre[k] == events[k]);
            }
        }
        lemma_due_polls_release(q, pre);
        let prev = replay(q, pre);
        let last = events[events.len() - 1];
        assert(last == events.last());
        if let QueueEvent::Poll(t) = last {
            let m = if pre.len() <= q.len() { pre.len() as int } else { q.len() as int };
            if m < q.len() {
                assert(prev.0[0] == q[m]);
                assert(q[m].due_at(t));
                assert(prev.0.drop_first() =~= q.skip(m + 1));
                assert(released_records(prev.1.push((q[m], t))) =~= released_records(
                    prev.1,
                ).push(q[m]));
                assert(q.take(m).push(q[m]) =~= q.take(m + 1));
            } else {
                assert(prev.0.len() == 0);
            }
        }
    }
}

/// Liveness: from a queue of `n` records, `n` polls at which every record is
/// due release all of them, in order, and leave the queue empty.
pub proof fn lemma_liveness(q: Seq<PendingRelease>, events: Seq<QueueEvent>)
    requires
        events.len() >= q.len(),
        all_due_polls(q, events),
    ensures
        replay(q, events).0.len() == 0,
        released_records(replay(q, events).1) == q,
{
    lemma_due_polls_release(q, events);
    assert(q.take(q.len() as int) =~= q);
}

} // verus!
