//! The pending-release queue and the scheduler's poll step.
use vstd::prelude::*;
use std::collections::VecDeque;
use crate::event::{Effect, KeySym};

verus! {

/// Nanoseconds in one millisecond.
pub const NANOS_PER_MILLI: u64 = 1_000_000;

/// One pressed key that waits to be released.
#[derive(Clone, Copy, Debug, PartialEq, Eq, Structural)]
pub struct PendingRelease {
    /// Monotonic time of the press, in nanoseconds.
    pub issued_at: u64,
    /// How long the key stays down, in milliseconds.
    pub hold_ms: u32,
    /// The key to release.
    pub key: KeySym,
}

/// Time since `since` as a monotonic clock reports it: zero if `now` lies before it.
pub open spec fn elapsed(now: u64, since: u64) -> int {
    if now >= since {
        now - since
    } else {
        0
    }
}

impl PendingRelease {
    /// The hold time in nanoseconds.
    pub open spec fn hold_ns(self) -> int {
        self.hold_ms * NANOS_PER_MILLI
    }

    /// Whether, at time `now`, the key has been down for strictly longer than its hold time.
    pub open spec fn due_at(self, now: u64) -> bool {
        elapsed(now, self.issued_at) > self.hold_ns()
    }

    /// A record for `key`, pressed at `issued_at` and held `hold_ms` milliseconds.
    pub fn new(issued_at: u64, hold_ms: u32, key: KeySym) -> (r: PendingRelease)
        ensures
            r == (PendingRelease { issued_at, hold_ms, key }),
    {
        PendingRelease { issued_at, hold_ms, key }
    }

    /// Whether the record may be released at time `now`.
    pub fn is_due(&self, now: u64) -> (r: bool)
        ensures
            r == self.due_at(now),
            r ==> now > self.issued_at + self.hold_ns(),
    {
        let since: u64 = if now >= self.issued_at {
            now - self.issued_at
        } else {
            0
        };
        since > self.hold_ms as u64 * NANOS_PER_MILLI
    }
}

/// What one poll at time `now` does to the queue `q`: the new queue, and the
/// record released, if any. Only the front is ever looked at.
pub open spec fn poll_step(q: Seq<PendingRelease>, now: u64) -> (Seq<PendingRelease>, Option<PendingRelease>) {
    if q.len() > 0 && q[0].due_at(now) {
        (q.drop_first(), Some(q[0]))
    } else {
        (q, None)
    }
}

/// The records that wait to be released, oldest first.
pub struct ReleaseQueue {
    items: VecDeque<PendingRelease>,
}

impl View for ReleaseQueue {
    type V = Seq<PendingRelease>;

    closed spec fn view(&self) -> Seq<PendingRelease> {
        self.items@
    }
}

impl ReleaseQueue {
    /// An empty queue.
    pub fn new() -> (r: ReleaseQueue)
        ensures
            r@ == Seq::<PendingRelease>::empty(),
    {
        ReleaseQueue { items: VecDeque::new() }
    }

    /// Number of records waiting.
    pub fn len(&self) -> (r: usize)
        ensures
            r == self@.len(),
    {
        self.items.len()
    }

    /// Whether no record waits.
    pub fn is_empty(&self) -> (r: bool)
        ensures
            r == (self@.len() == 0),
    {
        self.items.len() == 0
    }

    /// Appends a record behind all the others.
    pub fn push_back(&mut self, record: PendingRelease)
        ensures
            final(self)@ == old(self)@.push(record),
    {
        self.items.push_back(record);
    }

    /// The oldest record, if any, left in place.
    pub fn peek_front(&self) -> (r: Option<&PendingRelease>)
        ensures
            self@.len() == 0 ==> r.is_none(),
            self@.len() > 0 ==> r == Some(&self@[0]),
    {
        if self.items.len() == 0 {
            None
        } else {
            Some(&self.items[0])
        }
    }

    /// Removes and returns the oldest record, if any.
    pub fn pop_front(&mut self) -> (r: Option<PendingRelease>)
        ensures
            old(self)@.len() == 0 ==> r.is_none() && final(self)@ == old(self)@,
            old(self)@.len() > 0 ==> r == Some(old(self)@[0]) && final(self)@
                == old(self)@.drop_first(),
    {
        self.items.pop_front()
    }

    /// Whether a poll at time `now` would release the front record. This only
    /// reads the queue, so it can run under a shared lock.
    pub fn front_due(&self, now: u64) -> (r: bool)
        ensures
            r == (self@.len() > 0 && self@[0].due_at(now)),
    {
        match self.peek_front() {
            Some(record) => record.is_due(now),
            None => false,
        }
    }

    /// One iteration of the release loop at time `now`: if the front record's
    /// hold time has passed, removes it and returns it for its key to be
    /// released; otherwise leaves the queue as it is.
    pub fn poll(&mut self, now: u64) -> (r: Option<PendingRelease>)
        ensures
            (final(self)@, r) == poll_step(old(self)@, now),
    {
        if self.front_due(now) {
            self.pop_front()
        } else {
            None
        }
    }

    /// Queues the release of a key that `effect` presses at time `now`. Effects
    /// that hold no key leave the queue alone. Returns whether a record was added.
    pub fn enqueue_press(&mut self, effect: Effect, now: u64) -> (r: bool)
        ensures
            r == effect.holds_key(),
            match effect {
                Effect::Press { key, hold_ms } => final(self)@ == old(self)@.push(
                    PendingRelease { issued_at: now, hold_ms, key },
                ),
                _ => final(self)@ == old(self)@,
            },
    {
        match effect {
            Effect::Press { key, hold_ms } => {
                self.push_back(PendingRelease::new(now, hold_ms, key));
                true
            },
            _ => false,
        }
    }
}

} // verus!
