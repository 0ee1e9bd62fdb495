//! The dispatch channel: the bounded, ordered, multi-producer /
//! single-consumer hand-off queue between connection handlers and the
//! single message consumer.
//!
//! Envelopes are consumed in the order they were successfully enqueued
//! across all producers; once the queue is at capacity an enqueue attempt
//! leaves the queue untouched and reports that the producer must wait —
//! nothing is dropped or overwritten.

use vstd::prelude::*;

use crate::envelope::{Request, RequestTopic};

verus! {

/// Default capacity of the dispatch channel: how many decoded envelopes
/// may sit between the connection handlers and the consumer.
pub const DEFAULT_CHANNEL_CAPACITY: usize = 32;

/// The mathematical value of one queued envelope.
pub open spec fn req_view(r: Request) -> (RequestTopic, Seq<u8>) {
    (r.topic, r.data@)
}

/// One enqueue attempt on a queue of the given capacity: whether it
/// proceeds, and the queue afterwards. A full queue refuses and stands
/// unchanged.
pub open spec fn spec_try_enqueue(
    q: Seq<(RequestTopic, Seq<u8>)>,
    cap: int,
    e: (RequestTopic, Seq<u8>),
) -> (bool, Seq<(RequestTopic, Seq<u8>)>) {
    if q.len() < cap {
        (true, q.push(e))
    } else {
        (false, q)
    }
}

/// One dequeue: the front envelope, if any, and the queue afterwards.
pub open spec fn spec_dequeue(q: Seq<(RequestTopic, Seq<u8>)>) -> (
    Option<(RequestTopic, Seq<u8>)>,
    Seq<(RequestTopic, Seq<u8>)>,
) {
    if q.len() == 0 {
        (None, q)
    } else {
        (Some(q[0]), q.skip(1))
    }
}

/// The queue left after `k` dequeues.
pub open spec fn spec_drained(q: Seq<(RequestTopic, Seq<u8>)>, k: int) -> Seq<
    (RequestTopic, Seq<u8>),
>
    decreases k,
{
    if k <= 0 {
        q
    } else {
        spec_dequeue(spec_drained(q, k - 1)).1
    }
}

/// Ordering law: the consumer sees envelopes in enqueue order. After `k`
/// dequeues exactly the first `k` enqueued envelopes are gone, and the
/// next dequeue yields the one enqueued `k`-th; so of two envelopes the
/// earlier-enqueued is always consumed first.
pub proof fn lemma_fifo_order(q: Seq<(RequestTopic, Seq<u8>)>, k: int)
    requires
        0 <= k < q.len(),
    ensures
        spec_drained(q, k) == q.skip(k),
        spec_dequeue(spec_drained(q, k)).0 == Some(q[k]),
    decreases k,
{
    if k == 0 {
        assert(spec_drained(q, 0) =~= q.skip(0));
    } else {
        lemma_fifo_order(q, k - 1);
        assert(q.skip(k - 1).skip(1) =~= q.skip(k));
    }
    assert(q.skip(k)[0] == q[k]);
}

/// One step of the queue's history: an enqueue attempt by some producer,
/// or a dequeue by the consumer.
pub enum QueueOp {
    EnqueueAttempt((RequestTopic, Seq<u8>)),
    Dequeue,
}

/// A queue's history: what is pending, every envelope a producer
/// successfully enqueued in order, and every envelope the consumer has
/// taken in order.
pub struct QueueHistory {
    pub pending: Seq<(RequestTopic, Seq<u8>)>,
    pub accepted: Seq<(RequestTopic, Seq<u8>)>,
    pub consumed: Seq<(RequestTopic, Seq<u8>)>,
}

/// The history before anything happened.
pub open spec fn empty_history() -> QueueHistory {
    QueueHistory { pending: Seq::empty(), accepted: Seq::empty(), consumed: Seq::empty() }
}

/// How one operation advances the history: a refused enqueue and a
/// dequeue of nothing change nothing.
pub open spec fn apply_op(h: QueueHistory, cap: int, op: QueueOp) -> QueueHistory {
    match op {
        QueueOp::EnqueueAttempt(e) => {
            let (ok, q2) = spec_try_enqueue(h.pending, cap, e);
            if ok {
                QueueHistory { pending: q2, accepted: h.accepted.push(e), consumed: h.consumed }
            } else {
                h
            }
        },
        QueueOp::Dequeue => {
            match spec_dequeue(h.pending).0 {
                Some(e) => QueueHistory {
                    pending: spec_dequeue(h.pending).1,
                    accepted: h.accepted,
                    consumed: h.consumed.push(e),
                },
                None => h,
            }
        },
    }
}

/// The history after a whole sequence of operations.
pub open spec fn apply_ops(h: QueueHistory, cap: int, ops: Seq<QueueOp>) -> QueueHistory
    decreases ops.len(),
{
    if ops.len() == 0 {
        h
    } else {
        apply_op(apply_ops(h, cap, ops.drop_last()), cap, ops.last())
    }
}

/// Each operation keeps consumption aligned with acceptance.
proof fn lemma_op_preserves_order(h: QueueHistory, cap: int, op: QueueOp)
    requires
        h.accepted == h.consumed + h.pending,
    ensures
        apply_op(h, cap, op).accepted == apply_op(h, cap, op).consumed + apply_op(
            h,
            cap,
            op,
        ).pending,
{
    match op {
        QueueOp::EnqueueAttempt(e) => {
            if h.pending.len() < cap {
                assert(h.accepted.push(e) =~= h.consumed + h.pending.push(e));
            }
        },
        QueueOp::Dequeue => {
            if h.pending.len() > 0 {
                assert(h.accepted =~= h.consumed.push(h.pending[0]) + h.pending.skip(1));
            }
        },
    }
}

/// Trace-level ordering law: however the producers' enqueue attempts and
/// the consumer's dequeues interleave, the envelopes consumed so far,
/// followed by those still pending, are exactly the successfully
/// enqueued envelopes in enqueue order. In particular the consumer
/// processes envelopes first-enqueued, first-consumed.
pub proof fn lemma_fifo_trace(cap: int, ops: Seq<QueueOp>)
    ensures
        apply_ops(empty_history(), cap, ops).accepted == apply_ops(
            empty_history(),
            cap,
            ops,
        ).consumed + apply_ops(empty_history(), cap, ops).pending,
    decreases ops.len(),
{
    if ops.len() == 0 {
        assert(empty_history().accepted =~= empty_history().consumed + empty_history().pending);
    } else {
        lemma_fifo_trace(cap, ops.drop_last());
        lemma_op_preserves_order(apply_ops(empty_history(), cap, ops.drop_last()), cap, ops.last());
    }
}

/// Backpressure law: an enqueue attempt on a full queue does not proceed
/// and alters nothing — the envelope is neither dropped nor does it
/// displace another — and as soon as the consumer drains one entry the
/// same attempt proceeds, appending the envelope at the back.
pub proof fn lemma_backpressure(
    q: Seq<(RequestTopic, Seq<u8>)>,
    cap: int,
    e: (RequestTopic, Seq<u8>),
)
    requires
        q.len() == cap,
        cap >= 1,
    ensures
        spec_try_enqueue(q, cap, e) == (false, q),
        spec_try_enqueue(spec_dequeue(q).1, cap, e) == (true, spec_dequeue(q).1.push(e)),
{
    assert(spec_dequeue(q).1.len() == cap - 1 < cap);
}

/// The bounded FIFO queue of decoded envelopes. Multiple connection
/// handlers enqueue; the single consumer loop dequeues.
pub struct DispatchChannel {
    queue: Vec<Request>,
    capacity: usize,
}

impl DispatchChannel {
    /// The channel's invariant: never more envelopes than its capacity,
    /// and room for at least one.
    pub closed spec fn well_formed(&self) -> bool {
        self.queue.len() <= self.capacity && self.capacity >= 1
    }

    /// The queued envelopes, front (next to be consumed) first.
    pub closed spec fn contents(&self) -> Seq<(RequestTopic, Seq<u8>)> {
        self.queue@.map_values(|r: Request| req_view(r))
    }

    /// The fixed capacity this channel was created with.
    pub closed spec fn cap(&self) -> int {
        self.capacity as int
    }

    /// Creates an empty channel of the given capacity.
    pub fn new(capacity: usize) -> (r: Self)
        requires
            capacity >= 1,
        ensures
            r.well_formed(),
            r.contents() == Seq::<(RequestTopic, Seq<u8>)>::empty(),
            r.cap() == capacity,
    {
        let r = Self { queue: Vec::new(), capacity };
        proof {
            assert(r.contents() =~= Seq::<(RequestTopic, Seq<u8>)>::empty());
        }
        r
    }

    /// How many envelopes are pending.
    pub fn len(&self) -> (n: usize)
        ensures
            n == self.contents().len(),
    {
        self.queue.len()
    }

    /// Whether an enqueue attempt would have to wait.
    pub fn is_full(&self) -> (b: bool)
        ensures
            b == (self.contents().len() >= self.cap()),
    {
        self.queue.len() >= self.capacity
    }

    /// Attempts to enqueue one envelope. On a full channel nothing
    /// changes and the producer learns it must wait for the consumer.
    pub fn try_enqueue(&mut self, r: Request) -> (ok: bool)
        requires
            old(self).well_formed(),
        ensures
            final(self).well_formed(),
            final(self).cap() == old(self).cap(),
            (ok, final(self).contents()) == spec_try_enqueue(
                old(self).contents(),
                old(self).cap(),
                req_view(r),
            ),
    {
        if self.queue.len() < self.capacity {
            self.queue.push(r);
            proof {
                assert(self.contents() =~= old(self).contents().push(req_view(r)));
            }
            true
        } else {
            false
        }
    }

    /// Removes and returns the front envelope; `None` only on an empty
    /// channel.
    pub fn dequeue(&mut self) -> (r: Option<Request>)
        requires
            old(self).well_formed(),
        ensures
            final(self).well_formed(),
            final(self).cap() == old(self).cap(),
            match r {
                Some(req) => (Some(req_view(req)), final(self).contents()) == spec_dequeue(
                    old(self).contents(),
                ),
                None => old(self).contents().len() == 0 && final(self).contents() == old(
                    self,
                ).contents(),
            },
    {
        if self.queue.len() == 0 {
            None
        } else {
            let req = self.queue.remove(0);
            proof {
                assert(self.contents() =~= old(self).contents().skip(1));
            }
            Some(req)
        }
    }
}

} // verus!
