use vstd::prelude::*;

use crate::frame::{Frame, FrameModel};

verus! {

/// Capacity of the outbound slot: at most this many frames wait for the wire.
pub const QUEUE_CAPACITY: usize = 32;

/// What became of a frame offered to the outbound queue.
#[derive(Debug)]
pub enum EnqueueOutcome {
    /// The frame is queued; it reaches the wire after everything accepted
    /// before it.
    Accepted,
    /// The queue is at capacity; the caller gets the frame back and must
    /// wait for space (backpressure — the frame is not dropped).
    Full(Frame),
    /// The queue is permanently closed; the frame is handed back.
    Closed(Frame),
}

/// The outbound slot: a bounded FIFO of frames shared by every concurrent
/// send/ping/close caller and drained by the single owner of the network
/// sink. Enqueue order is wire order — no reordering, no duplication, no
/// silent drop under backpressure.
///
/// Two ghost sequences record the whole life of the queue: `history` is
/// every frame ever accepted, `drained` every frame handed to the wire.
pub struct OutboundQueue {
    items: Vec<Frame>,
    closed: bool,
    history: Ghost<Seq<FrameModel>>,
    drained: Ghost<Seq<FrameModel>>,
}

/// Both queues hold the same pending frames, closed flag and ghost records.
pub open spec fn same_queue(a: OutboundQueue, b: OutboundQueue) -> bool {
    &&& a.pending() == b.pending()
    &&& a.is_closed() == b.is_closed()
    &&& a.history() == b.history()
    &&& a.drained() == b.drained()
}

impl OutboundQueue {
    /// Frames currently waiting for the wire, oldest first.
    pub closed spec fn pending(self) -> Seq<FrameModel> {
        self.items@.map_values(|f: Frame| f@)
    }

    /// Whether the queue has been permanently closed.
    pub closed spec fn is_closed(self) -> bool {
        self.closed
    }

    /// Every frame ever accepted, in acceptance order.
    pub closed spec fn history(self) -> Seq<FrameModel> {
        self.history@
    }

    /// Every frame handed to the wire so far, in wire order.
    pub closed spec fn drained(self) -> Seq<FrameModel> {
        self.drained@
    }

    /// The queue's invariant: what was drained followed by what is pending
    /// is exactly the acceptance history, and the bound holds.
    pub open spec fn wf(self) -> bool {
        &&& self.history() == self.drained() + self.pending()
        &&& self.pending().len() <= QUEUE_CAPACITY
    }

    /// A fresh, open, empty queue.
    pub fn new() -> (q: OutboundQueue)
        ensures
            q.wf(),
            q.pending() == Seq::<FrameModel>::empty(),
            !q.is_closed(),
            q.history() == Seq::<FrameModel>::empty(),
            q.drained() == Seq::<FrameModel>::empty(),
    {
        let q = OutboundQueue {
            items: Vec::new(),
            closed: false,
            history: Ghost(Seq::empty()),
            drained: Ghost(Seq::empty()),
        };
        proof {
            assert(q.pending() =~= Seq::<FrameModel>::empty());
            assert(q.history() =~= q.drained() + q.pending());
        }
        q
    }

    /// Number of frames currently waiting.
    pub fn len(&self) -> (n: usize)
        ensures
            n == self.pending().len(),
    {
        self.items.len()
    }

    /// Whether the queue has been permanently closed.
    pub fn closed(&self) -> (r: bool)
        ensures
            r == self.is_closed(),
    {
        self.closed
    }

    /// Offer a frame. A closed queue refuses it, a full queue hands it back
    /// for the caller to retry (backpressure); otherwise it is appended
    /// after every frame accepted earlier.
    pub fn enqueue(&mut self, f: Frame) -> (r: EnqueueOutcome)
        requires
            old(self).wf(),
        ensures
            final(self).wf(),
            old(self).is_closed() ==> (r matches EnqueueOutcome::Closed(g) && g@ == f@)
                && same_queue(*final(self), *old(self)),
            !old(self).is_closed() && old(self).pending().len() >= QUEUE_CAPACITY ==> (
                r matches EnqueueOutcome::Full(g) && g@ == f@) && same_queue(*final(self), *old(self)),
            !old(self).is_closed() && old(self).pending().len() < QUEUE_CAPACITY ==> {
                &&& r is Accepted
                &&& final(self).pending() == old(self).pending().push(f@)
                &&& final(self).history() == old(self).history().push(f@)
                &&& final(self).drained() == old(self).drained()
                &&& !final(self).is_closed()
            },
    {
        if self.closed {
            EnqueueOutcome::Closed(f)
        } else if self.items.len() >= QUEUE_CAPACITY {
            EnqueueOutcome::Full(f)
        } else {
            let ghost m = f@;
            self.items.push(f);
            proof {
                self.history@ = self.history@.push(m);
                assert(self.pending() =~= old(self).pending().push(m));
                assert(self.history() =~= self.drained() + self.pending());
            }
            EnqueueOutcome::Accepted
        }
    }

    /// Take the oldest pending frame, recording it as sent; `None` when
    /// nothing waits.
    pub fn dequeue(&mut self) -> (r: Option<Frame>)
        requires
            old(self).wf(),
        ensures
            final(self).wf(),
            old(self).pending().len() == 0 ==> r is None && same_queue(*final(self), *old(self)),
            old(self).pending().len() > 0 ==> {
                &&& r matches Some(g) && g@ == old(self).pending()[0]
                &&& final(self).pending() == old(self).pending().drop_first()
                &&& final(self).drained() == old(self).drained().push(old(self).pending()[0])
                &&& final(self).history() == old(self).history()
                &&& final(self).is_closed() == old(self).is_closed()
            },
    {
        if self.items.len() == 0 {
            proof {
                assert(self.pending() =~= old(self).pending());
            }
            None
        } else {
            let f = self.items.remove(0);
            proof {
                self.drained@ = self.drained@.push(f@);
                assert(self.pending() =~= old(self).pending().drop_first());
                assert(old(self).pending()[0] == f@);
                assert(self.history() =~= self.drained() + self.pending());
            }
            Some(f)
        }
    }

    /// Permanently close the queue: later offers are refused; what is
    /// already pending stays drainable.
    pub fn close(&mut self)
        requires
            old(self).wf(),
        ensures
            final(self).wf(),
            final(self).is_closed(),
            final(self).pending() == old(self).pending(),
            final(self).history() == old(self).history(),
            final(self).drained() == old(self).drained(),
    {
        self.closed = true;
    }
}

/// Law: the outbound slot is first-enqueued-first-sent. At every moment the
/// frames already handed to the wire are exactly the first `drained().len()`
/// frames ever accepted, in acceptance order — so no frame ever overtakes
/// one enqueued earlier by any caller, and each concurrent caller's relative
/// enqueue order is preserved on the wire.
pub proof fn lemma_fifo_wire_order(q: OutboundQueue)
    requires
        q.wf(),
    ensures
        q.drained() == q.history().take(q.drained().len() as int),
        forall|i: int| 0 <= i < q.drained().len() ==> q.drained()[i] == q.history()[i],
{
    assert(q.drained() =~= q.history().take(q.drained().len() as int));
}

} // verus!
