//! The bounded FIFO hand-off channel between the decode stage and the
//! playback sink.
//!
//! Decoded PCM batches are expensive to reproduce, so when the queue is full
//! a push is refused and the producer stalls briefly instead of dropping the
//! batch.  The queue carries a ghost history of everything ever produced and
//! everything ever delivered; the invariant `delivered + pending == produced`
//! makes the no-reordering guarantee a theorem: what has been delivered is
//! exactly the oldest prefix of what was produced.

use vstd::prelude::*;

verus! {

/// Bounded first-in-first-out queue with a ghost production/delivery history.
#[verifier::reject_recursive_types(T)]
pub struct FrameQueue<T> {
    items: Vec<T>,
    capacity: usize,
    produced: Ghost<Seq<T>>,
    delivered: Ghost<Seq<T>>,
}

impl<T> FrameQueue<T> {
    /// Everything ever pushed, oldest first.
    pub closed spec fn produced(self) -> Seq<T> {
        self.produced@
    }

    /// Everything ever popped, in the order it was popped.
    pub closed spec fn delivered(self) -> Seq<T> {
        self.delivered@
    }

    /// The elements currently waiting in the queue, oldest first.
    pub closed spec fn pending(self) -> Seq<T> {
        self.items@
    }

    /// The fixed capacity the queue was created with.
    pub closed spec fn cap(self) -> int {
        self.capacity as int
    }

    /// The queue's invariant: the bound is respected, and the history splits
    /// into what was delivered followed by what is still pending.
    pub open spec fn wf(self) -> bool {
        &&& self.pending().len() <= self.cap()
        &&& self.delivered() + self.pending() == self.produced()
    }

    pub fn new(capacity: usize) -> (q: FrameQueue<T>)
        requires
            capacity >= 1,
        ensures
            q.wf(),
            q.cap() == capacity,
            q.produced() == Seq::<T>::empty(),
            q.delivered() == Seq::<T>::empty(),
            q.pending() == Seq::<T>::empty(),
    {
        let q = FrameQueue {
            items: Vec::new(),
            capacity,
            produced: Ghost(Seq::empty()),
            delivered: Ghost(Seq::empty()),
        };
        proof {
            assert(q.delivered() + q.pending() =~= q.produced());
        }
        q
    }

    pub fn len(&self) -> (n: usize)
        ensures
            n == self.pending().len(),
    {
        self.items.len()
    }

    pub fn is_empty(&self) -> (b: bool)
        ensures
            b == (self.pending().len() == 0),
    {
        self.items.is_empty()
    }

    /// Appends a batch at the back, unless the queue is full.  A full queue
    /// hands the batch back so the producer can wait and retry rather than
    /// drop it.
    pub fn try_push(&mut self, x: T) -> (r: Result<(), T>)
        requires
            old(self).wf(),
        ensures
            final(self).wf(),
            final(self).cap() == old(self).cap(),
            final(self).delivered() == old(self).delivered(),
            old(self).pending().len() < old(self).cap() ==> {
                &&& r is Ok
                &&& final(self).pending() == old(self).pending().push(x)
                &&& final(self).produced() == old(self).produced().push(x)
            },
            old(self).pending().len() >= old(self).cap() ==> r == Err::<(), T>(x) && *final(self)
                == *old(self),
    {
        if self.items.len() < self.capacity {
            self.items.push(x);
            proof {
                self.produced@ = self.produced@.push(x);
                assert(self.delivered() + self.pending() =~= self.produced());
            }
            Ok(())
        } else {
            Err(x)
        }
    }

    /// Removes and returns the oldest pending batch, or `None` when the
    /// queue is empty.  Delivery strictly follows production order.
    pub fn pop(&mut self) -> (r: Option<T>)
        requires
            old(self).wf(),
        ensures
            final(self).wf(),
            final(self).cap() == old(self).cap(),
            final(self).produced() == old(self).produced(),
            old(self).pending().len() > 0 ==> {
                &&& r == Some(old(self).pending()[0])
                &&& final(self).pending() == old(self).pending().drop_first()
                &&& final(self).delivered() == old(self).delivered().push(
                    old(self).pending()[0],
                )
            },
            old(self).pending().len() == 0 ==> r is None && *final(self) == *old(self),
    {
        if self.items.is_empty() {
            None
        } else {
            let x = self.items.remove(0);
            proof {
                self.delivered@ = self.delivered@.push(x);
                assert(self.pending() =~= old(self).pending().drop_first());
                assert(self.delivered() + self.pending() =~= self.produced());
            }
            Some(x)
        }
    }
}

/// Decoded batches reach the consumer in the exact order they were produced:
/// for any reachable queue state, the delivered history is precisely the
/// oldest prefix of the production history, and each still-pending element
/// sits at its production position.  No reordering is possible, whatever
/// interleaving of pushes and pops led here.
pub proof fn lemma_delivery_in_production_order<T>(q: FrameQueue<T>)
    requires
        q.wf(),
    ensures
        q.delivered() == q.produced().take(q.delivered().len() as int),
        forall|i: int|
            0 <= i < q.pending().len() ==> q.pending()[i] == q.produced()[q.delivered().len()
                + i],
{
    assert(q.delivered() =~= q.produced().take(q.delivered().len() as int));
}

} // verus!
