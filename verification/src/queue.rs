//! Bounded FIFO queues with an explicit open/closed state.
//!
//! Both directions of the bridge run over one of these: commands flow from the
//! host to the sender loop, events from the receiver loop to the host.  A queue
//! never grows past the capacity fixed at construction and never drops an
//! accepted element; a full queue pushes the wait back onto the producer, and a
//! closed queue refuses new elements while still handing out what it already
//! holds.

use vstd::prelude::*;

verus! {

/// What a single push attempt did.  A refused element is handed back to the
/// caller, so nothing is silently dropped.
pub enum PushOutcome<T> {
    /// The element was appended at the back of the queue.
    Pushed,
    /// The queue is at capacity; the producer must wait for the consumer.
    Full(T),
    /// The queue was closed; no further element will ever be accepted.
    Closed(T),
}

/// What a single pop attempt found.
pub enum PopOutcome<T> {
    /// The element that was at the front of the queue.
    Item(T),
    /// Nothing is pending, but the queue is still open: more may arrive.
    Empty,
    /// Nothing is pending and the queue is closed: nothing will ever arrive.
    Finished,
}

/// A bounded FIFO queue.  `capacity` is fixed at construction; `open` starts
/// true and can only ever be cleared, never set again.
pub struct BoundedQueue<T> {
    items: Vec<T>,
    capacity: usize,
    open: bool,
}

impl<T> BoundedQueue<T> {
    /// The pending elements, front first.
    pub closed spec fn contents(&self) -> Seq<T> {
        self.items@
    }

    /// The capacity fixed at construction.
    pub closed spec fn cap(&self) -> int {
        self.capacity as int
    }

    /// Whether the queue still accepts new elements.
    pub closed spec fn is_open(&self) -> bool {
        self.open
    }

    /// The queue never holds more than its capacity, and the capacity is at
    /// least one slot.
    pub closed spec fn wf(&self) -> bool {
        &&& self.items@.len() <= self.capacity
        &&& 1 <= self.capacity
    }

    /// An empty, open queue with the given capacity.
    pub fn new(capacity: usize) -> (q: Self)
        requires
            1 <= capacity,
        ensures
            q.wf(),
            q.contents() == Seq::<T>::empty(),
            q.cap() == capacity,
            q.is_open(),
    {
        BoundedQueue { items: Vec::new(), capacity, open: true }
    }

    /// How many elements are pending.
    pub fn len(&self) -> (n: usize)
        ensures
            n == self.contents().len(),
    {
        self.items.len()
    }

    /// Whether a push would find the queue at capacity.
    pub fn is_full(&self) -> (b: bool)
        ensures
            b == (self.contents().len() == self.cap()),
    {
        self.items.len() == self.capacity
    }

    /// Whether the queue still accepts new elements.
    pub fn open_now(&self) -> (b: bool)
        ensures
            b == self.is_open(),
    {
        self.open
    }

    /// Appends `value` at the back, or hands it back when the queue is full
    /// or closed.  The pending elements already accepted are never disturbed.
    pub fn push(&mut self, value: T) -> (r: PushOutcome<T>)
        requires
            old(self).wf(),
        ensures
            final(self).wf(),
            final(self).cap() == old(self).cap(),
            final(self).is_open() == old(self).is_open(),
            !old(self).is_open() ==> r == PushOutcome::Closed(value) && final(self).contents()
                == old(self).contents(),
            old(self).is_open() && old(self).contents().len() >= old(self).cap() ==> r
                == PushOutcome::Full(value) && final(self).contents() == old(self).contents(),
            old(self).is_open() && old(self).contents().len() < old(self).cap() ==> r
                == PushOutcome::<T>::Pushed && final(self).contents() == old(self).contents().push(value),
    {
        if !self.open {
            PushOutcome::Closed(value)
        } else if self.items.len() == self.capacity {
            PushOutcome::Full(value)
        } else {
            self.items.push(value);
            PushOutcome::Pushed
        }
    }

    /// Takes the element at the front, or reports whether more could still
    /// arrive.  A closed queue keeps handing out its remaining elements before
    /// reporting `Finished`.
    pub fn pop(&mut self) -> (r: PopOutcome<T>)
        requires
            old(self).wf(),
        ensures
            final(self).wf(),
            final(self).cap() == old(self).cap(),
            final(self).is_open() == old(self).is_open(),
            old(self).contents().len() > 0 ==> r == PopOutcome::Item(old(self).contents()[0])
                && final(self).contents() == old(self).contents().drop_first(),
            old(self).contents().len() == 0 && old(self).is_open() ==> r == PopOutcome::<T>::Empty
                && final(self).contents() == old(self).contents(),
            old(self).contents().len() == 0 && !old(self).is_open() ==> r
                == PopOutcome::<T>::Finished && final(self).contents() == old(self).contents(),
    {
        if self.items.len() > 0 {
            let value = self.items.remove(0);
            proof {
                assert(self.items@ =~= old(self).items@.drop_first());
            }
            PopOutcome::Item(value)
        } else if self.open {
            PopOutcome::Empty
        } else {
            PopOutcome::Finished
        }
    }

    /// Removes and returns every pending element, front first, without ever
    /// waiting for more: one pass over what is already there, nothing else.
    pub fn drain_all(&mut self) -> (r: Vec<T>)
        requires
            old(self).wf(),
        ensures
            final(self).wf(),
            final(self).cap() == old(self).cap(),
            final(self).is_open() == old(self).is_open(),
            r@ == old(self).contents(),
            final(self).contents() == Seq::<T>::empty(),
    {
        let mut out: Vec<T> = Vec::new();
        proof {
            assert(out@ + self.contents() =~= self.contents());
        }
        loop
            invariant
                self.wf(),
                self.cap() == old(self).cap(),
                self.is_open() == old(self).is_open(),
                out@ + self.contents() == old(self).contents(),
            ensures
                self.contents().len() == 0,
            decreases self.contents().len(),
        {
            let ghost pre = *self;
            let ghost out_pre = out@;
            match self.pop() {
                PopOutcome::Item(t) => {
                    out.push(t);
                    proof {
                        assert(out@ + self.contents() =~= out_pre + pre.contents());
                    }
                },
                PopOutcome::Empty => {
                    break;
                },
                PopOutcome::Finished => {
                    break;
                },
            }
        }
        proof {
            assert(out@ =~= old(self).contents());
        }
        out
    }

    /// Marks the queue closed.  Pending elements stay available to `pop`;
    /// every later `push` is refused.  Closing is idempotent and irreversible.
    pub fn close(&mut self)
        requires
            old(self).wf(),
        ensures
            final(self).wf(),
            final(self).cap() == old(self).cap(),
            final(self).contents() == old(self).contents(),
            !final(self).is_open(),
    {
        self.open = false;
    }
}

} // verus!

