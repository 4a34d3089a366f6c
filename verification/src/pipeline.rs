//! The two bounds that keep the pipeline in check: a gate that lets only so
//! many operations run at a time, and a queue between two stages that holds
//! only so many messages.

use vstd::prelude::*;
use std::collections::VecDeque;

verus! {

/// How many messages a queue between two stages holds.
pub const CHANNEL_CAPACITY: usize = 16;

/// A gate with a fixed number of permits. An operation runs while it holds
/// a permit, so no more operations run at a time than there are permits.
#[derive(Debug, PartialEq, Eq)]
pub struct Permits {
    capacity: usize,
    held: usize,
}

impl Permits {
    #[verifier::type_invariant]
    spec fn wf(self) -> bool {
        self.held <= self.capacity
    }

    /// How many permits there are.
    pub closed spec fn capacity(self) -> nat {
        self.capacity as nat
    }

    /// How many permits are held.
    pub closed spec fn in_flight(self) -> nat {
        self.held as nat
    }

    /// A gate with `capacity` permits, none of them held.
    pub fn new(capacity: usize) -> (r: Permits)
        ensures
            r.capacity() == capacity,
            r.in_flight() == 0,
    {
        Permits { capacity, held: 0 }
    }

    /// How many permits are held: never more than there are.
    pub fn held(&self) -> (r: usize)
        ensures
            r == self.in_flight(),
            self.in_flight() <= self.capacity(),
    {
        proof {
            use_type_invariant(self);
        }
        self.held
    }

    /// How many permits are free.
    pub fn available(&self) -> (r: usize)
        ensures
            r == self.capacity() - self.in_flight(),
    {
        proof {
            use_type_invariant(self);
        }
        self.capacity - self.held
    }

    /// Takes a permit if one is free. Where none is, nothing changes and the
    /// operation has to wait.
    pub fn try_acquire(&mut self) -> (r: bool)
        ensures
            final(self).capacity() == old(self).capacity(),
            r == (old(self).in_flight() < old(self).capacity()),
            r ==> final(self).in_flight() == old(self).in_flight() + 1,
            !r ==> final(self).in_flight() == old(self).in_flight(),
            final(self).in_flight() <= final(self).capacity(),
    {
        proof {
            use_type_invariant(&*self);
        }
        if self.held < self.capacity {
            self.held = self.held + 1;
            true
        } else {
            false
        }
    }

    /// Gives a permit back. Where none is held, nothing changes.
    pub fn release(&mut self) -> (r: bool)
        ensures
            final(self).capacity() == old(self).capacity(),
            r == (old(self).in_flight() > 0),
            r ==> final(self).in_flight() == old(self).in_flight() - 1,
            !r ==> final(self).in_flight() == old(self).in_flight(),
            final(self).in_flight() <= final(self).capacity(),
    {
        proof {
            use_type_invariant(&*self);
        }
        if self.held > 0 {
            self.held = self.held - 1;
            true
        } else {
            false
        }
    }
}

/// The queue between two stages: empty, with room for sixteen messages.
pub fn channel<T>() -> (r: BoundedQueue<T>)
    ensures
        r.wf(),
        r.capacity() == 16,
        r@ == Seq::<T>::empty(),
{
    BoundedQueue::new(CHANNEL_CAPACITY)
}

/// A queue between two stages that holds a bounded number of messages, in
/// the order in which they were sent.
pub struct BoundedQueue<T> {
    capacity: usize,
    items: VecDeque<T>,
}

impl<T> BoundedQueue<T> {
    /// The queue holds no more than its capacity. Every queue that `new`
    /// made and that only the methods below have touched is well formed.
    pub closed spec fn wf(self) -> bool {
        self.items@.len() <= self.capacity
    }

    /// How many messages the queue holds at most.
    pub closed spec fn capacity(self) -> nat {
        self.capacity as nat
    }

    /// The messages in the queue, oldest first.
    pub closed spec fn view(self) -> Seq<T> {
        self.items@
    }

    /// A well-formed queue is within its capacity.
    pub proof fn at_most_capacity(self)
        requires
            self.wf(),
        ensures
            self@.len() <= self.capacity(),
    {
    }

    /// An empty queue for at most `capacity` messages.
    pub fn new(capacity: usize) -> (r: BoundedQueue<T>)
        ensures
            r.wf(),
            r.capacity() == capacity,
            r@ == Seq::<T>::empty(),
    {
        BoundedQueue { capacity, items: VecDeque::new() }
    }

    /// How many messages are in the queue.
    pub fn len(&self) -> (r: usize)
        ensures
            r == self@.len(),
    {
        self.items.len()
    }

    /// Whether a sender has to wait.
    pub fn is_full(&self) -> (r: bool)
        requires
            self.wf(),
        ensures
            r == (self@.len() == self.capacity()),
    {
        self.items.len() >= self.capacity
    }

    /// Sends a message. Where there is room it goes to the back of the
    /// queue. Where there is none the queue stays as it is and the message
    /// comes back to the sender, who waits and sends it again: a message is
    /// never dropped, and the queue never grows beyond its capacity.
    pub fn offer(&mut self, message: T) -> (r: Option<T>)
        requires
            old(self).wf(),
        ensures
            final(self).wf(),
            final(self).capacity() == old(self).capacity(),
            old(self)@.len() < old(self).capacity() ==> r is None && final(self)@ == old(self)@.push(
                message,
            ),
            old(self)@.len() >= old(self).capacity() ==> r == Some(message) && final(self)@ == old(
                self,
            )@,
    {
        if self.items.len() < self.capacity {
            self.items.push_back(message);
            None
        } else {
            Some(message)
        }
    }

    /// Receives the oldest message, if there is one.
    pub fn take(&mut self) -> (r: Option<T>)
        requires
            old(self).wf(),
        ensures
            final(self).wf(),
            final(self).capacity() == old(self).capacity(),
            old(self)@.len() == 0 ==> r is None && final(self)@ == old(self)@,
            old(self)@.len() > 0 ==> r == Some(old(self)@[0]) && final(self)@ == old(self)@.skip(1),
    {
        self.items.pop_front()
    }
}

} // verus!
