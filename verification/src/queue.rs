//! The bounded hand-off queue between the capturing threads and the worker.

use std::collections::VecDeque;
use vstd::prelude::*;

verus! {

/// The capacity of a queue made with `BoundedQueue::with_default_capacity`.
pub const DEFAULT_CAPACITY: usize = 1000;

/// A first-in, first-out queue that never holds more than `capacity` items.
///
/// Its view is the sequence of the items it holds, oldest first.
pub struct BoundedQueue<T> {
    items: VecDeque<T>,
    capacity: usize,
}

impl<T> View for BoundedQueue<T> {
    type V = Seq<T>;

    closed spec fn view(&self) -> Seq<T> {
        self.items@
    }
}

impl<T> BoundedQueue<T> {
    /// The invariant of the type: the queue holds no more than its capacity.
    #[verifier::type_invariant]
    pub closed spec fn within_capacity(self) -> bool {
        self.items@.len() <= self.capacity
    }

    /// What the invariant says in terms of the view.
    pub proof fn lemma_within_capacity(self)
        requires
            self.within_capacity(),
        ensures
            self@.len() <= self.spec_capacity(),
    {
    }

    /// The most items that the queue holds at a time.
    pub closed spec fn spec_capacity(&self) -> nat {
        self.capacity as nat
    }

    /// Makes an empty queue for at most `capacity` items.
    pub fn new(capacity: usize) -> (queue: Self)
        ensures
            queue@ == Seq::<T>::empty(),
            queue.spec_capacity() == capacity,
    {
        BoundedQueue { items: VecDeque::new(), capacity }
    }

    /// Makes an empty queue of the default capacity.
    pub fn with_default_capacity() -> (queue: Self)
        ensures
            queue@ == Seq::<T>::empty(),
            queue.spec_capacity() == DEFAULT_CAPACITY,
    {
        Self::new(DEFAULT_CAPACITY)
    }

    /// Returns the capacity.
    pub fn capacity(&self) -> (capacity: usize)
        ensures
            capacity == self.spec_capacity(),
    {
        self.capacity
    }

    /// Returns the number of items held.
    pub fn len(&self) -> (len: usize)
        ensures
            len == self@.len(),
            len <= self.spec_capacity(),
    {
        proof {
            use_type_invariant(self);
        }
        self.items.len()
    }

    /// Tells whether the queue holds nothing.
    pub fn is_empty(&self) -> (empty: bool)
        ensures
            empty == (self@.len() == 0),
    {
        self.items.len() == 0
    }

    /// Tells whether the queue is at capacity, so that the next `try_put`
    /// would be turned away.
    pub fn is_full(&self) -> (full: bool)
        ensures
            full == (self@.len() >= self.spec_capacity()),
    {
        self.items.len() >= self.capacity
    }

    /// Appends `item` if there is room for it, and hands it back otherwise.
    ///
    /// A producer that must not lose the item waits and tries again.
    pub fn try_put(&mut self, item: T) -> (outcome: Result<(), T>)
        ensures
            final(self).spec_capacity() == old(self).spec_capacity(),
            final(self)@.len() <= final(self).spec_capacity(),
            old(self)@.len() < old(self).spec_capacity() ==> outcome is Ok && final(self)@
                == old(self)@.push(item),
            old(self)@.len() >= old(self).spec_capacity() ==> outcome == Err::<(), T>(item)
                && final(self)@ == old(self)@,
    {
        proof {
            use_type_invariant(&*self);
        }
        if self.items.len() < self.capacity {
            // The items are moved out while they change, and back once the
            // new item is among them.
            let mut items = VecDeque::new();
            std::mem::swap(&mut self.items, &mut items);
            items.push_back(item);
            std::mem::swap(&mut self.items, &mut items);
            Ok(())
        } else {
            Err(item)
        }
    }

    /// Removes and returns the oldest item, or returns `None` at once when
    /// the queue is empty.
    pub fn try_take(&mut self) -> (taken: Option<T>)
        ensures
            final(self).spec_capacity() == old(self).spec_capacity(),
            final(self)@.len() <= final(self).spec_capacity(),
            old(self)@.len() == 0 ==> taken is None && final(self)@ == old(self)@,
            old(self)@.len() > 0 ==> taken == Some(old(self)@[0]) && final(self)@ == old(
                self,
            )@.drop_first(),
    {
        proof {
            use_type_invariant(&*self);
        }
        let mut items = VecDeque::new();
        std::mem::swap(&mut self.items, &mut items);
        let taken = items.pop_front();
        std::mem::swap(&mut self.items, &mut items);
        taken
    }
}

} // verus!
