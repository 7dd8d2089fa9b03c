//! The unbounded FIFO queue that models one direction of a channel pair.
//!
//! A channel end's reference counting and closure detection live with the
//! owner of the queue (see `bridge`); the queue itself is only the ordered
//! buffer: push at the back, pop at the front.

use vstd::prelude::*;

verus! {

/// An unbounded first-in first-out message buffer.
///
/// The view of a queue is the sequence of queued values, front first.
pub struct Queue<T> {
    items: Vec<T>,
}

impl<T> View for Queue<T> {
    type V = Seq<T>;

    closed spec fn view(&self) -> Seq<T> {
        self.items@
    }
}

impl<T> Queue<T> {
    /// Creates an empty queue.
    pub fn new() -> (q: Self)
        ensures
            q@ =~= Seq::<T>::empty(),
    {
        Queue { items: Vec::new() }
    }

    /// Enqueues `value` at the back.
    pub fn push(&mut self, value: T)
        ensures
            final(self)@ =~= old(self)@.push(value),
    {
        self.items.push(value);
    }

    /// Dequeues the front value, or returns `None` on an empty queue.
    pub fn pop(&mut self) -> (r: Option<T>)
        ensures
            old(self)@.len() == 0 ==> r is None && final(self)@ =~= old(self)@,
            old(self)@.len() > 0 ==> r == Some(old(self)@[0])
                && final(self)@ =~= old(self)@.skip(1),
    {
        if self.items.len() == 0 {
            None
        } else {
            let v = self.items.remove(0);
            Some(v)
        }
    }

    /// The number of queued values.
    pub fn len(&self) -> (n: usize)
        ensures
            n == self@.len(),
    {
        self.items.len()
    }

    /// Whether the queue holds no value.
    pub fn is_empty(&self) -> (b: bool)
        ensures
            b == (self@.len() == 0),
    {
        self.items.len() == 0
    }
}

} // verus!
