//! The actor-internal handle.
//!
//! A [`Link`] is what an actor's `handle` sees of its own message loop: the
//! open/closed flag that gates further receipt. While the flag is set, the
//! loop keeps accepting inputs; once `close` clears it, the loop finishes
//! the in-flight `handle` call, forwards its reply, and terminates before
//! looking at the next input — even one already queued.

use vstd::prelude::*;

verus! {

/// The actor-side handle: carries the open/closed flag of the message loop.
pub struct Link {
    open: bool,
}

impl Link {
    /// Whether the message loop may still receive inputs.
    pub closed spec fn is_open(self) -> bool {
        self.open
    }

    /// Creates an open link; every message loop starts with one.
    pub fn new() -> (l: Self)
        ensures
            l.is_open(),
    {
        Link { open: true }
    }

    /// Signals that the actor should stop after handling the current
    /// message: the loop's next receive attempt fails without looking at
    /// the input channel.
    pub fn close(&mut self)
        ensures
            !final(self).is_open(),
    {
        self.open = false;
    }

    /// Whether the loop may still receive; the loop consults this before
    /// every receive attempt.
    pub fn open(&self) -> (b: bool)
        ensures
            b == self.is_open(),
    {
        self.open
    }
}

} // verus!
