//! The actor contract.
//!
//! A type implementing [`Actor`] is a stateful unit of computation: it is
//! built once by `create`, then handles one input message at a time with
//! exclusive access to its own state, replying exactly once per input.
//! The spec functions pin each implementation down: what `create` builds,
//! and how `handle` steps the state, what it replies, and whether it asks
//! the loop to close. The message loop's semantics (see `trace`) is stated
//! over these spec functions, so everything proved of the loop holds of
//! every actor implemented here.

use vstd::prelude::*;

use crate::link::Link;

verus! {

/// A stateful unit of computation driven by a message loop.
///
/// `Input` and `Output` are the typed messages that cross the isolation
/// boundary; `Context` parameterizes construction. `handle` receives the
/// actor-side [`Link`] and may call [`Link::close`] on it to request a
/// graceful shutdown after the current message.
pub trait Actor: Sized {
    type Input;
    type Output;
    type Context;

    /// The state `create` builds from a context value.
    spec fn init_spec(ctx: Self::Context) -> Self;

    /// The state after handling `msg` in state `pre`.
    spec fn next_spec(pre: Self, msg: Self::Input) -> Self;

    /// The reply to `msg` handled in state `pre`.
    spec fn out_spec(pre: Self, msg: Self::Input) -> Self::Output;

    /// Whether handling `msg` in state `pre` closes the link.
    spec fn closes_spec(pre: Self, msg: Self::Input) -> bool;

    /// Builds the initial state; called exactly once, before the loop
    /// accepts any message.
    fn create(ctx: Self::Context) -> (a: Self)
        ensures
            a == Self::init_spec(ctx),
    ;

    /// Handles one input message with exclusive access to the state, and
    /// replies exactly once. The loop only invokes it through an open link.
    fn handle(&mut self, msg: &Self::Input, link: &mut Link) -> (out: Self::Output)
        requires
            old(link).is_open(),
        ensures
            *final(self) == Self::next_spec(*old(self), *msg),
            out == Self::out_spec(*old(self), *msg),
            final(link).is_open() == !Self::closes_spec(*old(self), *msg),
    ;
}

} // verus!
