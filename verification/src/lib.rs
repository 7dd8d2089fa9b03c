//! A minimal actor core: stateful units of computation that receive typed
//! input messages, mutate private state, and reply with typed output
//! messages, never sharing memory with their caller.
//!
//! The core is an in-process, cooperative model of the actor runtime: the
//! message loop, the handle-lifecycle / reference-counting rules, and the
//! channel wiring between a caller-side [`bridge::Bridge`] and the actor's
//! internal [`link::Link`], including the explicit shutdown protocol.
//! Launching an actor inside a real isolated execution unit, and moving
//! bytes across that isolation boundary, belong to an outer runtime; the
//! logic that decides what happens to each message lives here, verified.
//!
//! Response shape: this core uses one reply per input, returned from
//! [`actor::Actor::handle`] and forwarded to a shared FIFO output queue.
//! Delivery is positional: when a bridge is shared, a receive may pick up a
//! response to another holder's request (see [`bridge::Bridge`]).

pub mod actor;
pub mod bridge;
pub mod codec;
pub mod counter;
pub mod link;
pub mod queue;
pub mod trace;

pub use actor::Actor;
pub use bridge::{spawn, spawn_with, Bridge, Error};
pub use codec::Message;
pub use counter::{Counter, CounterInput, CounterOutput};
pub use link::Link;
pub use queue::Queue;
