//! The caller-facing handle and the message loop it drives.
//!
//! [`Bridge`] pairs the caller side of the channel wiring (the input queue
//! it feeds and the output queue it drains) with the one context the spawn
//! created: exactly one actor instance and its [`Link`]. The runtime model
//! is cooperative and in-process: the actor's loop runs when the caller
//! yields to it — [`Bridge::receive`] and [`Bridge::get`] do so before
//! looking for a reply, and [`Bridge::poll`] does nothing else — and each
//! run drives the loop to quiescence: it handles queued inputs front to
//! back until the queue is drained or the link closes.
//!
//! Sharing is reference-counted, not copied: the bridge tracks how many
//! live handles feed the same actor. [`Bridge::clone_handle`] and
//! [`Bridge::drop_handle`] move that count, and once it reaches zero the
//! loop's next receive attempt observes closure and terminates. All handles
//! share one input queue and one output queue, so when several of them send
//! concurrently, a receive may return the reply to another handle's request:
//! correlation is positional (FIFO), not per-handle.

use vstd::prelude::*;

use crate::actor::Actor;
use crate::link::Link;
use crate::queue::Queue;
use crate::trace::{run_actor, run_closes, run_consumed, run_outputs};

verus! {

/// The uniform failure of `send`, `receive` and `get`.
///
/// The core does not say why a peer is gone, only that it is gone.
#[derive(Clone, Copy, Debug, PartialEq, Eq, Structural)]
pub enum Error {
    /// The complementary channel end no longer exists: the actor has
    /// terminated — closed itself, drained its senders, or failed — and
    /// no further message can cross.
    Dropped,
    /// No reply is pending and none can arrive before the caller sends
    /// again: a preemptive runtime would block here; this cooperative
    /// model reports it instead of deadlocking.
    WouldBlock,
}

/// The pairing of exactly one actor instance with exactly one link,
/// created at spawn time and torn down when the loop terminates.
struct Context<A: Actor> {
    actor: A,
    link: Link,
}

impl<A: Actor> Context<A> {
    /// One RUNNING -> RUNNING transition of the loop: handle an accepted
    /// input to completion and hand back the reply to forward.
    fn handle_one(&mut self, msg: &A::Input) -> (out: A::Output)
        requires
            old(self).link.is_open(),
        ensures
            final(self).actor == A::next_spec(old(self).actor, *msg),
            out == A::out_spec(old(self).actor, *msg),
            final(self).link.is_open() == !A::closes_spec(old(self).actor, *msg),
    {
        self.actor.handle(msg, &mut self.link)
    }
}

/// The caller-facing handle of one spawned actor.
///
/// In this in-process model the bridge value owns the whole wiring: both
/// queues, the context, and the count of live handles that share them.
pub struct Bridge<A: Actor> {
    ctx: Context<A>,
    inbox: Queue<A::Input>,
    outbox: Queue<A::Output>,
    handles: u64,
    running: bool,
}

impl<A: Actor> Bridge<A> {
    /// Whether the message loop is still in its RUNNING state.
    pub closed spec fn running(self) -> bool {
        self.running
    }

    /// The actor's current private state.
    pub closed spec fn actor_state(self) -> A {
        self.ctx.actor
    }

    /// Whether the link still admits receipt.
    pub closed spec fn link_open(self) -> bool {
        self.ctx.link.is_open()
    }

    /// The queued inputs the loop has not yet looked at, front first.
    pub closed spec fn inputs(self) -> Seq<A::Input> {
        self.inbox@
    }

    /// The forwarded replies not yet received, front first.
    pub closed spec fn outputs(self) -> Seq<A::Output> {
        self.outbox@
    }

    /// How many live handles share this actor's channel ends.
    pub closed spec fn handles(self) -> u64 {
        self.handles
    }

    /// A quiescent bridge is well formed when a running loop still holds
    /// an open link: the loop terminates on the very receive attempt that
    /// finds the link closed.
    pub open spec fn wf(self) -> bool {
        self.running() ==> self.link_open()
    }

    /// The replies pending after the loop next runs to quiescence.
    pub open spec fn polled_outputs(self) -> Seq<A::Output> {
        if self.running() {
            self.outputs() + run_outputs::<A>(self.actor_state(), self.inputs())
        } else {
            self.outputs()
        }
    }

    /// The inputs still queued after the loop next runs to quiescence.
    pub open spec fn polled_inputs(self) -> Seq<A::Input> {
        if self.running() {
            self.inputs().skip(run_consumed::<A>(self.actor_state(), self.inputs()))
        } else {
            self.inputs()
        }
    }

    /// The actor state after the loop next runs to quiescence.
    pub open spec fn polled_actor(self) -> A {
        if self.running() {
            run_actor::<A>(self.actor_state(), self.inputs())
        } else {
            self.actor_state()
        }
    }

    /// Whether the loop is still running after it next runs to quiescence:
    /// it terminates once a handled input closed the link, or once the
    /// queue is drained and no live handle remains to refill it.
    pub open spec fn polled_running(self) -> bool {
        self.running() && !run_closes::<A>(self.actor_state(), self.inputs())
            && self.handles() > 0
    }

    /// Lets the actor's message loop run to quiescence.
    ///
    /// The loop handles queued inputs front to back, forwarding exactly one
    /// reply per input, until the queue is drained or a handled input closes
    /// the link. A loop whose link closed, and a drained loop with no live
    /// handle left, terminates — so dropping every handle is always
    /// eventually observed (liveness of shutdown). Inputs queued behind a
    /// closing one are never handled.
    pub fn poll(&mut self)
        requires
            old(self).wf(),
        ensures
            final(self).wf(),
            final(self).outputs() =~= old(self).polled_outputs(),
            final(self).inputs() =~= old(self).polled_inputs(),
            final(self).actor_state() == old(self).polled_actor(),
            final(self).running() == old(self).polled_running(),
            final(self).handles() == old(self).handles(),
    {
        if !self.running {
            return;
        }
        let ghost a0 = self.ctx.actor;
        let ghost s0 = self.inbox@;
        let ghost outs0 = self.outbox@;
        let ghost h0 = self.handles;
        let ghost mut k: int = 0;
        proof {
            assert(s0.skip(0) =~= s0);
        }
        while self.ctx.link.open() && !self.inbox.is_empty()
            invariant
                self.running,
                self.handles == h0,
                0 <= k <= s0.len(),
                self.inbox@ =~= s0.skip(k),
                self.ctx.link.is_open() ==> (
                    outs0 + run_outputs::<A>(a0, s0)
                        =~= self.outbox@ + run_outputs::<A>(self.ctx.actor, self.inbox@)
                ),
                self.ctx.link.is_open() ==> run_actor::<A>(a0, s0)
                    == run_actor::<A>(self.ctx.actor, self.inbox@),
                self.ctx.link.is_open() ==> run_closes::<A>(a0, s0)
                    == run_closes::<A>(self.ctx.actor, self.inbox@),
                self.ctx.link.is_open() ==> run_consumed::<A>(a0, s0)
                    == k + run_consumed::<A>(self.ctx.actor, self.inbox@),
                !self.ctx.link.is_open() ==> (
                    self.outbox@ =~= outs0 + run_outputs::<A>(a0, s0)
                ),
                !self.ctx.link.is_open() ==> run_closes::<A>(a0, s0),
                !self.ctx.link.is_open() ==> run_consumed::<A>(a0, s0) == k,
                !self.ctx.link.is_open() ==> self.ctx.actor == run_actor::<A>(a0, s0),
            decreases self.inbox@.len(),
        {
            let ghost pre_inbox = self.inbox@;
            let msg = self.inbox.pop().unwrap();
            let out = self.ctx.handle_one(&msg);
            self.outbox.push(out);
            proof {
                assert(pre_inbox.skip(1) =~= s0.skip(k + 1)) by {
                    assert(s0.skip(k).skip(1) =~= s0.skip(k + 1));
                }
                k = k + 1;
            }
        }
        if !self.ctx.link.open() || self.handles == 0 {
            self.running = false;
        }
    }

    /// Enqueues `msg` on the input channel, without blocking and without
    /// yielding to the actor. Fails with [`Error::Dropped`] if and only if
    /// the actor has terminated; nothing else changes then. A message
    /// accepted here is handled in arrival order — unless an earlier input
    /// closes the link first, in which case it is dropped, never handled.
    pub fn send(&mut self, msg: A::Input) -> (r: Result<(), Error>)
        requires
            old(self).wf(),
        ensures
            final(self).wf(),
            r is Ok <==> old(self).running(),
            !old(self).running() ==> r == Err::<(), Error>(Error::Dropped),
            old(self).running() ==> final(self).inputs() =~= old(self).inputs().push(msg),
            !old(self).running() ==> final(self).inputs() =~= old(self).inputs(),
            final(self).running() == old(self).running(),
            final(self).actor_state() == old(self).actor_state(),
            final(self).outputs() =~= old(self).outputs(),
            final(self).handles() == old(self).handles(),
            final(self).link_open() == old(self).link_open(),
    {
        if self.running {
            self.inbox.push(msg);
            Ok(())
        } else {
            Err(Error::Dropped)
        }
    }

    /// Takes the next reply: yields to the actor's loop, then dequeues the
    /// front output. Fails with [`Error::Dropped`] if and only if no reply
    /// is pending and the loop has terminated, and with
    /// [`Error::WouldBlock`] if and only if no reply is pending while the
    /// loop still runs — a caller that a real scheduler would park.
    ///
    /// When handles are shared, the reply returned is the front of the one
    /// shared output queue, not necessarily the reply to this caller's own
    /// request.
    pub fn receive(&mut self) -> (r: Result<A::Output, Error>)
        requires
            old(self).wf(),
        ensures
            final(self).wf(),
            final(self).inputs() =~= old(self).polled_inputs(),
            final(self).actor_state() == old(self).polled_actor(),
            final(self).running() == old(self).polled_running(),
            final(self).handles() == old(self).handles(),
            old(self).polled_outputs().len() > 0 ==> (
                r == Ok::<A::Output, Error>(old(self).polled_outputs()[0])
                    && final(self).outputs() =~= old(self).polled_outputs().skip(1)
            ),
            old(self).polled_outputs().len() == 0 ==> (
                final(self).outputs() =~= old(self).polled_outputs()
                    && r == (if old(self).polled_running() {
                        Err::<A::Output, Error>(Error::WouldBlock)
                    } else {
                        Err::<A::Output, Error>(Error::Dropped)
                    })
            ),
    {
        self.poll();
        match self.outbox.pop() {
            Some(out) => Ok(out),
            None => {
                if self.running {
                    Err(Error::WouldBlock)
                } else {
                    Err(Error::Dropped)
                }
            },
        }
    }

    /// Records one more live handle sharing this actor's channel ends:
    /// cloning a handle duplicates the ownership tokens, it does not give
    /// the clone private channels. Every clone feeds the same input queue
    /// and draws from the same output queue.
    pub fn clone_handle(&mut self)
        requires
            old(self).wf(),
            old(self).handles() < u64::MAX,
        ensures
            final(self).wf(),
            final(self).handles() == old(self).handles() + 1,
            final(self).running() == old(self).running(),
            final(self).actor_state() == old(self).actor_state(),
            final(self).inputs() =~= old(self).inputs(),
            final(self).outputs() =~= old(self).outputs(),
            final(self).link_open() == old(self).link_open(),
    {
        self.handles = self.handles + 1;
    }

    /// Records that one live handle was dropped. Once none remains, the
    /// loop's next receive attempt on a drained queue observes closure and
    /// terminates (see [`Bridge::poll`]).
    pub fn drop_handle(&mut self)
        requires
            old(self).wf(),
        ensures
            final(self).wf(),
            old(self).handles() > 0 ==> final(self).handles() == old(self).handles() - 1,
            old(self).handles() == 0 ==> final(self).handles() == 0,
            final(self).running() == old(self).running(),
            final(self).actor_state() == old(self).actor_state(),
            final(self).inputs() =~= old(self).inputs(),
            final(self).outputs() =~= old(self).outputs(),
            final(self).link_open() == old(self).link_open(),
    {
        if self.handles > 0 {
            self.handles = self.handles - 1;
        }
    }

    /// Whether the actor's loop is still running (termination is observed
    /// at the latest by the first [`Bridge::poll`] after its cause).
    pub fn is_running(&self) -> (b: bool)
        ensures
            b == self.running(),
    {
        self.running
    }

    /// How many live handles share this actor.
    pub fn live_handles(&self) -> (n: u64)
        ensures
            n == self.handles(),
    {
        self.handles
    }

    /// How many replies are pending, forwarded but not yet received.
    pub fn pending_replies(&self) -> (n: usize)
        ensures
            n == self.outputs().len(),
    {
        self.outbox.len()
    }

    /// `send(msg)` then `receive()`: the request/response convenience.
    ///
    /// On a running actor this always returns a reply — the front of the
    /// shared output queue once the loop has handled `msg` or stopped at a
    /// closing input before it. On a terminated actor it fails with
    /// [`Error::Dropped`] and changes nothing.
    pub fn get(&mut self, msg: A::Input) -> (r: Result<A::Output, Error>)
        requires
            old(self).wf(),
        ensures
            final(self).wf(),
            final(self).handles() == old(self).handles(),
            r is Ok <==> old(self).running(),
            !old(self).running() ==> r == Err::<A::Output, Error>(Error::Dropped)
                && final(self).inputs() =~= old(self).inputs()
                && final(self).outputs() =~= old(self).outputs()
                && final(self).actor_state() == old(self).actor_state()
                && !final(self).running(),
            old(self).running() ==> (
                {
                    let a = old(self).actor_state();
                    let s = old(self).inputs().push(msg);
                    let outs = old(self).outputs() + run_outputs::<A>(a, s);
                    &&& r == Ok::<A::Output, Error>(outs[0])
                    &&& final(self).outputs() =~= outs.skip(1)
                    &&& final(self).inputs() =~= s.skip(run_consumed::<A>(a, s))
                    &&& final(self).actor_state() == run_actor::<A>(a, s)
                    &&& final(self).running() == (!run_closes::<A>(a, s)
                        && old(self).handles() > 0)
                }
            ),
    {
        match self.send(msg) {
            Ok(()) => {
                proof {
                    crate::trace::lemma_one_reply_per_input::<A>(
                        self.ctx.actor,
                        self.inbox@,
                    );
                }
                self.receive()
            },
            Err(e) => Err(e),
        }
    }
}

/// No loss and no duplication under sharing: however many handles issued
/// them, when N inputs are queued in total and none of them closes the
/// actor, running the loop makes exactly N more replies receivable in
/// total — whichever handle draws them.
pub proof fn lemma_no_loss_no_duplication<A: Actor>(b: Bridge<A>)
    requires
        b.running(),
        !run_closes::<A>(b.actor_state(), b.inputs()),
    ensures
        b.polled_outputs().len() == b.outputs().len() + b.inputs().len(),
        b.polled_inputs().len() == 0,
{
    crate::trace::lemma_one_reply_per_input::<A>(b.actor_state(), b.inputs());
}

/// Liveness of shutdown: once every handle referencing an actor has been
/// dropped, the loop does not keep running — its next run to quiescence
/// (any [`Bridge::poll`], or the poll inside [`Bridge::receive`]) observes
/// closure after draining what was queued, and terminates.
pub proof fn lemma_shutdown_liveness<A: Actor>(b: Bridge<A>)
    requires
        b.handles() == 0,
    ensures
        !b.polled_running(),
{
}

/// Spawns a new actor: allocates the channel pair, builds the context —
/// the actor created from `ctx`, paired with a fresh open link — and
/// returns the one handle to it. The loop starts in its RUNNING state with
/// nothing queued. In this in-process model the launch itself cannot fail;
/// launching inside a real isolated execution unit is the outer runtime's
/// affair.
pub fn spawn_with<A: Actor>(ctx: A::Context) -> (b: Bridge<A>)
    ensures
        b.wf(),
        b.running(),
        b.link_open(),
        b.actor_state() == A::init_spec(ctx),
        b.inputs() =~= Seq::<A::Input>::empty(),
        b.outputs() =~= Seq::<A::Output>::empty(),
        b.handles() == 1,
{
    Bridge {
        ctx: Context { actor: A::create(ctx), link: Link::new() },
        inbox: Queue::new(),
        outbox: Queue::new(),
        handles: 1,
        running: true,
    }
}

/// [`spawn_with`] for actors whose construction takes no context value.
pub fn spawn<A: Actor<Context = ()>>() -> (b: Bridge<A>)
    ensures
        b.wf(),
        b.running(),
        b.link_open(),
        b.actor_state() == A::init_spec(()),
        b.inputs() =~= Seq::<A::Input>::empty(),
        b.outputs() =~= Seq::<A::Output>::empty(),
        b.handles() == 1,
{
    spawn_with::<A>(())
}

} // verus!
