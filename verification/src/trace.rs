//! What the message loop does to a queue of inputs, stated as spec
//! functions.
//!
//! Starting from actor state `a` with queued inputs `s`, the loop handles
//! inputs front to back, forwarding one reply per handled input, until it
//! has drained the queue or an input closes the link; inputs queued behind
//! the closing one are never handled. These functions give the loop's exact
//! trace — the replies it forwards, the inputs it consumes, the state it
//! reaches, and whether it closed — and the executable loop in `bridge` is
//! proved against them.

use vstd::prelude::*;

use crate::actor::Actor;

verus! {

/// The replies the loop forwards, in production order.
pub open spec fn run_outputs<A: Actor>(a: A, s: Seq<A::Input>) -> Seq<A::Output>
    decreases s.len(),
{
    if s.len() == 0 {
        Seq::empty()
    } else if A::closes_spec(a, s[0]) {
        seq![A::out_spec(a, s[0])]
    } else {
        seq![A::out_spec(a, s[0])] + run_outputs::<A>(A::next_spec(a, s[0]), s.skip(1))
    }
}

/// How many queued inputs the loop handles before stopping.
pub open spec fn run_consumed<A: Actor>(a: A, s: Seq<A::Input>) -> int
    decreases s.len(),
{
    if s.len() == 0 {
        0
    } else if A::closes_spec(a, s[0]) {
        1
    } else {
        1 + run_consumed::<A>(A::next_spec(a, s[0]), s.skip(1))
    }
}

/// Whether some handled input closes the link.
pub open spec fn run_closes<A: Actor>(a: A, s: Seq<A::Input>) -> bool
    decreases s.len(),
{
    if s.len() == 0 {
        false
    } else if A::closes_spec(a, s[0]) {
        true
    } else {
        run_closes::<A>(A::next_spec(a, s[0]), s.skip(1))
    }
}

/// The actor state after the last handled input.
pub open spec fn run_actor<A: Actor>(a: A, s: Seq<A::Input>) -> A
    decreases s.len(),
{
    if s.len() == 0 {
        a
    } else if A::closes_spec(a, s[0]) {
        A::next_spec(a, s[0])
    } else {
        run_actor::<A>(A::next_spec(a, s[0]), s.skip(1))
    }
}

/// No loss and no duplication: the loop forwards exactly one reply per
/// handled input, it never handles more inputs than were queued, and as
/// long as no input closes the link it handles every queued input. So if
/// N inputs are sent in total — however many holders of a shared bridge
/// sent them — and none of them closes the actor, exactly N replies become
/// receivable in total.
pub proof fn lemma_one_reply_per_input<A: Actor>(a: A, s: Seq<A::Input>)
    ensures
        run_outputs::<A>(a, s).len() == run_consumed::<A>(a, s),
        0 <= run_consumed::<A>(a, s) <= s.len(),
        !run_closes::<A>(a, s) ==> run_consumed::<A>(a, s) == s.len(),
    decreases s.len(),
{
    if s.len() == 0 {
    } else if A::closes_spec(a, s[0]) {
    } else {
        lemma_one_reply_per_input::<A>(A::next_spec(a, s[0]), s.skip(1));
    }
}

/// Close-then-stop: when the first queued input closes the link, the loop
/// still forwards the reply to that input, but handles nothing queued
/// behind it.
pub proof fn lemma_close_stops_the_loop<A: Actor>(a: A, s: Seq<A::Input>)
    requires
        s.len() > 0,
        A::closes_spec(a, s[0]),
    ensures
        run_outputs::<A>(a, s) =~= seq![A::out_spec(a, s[0])],
        run_consumed::<A>(a, s) == 1,
        run_closes::<A>(a, s),
{
}

} // verus!
