//! A counting actor: the library's own example [`Actor`] implementation.
//!
//! It holds one number, increments it on [`CounterInput::AddOne`] and
//! replies with the new value, and shuts itself down gracefully on
//! [`CounterInput::Stop`], still replying with the current value. The
//! sequential request/response law [`lemma_counter_sequence`] is proved of
//! it: a run over n `AddOne` inputs replies with the n successive counts,
//! none skipped, none repeated.

use vstd::prelude::*;

use crate::actor::Actor;
use crate::link::Link;
use crate::trace::{run_actor, run_closes, run_consumed, run_outputs};

verus! {

/// The example actor: its state is one counter.
pub struct Counter {
    /// The current count.
    pub count: u32,
}

/// The counter's input messages.
#[derive(Clone, Copy, Debug, PartialEq, Eq, Structural)]
pub enum CounterInput {
    /// Increment the count by one and reply with the new value.
    AddOne,
    /// Close the link — the loop stops after this message — and reply
    /// with the current value.
    Stop,
}

/// The counter's output messages.
#[derive(Clone, Copy, Debug, PartialEq, Eq, Structural)]
pub enum CounterOutput {
    /// The count after handling the input.
    Count(u32),
}

/// The count after one `AddOne`: one more, stopping at the type's top
/// value rather than overflowing.
pub open spec fn bumped(c: u32) -> u32 {
    if c == u32::MAX {
        c
    } else {
        (c + 1) as u32
    }
}

impl Actor for Counter {
    type Input = CounterInput;
    type Output = CounterOutput;
    type Context = ();

    open spec fn init_spec(ctx: ()) -> Counter {
        Counter { count: 0 }
    }

    open spec fn next_spec(pre: Counter, msg: CounterInput) -> Counter {
        match msg {
            CounterInput::AddOne => Counter { count: bumped(pre.count) },
            CounterInput::Stop => pre,
        }
    }

    open spec fn out_spec(pre: Counter, msg: CounterInput) -> CounterOutput {
        match msg {
            CounterInput::AddOne => CounterOutput::Count(bumped(pre.count)),
            CounterInput::Stop => CounterOutput::Count(pre.count),
        }
    }

    open spec fn closes_spec(pre: Counter, msg: CounterInput) -> bool {
        match msg {
            CounterInput::AddOne => false,
            CounterInput::Stop => true,
        }
    }

    fn create(ctx: ()) -> (a: Counter) {
        Counter { count: 0 }
    }

    fn handle(&mut self, msg: &CounterInput, link: &mut Link) -> (out: CounterOutput) {
        match msg {
            CounterInput::AddOne => {
                if self.count < u32::MAX {
                    self.count = self.count + 1;
                }
                CounterOutput::Count(self.count)
            },
            CounterInput::Stop => {
                link.close();
                CounterOutput::Count(self.count)
            },
        }
    }
}

/// A queue of n `AddOne` inputs.
pub open spec fn add_ones(n: nat) -> Seq<CounterInput> {
    Seq::new(n, |i: int| CounterInput::AddOne)
}

/// Sequential request/response: a counter run over n `AddOne` inputs
/// handles them all, never closes, ends n higher, and replies with the n
/// successive counts in order — no value skipped, none repeated.
pub proof fn lemma_counter_sequence(c: Counter, n: nat)
    requires
        c.count + n <= u32::MAX,
    ensures
        !run_closes::<Counter>(c, add_ones(n)),
        run_consumed::<Counter>(c, add_ones(n)) == n,
        run_actor::<Counter>(c, add_ones(n)).count == c.count + n,
        run_outputs::<Counter>(c, add_ones(n)).len() == n,
        forall|i: int|
            0 <= i < n ==> run_outputs::<Counter>(c, add_ones(n))[i]
                == CounterOutput::Count((c.count + i + 1) as u32),
    decreases n,
{
    let s = add_ones(n);
    if n == 0 {
        assert(s.len() == 0);
    } else {
        assert(s[0] == CounterInput::AddOne);
        let next = Counter::next_spec(c, s[0]);
        assert(next.count == c.count + 1);
        assert(s.skip(1) =~= add_ones((n - 1) as nat));
        lemma_counter_sequence(next, (n - 1) as nat);
        let rest = run_outputs::<Counter>(next, add_ones((n - 1) as nat));
        assert(run_outputs::<Counter>(c, s) =~= seq![Counter::out_spec(c, s[0])] + rest);
        assert forall|i: int|
            0 <= i < n implies run_outputs::<Counter>(c, s)[i]
                == CounterOutput::Count((c.count + i + 1) as u32) by {
            if i == 0 {
                assert(Counter::out_spec(c, s[0]) == CounterOutput::Count((c.count + 1) as u32));
            } else {
                assert(run_outputs::<Counter>(c, s)[i] == rest[i - 1]);
                assert(rest[i - 1] == CounterOutput::Count((next.count + (i - 1) + 1) as u32));
            }
        }
    }
}

} // verus!
