//! Whole runs of the machine against a script of outcomes.
//!
//! A script lists, in order, how the connection attempts end. The machine
//! asks for at most as many outcomes as it makes attempts; what a script
//! holds beyond that is never looked at, and a script that is too short
//! leaves the run with an attempt under way.

use crate::config::RetryConfig;
use crate::machine::{
    begin, effects_of, initial_effects, initial_state, next_state, step, Effect, EffectView, State,
};
use vstd::prelude::*;

verus! {

/// The state of the machine once the outcomes of `outcomes` were reported,
/// one after the other, from the start.
pub open spec fn run_state<H, E>(config: RetryConfig, outcomes: Seq<Result<H, E>>) -> State
    decreases outcomes.len(),
{
    if outcomes.len() == 0 {
        initial_state()
    } else {
        next_state(config, run_state(config, outcomes.drop_last()), outcomes.last())
    }
}

/// Every effect that was due, in order, from the start of a bootstrap for
/// `endpoint` until the outcomes of `outcomes` were reported.
pub open spec fn run_trace<H, E>(
    config: RetryConfig,
    endpoint: Seq<char>,
    outcomes: Seq<Result<H, E>>,
) -> Seq<EffectView<H, E>>
    decreases outcomes.len(),
{
    if outcomes.len() == 0 {
        initial_effects(endpoint)
    } else {
        run_trace(config, endpoint, outcomes.drop_last()) + effects_of(
            config,
            endpoint,
            run_state(config, outcomes.drop_last()),
            outcomes.last(),
        )
    }
}

/// Runs the machine for `endpoint` against a script: the state it ends in
/// and every effect that was due on the way.
pub fn replay<H, E>(
    config: &RetryConfig,
    endpoint: &str,
    outcomes: Vec<Result<H, E>>,
) -> (end: (State, Vec<Effect<H, E>>))
    ensures
        end.0 == run_state(*config, outcomes@),
        end.1.deep_view() == run_trace(*config, endpoint@, outcomes@),
{
    let (mut state, mut trace) = begin(endpoint);
    let ghost script = outcomes@;
    proof {
        assert(script.take(0).len() == 0);
    }
    for outcome in it: outcomes
        invariant
            state == run_state(*config, script.take(it.index() as int)),
            trace.deep_view() == run_trace(*config, endpoint@, script.take(it.index() as int)),
            it.seq() == script,
    {
        let ghost seen = script.take(it.index() + 1);
        let ghost before = trace.deep_view();
        let (next, mut effects) = step(config, endpoint, state, outcome);
        proof {
            assert(seen.drop_last() =~= script.take(it.index() as int));
            assert(seen.last() == outcome);
        }
        let ghost due = effects.deep_view();
        trace.append(&mut effects);
        proof {
            assert(trace.deep_view() =~= before + due);
        }
        state = next;
    }
    proof {
        assert(script.take(script.len() as int) =~= script);
    }
    (state, trace)
}

} // verus!
