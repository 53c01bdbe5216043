//! What holds of every run.

use crate::config::{RetryConfig, MAX_ATTEMPTS};
use crate::error::{failure_text, failure_text_with_default_budget, TerminalErrorView};
use crate::machine::{
    attempt_effects, effects_of, exhaustion_effects, failure_effects, next_state, EffectView,
    NoticeView, State,
};
use crate::run::{run_state, run_trace};
use crate::trace::{
    announced, attempts_made, cause_of, delays, factory_calls, failed_round, failed_rounds,
    failures_seen, handle_of, history, lemma_failed_rounds_read_a_prefix,
    lemma_failed_rounds_return_nothing, lemma_measures_of_failed_rounds, measures_of_history,
    outcomes_used,
};
use vstd::prelude::*;

verus! {

/// The state in which a run ends says how the run went, and its trace is
/// the history of that state. The state fits the configuration; the run
/// has looked at no more outcomes than the script holds; each of them but
/// the last was a failure; a run that connected did so on its last outcome,
/// and a run with an attempt under way has used up its script.
pub proof fn run_follows_history<H, E>(
    config: RetryConfig,
    endpoint: Seq<char>,
    outcomes: Seq<Result<H, E>>,
)
    requires
        config.wf(),
    ensures
        run_state(config, outcomes).wf(config),
        run_trace(config, endpoint, outcomes) == history(
            config,
            endpoint,
            outcomes,
            run_state(config, outcomes),
        ),
        outcomes_used(config, run_state(config, outcomes)) <= outcomes.len(),
        forall|i: int|
            0 <= i < failures_seen(config, run_state(config, outcomes)) ==> outcomes[i] is Err,
        run_state(config, outcomes) matches State::Attempting { attempt } ==> attempt - 1
            == outcomes.len(),
        run_state(config, outcomes) matches State::Succeeded { attempt }
            ==> outcomes[attempt - 1] is Ok,
    decreases outcomes.len(),
{
    let state = run_state(config, outcomes);
    let trace = run_trace(config, endpoint, outcomes);
    if outcomes.len() == 0 {
        assert(trace =~= history(config, endpoint, outcomes, state));
    } else {
        let earlier = outcomes.drop_last();
        let before = run_state(config, earlier);
        let failures = failures_seen(config, before);
        run_follows_history(config, endpoint, earlier);
        assert forall|i: int| 0 <= i < earlier.len() implies earlier[i] == outcomes[i] by {}
        lemma_failed_rounds_read_a_prefix(config, endpoint, earlier, outcomes, failures);
        let rounds = failed_rounds(config, endpoint, outcomes, failures);
        match before {
            State::Attempting { attempt } => {
                let tried = attempt_effects::<H, E>(endpoint, attempt);
                assert(run_trace(config, endpoint, earlier) == rounds + tried);
                match outcomes.last() {
                    Ok(handle) => {
                        assert(state == State::Succeeded { attempt });
                        assert(handle_of(outcomes[attempt - 1]) == handle);
                        assert(trace =~= rounds + tried + seq![EffectView::Return(Ok(handle))]);
                    },
                    Err(cause) => {
                        let failed = failure_effects::<H, E>(config, endpoint, cause);
                        let longer = failed_rounds(config, endpoint, outcomes, failures + 1);
                        assert(cause_of(outcomes[failures as int]) == cause);
                        assert(longer =~= rounds + tried + failed);
                        assert(failures_seen(config, state) == failures + 1);
                        if attempt < config.budget() {
                            assert(trace =~= longer + attempt_effects::<H, E>(
                                endpoint,
                                (attempt + 1) as usize,
                            ));
                        } else {
                            assert(trace =~= longer + exhaustion_effects::<H, E>(
                                config,
                                endpoint,
                            ));
                        }
                        assert forall|i: int| 0 <= i < failures + 1 implies outcomes[i] is Err by {
                            if i < failures {
                                assert(earlier[i] is Err);
                            }
                        }
                    },
                }
            },
            State::Succeeded { attempt } => {
                assert(state == before);
                assert(earlier[attempt - 1] == outcomes[attempt - 1]);
                assert(trace =~= run_trace(config, endpoint, earlier));
            },
            State::Exhausted => {
                assert(state == before);
                assert(trace =~= run_trace(config, endpoint, earlier));
            },
        }
    }
}

/// A terminal state is final: whatever outcome is reported there, the state
/// stays and no effect is due.
pub proof fn terminal_states_absorb<H, E>(
    config: RetryConfig,
    endpoint: Seq<char>,
    state: State,
    outcome: Result<H, E>,
)
    requires
        state.is_terminal(),
    ensures
        next_state(config, state, outcome) == state,
        effects_of(config, endpoint, state, outcome) == Seq::<EffectView<H, E>>::empty(),
{
}

/// What a script holds after the outcome that ended the run is never looked
/// at: once the first `used` outcomes have led to a terminal state, the run
/// is that of those outcomes alone.
pub proof fn outcomes_after_the_end_are_ignored<H, E>(
    config: RetryConfig,
    endpoint: Seq<char>,
    outcomes: Seq<Result<H, E>>,
    used: nat,
)
    requires
        used <= outcomes.len(),
        run_state(config, outcomes.take(used as int)).is_terminal(),
    ensures
        run_state(config, outcomes) == run_state(config, outcomes.take(used as int)),
        run_trace(config, endpoint, outcomes) == run_trace(
            config,
            endpoint,
            outcomes.take(used as int),
        ),
    decreases outcomes.len(),
{
    if used == outcomes.len() {
        assert(outcomes.take(used as int) =~= outcomes);
    } else {
        assert(outcomes.drop_last().take(used as int) =~= outcomes.take(used as int));
        outcomes_after_the_end_are_ignored(config, endpoint, outcomes.drop_last(), used);
        assert(run_trace(config, endpoint, outcomes) =~= run_trace(
            config,
            endpoint,
            outcomes.drop_last(),
        ));
    }
}

/// As long as every attempt fails, the machine goes from one attempt to the
/// next, and is exhausted once as many attempts have failed as the budget
/// holds.
pub proof fn failures_use_up_the_budget<H, E>(config: RetryConfig, outcomes: Seq<Result<H, E>>)
    requires
        config.wf(),
        forall|i: int| 0 <= i < outcomes.len() ==> outcomes[i] is Err,
    ensures
        run_state(config, outcomes) == if outcomes.len() < config.budget() {
            State::Attempting { attempt: (outcomes.len() + 1) as usize }
        } else {
            State::Exhausted
        },
    decreases outcomes.len(),
{
    if outcomes.len() > 0 {
        failures_use_up_the_budget(config, outcomes.drop_last());
    }
}

/// If the first attempt connects, the run ends connected after exactly one
/// call of the factory and without a sleep, and the caller gets the handle
/// of that connection.
pub proof fn success_on_first_attempt<H, E>(
    config: RetryConfig,
    endpoint: Seq<char>,
    outcomes: Seq<Result<H, E>>,
)
    requires
        config.wf(),
        outcomes.len() >= 1,
        outcomes[0] is Ok,
    ensures
        run_state(config, outcomes) == (State::Succeeded { attempt: 1 }),
        run_trace(config, endpoint, outcomes) == attempt_effects::<H, E>(endpoint, 1) + seq![
            EffectView::Return(Ok(handle_of(outcomes[0]))),
        ],
        factory_calls(run_trace(config, endpoint, outcomes)) == 1,
        delays(run_trace(config, endpoint, outcomes)) == Seq::<u64>::empty(),
        run_trace(config, endpoint, outcomes).last() == EffectView::<H, E>::Return(
            Ok(handle_of(outcomes[0])),
        ),
{
    success_on_kth_attempt(config, endpoint, outcomes, 1);
    assert(run_trace(config, endpoint, outcomes) =~= attempt_effects::<H, E>(endpoint, 1) + seq![
        EffectView::Return(Ok(handle_of(outcomes[0]))),
    ]);
    assert(delays(run_trace(config, endpoint, outcomes)) =~= Seq::<u64>::empty());
}

/// If the attempts `1` to `k - 1` fail and attempt `k` connects, with `k`
/// within the budget, the run ends connected after exactly `k` calls of the
/// factory and exactly `k - 1` sleeps, each of the configured length, and
/// the caller gets the handle of that connection.
pub proof fn success_on_kth_attempt<H, E>(
    config: RetryConfig,
    endpoint: Seq<char>,
    outcomes: Seq<Result<H, E>>,
    k: nat,
)
    requires
        config.wf(),
        1 <= k <= config.budget(),
        outcomes.len() >= k,
        forall|i: int| 0 <= i < k - 1 ==> outcomes[i] is Err,
        outcomes[k - 1] is Ok,
    ensures
        run_state(config, outcomes) == (State::Succeeded { attempt: k as usize }),
        run_trace(config, endpoint, outcomes) == history(
            config,
            endpoint,
            outcomes,
            State::Succeeded { attempt: k as usize },
        ),
        factory_calls(run_trace(config, endpoint, outcomes)) == k,
        delays(run_trace(config, endpoint, outcomes)) == Seq::new(
            (k - 1) as nat,
            |i: int| config.delay(),
        ),
        run_trace(config, endpoint, outcomes).last() == EffectView::<H, E>::Return(
            Ok(handle_of(outcomes[k - 1])),
        ),
{
    let failed = outcomes.take(k - 1);
    let used = outcomes.take(k as int);
    failures_use_up_the_budget(config, failed);
    assert(used.drop_last() =~= failed);
    assert(used.last() == outcomes[k - 1]);
    outcomes_after_the_end_are_ignored(config, endpoint, outcomes, k);
    run_follows_history(config, endpoint, outcomes);
    measures_of_history(config, endpoint, outcomes, run_state(config, outcomes));
}

/// If every attempt fails, the run ends exhausted after exactly as many
/// calls of the factory as the budget holds and as many sleeps, each of the
/// configured length. The last sleep follows the last failed attempt and
/// comes before exhaustion is reported and the failure returned. The
/// failure names the endpoint and the budget, and the observer is told its
/// text.
pub proof fn total_exhaustion<H, E>(
    config: RetryConfig,
    endpoint: Seq<char>,
    outcomes: Seq<Result<H, E>>,
)
    requires
        config.wf(),
        outcomes.len() >= config.budget(),
        forall|i: int| 0 <= i < config.budget() ==> outcomes[i] is Err,
    ensures
        run_state(config, outcomes) == State::Exhausted,
        run_trace(config, endpoint, outcomes) == history(
            config,
            endpoint,
            outcomes,
            State::Exhausted,
        ),
        factory_calls(run_trace(config, endpoint, outcomes)) == config.budget(),
        delays(run_trace(config, endpoint, outcomes)) == Seq::new(
            config.budget() as nat,
            |i: int| config.delay(),
        ),
        run_trace(config, endpoint, outcomes).last() == EffectView::<H, E>::Return(
            Err(TerminalErrorView { endpoint, attempts: config.budget() }),
        ),
        run_trace(config, endpoint, outcomes).len() >= 6,
        run_trace(config, endpoint, outcomes).skip(
            run_trace(config, endpoint, outcomes).len() - 6,
        ) == failed_round::<H, E>(
            config,
            endpoint,
            config.budget(),
            cause_of(outcomes[config.budget() - 1]),
        ) + exhaustion_effects::<H, E>(config, endpoint),
{
    let budget = config.budget() as nat;
    failures_use_up_the_budget(config, outcomes.take(budget as int));
    outcomes_after_the_end_are_ignored(config, endpoint, outcomes, budget);
    run_follows_history(config, endpoint, outcomes);
    measures_of_history(config, endpoint, outcomes, State::Exhausted);
    lemma_measures_of_failed_rounds(config, endpoint, outcomes, budget);
    lemma_measures_of_failed_rounds(config, endpoint, outcomes, (budget - 1) as nat);
    let trace = run_trace(config, endpoint, outcomes);
    assert(trace.skip(trace.len() - 6) =~= failed_round::<H, E>(
        config,
        endpoint,
        config.budget(),
        cause_of(outcomes[config.budget() - 1]),
    ) + exhaustion_effects::<H, E>(config, endpoint));
}

/// With the default budget of ten attempts, a run whose every attempt fails
/// tells the observer and then returns to the caller the failure whose text
/// is `Failed to connect to <endpoint> after 10 attempts`.
pub proof fn exhaustion_with_the_default_budget<H, E>(
    config: RetryConfig,
    endpoint: Seq<char>,
    outcomes: Seq<Result<H, E>>,
)
    requires
        config.wf(),
        config.budget() == MAX_ATTEMPTS,
        outcomes.len() >= MAX_ATTEMPTS,
        forall|i: int| 0 <= i < MAX_ATTEMPTS ==> outcomes[i] is Err,
    ensures
        run_trace(config, endpoint, outcomes).len() >= 2,
        run_trace(config, endpoint, outcomes)[run_trace(config, endpoint, outcomes).len() - 2]
            == EffectView::<H, E>::Notify(
            NoticeView::Exhaustion {
                message: "Failed to connect to "@ + endpoint + " after 10 attempts"@,
            },
        ),
        run_trace(config, endpoint, outcomes).last() == EffectView::<H, E>::Return(
            Err(TerminalErrorView { endpoint, attempts: MAX_ATTEMPTS }),
        ),
        failure_text(endpoint, MAX_ATTEMPTS as nat) == "Failed to connect to "@ + endpoint
            + " after 10 attempts"@,
{
    total_exhaustion(config, endpoint, outcomes);
    failure_text_with_default_budget(endpoint);
    let trace = run_trace(config, endpoint, outcomes);
    let end = trace.skip(trace.len() - 6);
    assert(trace[trace.len() - 2] == end[4]);
}

/// Whatever the outcomes, the attempt numbers that the observer is told of
/// are `1, 2, ...` in this order, without a gap, up to the attempt that
/// connected or, where none did, up to the budget; each number is told
/// before that attempt is made, so the factory is called as often as
/// attempts were announced, and never more often than the budget allows.
pub proof fn attempts_are_announced_in_order<H, E>(
    config: RetryConfig,
    endpoint: Seq<char>,
    outcomes: Seq<Result<H, E>>,
)
    requires
        config.wf(),
    ensures
        announced(run_trace(config, endpoint, outcomes)) == Seq::new(
            attempts_made(config, run_state(config, outcomes)),
            |i: int| (i + 1) as usize,
        ),
        factory_calls(run_trace(config, endpoint, outcomes)) == attempts_made(
            config,
            run_state(config, outcomes),
        ),
        1 <= attempts_made(config, run_state(config, outcomes)) <= config.budget(),
{
    run_follows_history(config, endpoint, outcomes);
    measures_of_history(config, endpoint, outcomes, run_state(config, outcomes));
}

/// A run hands the caller a result at most once, and as its very last
/// effect: it does so exactly when it has reached a terminal state. Until
/// then the last effect is an attempt under way. A run that is given up
/// while an attempt or a sleep is under way has handed the caller nothing.
pub proof fn result_comes_last<H, E>(
    config: RetryConfig,
    endpoint: Seq<char>,
    outcomes: Seq<Result<H, E>>,
)
    requires
        config.wf(),
    ensures
        run_trace(config, endpoint, outcomes).len() >= 2,
        forall|i: int|
            0 <= i < run_trace(config, endpoint, outcomes).len() - 1 ==> !(run_trace(
                config,
                endpoint,
                outcomes,
            )[i] is Return),
        run_state(config, outcomes).is_terminal() <==> run_trace(
            config,
            endpoint,
            outcomes,
        ).last() is Return,
        !run_state(config, outcomes).is_terminal() <==> run_trace(
            config,
            endpoint,
            outcomes,
        ).last() is Connect,
{
    let state = run_state(config, outcomes);
    let trace = run_trace(config, endpoint, outcomes);
    run_follows_history(config, endpoint, outcomes);
    let failures = failures_seen(config, state);
    let rounds = failed_rounds(config, endpoint, outcomes, failures);
    lemma_measures_of_failed_rounds(config, endpoint, outcomes, failures);
    assert forall|i: int| 0 <= i < trace.len() - 1 implies !(trace[i] is Return) by {
        if i < rounds.len() {
            lemma_failed_rounds_return_nothing(config, endpoint, outcomes, failures, i);
        }
    }
}

/// Runs do not share anything: what a run does is settled by its own
/// configuration, its own endpoint and its own outcomes. Of two runs side
/// by side, one whose first attempt connects and one whose every attempt
/// fails, the first ends connected after one call of the factory and no
/// sleep, and the second ends exhausted after as many calls and sleeps as
/// its budget holds, with the failure for its own endpoint, whatever the
/// other one does.
pub proof fn runs_are_independent<H, E>(
    reachable: RetryConfig,
    up: Seq<char>,
    answers: Seq<Result<H, E>>,
    unreachable: RetryConfig,
    down: Seq<char>,
    refusals: Seq<Result<H, E>>,
)
    requires
        reachable.wf(),
        answers.len() >= 1,
        answers[0] is Ok,
        unreachable.wf(),
        refusals.len() >= unreachable.budget(),
        forall|i: int| 0 <= i < unreachable.budget() ==> refusals[i] is Err,
    ensures
        run_state(reachable, answers) == (State::Succeeded { attempt: 1 }),
        factory_calls(run_trace(reachable, up, answers)) == 1,
        delays(run_trace(reachable, up, answers)) == Seq::<u64>::empty(),
        run_trace(reachable, up, answers).last() == EffectView::<H, E>::Return(
            Ok(handle_of(answers[0])),
        ),
        run_state(unreachable, refusals) == State::Exhausted,
        factory_calls(run_trace(unreachable, down, refusals)) == unreachable.budget(),
        delays(run_trace(unreachable, down, refusals)) == Seq::new(
            unreachable.budget() as nat,
            |i: int| unreachable.delay(),
        ),
        run_trace(unreachable, down, refusals).last() == EffectView::<H, E>::Return(
            Err(TerminalErrorView { endpoint: down, attempts: unreachable.budget() }),
        ),
{
    assert(run_state(reachable, answers) == (State::Succeeded { attempt: 1 }) && factory_calls(
        run_trace(reachable, up, answers),
    ) == 1 && delays(run_trace(reachable, up, answers)) == Seq::<u64>::empty() && run_trace(
        reachable,
        up,
        answers,
    ).last() == EffectView::<H, E>::Return(Ok(handle_of(answers[0])))) by {
        success_on_first_attempt(reachable, up, answers);
    }
    assert(run_state(unreachable, refusals) == State::Exhausted && factory_calls(
        run_trace(unreachable, down, refusals),
    ) == unreachable.budget() && delays(run_trace(unreachable, down, refusals)) == Seq::new(
        unreachable.budget() as nat,
        |i: int| unreachable.delay(),
    ) && run_trace(unreachable, down, refusals).last() == EffectView::<H, E>::Return(
        Err(TerminalErrorView { endpoint: down, attempts: unreachable.budget() }),
    )) by {
        total_exhaustion(unreachable, down, refusals);
    }
}

} // verus!
