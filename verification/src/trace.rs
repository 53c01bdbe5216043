//! What can be read off a trace of effects, and the trace that a run leaves
//! behind, written out.

use crate::config::RetryConfig;
use crate::machine::{
    attempt_effects, exhaustion_effects, failure_effects, EffectView, NoticeView, State,
};
use vstd::prelude::*;

verus! {

/// How many connection attempts the trace asks for.
pub open spec fn factory_calls<H, E>(trace: Seq<EffectView<H, E>>) -> nat {
    trace.filter(|e: EffectView<H, E>| e is Connect).len()
}

/// The lengths of the sleeps in the trace, in milliseconds, in order.
pub open spec fn delays<H, E>(trace: Seq<EffectView<H, E>>) -> Seq<u64> {
    trace.filter(|e: EffectView<H, E>| e is Sleep).map_values(
        |e: EffectView<H, E>|
            match e {
                EffectView::Sleep { millis } => millis,
                _ => 0,
            },
    )
}

/// The attempt numbers that the observer is told of, in order.
pub open spec fn announced<H, E>(trace: Seq<EffectView<H, E>>) -> Seq<usize> {
    trace.filter(
        |e: EffectView<H, E>| e matches EffectView::Notify(NoticeView::Attempt { .. }),
    ).map_values(
        |e: EffectView<H, E>|
            match e {
                EffectView::Notify(NoticeView::Attempt { attempt, .. }) => attempt,
                _ => 0,
            },
    )
}

/// The cause for which an attempt failed.
pub open spec fn cause_of<H, E>(outcome: Result<H, E>) -> E {
    outcome->Err_0
}

/// The handle that an attempt connected with.
pub open spec fn handle_of<H, E>(outcome: Result<H, E>) -> H {
    outcome->Ok_0
}

/// One failed attempt from start to end: announced, made, reported with its
/// cause, slept on.
pub open spec fn failed_round<H, E>(
    config: RetryConfig,
    endpoint: Seq<char>,
    attempt: usize,
    cause: E,
) -> Seq<EffectView<H, E>> {
    attempt_effects(endpoint, attempt) + failure_effects(config, endpoint, cause)
}

/// The attempts `1` to `n`, each of them failed, for the causes that the
/// first `n` outcomes hold.
pub open spec fn failed_rounds<H, E>(
    config: RetryConfig,
    endpoint: Seq<char>,
    outcomes: Seq<Result<H, E>>,
    n: nat,
) -> Seq<EffectView<H, E>>
    decreases n,
{
    if n == 0 {
        Seq::empty()
    } else {
        failed_rounds(config, endpoint, outcomes, (n - 1) as nat) + failed_round(
            config,
            endpoint,
            n as usize,
            cause_of(outcomes[n - 1]),
        )
    }
}

/// How many attempts were made by the time the machine is in `state`, the
/// one under way included.
pub open spec fn attempts_made(config: RetryConfig, state: State) -> nat {
    match state {
        State::Attempting { attempt } => attempt as nat,
        State::Succeeded { attempt } => attempt as nat,
        State::Exhausted => config.budget() as nat,
    }
}

/// How many attempts had failed by the time the machine is in `state`.
pub open spec fn failures_seen(config: RetryConfig, state: State) -> nat {
    match state {
        State::Attempting { attempt } => (attempt - 1) as nat,
        State::Succeeded { attempt } => (attempt - 1) as nat,
        State::Exhausted => config.budget() as nat,
    }
}

/// How many outcomes the machine has looked at by the time it is in
/// `state`: one for each attempt but the one under way.
pub open spec fn outcomes_used(config: RetryConfig, state: State) -> nat {
    match state {
        State::Attempting { attempt } => (attempt - 1) as nat,
        State::Succeeded { attempt } => attempt as nat,
        State::Exhausted => config.budget() as nat,
    }
}

/// The trace of the run for `endpoint` that `outcomes` has led to `state`.
/// Each outcome but the last one of a run is a failure, so the state says
/// how the run went:
///
/// - with attempt `a` under way, `a - 1` failed rounds, then attempt `a`
///   announced and made;
/// - after a connection on attempt `a`, the same, then the return of the
///   handle that outcome `a` holds;
/// - after exhaustion, as many failed rounds as the budget holds (the last
///   one with its sleep, like the others), then the notice of exhaustion and
///   the return of the terminal failure.
pub open spec fn history<H, E>(
    config: RetryConfig,
    endpoint: Seq<char>,
    outcomes: Seq<Result<H, E>>,
    state: State,
) -> Seq<EffectView<H, E>> {
    let rounds = failed_rounds(config, endpoint, outcomes, failures_seen(config, state));
    match state {
        State::Attempting { attempt } => rounds + attempt_effects(endpoint, attempt),
        State::Succeeded { attempt } => rounds + attempt_effects(endpoint, attempt) + seq![
            EffectView::Return(Ok(handle_of(outcomes[attempt - 1]))),
        ],
        State::Exhausted => rounds + exhaustion_effects(config, endpoint),
    }
}

pub(crate) proof fn lemma_measures_of_concatenation<H, E>(
    a: Seq<EffectView<H, E>>,
    b: Seq<EffectView<H, E>>,
)
    ensures
        factory_calls(a + b) == factory_calls(a) + factory_calls(b),
        delays(a + b) == delays(a) + delays(b),
        announced(a + b) == announced(a) + announced(b),
{
    broadcast use Seq::filter_distributes_over_add;

    assert(delays(a + b) =~= delays(a) + delays(b));
    assert(announced(a + b) =~= announced(a) + announced(b));
}

pub(crate) proof fn lemma_measures_of_attempt<H, E>(endpoint: Seq<char>, attempt: usize)
    ensures
        factory_calls(attempt_effects::<H, E>(endpoint, attempt)) == 1,
        delays(attempt_effects::<H, E>(endpoint, attempt)) == Seq::<u64>::empty(),
        announced(attempt_effects::<H, E>(endpoint, attempt)) == seq![attempt],
{
    reveal_with_fuel(Seq::filter, 3);
    let due = attempt_effects::<H, E>(endpoint, attempt);
    assert(due.filter(|e: EffectView<H, E>| e is Connect) =~= seq![
        EffectView::Connect { endpoint },
    ]);
    assert(due.filter(|e: EffectView<H, E>| e is Sleep) =~= Seq::empty());
    assert(due.filter(
        |e: EffectView<H, E>| e matches EffectView::Notify(NoticeView::Attempt { .. }),
    ) =~= seq![EffectView::Notify(NoticeView::Attempt { attempt, endpoint })]);
    assert(delays(due) =~= Seq::<u64>::empty());
    assert(announced(due) =~= seq![attempt]);
}

pub(crate) proof fn lemma_measures_of_failure<H, E>(
    config: RetryConfig,
    endpoint: Seq<char>,
    cause: E,
)
    ensures
        factory_calls(failure_effects::<H, E>(config, endpoint, cause)) == 0,
        delays(failure_effects::<H, E>(config, endpoint, cause)) == seq![config.delay()],
        announced(failure_effects::<H, E>(config, endpoint, cause)) == Seq::<usize>::empty(),
{
    reveal_with_fuel(Seq::filter, 3);
    let due = failure_effects::<H, E>(config, endpoint, cause);
    assert(due.filter(|e: EffectView<H, E>| e is Connect) =~= Seq::empty());
    assert(due.filter(|e: EffectView<H, E>| e is Sleep) =~= seq![
        EffectView::Sleep { millis: config.delay() },
    ]);
    assert(due.filter(
        |e: EffectView<H, E>| e matches EffectView::Notify(NoticeView::Attempt { .. }),
    ) =~= Seq::empty());
    assert(delays(due) =~= seq![config.delay()]);
    assert(announced(due) =~= Seq::<usize>::empty());
}

pub(crate) proof fn lemma_measures_of_exhaustion<H, E>(config: RetryConfig, endpoint: Seq<char>)
    ensures
        factory_calls(exhaustion_effects::<H, E>(config, endpoint)) == 0,
        delays(exhaustion_effects::<H, E>(config, endpoint)) == Seq::<u64>::empty(),
        announced(exhaustion_effects::<H, E>(config, endpoint)) == Seq::<usize>::empty(),
{
    reveal_with_fuel(Seq::filter, 3);
    let due = exhaustion_effects::<H, E>(config, endpoint);
    assert(due.filter(|e: EffectView<H, E>| e is Connect) =~= Seq::empty());
    assert(due.filter(|e: EffectView<H, E>| e is Sleep) =~= Seq::empty());
    assert(due.filter(
        |e: EffectView<H, E>| e matches EffectView::Notify(NoticeView::Attempt { .. }),
    ) =~= Seq::empty());
    assert(delays(due) =~= Seq::<u64>::empty());
    assert(announced(due) =~= Seq::<usize>::empty());
}

pub(crate) proof fn lemma_measures_of_return<H, E>(handle: H)
    ensures
        factory_calls(seq![EffectView::<H, E>::Return(Ok(handle))]) == 0,
        delays(seq![EffectView::<H, E>::Return(Ok(handle))]) == Seq::<u64>::empty(),
        announced(seq![EffectView::<H, E>::Return(Ok(handle))]) == Seq::<usize>::empty(),
{
    reveal_with_fuel(Seq::filter, 2);
    let due = seq![EffectView::<H, E>::Return(Ok(handle))];
    assert(due.filter(|e: EffectView<H, E>| e is Connect) =~= Seq::empty());
    assert(due.filter(|e: EffectView<H, E>| e is Sleep) =~= Seq::empty());
    assert(due.filter(
        |e: EffectView<H, E>| e matches EffectView::Notify(NoticeView::Attempt { .. }),
    ) =~= Seq::empty());
    assert(delays(due) =~= Seq::<u64>::empty());
    assert(announced(due) =~= Seq::<usize>::empty());
}

pub(crate) proof fn lemma_measures_of_failed_rounds<H, E>(
    config: RetryConfig,
    endpoint: Seq<char>,
    outcomes: Seq<Result<H, E>>,
    n: nat,
)
    requires
        n <= usize::MAX,
    ensures
        failed_rounds(config, endpoint, outcomes, n).len() == 4 * n,
        factory_calls(failed_rounds(config, endpoint, outcomes, n)) == n,
        delays(failed_rounds(config, endpoint, outcomes, n)) == Seq::new(
            n,
            |i: int| config.delay(),
        ),
        announced(failed_rounds(config, endpoint, outcomes, n)) == Seq::new(
            n,
            |i: int| (i + 1) as usize,
        ),
    decreases n,
{
    let rounds = failed_rounds(config, endpoint, outcomes, n);
    if n == 0 {
        reveal(Seq::filter);
        assert(delays(rounds) =~= Seq::new(n, |i: int| config.delay()));
        assert(announced(rounds) =~= Seq::new(n, |i: int| (i + 1) as usize));
    } else {
        let earlier = failed_rounds(config, endpoint, outcomes, (n - 1) as nat);
        let cause = cause_of(outcomes[n - 1]);
        let tried = attempt_effects::<H, E>(endpoint, n as usize);
        let failed = failure_effects::<H, E>(config, endpoint, cause);
        lemma_measures_of_failed_rounds(config, endpoint, outcomes, (n - 1) as nat);
        lemma_measures_of_attempt::<H, E>(endpoint, n as usize);
        lemma_measures_of_failure::<H, E>(config, endpoint, cause);
        lemma_measures_of_concatenation(tried, failed);
        lemma_measures_of_concatenation(earlier, tried + failed);
        assert(delays(rounds) =~= Seq::new(n, |i: int| config.delay()));
        assert(announced(rounds) =~= Seq::new(n, |i: int| (i + 1) as usize));
    }
}

pub(crate) proof fn lemma_failed_rounds_read_a_prefix<H, E>(
    config: RetryConfig,
    endpoint: Seq<char>,
    a: Seq<Result<H, E>>,
    b: Seq<Result<H, E>>,
    n: nat,
)
    requires
        n <= a.len(),
        n <= b.len(),
        forall|i: int| 0 <= i < n ==> a[i] == b[i],
    ensures
        failed_rounds(config, endpoint, a, n) == failed_rounds(config, endpoint, b, n),
    decreases n,
{
    if n > 0 {
        lemma_failed_rounds_read_a_prefix(config, endpoint, a, b, (n - 1) as nat);
    }
}

proof fn lemma_measures_after_failed_rounds<H, E>(
    config: RetryConfig,
    endpoint: Seq<char>,
    outcomes: Seq<Result<H, E>>,
    n: nat,
    tail: Seq<EffectView<H, E>>,
)
    requires
        n <= usize::MAX,
    ensures
        factory_calls(failed_rounds(config, endpoint, outcomes, n) + tail) == n + factory_calls(
            tail,
        ),
        delays(failed_rounds(config, endpoint, outcomes, n) + tail) == Seq::new(
            n,
            |i: int| config.delay(),
        ) + delays(tail),
        announced(failed_rounds(config, endpoint, outcomes, n) + tail) == Seq::new(
            n,
            |i: int| (i + 1) as usize,
        ) + announced(tail),
{
    let rounds = failed_rounds(config, endpoint, outcomes, n);
    lemma_measures_of_failed_rounds(config, endpoint, outcomes, n);
    lemma_measures_of_concatenation(rounds, tail);
}

proof fn lemma_measures_while_attempting<H, E>(
    config: RetryConfig,
    endpoint: Seq<char>,
    outcomes: Seq<Result<H, E>>,
    attempt: usize,
)
    requires
        attempt >= 1,
    ensures
        factory_calls(
            failed_rounds(config, endpoint, outcomes, (attempt - 1) as nat) + attempt_effects::<
                H,
                E,
            >(endpoint, attempt),
        ) == attempt,
        delays(
            failed_rounds(config, endpoint, outcomes, (attempt - 1) as nat) + attempt_effects::<
                H,
                E,
            >(endpoint, attempt),
        ) == Seq::new((attempt - 1) as nat, |i: int| config.delay()),
        announced(
            failed_rounds(config, endpoint, outcomes, (attempt - 1) as nat) + attempt_effects::<
                H,
                E,
            >(endpoint, attempt),
        ) == Seq::new(attempt as nat, |i: int| (i + 1) as usize),
{
    let n = (attempt - 1) as nat;
    let tried = attempt_effects::<H, E>(endpoint, attempt);
    let past = failed_rounds(config, endpoint, outcomes, n) + tried;
    lemma_measures_of_attempt::<H, E>(endpoint, attempt);
    lemma_measures_after_failed_rounds(config, endpoint, outcomes, n, tried);
    assert(delays(past) =~= Seq::new(n, |i: int| config.delay()));
    assert(announced(past) =~= Seq::new(attempt as nat, |i: int| (i + 1) as usize));
}

/// What can be read off the trace that a run has left behind by the time
/// it is in `state`: as many calls of the factory as attempts were made, one
/// sleep of the configured length for each failure, and the attempt numbers
/// `1, 2, ...` in order.
pub proof fn measures_of_history<H, E>(
    config: RetryConfig,
    endpoint: Seq<char>,
    outcomes: Seq<Result<H, E>>,
    state: State,
)
    requires
        config.wf(),
        state.wf(config),
    ensures
        factory_calls(history(config, endpoint, outcomes, state)) == attempts_made(config, state),
        delays(history(config, endpoint, outcomes, state)) == Seq::new(
            failures_seen(config, state),
            |i: int| config.delay(),
        ),
        announced(history(config, endpoint, outcomes, state)) == Seq::new(
            attempts_made(config, state),
            |i: int| (i + 1) as usize,
        ),
{
    match state {
        State::Attempting { attempt } => {
            lemma_measures_while_attempting(config, endpoint, outcomes, attempt);
        },
        State::Succeeded { attempt } => {
            let tried = failed_rounds(config, endpoint, outcomes, (attempt - 1) as nat)
                + attempt_effects::<H, E>(endpoint, attempt);
            let handed = seq![EffectView::<H, E>::Return(Ok(handle_of(outcomes[attempt - 1])))];
            lemma_measures_while_attempting(config, endpoint, outcomes, attempt);
            lemma_measures_of_return::<H, E>(handle_of(outcomes[attempt - 1]));
            lemma_measures_of_concatenation(tried, handed);
            assert(delays(tried) + delays(handed) =~= delays(tried));
            assert(announced(tried) + announced(handed) =~= announced(tried));
        },
        State::Exhausted => {
            let n = config.budget() as nat;
            let given_up = exhaustion_effects::<H, E>(config, endpoint);
            let past = failed_rounds(config, endpoint, outcomes, n) + given_up;
            lemma_measures_of_exhaustion::<H, E>(config, endpoint);
            lemma_measures_after_failed_rounds(config, endpoint, outcomes, n, given_up);
            assert(delays(past) =~= Seq::new(n, |i: int| config.delay()));
            assert(announced(past) =~= Seq::new(n, |i: int| (i + 1) as usize));
        },
    }
}

pub(crate) proof fn lemma_failed_rounds_return_nothing<H, E>(
    config: RetryConfig,
    endpoint: Seq<char>,
    outcomes: Seq<Result<H, E>>,
    n: nat,
    i: int,
)
    requires
        n <= usize::MAX,
        0 <= i < failed_rounds(config, endpoint, outcomes, n).len(),
    ensures
        !(failed_rounds(config, endpoint, outcomes, n)[i] is Return),
    decreases n,
{
    if n > 0 {
        lemma_measures_of_failed_rounds(config, endpoint, outcomes, (n - 1) as nat);
        if i < 4 * (n - 1) {
            lemma_failed_rounds_return_nothing(config, endpoint, outcomes, (n - 1) as nat, i);
        }
    }
}

} // verus!
