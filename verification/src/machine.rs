//! The bootstrap as a state machine.
//!
//! The machine never touches the network or the clock. [`begin`] and
//! [`step`] say which effects are due, in order; whoever drives the machine
//! performs them and reports how each connection attempt ended. The machine
//! looks at an outcome only to tell a connection from a failure: the handle
//! of a connection is passed on to the caller as it came, and an attempt
//! that failed is always retried, whatever the cause, until the budget is
//! spent.

use crate::config::RetryConfig;
use crate::error::{failure_text, TerminalError, TerminalErrorView};
use vstd::prelude::*;
use vstd::string::*;

verus! {

/// Where a bootstrap stands.
#[derive(Clone, Copy, Debug, PartialEq, Eq, Structural)]
pub enum State {
    /// Attempt number `attempt` is under way: every earlier attempt failed.
    Attempting { attempt: usize },
    /// Attempt number `attempt` connected. Terminal.
    Succeeded { attempt: usize },
    /// Every attempt of the budget failed. Terminal.
    Exhausted,
}

/// The severity of a notice.
#[derive(Clone, Copy, Debug, PartialEq, Eq, Structural)]
pub enum Level {
    Info,
    Warn,
    Error,
}

/// What the observer is told. Notices do not steer the bootstrap.
#[derive(Debug, PartialEq, Eq)]
pub enum Notice<E> {
    /// Attempt number `attempt` on `endpoint` starts.
    Attempt { attempt: usize, endpoint: String },
    /// The attempt just made on `endpoint` failed for `cause`.
    Failure { endpoint: String, cause: E },
    /// The budget is spent; `message` is the text of the terminal failure.
    Exhaustion { message: String },
}

/// One thing for the driver to do.
#[derive(Debug, PartialEq, Eq)]
pub enum Effect<H, E> {
    /// Hand the notice to the observer.
    Notify(Notice<E>),
    /// Ask for a connection to `endpoint`, wait for the answer and report
    /// it with the next [`step`].
    Connect { endpoint: String },
    /// Wait for `millis` milliseconds.
    Sleep { millis: u64 },
    /// Hand the caller this result; the bootstrap is over.
    Return(Result<H, TerminalError>),
}

/// A [`Notice`] as contracts see it: the same, with texts as sequences of
/// characters.
pub enum NoticeView<E> {
    Attempt { attempt: usize, endpoint: Seq<char> },
    Failure { endpoint: Seq<char>, cause: E },
    Exhaustion { message: Seq<char> },
}

/// An [`Effect`] as contracts see it: the same, with texts as sequences of
/// characters.
pub enum EffectView<H, E> {
    Notify(NoticeView<E>),
    Connect { endpoint: Seq<char> },
    Sleep { millis: u64 },
    Return(Result<H, TerminalErrorView>),
}

impl<E> View for Notice<E> {
    type V = NoticeView<E>;

    open spec fn view(&self) -> NoticeView<E> {
        match *self {
            Notice::Attempt { attempt, endpoint } => NoticeView::Attempt {
                attempt,
                endpoint: endpoint@,
            },
            Notice::Failure { endpoint, cause } => NoticeView::Failure {
                endpoint: endpoint@,
                cause,
            },
            Notice::Exhaustion { message } => NoticeView::Exhaustion { message: message@ },
        }
    }
}

impl<H, E> View for Effect<H, E> {
    type V = EffectView<H, E>;

    open spec fn view(&self) -> EffectView<H, E> {
        match *self {
            Effect::Notify(notice) => EffectView::Notify(notice@),
            Effect::Connect { endpoint } => EffectView::Connect { endpoint: endpoint@ },
            Effect::Sleep { millis } => EffectView::Sleep { millis },
            Effect::Return(Ok(handle)) => EffectView::Return(Ok(handle)),
            Effect::Return(Err(error)) => EffectView::Return(Err(error@)),
        }
    }
}

impl<H, E> DeepView for Effect<H, E> {
    type V = EffectView<H, E>;

    open spec fn deep_view(&self) -> EffectView<H, E> {
        self.view()
    }
}

impl State {
    /// A state fits a configuration when its attempt number lies within the
    /// budget.
    pub open spec fn wf(self, config: RetryConfig) -> bool {
        match self {
            State::Attempting { attempt } => 1 <= attempt <= config.budget(),
            State::Succeeded { attempt } => 1 <= attempt <= config.budget(),
            State::Exhausted => true,
        }
    }

    /// No outcome moves the machine out of a terminal state.
    pub open spec fn is_terminal(self) -> bool {
        !(self is Attempting)
    }
}

impl<E> NoticeView<E> {
    /// The severity at which the observer gets this notice.
    pub open spec fn severity(self) -> Level {
        match self {
            NoticeView::Attempt { .. } => Level::Info,
            NoticeView::Failure { .. } => Level::Warn,
            NoticeView::Exhaustion { .. } => Level::Error,
        }
    }
}

impl<E> Notice<E> {
    /// The severity at which the observer gets this notice.
    pub fn level(&self) -> (level: Level)
        ensures
            level == self@.severity(),
    {
        match self {
            Notice::Attempt { .. } => Level::Info,
            Notice::Failure { .. } => Level::Warn,
            Notice::Exhaustion { .. } => Level::Error,
        }
    }
}

/// The state in which every bootstrap starts: the first attempt is under way.
pub open spec fn initial_state() -> State {
    State::Attempting { attempt: 1 }
}

/// Announcing attempt number `attempt` on `endpoint` and making it.
pub open spec fn attempt_effects<H, E>(endpoint: Seq<char>, attempt: usize) -> Seq<
    EffectView<H, E>,
> {
    seq![
        EffectView::Notify(NoticeView::Attempt { attempt, endpoint }),
        EffectView::Connect { endpoint },
    ]
}

/// Reporting that an attempt on `endpoint` failed for `cause`, and sleeping
/// on it.
pub open spec fn failure_effects<H, E>(config: RetryConfig, endpoint: Seq<char>, cause: E) -> Seq<
    EffectView<H, E>,
> {
    seq![
        EffectView::Notify(NoticeView::Failure { endpoint, cause }),
        EffectView::Sleep { millis: config.delay() },
    ]
}

/// Reporting that the budget is spent on `endpoint`, and returning the
/// terminal failure.
pub open spec fn exhaustion_effects<H, E>(config: RetryConfig, endpoint: Seq<char>) -> Seq<
    EffectView<H, E>,
> {
    seq![
        EffectView::Notify(
            NoticeView::Exhaustion { message: failure_text(endpoint, config.budget() as nat) },
        ),
        EffectView::Return(Err(TerminalErrorView { endpoint, attempts: config.budget() })),
    ]
}

/// What a bootstrap for `endpoint` opens with: the first attempt is
/// announced and made.
pub open spec fn initial_effects<H, E>(endpoint: Seq<char>) -> Seq<EffectView<H, E>> {
    attempt_effects(endpoint, 1)
}

/// The state after `outcome` was reported in `state`.
pub open spec fn next_state<H, E>(
    config: RetryConfig,
    state: State,
    outcome: Result<H, E>,
) -> State {
    match state {
        State::Attempting { attempt } => match outcome {
            Ok(_) => State::Succeeded { attempt },
            Err(_) => if attempt < config.budget() {
                State::Attempting { attempt: (attempt + 1) as usize }
            } else {
                State::Exhausted
            },
        },
        _ => state,
    }
}

/// The effects that are due, in order, once `outcome` was reported in
/// `state` of a bootstrap for `endpoint`.
///
/// A connection is returned at once. A failure is reported and slept on
/// before anything else happens, also when it was the last of the budget;
/// then the next attempt is announced and made or, with the budget spent,
/// exhaustion is reported and the terminal failure returned. In a terminal
/// state nothing is due.
pub open spec fn effects_of<H, E>(
    config: RetryConfig,
    endpoint: Seq<char>,
    state: State,
    outcome: Result<H, E>,
) -> Seq<EffectView<H, E>> {
    match state {
        State::Attempting { attempt } => match outcome {
            Ok(handle) => seq![EffectView::Return(Ok(handle))],
            Err(cause) => failure_effects(config, endpoint, cause) + if attempt < config.budget() {
                attempt_effects(endpoint, (attempt + 1) as usize)
            } else {
                exhaustion_effects(config, endpoint)
            },
        },
        _ => Seq::empty(),
    }
}

fn push_attempt<H, E>(effects: &mut Vec<Effect<H, E>>, endpoint: &str, attempt: usize)
    ensures
        final(effects).deep_view() == old(effects).deep_view() + attempt_effects::<H, E>(
            endpoint@,
            attempt,
        ),
{
    effects.push(Effect::Notify(Notice::Attempt { attempt, endpoint: String::from_str(endpoint) }));
    effects.push(Effect::Connect { endpoint: String::from_str(endpoint) });
    proof {
        assert(effects.deep_view() =~= old(effects).deep_view() + attempt_effects::<H, E>(
            endpoint@,
            attempt,
        ));
    }
}

/// Starts a bootstrap for `endpoint`: the initial state, and the effects to
/// perform before the first outcome is reported.
pub fn begin<H, E>(endpoint: &str) -> (start: (State, Vec<Effect<H, E>>))
    ensures
        start.0 == initial_state(),
        start.1.deep_view() == initial_effects::<H, E>(endpoint@),
{
    let mut effects = Vec::new();
    push_attempt(&mut effects, endpoint, 1);
    proof {
        assert(effects.deep_view() =~= initial_effects::<H, E>(endpoint@));
    }
    (State::Attempting { attempt: 1 }, effects)
}

/// Takes the outcome of the attempt under way in a bootstrap for
/// `endpoint`: the next state, and the effects to perform before the next
/// outcome is reported.
///
/// In a terminal state nothing is left to do: the state stays, no effect is
/// due and the outcome is dropped.
pub fn step<H, E>(
    config: &RetryConfig,
    endpoint: &str,
    state: State,
    outcome: Result<H, E>,
) -> (after: (State, Vec<Effect<H, E>>))
    ensures
        after.0 == next_state(*config, state, outcome),
        after.1.deep_view() == effects_of(*config, endpoint@, state, outcome),
        state.wf(*config) ==> after.0.wf(*config),
{
    let mut effects = Vec::new();
    let next = match state {
        State::Attempting { attempt } => match outcome {
            Ok(handle) => {
                effects.push(Effect::Return(Ok(handle)));
                State::Succeeded { attempt }
            },
            Err(cause) => {
                effects.push(
                    Effect::Notify(Notice::Failure { endpoint: String::from_str(endpoint), cause }),
                );
                effects.push(Effect::Sleep { millis: config.retry_delay_millis() });
                if attempt < config.max_attempts() {
                    push_attempt(&mut effects, endpoint, attempt + 1);
                    State::Attempting { attempt: attempt + 1 }
                } else {
                    let error = TerminalError::new(endpoint, config.max_attempts());
                    effects.push(Effect::Notify(Notice::Exhaustion { message: error.message() }));
                    effects.push(Effect::Return(Err(error)));
                    State::Exhausted
                }
            },
        },
        State::Succeeded { .. } => state,
        State::Exhausted => state,
    };
    proof {
        assert(effects.deep_view() =~= effects_of(*config, endpoint@, state, outcome));
    }
    (next, effects)
}

} // verus!
