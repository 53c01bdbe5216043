use utils::config::RetryConfig;
use utils::error::TerminalError;
use utils::machine::{begin, step, Effect, Level, Notice, State};

type Handle = u32;
type Cause = &'static str;

const NODE: &str = "test://node";

fn attempt(number: usize) -> Effect<Handle, Cause> {
    Effect::Notify(Notice::Attempt { attempt: number, endpoint: NODE.to_string() })
}

fn connect() -> Effect<Handle, Cause> {
    Effect::Connect { endpoint: NODE.to_string() }
}

fn failure(cause: Cause) -> Effect<Handle, Cause> {
    Effect::Notify(Notice::Failure { endpoint: NODE.to_string(), cause })
}

#[test]
fn begin_announces_and_makes_the_first_attempt() {
    let (state, effects) = begin::<Handle, Cause>(NODE);
    assert_eq!(state, State::Attempting { attempt: 1 });
    assert_eq!(effects, vec![attempt(1), connect()]);
}

#[test]
fn connected_outcome_returns_the_handle_at_once() {
    let config = RetryConfig::new(3, 1000).unwrap();
    let (state, effects) =
        step::<Handle, Cause>(&config, NODE, State::Attempting { attempt: 1 }, Ok(7));
    assert_eq!(state, State::Succeeded { attempt: 1 });
    assert_eq!(effects, vec![Effect::Return(Ok(7))]);

    let (state, effects) =
        step::<Handle, Cause>(&config, NODE, State::Attempting { attempt: 3 }, Ok(8));
    assert_eq!(state, State::Succeeded { attempt: 3 });
    assert_eq!(effects, vec![Effect::Return(Ok(8))]);
}

#[test]
fn failure_with_attempts_left_sleeps_then_tries_again() {
    let config = RetryConfig::new(3, 1000).unwrap();
    let (state, effects) =
        step::<Handle, Cause>(&config, NODE, State::Attempting { attempt: 1 }, Err("refused"));
    assert_eq!(state, State::Attempting { attempt: 2 });
    assert_eq!(
        effects,
        vec![failure("refused"), Effect::Sleep { millis: 1000 }, attempt(2), connect()]
    );
}

#[test]
fn last_failure_sleeps_then_gives_up() {
    let config = RetryConfig::new(3, 1000).unwrap();
    let (state, effects) =
        step::<Handle, Cause>(&config, NODE, State::Attempting { attempt: 3 }, Err("no route"));
    assert_eq!(state, State::Exhausted);
    assert_eq!(
        effects,
        vec![
            failure("no route"),
            Effect::Sleep { millis: 1000 },
            Effect::Notify(Notice::Exhaustion {
                message: "Failed to connect to test://node after 3 attempts".to_string(),
            }),
            Effect::Return(Err(TerminalError { endpoint: NODE.to_string(), attempts: 3 })),
        ]
    );
}

#[test]
fn budget_of_one_gives_up_after_the_first_failure() {
    let config = RetryConfig::new(1, 7).unwrap();
    let (state, _) = begin::<Handle, Cause>(NODE);
    let (state, effects) = step::<Handle, Cause>(&config, NODE, state, Err("refused"));
    assert_eq!(state, State::Exhausted);
    assert_eq!(
        effects,
        vec![
            failure("refused"),
            Effect::Sleep { millis: 7 },
            Effect::Notify(Notice::Exhaustion {
                message: "Failed to connect to test://node after 1 attempts".to_string(),
            }),
            Effect::Return(Err(TerminalError { endpoint: NODE.to_string(), attempts: 1 })),
        ]
    );
}

#[test]
fn every_cause_is_retried_alike() {
    let config = RetryConfig::new(3, 1000).unwrap();
    let from = State::Attempting { attempt: 1 };
    let (dns, _) = step::<Handle, Cause>(&config, NODE, from, Err("name not resolved"));
    let (version, _) = step::<Handle, Cause>(&config, NODE, from, Err("protocol mismatch"));
    let (address, _) = step::<Handle, Cause>(&config, "not an address", from, Err("malformed"));
    assert_eq!(dns, State::Attempting { attempt: 2 });
    assert_eq!(version, State::Attempting { attempt: 2 });
    assert_eq!(address, State::Attempting { attempt: 2 });
}

#[test]
fn terminal_states_take_no_further_step() {
    let config = RetryConfig::new(3, 1000).unwrap();
    for outcome in [Ok(1), Err("refused")] {
        let (state, effects) =
            step::<Handle, Cause>(&config, NODE, State::Succeeded { attempt: 2 }, outcome);
        assert_eq!(state, State::Succeeded { attempt: 2 });
        assert_eq!(effects, vec![]);

        let (state, effects) = step::<Handle, Cause>(&config, NODE, State::Exhausted, outcome);
        assert_eq!(state, State::Exhausted);
        assert_eq!(effects, vec![]);
    }
}

#[test]
fn attempt_number_beyond_the_budget_gives_up() {
    let config = RetryConfig::new(3, 5).unwrap();
    let (state, effects) =
        step::<Handle, Cause>(&config, NODE, State::Attempting { attempt: 8 }, Err("refused"));
    assert_eq!(state, State::Exhausted);
    assert_eq!(
        effects[3],
        Effect::Return(Err(TerminalError { endpoint: NODE.to_string(), attempts: 3 }))
    );
}

#[test]
fn largest_attempt_number_does_not_overflow() {
    let config = RetryConfig::new(usize::MAX, 0).unwrap();
    let from = State::Attempting { attempt: usize::MAX - 1 };
    let (state, _) = step::<Handle, Cause>(&config, NODE, from, Err("refused"));
    assert_eq!(state, State::Attempting { attempt: usize::MAX });
    let (state, _) = step::<Handle, Cause>(&config, NODE, state, Err("refused"));
    assert_eq!(state, State::Exhausted);
}

#[test]
fn step_uses_the_delay_of_its_configuration() {
    let quick = RetryConfig::new(2, 0).unwrap();
    let slow = RetryConfig::new(2, 60_000).unwrap();
    let from = State::Attempting { attempt: 1 };
    let (_, effects) = step::<Handle, Cause>(&quick, NODE, from, Err("refused"));
    assert_eq!(effects[1], Effect::Sleep { millis: 0 });
    let (_, effects) = step::<Handle, Cause>(&slow, NODE, from, Err("refused"));
    assert_eq!(effects[1], Effect::Sleep { millis: 60_000 });
}

#[test]
fn effects_name_the_endpoint_they_were_asked_for() {
    let config = RetryConfig::new(2, 0).unwrap();
    let (state, effects) = begin::<Handle, Cause>("ws://127.0.0.1:9944");
    assert_eq!(
        effects,
        vec![
            Effect::Notify(Notice::Attempt {
                attempt: 1,
                endpoint: "ws://127.0.0.1:9944".to_string(),
            }),
            Effect::Connect { endpoint: "ws://127.0.0.1:9944".to_string() },
        ]
    );
    let (_, effects) = step::<Handle, Cause>(&config, "ws://127.0.0.1:9944", state, Err("refused"));
    assert_eq!(
        effects[0],
        Effect::Notify(Notice::Failure {
            endpoint: "ws://127.0.0.1:9944".to_string(),
            cause: "refused",
        })
    );
    assert_eq!(effects[3], Effect::Connect { endpoint: "ws://127.0.0.1:9944".to_string() });
}

#[test]
fn empty_endpoint_is_handed_on_as_it_is() {
    let (_, effects) = begin::<Handle, Cause>("");
    assert_eq!(effects[1], Effect::Connect { endpoint: String::new() });
}

#[test]
fn notices_have_their_levels() {
    let attempt: Notice<Cause> = Notice::Attempt { attempt: 1, endpoint: NODE.to_string() };
    let failure: Notice<Cause> = Notice::Failure { endpoint: NODE.to_string(), cause: "refused" };
    let exhaustion: Notice<Cause> = Notice::Exhaustion { message: "spent".to_string() };
    assert_eq!(attempt.level(), Level::Info);
    assert_eq!(failure.level(), Level::Warn);
    assert_eq!(exhaustion.level(), Level::Error);
}

#[test]
fn two_machines_stepped_in_turn_do_not_interfere() {
    let config = RetryConfig::new(3, 0).unwrap();
    let (mut up, _) = begin::<Handle, Cause>("test://up");
    let (mut down, _) = begin::<Handle, Cause>("test://down");

    let (next, _) = step::<Handle, Cause>(&config, "test://down", down, Err("refused"));
    down = next;
    let (next, returned) = step::<Handle, Cause>(&config, "test://up", up, Ok(42));
    up = next;
    let (next, _) = step::<Handle, Cause>(&config, "test://down", down, Err("refused"));
    down = next;
    assert_eq!(down, State::Attempting { attempt: 3 });
    let (next, given_up) = step::<Handle, Cause>(&config, "test://down", down, Err("refused"));
    down = next;

    assert_eq!(up, State::Succeeded { attempt: 1 });
    assert_eq!(returned, vec![Effect::Return(Ok(42))]);
    assert_eq!(down, State::Exhausted);
    assert_eq!(
        given_up[3],
        Effect::Return(Err(TerminalError { endpoint: "test://down".to_string(), attempts: 3 }))
    );
}
