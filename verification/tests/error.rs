use utils::config::MAX_ATTEMPTS;
use utils::error::TerminalError;

fn text_after(attempts: usize) -> String {
    TerminalError::new("n", attempts).message()
}

#[test]
fn message_writes_single_digits() {
    assert_eq!(text_after(0), "Failed to connect to n after 0 attempts");
    assert_eq!(text_after(1), "Failed to connect to n after 1 attempts");
    assert_eq!(text_after(5), "Failed to connect to n after 5 attempts");
    assert_eq!(text_after(9), "Failed to connect to n after 9 attempts");
}

#[test]
fn message_writes_several_digits() {
    assert_eq!(text_after(10), "Failed to connect to n after 10 attempts");
    assert_eq!(text_after(11), "Failed to connect to n after 11 attempts");
    assert_eq!(text_after(99), "Failed to connect to n after 99 attempts");
    assert_eq!(text_after(100), "Failed to connect to n after 100 attempts");
    assert_eq!(text_after(1002), "Failed to connect to n after 1002 attempts");
    assert_eq!(text_after(1234567890), "Failed to connect to n after 1234567890 attempts");
}

#[test]
fn message_writes_the_largest_number() {
    let expected = format!("Failed to connect to n after {} attempts", usize::MAX);
    assert_eq!(text_after(usize::MAX), expected);
}

#[test]
fn message_agrees_with_the_standard_rendering() {
    let mut n: usize = 0;
    while n < 2000 {
        assert_eq!(text_after(n), format!("Failed to connect to n after {} attempts", n));
        n += 1;
    }
}

#[test]
fn terminal_error_keeps_endpoint_and_attempts() {
    let error = TerminalError::new("ws://127.0.0.1:9944", 10);
    assert_eq!(error.endpoint, "ws://127.0.0.1:9944");
    let same = TerminalError { endpoint: "ws://127.0.0.1:9944".to_string(), attempts: 10 };
    assert_eq!(error, same);
    assert_eq!(error.attempts, 10);
}

#[test]
fn message_names_endpoint_and_attempts() {
    let error = TerminalError::new("test://node", 3);
    assert_eq!(error.message(), "Failed to connect to test://node after 3 attempts");
}

#[test]
fn message_with_the_default_budget() {
    let error = TerminalError::new("ws://127.0.0.1:9944", MAX_ATTEMPTS);
    assert_eq!(error.message(), "Failed to connect to ws://127.0.0.1:9944 after 10 attempts");
}

#[test]
fn message_for_an_empty_endpoint() {
    let error = TerminalError::new("", 1);
    assert_eq!(error.message(), "Failed to connect to  after 1 attempts");
}

#[test]
fn message_keeps_characters_outside_ascii() {
    let error = TerminalError::new("wss://knoten.example/größe", 12);
    assert_eq!(
        error.message(),
        "Failed to connect to wss://knoten.example/größe after 12 attempts"
    );
}

#[test]
fn message_differs_from_the_endpoint() {
    let error = TerminalError::new("test://node", 3);
    assert_ne!(error.message(), error.endpoint);
}
