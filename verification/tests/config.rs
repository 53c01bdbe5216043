use utils::config::{RetryConfig, DERIVATION, MAX_ATTEMPTS, RETRY_DELAY_MILLIS};

#[test]
fn constants_have_their_documented_values() {
    assert_eq!(MAX_ATTEMPTS, 10);
    assert_eq!(RETRY_DELAY_MILLIS, 1000);
    assert_eq!(DERIVATION, "//Sender/");
}

#[test]
fn default_config_is_ten_attempts_one_second_apart() {
    let config = RetryConfig::default();
    assert_eq!(config.max_attempts(), 10);
    assert_eq!(config.retry_delay_millis(), 1000);
}

#[test]
fn new_keeps_budget_and_delay() {
    let config = RetryConfig::new(3, 0).unwrap();
    assert_eq!(config.max_attempts(), 3);
    assert_eq!(config.retry_delay_millis(), 0);

    let config = RetryConfig::new(1, 250).unwrap();
    assert_eq!(config.max_attempts(), 1);
    assert_eq!(config.retry_delay_millis(), 250);
}

#[test]
fn new_accepts_the_largest_budget_and_delay() {
    let config = RetryConfig::new(usize::MAX, u64::MAX).unwrap();
    assert_eq!(config.max_attempts(), usize::MAX);
    assert_eq!(config.retry_delay_millis(), u64::MAX);
}

#[test]
fn new_refuses_an_empty_budget() {
    assert_eq!(RetryConfig::new(0, 0), None);
    assert_eq!(RetryConfig::new(0, 1000), None);
}

#[test]
fn default_config_equals_the_one_built_from_the_constants() {
    assert_eq!(Some(RetryConfig::default()), RetryConfig::new(MAX_ATTEMPTS, RETRY_DELAY_MILLIS));
}
