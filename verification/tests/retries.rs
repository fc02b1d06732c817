use llm_kit::error::AISDKError;
use llm_kit::retries::{
    extract_retry_delay_from_error, model_call_error, prepare_retries, retry_delay_from_lowercase,
    retry_hint, retry_hint_from_message, RetryDecision, RetryState,
};

#[test]
fn test_prepare_retries_default() {
    let config = prepare_retries(None, None).unwrap();
    assert_eq!(config.max_retries, 2);
}

#[test]
fn test_prepare_retries_custom() {
    let config = prepare_retries(Some(5), None).unwrap();
    assert_eq!(config.max_retries, 5);
}

#[test]
fn test_prepare_retries_zero() {
    let config = prepare_retries(Some(0), None).unwrap();
    assert_eq!(config.max_retries, 0);
}

#[test]
fn test_extract_retry_delay_simple() {
    let delay = extract_retry_delay_from_error("Rate limit exceeded. Retry after 60 seconds");
    assert_eq!(delay, Some(60));
}

#[test]
fn test_extract_retry_delay_with_punctuation() {
    let delay = extract_retry_delay_from_error("Error: retry-after: 30");
    assert_eq!(delay, Some(30));
}

#[test]
fn test_extract_retry_delay_case_insensitive() {
    let delay = extract_retry_delay_from_error("RETRY AFTER 45 SECONDS");
    assert_eq!(delay, Some(45));
}

#[test]
fn test_extract_retry_delay_caps_at_max() {
    let delay = extract_retry_delay_from_error("Retry after 7200 seconds");
    assert_eq!(delay, Some(3600));
}

#[test]
fn test_extract_retry_delay_no_match() {
    let delay = extract_retry_delay_from_error("Generic error message");
    assert_eq!(delay, None);
}

#[test]
fn test_extract_retry_delay_no_number() {
    let delay = extract_retry_delay_from_error("Retry after a while");
    assert_eq!(delay, None);
}

#[test]
fn retry_delay_reads_the_lower_case_form() {
    assert_eq!(retry_delay_from_lowercase("retry after 12"), Some(12));
    assert_eq!(retry_delay_from_lowercase("RETRY AFTER 12"), None);
}

#[test]
fn retries_back_off_exponentially_and_stop() {
    let config = prepare_retries(Some(2), None).unwrap();
    let s0 = RetryState::initial();
    assert_eq!(s0.retries, 0);
    assert_eq!(s0.default_delay_ms, 100);
    let s1 = match config.decide_after_failure(s0, None) {
        RetryDecision::RetryAfter { delay_ms, next } => {
            assert_eq!(delay_ms, 100);
            next
        }
        RetryDecision::GiveUp => panic!("expected a retry"),
    };
    let s2 = match config.decide_after_failure(s1, None) {
        RetryDecision::RetryAfter { delay_ms, next } => {
            assert_eq!(delay_ms, 200);
            next
        }
        RetryDecision::GiveUp => panic!("expected a retry"),
    };
    assert_eq!(config.decide_after_failure(s2, None), RetryDecision::GiveUp);
}

#[test]
fn a_hint_sets_the_delay() {
    let config = prepare_retries(Some(1), None).unwrap();
    match config.decide_after_failure(RetryState::initial(), Some(5000)) {
        RetryDecision::RetryAfter { delay_ms, next } => {
            assert_eq!(delay_ms, 5000);
            assert_eq!(next.retries, 1);
            assert_eq!(next.default_delay_ms, 200);
        }
        RetryDecision::GiveUp => panic!("expected a retry"),
    }
}

#[test]
fn no_retries_gives_up_at_once() {
    let config = prepare_retries(Some(0), None).unwrap();
    assert_eq!(config.decide_after_failure(RetryState::initial(), Some(1)), RetryDecision::GiveUp);
}

#[test]
fn failed_calls_become_retryable_errors_when_they_ask_for_a_delay() {
    match model_call_error("Too many requests, retry after 2 seconds") {
        AISDKError::RetryableError { message, retry_after_ms } => {
            assert_eq!(message, "Too many requests, retry after 2 seconds");
            assert_eq!(retry_after_ms, Some(2000));
        }
        _ => panic!("expected a retryable error"),
    }
    match model_call_error("bad request") {
        AISDKError::ModelError { message } => assert_eq!(message, "bad request"),
        _ => panic!("expected a model error"),
    }
}

#[test]
fn retry_hints_come_from_retryable_errors_only() {
    assert_eq!(retry_hint(&AISDKError::retryable_error_with_delay("x", 7)), Some(7));
    assert_eq!(retry_hint(&AISDKError::retryable_error("x")), None);
    assert_eq!(retry_hint(&AISDKError::model_error("x")), None);
    assert_eq!(retry_hint_from_message("retry after 3"), Some(3000));
    assert_eq!(retry_hint_from_message("nothing"), None);
}
