use ingress_proxy::amqp::{is_name_compliant, is_routing_key_compliant};
use ingress_proxy::configuration::LogLevel;
use ingress_proxy::supervisor::{RetryAction, RetryBudget, CONNECT_RETRY_DELAY_MS};
use ingress_proxy::INTERSECT_MESSAGE_EXCHANGE;

#[test]
fn name_compliance_characters() {
    assert!(is_name_compliant("org.fac.sys"));
    assert!(is_name_compliant("a-b_c.d:e123"));
    assert!(is_name_compliant(""));
    assert!(!is_name_compliant("org fac")); // space
    assert!(!is_name_compliant("bad-topic!"));
    assert!(!is_name_compliant("umlaut-\u{e4}"));
}

#[test]
fn name_compliance_length() {
    let ok = "a".repeat(127);
    assert!(is_name_compliant(&ok));
    let too_long = "a".repeat(128);
    assert!(!is_name_compliant(&too_long));
}

#[test]
fn routing_key_compliance_is_a_length_rule() {
    assert!(is_routing_key_compliant("any!chars? are fine"));
    assert!(is_routing_key_compliant(&"k".repeat(255)));
    assert!(!is_routing_key_compliant(&"k".repeat(256)));
}

#[test]
fn exchange_name_is_itself_compliant() {
    assert_eq!(INTERSECT_MESSAGE_EXCHANGE, "intersect-messages");
    assert!(is_name_compliant(INTERSECT_MESSAGE_EXCHANGE));
}

#[test]
fn log_level_parsing() {
    assert_eq!(LogLevel::from_str("trace"), LogLevel::Trace);
    assert_eq!(LogLevel::from_str("TRACE"), LogLevel::Trace);
    assert_eq!(LogLevel::from_str("Debug"), LogLevel::Debug);
    assert_eq!(LogLevel::from_str("warning"), LogLevel::Warning);
    assert_eq!(LogLevel::from_str("warn"), LogLevel::Warning);
    assert_eq!(LogLevel::from_str("error"), LogLevel::Error);
    // anything unrecognized defaults to info
    assert_eq!(LogLevel::from_str("info"), LogLevel::Info);
    assert_eq!(LogLevel::from_str("verbose"), LogLevel::Info);
    assert_eq!(LogLevel::from_str(""), LogLevel::Info);
}

#[test]
fn log_level_names() {
    assert_eq!(LogLevel::Trace.as_str(), "trace");
    assert_eq!(LogLevel::Debug.as_str(), "debug");
    assert_eq!(LogLevel::Info.as_str(), "info");
    assert_eq!(LogLevel::Warning.as_str(), "warning");
    assert_eq!(LogLevel::Error.as_str(), "error");
}

#[test]
fn first_connection_retries_without_bound() {
    let mut budget = RetryBudget::for_attempt(false);
    for _ in 0..1000 {
        assert_eq!(
            budget.record_failure(),
            RetryAction::Retry { delay_ms: CONNECT_RETRY_DELAY_MS }
        );
    }
}

#[test]
fn reconnect_gives_up_after_its_budget() {
    let mut budget = RetryBudget::for_attempt(true);
    for _ in 0..10 {
        assert_eq!(
            budget.record_failure(),
            RetryAction::Retry { delay_ms: CONNECT_RETRY_DELAY_MS }
        );
    }
    assert_eq!(budget.record_failure(), RetryAction::GiveUp);
    assert_eq!(budget.record_failure(), RetryAction::GiveUp);
}
