use alert_bridge::classify::{check_input, classify, has_prefix, AlertKind, InputError};
use alert_bridge::decimal::decimal_text;

#[test]
fn problem_token_selects_problem_path() {
    assert_eq!(classify("Problem: disk full on host X"), AlertKind::Problem);
    assert_eq!(classify("Problem"), AlertKind::Problem);
    assert_eq!(classify("Problems everywhere"), AlertKind::Problem);
}

#[test]
fn resolved_token_selects_resolved_path() {
    assert_eq!(classify("Resolved: disk ok on host X"), AlertKind::Resolved);
    assert_eq!(classify("Resolved"), AlertKind::Resolved);
}

#[test]
fn anything_else_is_unknown() {
    assert_eq!(classify("Warning: ..."), AlertKind::Unknown);
    assert_eq!(classify(""), AlertKind::Unknown);
    assert_eq!(classify("Proble"), AlertKind::Unknown);
    assert_eq!(classify("Resolve"), AlertKind::Unknown);
    assert_eq!(classify("P"), AlertKind::Unknown);
}

#[test]
fn matching_is_case_sensitive() {
    assert_eq!(classify("problem: disk full"), AlertKind::Unknown);
    assert_eq!(classify("PROBLEM: disk full"), AlertKind::Unknown);
    assert_eq!(classify("resolved: ok"), AlertKind::Unknown);
}

#[test]
fn matching_is_anchored_and_untrimmed() {
    assert_eq!(classify(" Problem: disk full"), AlertKind::Unknown);
    assert_eq!(classify("\nResolved: ok"), AlertKind::Unknown);
    assert_eq!(classify("A Problem"), AlertKind::Unknown);
    assert_eq!(classify("Not Resolved"), AlertKind::Unknown);
}

#[test]
fn routing_reads_only_the_leading_characters() {
    assert_eq!(classify("Problem\u{00e9}\u{4e2d}"), classify("Problem: anything else"));
    assert_eq!(classify("Resolved-a"), classify("Resolved-b and much more"));
    assert_eq!(classify("Warning: a"), classify("Warning: b"));
}

#[test]
fn prefix_test_counts_characters_not_bytes() {
    assert!(has_prefix("\u{00e9}t\u{00e9} chaud", "\u{00e9}t\u{00e9}"));
    assert!(!has_prefix("\u{00e9}", "\u{00e9}t"));
    assert!(has_prefix("abc", ""));
    assert!(has_prefix("", ""));
    assert!(!has_prefix("", "a"));
    assert!(!has_prefix("abd", "abc"));
}

#[test]
fn input_check_accepts_routable_messages() {
    assert_eq!(check_input("Problem: x"), Ok(AlertKind::Problem));
    assert_eq!(check_input("Resolved: x"), Ok(AlertKind::Resolved));
}

#[test]
fn input_check_refuses_empty_message() {
    assert_eq!(check_input(""), Err(InputError::Empty));
}

#[test]
fn input_check_refuses_unknown_prefix() {
    assert_eq!(check_input("Warning: ..."), Err(InputError::UnknownPrefix));
    assert_eq!(check_input(" "), Err(InputError::UnknownPrefix));
}

#[test]
fn input_diagnostics_state_the_format() {
    assert_eq!(
        InputError::UnknownPrefix.describe(),
        "alert message must start with Problem or Resolved"
    );
    assert_eq!(
        InputError::Empty.describe(),
        "alert message is empty; it must start with Problem or Resolved"
    );
}

#[test]
fn decimal_text_of_status_codes() {
    assert_eq!(decimal_text(0), "0");
    assert_eq!(decimal_text(7), "7");
    assert_eq!(decimal_text(10), "10");
    assert_eq!(decimal_text(204), "204");
    assert_eq!(decimal_text(500), "500");
    assert_eq!(decimal_text(1009), "1009");
    assert_eq!(decimal_text(65535), "65535");
}
