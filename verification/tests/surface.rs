use sanctifier_core::text::same_text;
use sanctifier_core::{Analyzer, Error};

#[test]
fn auth_gap_scan_is_empty() {
    let a = Analyzer::new(false);
    assert!(a.scan_auth_gaps("").is_empty());
    assert!(a.scan_auth_gaps("pub fn transfer(env: Env) { env.storage(); }").is_empty());
    assert!(Analyzer::new(true).scan_auth_gaps("not rust at all {{{").is_empty());
}

#[test]
fn storage_collision_check_is_false() {
    let a = Analyzer::new(false);
    assert!(!a.check_storage_collisions(vec![]));
    assert!(!a.check_storage_collisions(vec!["key".to_string(), "key".to_string()]));
    assert!(!Analyzer::new(true).check_storage_collisions(vec!["a".to_string()]));
}

#[test]
fn error_messages() {
    assert_eq!(
        Error::InvariantViolation("balance below zero".to_string()).message(),
        "invariant violation: balance below zero"
    );
    assert_eq!(Error::Internal("no storage".to_string()).message(), "internal error: no storage");
    assert_eq!(Error::Internal(String::new()).message(), "internal error: ");
}

#[test]
fn same_text_compares_characters() {
    assert!(same_text("", ""));
    assert!(same_text("unwrap", "unwrap"));
    assert!(!same_text("unwrap", "unwrap_or"));
    assert!(!same_text("unwrap", "expect"));
    assert!(!same_text("u32", "U32"));
    assert!(!same_text("", "a"));
    assert!(same_text("gr\u{fc}n", "gr\u{fc}n"));
    assert!(!same_text("gr\u{fc}n", "grun"));
}
