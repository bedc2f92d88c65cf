//! The text record parser: primary/fallback key policy and quote stripping.

use whoami::record_value;
use whoami::Error;

#[test]
fn primary_key_wins_over_fallback() {
    let text = "NAME=\"Foo\"\nPRETTY_NAME=\"Foo 10\"\nVERSION=10\n";
    let r = record_value(text, "PRETTY_NAME", Some("NAME"));
    assert_eq!(r.unwrap(), "Foo 10");
}

#[test]
fn fallback_key_used_when_primary_absent() {
    let text = "ID=foo\nNAME=\"Foo\"\n";
    let r = record_value(text, "PRETTY_NAME", Some("NAME"));
    assert_eq!(r.unwrap(), "Foo");
}

#[test]
fn neither_key_fails_with_parse_error() {
    let text = "ID=foo\nVERSION=10\n";
    let r = record_value(text, "PRETTY_NAME", Some("NAME"));
    assert!(matches!(r, Err(Error::Parse)));
}

#[test]
fn primary_stops_the_scan_immediately() {
    let text = "PRETTY_NAME=first\nPRETTY_NAME=second\n";
    let r = record_value(text, "PRETTY_NAME", None);
    assert_eq!(r.unwrap(), "first");
}

#[test]
fn unquoted_value_parses_like_quoted() {
    let quoted = record_value("KEY=\"value\"", "KEY", None).unwrap();
    let bare = record_value("KEY=value", "KEY", None).unwrap();
    assert_eq!(quoted, bare);
    assert_eq!(bare, "value");
}

#[test]
fn quote_stripping_is_idempotent() {
    let once = record_value("KEY=\"v\"", "KEY", None).unwrap();
    let again = record_value(&format!("KEY={}", once), "KEY", None).unwrap();
    assert_eq!(once, again);
}

#[test]
fn value_keeps_later_equals_signs() {
    let r = record_value("KEY=a=b", "KEY", None);
    assert_eq!(r.unwrap(), "a=b");
}

#[test]
fn matched_key_without_equals_is_a_parse_error() {
    let r = record_value("PRETTY_NAME\nNAME=ok", "PRETTY_NAME", Some("NAME"));
    assert!(matches!(r, Err(Error::Parse)));
}

#[test]
fn empty_input_fails() {
    let r = record_value("", "PRETTY_NAME", Some("NAME"));
    assert!(matches!(r, Err(Error::Parse)));
}

#[test]
fn record_value_is_idempotent_across_calls() {
    let text = "NAME=\"Foo\"\nPRETTY_NAME=\"Foo 10\"\n";
    let a = record_value(text, "PRETTY_NAME", Some("NAME")).unwrap();
    let b = record_value(text, "PRETTY_NAME", Some("NAME")).unwrap();
    assert_eq!(a, b);
}
