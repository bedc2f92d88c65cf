//! The language tag decomposer.

use whoami::lang;

#[test]
fn region_qualified_locale_yields_base_then_full() {
    let tags = lang(Some("en_US.UTF-8".to_string()));
    assert_eq!(tags, vec!["en".to_string(), "en-US".to_string()]);
}

#[test]
fn placeholder_locale_substitutes_the_default() {
    let tags = lang(Some("C".to_string()));
    assert_eq!(tags, vec!["en".to_string(), "en-US".to_string()]);
}

#[test]
fn bare_language_is_emitted_once() {
    let tags = lang(Some("fr".to_string()));
    assert_eq!(tags, vec!["fr".to_string()]);
}

#[test]
fn encoding_suffix_is_dropped() {
    let tags = lang(Some("fr.ISO-8859-1".to_string()));
    assert_eq!(tags, vec!["fr".to_string()]);
}

#[test]
fn unset_locale_yields_one_empty_tag() {
    let tags = lang(None);
    assert_eq!(tags, vec![String::new()]);
}

#[test]
fn lang_is_idempotent_across_calls() {
    let a = lang(Some("de_DE.UTF-8".to_string()));
    let b = lang(Some("de_DE.UTF-8".to_string()));
    assert_eq!(a, b);
}
