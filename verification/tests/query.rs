//! URL query-string lookup.

use deferred_app::query::parse_url_query_string;

#[test]
fn finds_key() {
    assert_eq!(parse_url_query_string("?RUST_LOG=debug", "RUST_LOG"), Some("debug"));
}

#[test]
fn finds_key_in_later_pair() {
    assert_eq!(
        parse_url_query_string("?backend=gl&RUST_LOG=info", "RUST_LOG"),
        Some("info")
    );
}

#[test]
fn first_matching_pair_wins() {
    assert_eq!(parse_url_query_string("?a=1&a=2", "a"), Some("1"));
}

#[test]
fn missing_question_mark_fails() {
    assert_eq!(parse_url_query_string("RUST_LOG=debug", "RUST_LOG"), None);
}

#[test]
fn empty_query_fails() {
    assert_eq!(parse_url_query_string("", "RUST_LOG"), None);
}

#[test]
fn bare_question_mark_fails() {
    assert_eq!(parse_url_query_string("?", "RUST_LOG"), None);
}

#[test]
fn absent_key_gives_nothing() {
    assert_eq!(parse_url_query_string("?a=1&b=2", "c"), None);
}

#[test]
fn pair_without_equals_aborts_lookup() {
    // The malformed pair is hit before the matching one is reached.
    assert_eq!(parse_url_query_string("?flag&RUST_LOG=info", "RUST_LOG"), None);
}

#[test]
fn empty_value() {
    assert_eq!(parse_url_query_string("?a=&b=2", "a"), Some(""));
}

#[test]
fn empty_key() {
    assert_eq!(parse_url_query_string("?=v", ""), Some("v"));
}

#[test]
fn value_stops_at_second_equals() {
    assert_eq!(parse_url_query_string("?a=b=c", "a"), Some("b"));
}

#[test]
fn key_is_everything_before_first_equals() {
    assert_eq!(parse_url_query_string("?ab=1", "a"), None);
    assert_eq!(parse_url_query_string("?a=1", "ab"), None);
}

#[test]
fn non_ascii_values() {
    assert_eq!(parse_url_query_string("?lang=中文&x=1", "lang"), Some("中文"));
}
