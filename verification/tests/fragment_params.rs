use portfolio_web::fragment::{fragment_param, parse_session_fragment, pct_decode};

#[test]
fn session_tokens_are_taken_from_the_hash() {
    let r = parse_session_fragment("#access_token=abc123&refresh_token=def456&token_type=bearer");
    assert_eq!(r, Some(("abc123".to_string(), "def456".to_string())));
}

#[test]
fn hash_prefix_is_optional() {
    let r = parse_session_fragment("access_token=a&refresh_token=b");
    assert_eq!(r, Some(("a".to_string(), "b".to_string())));
}

#[test]
fn missing_refresh_token_yields_nothing() {
    assert_eq!(parse_session_fragment("#access_token=abc"), None);
}

#[test]
fn missing_access_token_yields_nothing() {
    assert_eq!(parse_session_fragment("#refresh_token=abc"), None);
}

#[test]
fn percent_escapes_decode() {
    assert_eq!(
        fragment_param("#note=a%20b%2Fc", "note"),
        Some("a b/c".to_string())
    );
}

#[test]
fn plus_decodes_to_space() {
    assert_eq!(fragment_param("q=one+two", "q"), Some("one two".to_string()));
}

#[test]
fn keys_decode_too() {
    assert_eq!(fragment_param("a%20b=c", "a b"), Some("c".to_string()));
}

#[test]
fn last_occurrence_of_a_key_wins() {
    assert_eq!(fragment_param("k=1&k=2", "k"), Some("2".to_string()));
}

#[test]
fn segment_without_equals_has_empty_value() {
    assert_eq!(fragment_param("flag&k=v", "flag"), Some("".to_string()));
}

#[test]
fn truncated_escape_fails_the_parse() {
    assert_eq!(fragment_param("k=%2", "k"), None);
}

#[test]
fn non_hex_escape_fails_the_parse() {
    assert_eq!(fragment_param("k=%zz", "k"), None);
}

#[test]
fn absent_key_yields_nothing() {
    assert_eq!(fragment_param("a=1&b=2", "missing"), None);
}

#[test]
fn decode_is_identity_on_plain_text() {
    assert_eq!(pct_decode("abc-DEF_123.~"), Some("abc-DEF_123.~".to_string()));
}

#[test]
fn decode_rejects_escapes_beyond_ascii() {
    assert_eq!(pct_decode("%C3%A9"), None);
}
