use fluss::query::parse_url_query_string;

#[test]
fn finds_value_of_key() {
    assert_eq!(parse_url_query_string("?RUST_LOG=debug", "RUST_LOG"), Some("debug"));
    assert_eq!(parse_url_query_string("?a=1&RUST_LOG=warn&b=2", "RUST_LOG"), Some("warn"));
}

#[test]
fn missing_question_mark_gives_none() {
    assert_eq!(parse_url_query_string("RUST_LOG=debug", "RUST_LOG"), None);
    assert_eq!(parse_url_query_string("", "RUST_LOG"), None);
}

#[test]
fn absent_key_gives_none() {
    assert_eq!(parse_url_query_string("?a=1&b=2", "c"), None);
    assert_eq!(parse_url_query_string("?", "a"), None);
}

#[test]
fn pair_without_equals_is_passed_over() {
    assert_eq!(parse_url_query_string("?flag&a=1", "a"), Some("1"));
    assert_eq!(parse_url_query_string("?a=1&flag", "a"), Some("1"));
    assert_eq!(parse_url_query_string("?flag", "flag"), None);
    assert_eq!(parse_url_query_string("?x&y&b=2", "b"), Some("2"));
}

#[test]
fn value_stops_at_second_equals() {
    assert_eq!(parse_url_query_string("?a=1=2", "a"), Some("1"));
    assert_eq!(parse_url_query_string("?a=", "a"), Some(""));
    assert_eq!(parse_url_query_string("?=x", ""), Some("x"));
}

#[test]
fn first_matching_pair_wins() {
    assert_eq!(parse_url_query_string("?a=1&a=2", "a"), Some("1"));
}

#[test]
fn non_ascii_values_are_cut_at_character_boundaries() {
    assert_eq!(parse_url_query_string("?name=Grüße&x=1", "name"), Some("Grüße"));
    assert_eq!(parse_url_query_string("?ключ=значение", "ключ"), Some("значение"));
}
