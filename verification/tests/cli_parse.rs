use httpie::command::{build_get, build_post, dispatch_method, Command, Method};
use httpie::error::ParseError;
use httpie::kv::{parse_body, parse_kv_pair, KvPair};
use httpie::url_check::validate_url;

fn pair(k: &str, v: &str) -> KvPair {
    KvPair {
        k: k.to_string(),
        v: v.to_string(),
    }
}

#[test]
fn validate_url_identity_on_success() {
    let raw = "http://example.com";
    assert_eq!(validate_url(raw), Ok(raw.to_string()));
}

#[test]
fn validate_url_no_normalization() {
    // The validator hands back the raw spelling; it never lowercases
    // the scheme or host and never adds a trailing slash.
    let raw = "HTTP://Example.Com";
    assert_eq!(validate_url(raw), Ok(raw.to_string()));
}

#[test]
fn validate_url_rejects_missing_scheme() {
    match validate_url("example.com") {
        Err(ParseError::InvalidUrl { raw, .. }) => assert_eq!(raw, "example.com"),
        other => panic!("expected InvalidUrl, got {:?}", other),
    }
}

#[test]
fn validate_url_rejects_empty_string() {
    match validate_url("") {
        Err(ParseError::InvalidUrl { raw, .. }) => assert_eq!(raw, ""),
        other => panic!("expected InvalidUrl, got {:?}", other),
    }
}

#[test]
fn validate_url_keeps_query_whole() {
    // The validator never splits query parameters; only the KV pair
    // parser splits at `=`, and only on CLI body tokens.
    let raw = "https://example.com/path?x=1";
    assert_eq!(validate_url(raw), Ok(raw.to_string()));
}

#[test]
fn kv_pair_splits_at_first_separator() {
    assert_eq!(parse_kv_pair("a=1"), Ok(pair("a", "1")));
    assert_eq!(parse_kv_pair("a=b=c"), Ok(pair("a", "b=c")));
}

#[test]
fn kv_pair_empty_value() {
    assert_eq!(parse_kv_pair("a="), Ok(pair("a", "")));
}

#[test]
fn kv_pair_empty_key() {
    assert_eq!(parse_kv_pair("=b"), Ok(pair("", "b")));
}

#[test]
fn kv_pair_missing_separator() {
    assert_eq!(
        parse_kv_pair("foo"),
        Err(ParseError::MissingSeparator {
            raw: "foo".to_string()
        })
    );
}

#[test]
fn body_preserves_order() {
    let tokens = vec!["a=1".to_string(), "b=2".to_string(), "c=3".to_string()];
    assert_eq!(
        parse_body(&tokens),
        Ok(vec![pair("a", "1"), pair("b", "2"), pair("c", "3")])
    );
}

#[test]
fn body_reports_first_malformed_token() {
    let tokens = vec!["a=1".to_string(), "oops".to_string(), "nope".to_string()];
    assert_eq!(
        parse_body(&tokens),
        Err(ParseError::MissingSeparator {
            raw: "oops".to_string()
        })
    );
}

#[test]
fn post_scenario() {
    let tokens = vec!["a=1".to_string(), "b=2".to_string()];
    assert_eq!(
        build_post("http://example.com", &tokens),
        Ok(Command::Post {
            url: "http://example.com".to_string(),
            body: vec![pair("a", "1"), pair("b", "2")],
        })
    );
}

#[test]
fn post_with_empty_body() {
    assert_eq!(
        build_post("http://example.com", &Vec::new()),
        Ok(Command::Post {
            url: "http://example.com".to_string(),
            body: Vec::new(),
        })
    );
}

#[test]
fn get_scenario_invalid_url() {
    match build_get("not-a-url") {
        Err(ParseError::InvalidUrl { raw, .. }) => assert_eq!(raw, "not-a-url"),
        other => panic!("expected InvalidUrl, got {:?}", other),
    }
}

#[test]
fn get_scenario_valid_url() {
    assert_eq!(
        build_get("https://example.com/path?x=1"),
        Ok(Command::Get {
            url: "https://example.com/path?x=1".to_string()
        })
    );
}

#[test]
fn post_scenario_missing_separator() {
    let tokens = vec!["foo".to_string()];
    assert_eq!(
        build_post("http://example.com", &tokens),
        Err(ParseError::MissingSeparator {
            raw: "foo".to_string()
        })
    );
}

#[test]
fn post_invalid_url_wins_over_body() {
    // The URL gate comes first: its failure is reported even when a
    // body token is malformed too.
    let tokens = vec!["foo".to_string()];
    match build_post("not-a-url", &tokens) {
        Err(ParseError::InvalidUrl { raw, .. }) => assert_eq!(raw, "not-a-url"),
        other => panic!("expected InvalidUrl, got {:?}", other),
    }
}

#[test]
fn dispatch_selects_variant() {
    assert!(matches!(dispatch_method("get"), Ok(Method::Get)));
    assert!(matches!(dispatch_method("post"), Ok(Method::Post)));
}

#[test]
fn dispatch_rejects_unknown_subcommand() {
    match dispatch_method("delete") {
        Err(ParseError::UnknownSubcommand { token }) => assert_eq!(token, "delete"),
        other => panic!("expected UnknownSubcommand, got {:?}", other),
    }
}
