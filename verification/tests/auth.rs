use os_cli::auth::{accepted_token, decimal_string, login_url, parse_token_from_request, Provider};

#[test]
fn parse_token_from_query_string() {
    let req = "GET /callback?token=abc-123-def HTTP/1.1\r\nHost: localhost";
    assert_eq!(parse_token_from_request(req), Some("abc-123-def".to_string()));
}

#[test]
fn parse_token_with_extra_params() {
    let req = "GET /callback?other=x&token=my-token&foo=bar HTTP/1.1";
    assert_eq!(parse_token_from_request(req), Some("my-token".to_string()));
}

#[test]
fn parse_token_missing() {
    let req = "GET /callback?other=value HTTP/1.1";
    assert!(parse_token_from_request(req).is_none());
}

#[test]
fn provider_paths() {
    assert_eq!(Provider::GitHub.path(), "/auth/github/start");
    assert_eq!(Provider::Google.path(), "/auth/google/start");
}

#[test]
fn provider_names() {
    assert_eq!(Provider::GitHub.name(), "GitHub");
    assert_eq!(Provider::Google.name(), "Google");
}

#[test]
fn parse_token_empty_request() {
    assert!(parse_token_from_request("").is_none());
}

#[test]
fn parse_token_without_query() {
    assert!(parse_token_from_request("GET /callback HTTP/1.1").is_none());
}

#[test]
fn parse_token_only_first_line_counts() {
    let req = "GET /callback HTTP/1.1\r\nReferer: /x?token=nope";
    assert!(parse_token_from_request(req).is_none());
}

#[test]
fn parse_token_empty_value() {
    assert_eq!(parse_token_from_request("GET /cb?token= HTTP/1.1"), Some(String::new()));
}

#[test]
fn parse_token_first_of_two() {
    let req = "GET /cb?token=one&token=two HTTP/1.1";
    assert_eq!(parse_token_from_request(req), Some("one".to_string()));
}

#[test]
fn login_url_carries_port() {
    let url = login_url("https://api.example.com", &Provider::Google, 54321);
    assert_eq!(url, "https://api.example.com/auth/google/start?cli_port=54321");
}

#[test]
fn decimal_string_values() {
    assert_eq!(decimal_string(0), "0");
    assert_eq!(decimal_string(7), "7");
    assert_eq!(decimal_string(65535), "65535");
    assert_eq!(decimal_string(18446744073709551615), "18446744073709551615");
}

#[test]
fn login_accepts_only_a_non_empty_token() {
    assert_eq!(accepted_token("GET /callback?token=abc HTTP/1.1\r\n"), Some("abc".to_string()));
    assert_eq!(accepted_token("GET /callback?token= HTTP/1.1"), None);
    assert_eq!(accepted_token("GET /callback HTTP/1.1"), None);
    assert_eq!(accepted_token(""), None);
}
