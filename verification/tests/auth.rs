use tasklist::auth::{
    closing_response, get_authorization_code, pick_authorization, redirect_target, required_setting,
    response_for, verify_state,
};
use tasklist::error::TodoError;

fn pair(key: &str, value: &str) -> (String, String) {
    (key.to_string(), value.to_string())
}

#[test]
fn target_is_the_second_word() {
    assert_eq!(redirect_target("GET /?code=a&state=b HTTP/1.1"), Some("/?code=a&state=b".to_string()));
    assert_eq!(redirect_target("  GET   /x  "), Some("/x".to_string()));
    assert_eq!(redirect_target("GET\t/tab\r\n"), Some("/tab".to_string()));
    assert_eq!(redirect_target("a b"), Some("b".to_string()));
}

#[test]
fn target_is_missing_from_a_line_of_one_word_or_none() {
    assert_eq!(redirect_target("GET"), None);
    assert_eq!(redirect_target("GET   \r\n"), None);
    assert_eq!(redirect_target(""), None);
    assert_eq!(redirect_target(" \t "), None);
}

#[test]
fn target_is_found_behind_words_that_are_not_ascii() {
    assert_eq!(redirect_target("gr\u{fc}\u{df}e \u{e9}t\u{e9} fin"), Some("\u{e9}t\u{e9}".to_string()));
    assert_eq!(redirect_target("a\u{2003}b\u{a0}c"), Some("b".to_string()));
}

#[test]
fn code_and_state_are_read_off_the_request_line() {
    let r = get_authorization_code("GET /?code=abc&state=xyz HTTP/1.1\r\n");
    assert_eq!(r, Ok(("abc".to_string(), "xyz".to_string())));
}

#[test]
fn code_and_state_are_decoded() {
    let r = get_authorization_code("GET /cb?state=s%20t+u&code=4%2F0A%26b HTTP/1.1");
    assert_eq!(r, Ok(("4/0A&b".to_string(), "s t u".to_string())));
}

#[test]
fn the_first_of_two_codes_counts() {
    let r = get_authorization_code("GET /?code=first&code=second&state=s&state=t HTTP/1.1");
    assert_eq!(r, Ok(("first".to_string(), "s".to_string())));
}

#[test]
fn a_line_without_a_target_is_an_invalid_redirect() {
    assert_eq!(get_authorization_code("GET"), Err(TodoError::AuthError("Invalid redirect URL".to_string())));
    assert_eq!(get_authorization_code(""), Err(TodoError::AuthError("Invalid redirect URL".to_string())));
}

#[test]
fn a_redirect_without_code_says_so() {
    let r = get_authorization_code("GET /?state=xyz HTTP/1.1");
    assert_eq!(r, Err(TodoError::AuthError("No code in the response".to_string())));
    let r = get_authorization_code("GET / HTTP/1.1");
    assert_eq!(r, Err(TodoError::AuthError("No code in the response".to_string())));
}

#[test]
fn a_redirect_without_state_says_so() {
    let r = get_authorization_code("GET /?code=abc HTTP/1.1");
    assert_eq!(r, Err(TodoError::AuthError("No state in the response".to_string())));
}

#[test]
fn a_target_that_makes_no_url_is_an_auth_error() {
    let r = get_authorization_code("GET :99999999/?code=a&state=b HTTP/1.1");
    assert_eq!(r, Err(TodoError::AuthError("invalid port number".to_string())));
}

#[test]
fn pick_takes_the_first_value_of_each_key() {
    let pairs = vec![pair("x", "1"), pair("state", "s1"), pair("code", "c1"), pair("code", "c2")];
    assert_eq!(pick_authorization(&pairs), Ok(("c1".to_string(), "s1".to_string())));
}

#[test]
fn pick_of_no_pairs_misses_the_code() {
    assert_eq!(pick_authorization(&Vec::new()), Err(TodoError::AuthError("No code in the response".to_string())));
}

#[test]
fn pick_tells_the_keys_apart_exactly() {
    let pairs = vec![pair("Code", "no"), pair("code ", "no"), pair("state", "s")];
    assert_eq!(pick_authorization(&pairs), Err(TodoError::AuthError("No code in the response".to_string())));
    let pairs = vec![pair("code", ""), pair("states", "no")];
    assert_eq!(pick_authorization(&pairs), Err(TodoError::AuthError("No state in the response".to_string())));
    let pairs = vec![pair("code", ""), pair("state", "")];
    assert_eq!(pick_authorization(&pairs), Ok((String::new(), String::new())));
}

#[test]
fn state_that_came_back_must_be_the_one_sent() {
    assert_eq!(verify_state("abc", "abc"), Ok(()));
    assert_eq!(verify_state("", ""), Ok(()));
    assert_eq!(verify_state("abc", "abd"), Err(TodoError::AuthError("CSRF token mismatch".to_string())));
    assert_eq!(verify_state("abc", "ABC"), Err(TodoError::AuthError("CSRF token mismatch".to_string())));
    assert_eq!(verify_state("abc", ""), Err(TodoError::AuthError("CSRF token mismatch".to_string())));
}

#[test]
fn a_setting_that_is_missing_is_named() {
    assert_eq!(required_setting("GOOGLE_CLIENT_ID", Some("id".to_string())), Ok("id".to_string()));
    assert_eq!(
        required_setting("GOOGLE_CLIENT_ID", None),
        Err(TodoError::ConfigError("GOOGLE_CLIENT_ID not set".to_string()))
    );
    assert_eq!(required_setting("X", Some(String::new())), Ok(String::new()));
}

#[test]
fn closing_response_is_exact() {
    assert_eq!(
        closing_response(),
        "HTTP/1.1 200 OK\r\nContent-Length: 30\r\n\r\nYou can now close this window."
    );
}

#[test]
fn response_counts_bytes_not_characters() {
    assert_eq!(response_for("\u{e9}"), "HTTP/1.1 200 OK\r\nContent-Length: 2\r\n\r\n\u{e9}");
    assert_eq!(response_for(""), "HTTP/1.1 200 OK\r\nContent-Length: 0\r\n\r\n");
}
