use ws_session::error::WebSocketError;
use ws_session::headers::{
    extension_header_name, extension_header_value, plan_headers, resolve_header, HeaderProblem,
};

fn pairs(entries: &[(&str, &str)]) -> Vec<(String, String)> {
    entries
        .iter()
        .map(|(k, v)| (k.to_string(), v.to_string()))
        .collect()
}

#[test]
fn extension_header_constants() {
    assert_eq!(extension_header_name(), "Sec-WebSocket-Extensions");
    assert_eq!(
        extension_header_value(),
        "permessage-deflate; client_max_window_bits"
    );
}

#[test]
fn plan_puts_extension_before_user_headers() {
    let user = pairs(&[("X-Test", "1")]);
    let plan = plan_headers(&user, true).expect("valid headers must plan");
    assert_eq!(plan.len(), 2);
    assert_eq!(plan[0].0, "Sec-WebSocket-Extensions");
    assert_eq!(plan[0].1, "permessage-deflate; client_max_window_bits");
    assert_eq!(plan[1].0, "X-Test");
    assert_eq!(plan[1].1, "1");
    assert_eq!(resolve_header(&plan, "X-Test"), Some("1".to_string()));
    assert_eq!(
        resolve_header(&plan, "Sec-WebSocket-Extensions"),
        Some("permessage-deflate; client_max_window_bits".to_string())
    );
}

#[test]
fn user_extension_header_wins() {
    let user = pairs(&[("X-Test", "1"), ("Sec-WebSocket-Extensions", "none")]);
    let plan = plan_headers(&user, true).expect("valid headers must plan");
    assert_eq!(plan.len(), 3);
    // The final value for the extension header is the user's.
    assert_eq!(
        resolve_header(&plan, "Sec-WebSocket-Extensions"),
        Some("none".to_string())
    );
    assert_eq!(resolve_header(&plan, "X-Test"), Some("1".to_string()));
}

#[test]
fn plan_without_extension_is_user_only() {
    let user = pairs(&[("X-Test", "1")]);
    let plan = plan_headers(&user, false).expect("valid headers must plan");
    assert_eq!(plan.len(), 1);
    assert_eq!(resolve_header(&plan, "Sec-WebSocket-Extensions"), None);
}

#[test]
fn resolve_is_case_insensitive() {
    let plan = plan_headers(&pairs(&[("X-Test", "1")]), false).expect("valid");
    assert_eq!(resolve_header(&plan, "x-test"), Some("1".to_string()));
    assert_eq!(resolve_header(&plan, "X-TEST"), Some("1".to_string()));
    assert_eq!(resolve_header(&plan, "x-other"), None);
}

#[test]
fn later_insertion_of_same_name_wins() {
    let plan = plan_headers(&pairs(&[("X-Test", "1"), ("x-test", "2")]), false).expect("valid");
    assert_eq!(resolve_header(&plan, "X-Test"), Some("2".to_string()));
}

#[test]
fn invalid_header_name_rejected() {
    let user = pairs(&[("bad name", "v")]);
    let failure = plan_headers(&user, true).expect_err("a space in a name is invalid");
    assert_eq!(failure.key, "bad name");
    assert_eq!(failure.problem, HeaderProblem::InvalidName);
    assert_eq!(failure.kind(), WebSocketError::HeaderError);
    assert_eq!(failure.kind().as_ref(), "HeaderError");
}

#[test]
fn empty_header_name_rejected() {
    let failure = plan_headers(&pairs(&[("", "v")]), false).expect_err("empty name is invalid");
    assert_eq!(failure.key, "");
    assert_eq!(failure.problem, HeaderProblem::InvalidName);
}

#[test]
fn invalid_header_value_rejected() {
    let user = pairs(&[("X-Ok", "bad\nvalue")]);
    let failure = plan_headers(&user, false).expect_err("a newline in a value is invalid");
    assert_eq!(failure.key, "X-Ok");
    assert_eq!(failure.problem, HeaderProblem::InvalidValue);
}

#[test]
fn first_invalid_entry_is_named() {
    let user = pairs(&[("X-Ok", "fine"), ("bad name", "v"), ("X-Late", "\u{7f}")]);
    let failure = plan_headers(&user, false).expect_err("invalid entries must fail");
    assert_eq!(failure.key, "bad name");
    assert_eq!(failure.problem, HeaderProblem::InvalidName);
}

#[test]
fn tab_and_high_bytes_allowed_in_values() {
    let user = pairs(&[("X-Tab", "a\tb"), ("X-High", "caf\u{e9}")]);
    let plan = plan_headers(&user, false).expect("tab and non-ASCII text are valid value bytes");
    assert_eq!(resolve_header(&plan, "X-Tab"), Some("a\tb".to_string()));
    assert_eq!(resolve_header(&plan, "X-High"), Some("caf\u{e9}".to_string()));
}
