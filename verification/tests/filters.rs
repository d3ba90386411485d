//! The helper functions: data URI encoding, the fetch guard and status
//! handling, and code generation.

use postergen::filters::{
    effective_timeout, fetch, fetch_error_message, response_to_data_url, to_code, to_dataurl,
    CodeError, FetchError,
};
use postergen::state::State;

#[test]
fn dataurl_encodes_base64() {
    // base64("Man") == "TWFu", the classic expected value.
    assert_eq!(to_dataurl("text/plain", b"Man"), "data:text/plain;base64,TWFu");
}

#[test]
fn dataurl_of_empty_body() {
    assert_eq!(to_dataurl("image/png", b""), "data:image/png;base64,");
}

#[test]
fn fetch_disallowed_url_fails_without_network() {
    let mut state = State::new();
    state.set_allow_urls(&["https://cdn.example.com/".to_string()]);
    let r = fetch(&state, "https://evil.example.com/x.png", None);
    assert_eq!(r, Err(FetchError::NotAllowed));
}

#[test]
fn fetch_allowed_url_proceeds_to_network() {
    let mut state = State::new();
    state.set_allow_urls(&["https://cdn.example.com/".to_string()]);
    // The URL passes the guard, so the failure comes from the transport,
    // not from the allowlist. The transport is built without TLS support,
    // so an https target is refused deterministically, with no network.
    let r = fetch(&state, "https://cdn.example.com/x.png", Some(1000));
    assert!(matches!(r, Err(FetchError::Io(_))), "got {:?}", r);
}

#[test]
fn zero_timeout_means_none() {
    assert_eq!(effective_timeout(Some(0)), None);
    assert_eq!(effective_timeout(None), None);
    assert_eq!(effective_timeout(Some(750)), Some(750));
}

#[test]
fn response_below_or_above_2xx_is_bad_status() {
    assert_eq!(
        response_to_data_url(301, Some("text/plain".to_string()), vec![]),
        Err(FetchError::BadStatus(301))
    );
    assert_eq!(
        response_to_data_url(404, Some("text/plain".to_string()), vec![]),
        Err(FetchError::BadStatus(404))
    );
    assert_eq!(
        response_to_data_url(199, Some("text/plain".to_string()), vec![]),
        Err(FetchError::BadStatus(199))
    );
}

#[test]
fn response_without_content_type_is_rejected() {
    assert_eq!(response_to_data_url(200, None, b"Man".to_vec()), Err(FetchError::MissingContentType));
}

#[test]
fn successful_response_becomes_data_url() {
    let r = response_to_data_url(200, Some("text/plain".to_string()), b"Man".to_vec());
    assert_eq!(r, Ok("data:text/plain;base64,TWFu".to_string()));
}

#[test]
fn fetch_error_messages_carry_detail() {
    assert_eq!(
        fetch_error_message("https://e.example.com/x", &FetchError::NotAllowed),
        "Fetch: Not Allowed `https://e.example.com/x`"
    );
    assert_eq!(
        fetch_error_message("https://e.example.com/x", &FetchError::BadStatus(404)),
        "Fetch: Bad Status 404"
    );
    assert_eq!(
        fetch_error_message("https://e.example.com/x", &FetchError::MissingContentType),
        "Fetch: Missing Content-Type `https://e.example.com/x`"
    );
    assert_eq!(
        fetch_error_message("https://e.example.com/x", &FetchError::Io("refused".to_string())),
        "Fetch: IO Error `https://e.example.com/x`, refused"
    );
}

#[test]
fn code_for_short_text_is_svg_data_url() {
    let r = to_code("hello", None, None).unwrap();
    assert!(r.starts_with("data:image/svg+xml;base64,"));
    // The payload is the rendered code, not the input handed back.
    assert_ne!(r, "hello");
}

#[test]
fn code_colors_default_and_override() {
    let with_defaults = to_code("hello", None, None).unwrap();
    let with_colors = to_code("hello", Some("#abc"), Some("#def")).unwrap();
    assert_ne!(with_defaults, with_colors);
}

#[test]
fn code_for_overlong_text_fails_cleanly() {
    let long = "x".repeat(5000);
    assert_eq!(to_code(&long, None, None), Err(CodeError::Encoding));
}

#[test]
fn code_for_empty_text_still_encodes() {
    // The code scheme can encode zero-length payloads, so empty text is
    // not an encoding failure.
    let r = to_code("", None, None).unwrap();
    assert!(r.starts_with("data:image/svg+xml;base64,"));
}
