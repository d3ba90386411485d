//! The allowlist guard: empty set allows all, otherwise literal prefix
//! match decides.

use postergen::state::State;

#[test]
fn empty_allowlist_allows_all() {
    let state = State::new();
    assert!(state.allow_url("https://anything.example.com/x"));
    assert!(state.allow_url(""));
    assert!(state.allow_url("not even a url"));
}

#[test]
fn prefix_match_decides() {
    let mut state = State::new();
    state.set_allow_urls(&["https://cdn.example.com/".to_string()]);
    assert!(state.allow_url("https://cdn.example.com/x.png"));
    assert!(!state.allow_url("https://evil.example.com/x.png"));
    assert!(!state.allow_url("http://cdn.example.com/x.png"));
}

#[test]
fn prefix_match_is_literal_not_structural() {
    let mut state = State::new();
    state.set_allow_urls(&["https://example.com/a".to_string()]);
    // A literal prefix match also accepts longer path segments.
    assert!(state.allow_url("https://example.com/ab"));
    assert!(state.allow_url("https://example.com/a/b"));
    assert!(!state.allow_url("https://example.com/b"));
}

#[test]
fn any_matching_prefix_suffices() {
    let mut state = State::new();
    state.set_allow_urls(&[
        "https://one.example.com/".to_string(),
        "https://two.example.com/".to_string(),
    ]);
    assert!(state.allow_url("https://two.example.com/img.png"));
    assert!(!state.allow_url("https://three.example.com/img.png"));
}

#[test]
fn bind_addr_formats_the_port() {
    assert_eq!(postergen::cli::bind_addr(8080), "0.0.0.0:8080");
    assert_eq!(postergen::cli::bind_addr(80), "0.0.0.0:80");
    assert_eq!(postergen::cli::bind_addr(0), "0.0.0.0:0");
}

#[test]
fn fetch_timeout_round_trips() {
    let mut state = State::new();
    assert_eq!(state.fetch_timeout(), 0);
    state.set_fetch_timeout(2500);
    assert_eq!(state.fetch_timeout(), 2500);
}
