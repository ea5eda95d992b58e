use serein::{Handoff, LoginTermination, PolicyRequest, LIFETIME, QUERY_INTERVAL};

const T0: u64 = 5_000_000_000_000;
const QR: &str = "https://discord.com/api/v9/users/@me/remote-auth/login";

fn window() -> Handoff {
    let mut state = Handoff::new("c".repeat(64) + ":", T0);
    state.document_committed();
    state
}

#[test]
fn qr_requests_are_counted_up_to_the_limit() {
    let mut state = window();
    assert!(!state.qr_request_started(Some("https://discord.com/login"), T0));
    assert!(!state.qr_request_started(None, T0));
    for _ in 0..64 {
        assert!(state.qr_request_started(Some(QR), T0));
    }
    assert!(!state.qr_request_started(Some(QR), T0));
    assert_eq!(state.diagnostics.qr_requests, 64);
    state.qr_request_failed(T0);
    state.qr_response(Some(QR), 200, T0);
    state.qr_response(Some(QR), 99, T0);
    state.qr_response(Some("https://discord.com/"), 404, T0);
    assert_eq!(state.diagnostics.qr_network_failures, 1);
    assert_eq!(state.diagnostics.qr_responses, 1);
    assert_eq!(state.diagnostics.qr_last_status, 200);
    state.stop(LoginTermination::Cancelled);
    assert!(!state.qr_request_started(Some(QR), T0));
    state.qr_request_failed(T0);
    assert_eq!(state.diagnostics.qr_network_failures, 1);
}

#[test]
fn bridge_wakes_the_application_once() {
    let mut state = window();
    let page = Some("https://discord.com/login");
    assert!(!state.bridge_message(false, page, T0));
    assert!(!state.bridge_message(true, Some("https://evil.test/"), T0));
    assert!(state.bridge_message(true, page, T0));
    assert!(!state.bridge_message(true, page, T0));
    assert_eq!(state.diagnostics.bridge_wakes, 2);
}

#[test]
fn policy_allows_discord_and_hcaptcha_and_counts_refusals() {
    let mut state = window();
    let nav = |uri: &str| PolicyRequest::Navigation { uri: Some(uri.to_string()) };
    assert!(state.decide_policy(&nav("https://discord.com/login"), T0));
    assert!(state.decide_policy(&nav("https://newassets.hcaptcha.com/x"), T0));
    assert!(!state.decide_policy(&nav("https://evil.test/"), T0));
    assert!(!state.decide_policy(&PolicyRequest::Navigation { uri: None }, T0));
    let response = |mime: bool, main: bool, uri: &str| PolicyRequest::Response {
        mime_supported: mime,
        main_frame: main,
        uri: Some(uri.to_string()),
    };
    assert!(state.decide_policy(&response(true, true, "https://discord.com/app"), T0));
    assert!(state.decide_policy(&response(true, false, "https://cdn.example/x.js"), T0));
    assert!(!state.decide_policy(&response(true, true, "https://evil.test/"), T0));
    assert!(!state.decide_policy(&response(false, false, "https://discord.com/"), T0));
    assert!(!state.decide_policy(&PolicyRequest::Other, T0));
    assert_eq!(state.diagnostics.blocked_navigations, 5);
}

#[test]
fn storage_is_granted_only_to_embedded_verification() {
    let mut state = window();
    let discord = Some("https://discord.com/login");
    assert!(state.storage_permission(discord, Some((Some("discord.com"), Some("hcaptcha.com"))), T0));
    assert!(!state.storage_permission(
        Some("https://evil.test/"),
        Some((Some("discord.com"), Some("hcaptcha.com"))),
        T0
    ));
    assert!(!state.storage_permission(discord, Some((Some("discord.com"), Some("evil.test"))), T0));
    assert!(!state.storage_permission(discord, None, T0));
    assert_eq!(state.diagnostics.storage_allowed, 1);
    assert_eq!(state.diagnostics.storage_denied, 2);
}

#[test]
fn report_gives_age_termination_and_versions() {
    let mut state = window();
    let d = state.report(T0 + 3_500_000_000, (2, 48, 1), (4, 16, 2));
    assert_eq!(d.elapsed_seconds, 3);
    assert_eq!(d.termination, None);
    assert_eq!(d.webkit_version, Some((2, 48, 1)));
    assert_eq!(d.gtk_version, Some((4, 16, 2)));
    let late = state.report(T0 + LIFETIME + 1, (2, 48, 1), (4, 16, 2));
    assert_eq!(late.elapsed_seconds, 600);
    assert_eq!(late.termination, Some(LoginTermination::TimedOut));
    let very_late = state.report(T0 + 100_000 * 1_000_000_000, (0, 0, 0), (0, 0, 0));
    assert_eq!(very_late.elapsed_seconds, u16::MAX);
}

#[test]
fn the_window_expires_exactly_after_its_lifetime() {
    let mut state = window();
    assert!(state.active(T0 + LIFETIME));
    assert!(!state.active(T0 + LIFETIME + 1));
    assert_eq!(state.termination_reason(T0), Some(LoginTermination::TimedOut));
    let mut fresh = window();
    assert!(fresh.begin_query("https://discord.com/login", T0 + QUERY_INTERVAL));
    assert!(!fresh.begin_query("https://discord.com/login", T0 + LIFETIME + 1));
}

#[test]
fn a_body_without_the_capability_is_refused() {
    let mut state = window();
    assert!(!state.accept("https://discord.com/login", "token-without-capability", T0));
    assert!(!state.accept("https://discord.com/login", &state.capability.clone(), T0));
    assert!(!state.diagnostics.candidate_accepted);
}
