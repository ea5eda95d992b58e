use serein::{
    Handoff, LoginTermination, LIFETIME, QUERY_INTERVAL, qr_exchange_uri,
    verification_storage_domains,
};
use std::time::Duration;

/// The clock reading at which each test's login window opens.
const START: u64 = 1_000_000_000_000;

fn nanos(d: Duration) -> u64 {
    d.as_nanos() as u64
}

#[test]
fn qr_diagnostics_scope_and_cancellation() {
    assert!(qr_exchange_uri(
        "https://discord.com/api/v9/users/@me/remote-auth/login"
    ));
    assert!(qr_exchange_uri(
        "https://discord.com/api/v10/users/@me/remote-auth/login?ignored=1"
    ));
    for uri in [
        "http://discord.com/api/v9/users/@me/remote-auth/login",
        "https://discord.com.evil.test/api/v9/users/@me/remote-auth/login",
        "https://discord.com:444/api/v9/users/@me/remote-auth/login",
        "https://user@discord.com/api/v9/users/@me/remote-auth/login",
        "https://discord.com/api/vx/users/@me/remote-auth/login",
        "https://discord.com/api/v9/users/@me",
    ] {
        assert!(!qr_exchange_uri(uri));
    }
    assert!(!qr_exchange_uri(&format!(
        "https://discord.com/api/v9/users/@me/remote-auth/login?{}",
        "x".repeat(2048)
    )));
    let mut state = Handoff::new("synthetic".into(), START);
    state.record(START, |mut d| {
        d.qr_last_status = 400;
        d
    });
    assert_eq!(state.diagnostics.qr_last_status, 400);
    state.stop(LoginTermination::Cancelled);
    state.record(START, |mut d| {
        d.qr_last_status = 200;
        d
    });
    assert_eq!(state.diagnostics.qr_last_status, 400);
}

#[test]
fn verification_storage_is_limited_to_hcaptcha_embedded_in_discord() {
    for domain in ["hcaptcha.com", "newassets.hcaptcha.com"] {
        assert!(verification_storage_domains(
            Some("discord.com"),
            Some(domain)
        ));
    }
    for domain in [
        None,
        Some("evil.test"),
        Some("hcaptcha.com.evil.test"),
        Some("evilhcaptcha.com"),
    ] {
        assert!(!verification_storage_domains(Some("discord.com"), domain));
    }
    for domain in [None, Some("evil.test"), Some("discord.com.evil.test")] {
        assert!(!verification_storage_domains(domain, Some("hcaptcha.com")));
    }
}

#[test]
fn handoff_is_scoped_bounded_single_use_and_closed_before_late_results() {
    let mut state = Handoff::new("a".repeat(64) + ":", START);
    state.document_ready = true;
    let valid = state.capability.clone() + &"T".repeat(2048);
    assert_eq!(valid.len(), 2113);
    assert!(!state.accept("https://evil.test/", &valid, START));
    assert!(!state.accept(
        "https://discord.com/login",
        &("b".repeat(64) + ":synthetic-token-value"),
        START
    ));
    assert!(!state.accept("https://discord.com/login", &(valid.clone() + "T"), START));
    assert!(!state.accept(
        "https://discord.com/login",
        &(state.capability.clone() + "invalid token value"),
        START
    ));
    assert!(state.accept("https://discord.com/login", &valid, START));
    assert_eq!(state.token.as_ref().unwrap().expose().len(), 2048);
    assert!(state.take_token(START).is_some());
    assert!(state.take_token(START).is_none());
    assert!(!state.accept("https://discord.com/login", &valid, START));
    state.querying = true;
    state.stop(LoginTermination::Cancelled);
    assert!(state.token.is_none());
    assert!(!state.finish_query(0, Some("https://discord.com/login"), Ok(Some(&valid)), START));
    assert!(!state.querying);
}

#[test]
fn handoff_queries_retry_without_wakes_and_stay_bounded() {
    let mut state = Handoff::new("a".repeat(64) + ":", START);
    state.document_ready = true;
    let uri = "https://discord.com/login";
    let now = state.last_query;
    assert!(!state.begin_query(uri, now));
    assert!(!state.begin_query("https://evil.test/", now + QUERY_INTERVAL));
    assert!(state.begin_query(uri, now + QUERY_INTERVAL));
    assert!(!state.begin_query(uri, now + QUERY_INTERVAL * 2));
    assert!(!state.finish_query(0, Some(uri), Err(()), now + QUERY_INTERVAL * 2));
    assert!(!state.begin_query(
        uri,
        now + QUERY_INTERVAL + nanos(Duration::from_millis(99))
    ));
    assert!(state.begin_query(uri, now + QUERY_INTERVAL * 2));
    assert!(!state.finish_query(0, Some(uri), Ok(None), now + QUERY_INTERVAL * 2));
    assert!(state.begin_query(uri, now + QUERY_INTERVAL * 3));
    let body = state.capability.clone() + "synthetic-login-candidate";
    assert!(state.finish_query(0, Some(uri), Ok(Some(&body)), now + QUERY_INTERVAL * 3));
    assert!(!state.begin_query(uri, now + QUERY_INTERVAL * 4));
    let diagnostics = state.diagnostics;
    assert_eq!(diagnostics.bridge_wakes, 0);
    assert_eq!(diagnostics.query_attempts, 3);
    assert_eq!(diagnostics.query_errors, 1);
    assert!(diagnostics.candidate_accepted);

    let mut state = Handoff::new("b".repeat(64) + ":", START);
    state.document_ready = true;
    let mut diagnostics = state.diagnostics;
    diagnostics.query_attempts = u16::MAX;
    diagnostics.query_errors = u16::MAX;
    state.diagnostics = diagnostics;
    let next = state.last_query + QUERY_INTERVAL;
    assert!(state.begin_query(uri, next));
    assert!(!state.finish_query(0, Some(uri), Err(()), next));
    assert_eq!(state.diagnostics.query_attempts, u16::MAX);
    assert_eq!(state.diagnostics.query_errors, u16::MAX);
}

#[test]
fn handoff_navigation_rejects_late_results_and_clears_unconsumed_candidates() {
    let mut state = Handoff::new("a".repeat(64) + ":", START);
    state.document_ready = true;
    assert!(state.take_token(START).is_none());
    assert!(!state.consumed);
    let uri = "https://discord.com/login";
    let now = state.last_query;
    let body = state.capability.clone() + "synthetic-login-candidate";
    assert!(state.begin_query(uri, now + QUERY_INTERVAL));
    let document = state.document;
    state.navigation_started();
    assert!(!state.begin_query(uri, now + QUERY_INTERVAL * 2));
    assert!(!state.finish_query(document, Some(uri), Ok(Some(&body)), now + QUERY_INTERVAL * 2));
    assert!(!state.querying);
    assert!(!state.diagnostics.candidate_accepted);
    assert!(!state.begin_query(uri, now + QUERY_INTERVAL * 2));
    // Committing the new main document is sufficient; no Finished event is needed.
    state.document_ready = true;
    assert!(state.begin_query(uri, now + QUERY_INTERVAL * 2));
    let current = state.document;
    assert!(state.finish_query(current, Some(uri), Ok(Some(&body)), now + QUERY_INTERVAL * 2));
    assert!(state.token.is_some());
    state.navigation_started();
    assert!(state.token.is_none());
    assert!(state.diagnostics.candidate_accepted);
    assert!(!state.begin_query(uri, now + QUERY_INTERVAL * 3));
    assert!(!state.accept(uri, &body, now + QUERY_INTERVAL * 3));
    // The old candidate was never consumed; the fresh committed document may retry.
    state.document_ready = true;
    assert!(state.begin_query(uri, now + QUERY_INTERVAL * 3));
    let fresh = state.capability.clone() + "synthetic-fresh-candidate";
    let current = state.document;
    assert!(state.finish_query(current, Some(uri), Ok(Some(&fresh)), now + QUERY_INTERVAL * 3));
    assert!(!state.accept(uri, &body, now + QUERY_INTERVAL * 3));
    let token = state.take_token(now + QUERY_INTERVAL * 3).unwrap();
    assert!(token.expose() == "synthetic-fresh-candidate");
    assert!(state.take_token(now + QUERY_INTERVAL * 3).is_none());
    state.navigation_started();
    state.document_ready = true;
    assert!(!state.begin_query(uri, now + QUERY_INTERVAL * 4));
    assert!(!state.accept(uri, &body, now + QUERY_INTERVAL * 4));
    assert!(state.take_token(now + QUERY_INTERVAL * 4).is_none());
}

#[test]
fn handoff_cancellation_wins_and_timeout_is_distinct_from_process_stop() {
    let uri = "https://discord.com/login";
    for reason in [
        LoginTermination::Cancelled,
        LoginTermination::WebProcessStopped,
    ] {
        let mut state = Handoff::new("a".repeat(64) + ":", START);
        state.document_ready = true;
        let body = state.capability.clone() + "synthetic-login-candidate";
        assert!(state.accept(uri, &body, START));
        state.stop(reason);
        assert_eq!(state.termination_reason(START), Some(reason));
        assert!(state.token.is_none());
        state.stop(LoginTermination::Cancelled);
        state.stop(LoginTermination::WebProcessStopped);
        assert_eq!(
            state.termination_reason(START),
            Some(LoginTermination::Cancelled)
        );
        assert!(!state.accept(uri, &body, START));
    }
    let mut state = Handoff::new("a".repeat(64) + ":", START);
    state.document_ready = true;
    let body = state.capability.clone() + "synthetic-login-candidate";
    assert!(state.accept(uri, &body, START));
    state.opened -= LIFETIME + nanos(Duration::from_secs(1));
    assert_eq!(state.termination_reason(START), Some(LoginTermination::TimedOut));
    assert!(state.token.is_none());
    state.stop(LoginTermination::WebProcessStopped);
    assert_eq!(state.termination_reason(START), Some(LoginTermination::TimedOut));
    assert!(!state.accept(uri, &body, START));
}
