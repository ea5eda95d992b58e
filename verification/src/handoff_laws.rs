//! What holds of the login handoff across operations.
use vstd::prelude::*;
use crate::handoff::{
    HandoffState, LoginDiagnostics, LoginTermination, PolicyRequest, LIFETIME, QUERY_INTERVAL,
    MAX_BODY_BYTES, QR_REQUEST_LIMIT,
};
use crate::origin::{is_discord_origin, storage_domains_allowed};
use crate::text::byte_len;
use crate::secret::valid_secret;

verus! {

/// Every operation keeps a candidate scoped: a token is only ever held by a live
/// window whose current document committed and which has handed none over.
pub proof fn handoff_keeps_candidate_scoped(
    s: HandoffState,
    now: u64,
    uri: Seq<char>,
    body: Seq<char>,
    document: u64,
    page: Option<Seq<char>>,
    result: Result<Option<Seq<char>>, ()>,
    reason: LoginTermination,
    d: LoginDiagnostics,
    truthy: bool,
    status: u32,
    request: PolicyRequest,
    access: Option<(Option<Seq<char>>, Option<Seq<char>>)>,
    webkit: (u32, u32, u32),
    gtk: (u32, u32, u32),
)
    requires
        s.wf(),
    ensures
        s.stop(reason).wf(),
        s.settle(now).wf(),
        s.record(now, d).wf(),
        s.begin_query(uri, now).0.wf(),
        s.navigation_started().wf(),
        s.document_committed().wf(),
        s.accept(uri, body, now).0.wf(),
        s.finish_query(document, page, result, now).0.wf(),
        s.take_token(now).0.wf(),
        s.qr_request_started(page, now).0.wf(),
        s.qr_request_failed(now).wf(),
        s.qr_response(page, status, now).wf(),
        s.bridge_message(truthy, page, now).0.wf(),
        s.decide_policy(request, now).0.wf(),
        s.storage_permission(page, access, now).0.wf(),
        s.report(now, webkit, gtk).0.wf(),
{
}

/// A window hands a token over at most once: once it has, every operation keeps
/// it so, and no later handoff, acceptance or query succeeds.
pub proof fn handoff_hands_over_once(
    s: HandoffState,
    now: u64,
    later: u64,
    uri: Seq<char>,
    body: Seq<char>,
    document: u64,
    page: Option<Seq<char>>,
    result: Result<Option<Seq<char>>, ()>,
    reason: LoginTermination,
    d: LoginDiagnostics,
)
    ensures
        s.take_token(now).1 is Some ==> s.take_token(now).0.consumed,
        s.take_token(now).1 is Some ==> s.take_token(now).0.take_token(later).1 is None,
        s.consumed ==> {
            &&& s.take_token(now).1 is None
            &&& !s.accept(uri, body, now).1
            &&& !s.begin_query(uri, now).1
            &&& s.stop(reason).consumed
            &&& s.settle(now).consumed
            &&& s.record(now, d).consumed
            &&& s.begin_query(uri, now).0.consumed
            &&& s.navigation_started().consumed
            &&& s.document_committed().consumed
            &&& s.accept(uri, body, now).0.consumed
            &&& s.finish_query(document, page, result, now).0.consumed
            &&& s.take_token(now).0.consumed
        },
{
}

/// A cancellation always becomes the window's reason and stays so; any other
/// reason only becomes it when none was recorded, so a timeout stays distinct
/// from a later stop of the web process. Every stop discards the candidate.
pub proof fn handoff_cancellation_wins(s: HandoffState, reason: LoginTermination, t: LoginTermination, now: u64)
    ensures
        s.stop(LoginTermination::Cancelled).termination == Some(LoginTermination::Cancelled),
        s.stop(LoginTermination::Cancelled).stop(reason).termination == Some(
            LoginTermination::Cancelled,
        ),
        s.termination == Some(t) && reason != LoginTermination::Cancelled ==> s.stop(
            reason,
        ).termination == Some(t),
        s.termination == Some(t) ==> s.settle(now).termination == Some(t),
        s.stop(reason).token is None,
{
}

/// A window that outlives `LIFETIME` with no recorded reason ends as
/// `TimedOut` when the clock is next read, and discards its candidate.
pub proof fn handoff_times_out(s: HandoffState, now: u64)
    ensures
        s.termination is None && now.saturating_sub(s.opened) > LIFETIME ==> s.settle(
            now,
        ).termination == Some(LoginTermination::TimedOut) && s.settle(now).token is None,
        s.termination is None && now.saturating_sub(s.opened) <= LIFETIME ==> s.settle(now) == s,
{
}

/// An ended window accepts no body, starts no query and hands nothing over.
pub proof fn handoff_ended_window_is_closed(s: HandoffState, now: u64, uri: Seq<char>, body: Seq<char>)
    requires
        s.termination is Some,
    ensures
        !s.accept(uri, body, now).1,
        !s.begin_query(uri, now).1,
        s.take_token(now).1 is None,
{
}

/// A query result that belongs to the document before a navigation is
/// rejected, and the navigation leaves no candidate.
pub proof fn handoff_rejects_late_results(
    s: HandoffState,
    page: Option<Seq<char>>,
    result: Result<Option<Seq<char>>, ()>,
    now: u64,
)
    ensures
        s.navigation_started().token is None,
        !s.navigation_started().finish_query(s.document, page, result, now).1,
        s.navigation_started().finish_query(s.document, page, result, now).0.token is None,
{
}

/// Token queries run one at a time and start at least `QUERY_INTERVAL` apart.
pub proof fn handoff_queries_are_spaced(s: HandoffState, uri: Seq<char>, now: u64, next: Seq<char>, later: u64)
    ensures
        s.begin_query(uri, now).1 ==> now.saturating_sub(s.last_query) >= QUERY_INTERVAL,
        s.begin_query(uri, now).1 ==> s.begin_query(uri, now).0.last_query == now,
        s.begin_query(uri, now).1 ==> !s.begin_query(uri, now).0.begin_query(next, later).1,
{
}

/// An accepted body came from Discord's origin, has at most `MAX_BODY_BYTES`
/// bytes, begins with the window's capability, and the candidate is exactly the
/// valid token that follows it.
pub proof fn handoff_accepts_only_capability_bodies(s: HandoffState, uri: Seq<char>, body: Seq<char>, now: u64)
    ensures
        s.accept(uri, body, now).1 ==> {
            let c = s.capability;
            &&& is_discord_origin(uri)
            &&& byte_len(body) <= MAX_BODY_BYTES
            &&& c.len() <= body.len()
            &&& body.subrange(0, c.len() as int) == c
            &&& valid_secret(body.subrange(c.len() as int, body.len() as int))
            &&& s.accept(uri, body, now).0.token == Some(body.subrange(c.len() as int, body.len() as int))
        },
{
}

/// The query counters only grow, and stop at their maximum instead of wrapping.
pub proof fn handoff_query_counters_saturate(
    s: HandoffState,
    uri: Seq<char>,
    now: u64,
    document: u64,
    page: Option<Seq<char>>,
    result: Result<Option<Seq<char>>, ()>,
)
    ensures
        s.begin_query(uri, now).0.diagnostics.query_attempts >= s.diagnostics.query_attempts,
        s.begin_query(uri, now).1 && s.diagnostics.query_attempts == u16::MAX ==> s.begin_query(
            uri,
            now,
        ).0.diagnostics.query_attempts == u16::MAX,
        s.finish_query(document, page, result, now).0.diagnostics.query_errors
            >= s.diagnostics.query_errors,
        result is Err && s.diagnostics.query_errors < u16::MAX ==> s.finish_query(
            document,
            page,
            result,
            now,
        ).0.diagnostics.query_errors == s.diagnostics.query_errors + 1,
{
}

/// At most `QR_REQUEST_LIMIT` QR exchange requests are ever followed.
pub proof fn handoff_follows_bounded_qr_requests(s: HandoffState, page: Option<Seq<char>>, now: u64)
    requires
        s.diagnostics.qr_requests <= QR_REQUEST_LIMIT,
    ensures
        s.qr_request_started(page, now).0.diagnostics.qr_requests <= QR_REQUEST_LIMIT,
        s.qr_request_started(page, now).1 ==> s.diagnostics.qr_requests < QR_REQUEST_LIMIT,
{
}

/// The bridge wakes the application at most once in a row: a message that
/// wakes it is never followed by another that does.
pub proof fn handoff_wakes_once(
    s: HandoffState,
    truthy: bool,
    page: Option<Seq<char>>,
    now: u64,
    again: bool,
    next_page: Option<Seq<char>>,
    later: u64,
)
    ensures
        s.bridge_message(truthy, page, now).1 ==> !s.bridge_message(truthy, page, now).0.bridge_message(
            again,
            next_page,
            later,
        ).1,
{
}

/// Website-data access is granted only to hCaptcha storage requested while the
/// view shows Discord.
pub proof fn handoff_storage_only_for_verification(
    s: HandoffState,
    page: Option<Seq<char>>,
    access: Option<(Option<Seq<char>>, Option<Seq<char>>)>,
    now: u64,
)
    ensures
        s.storage_permission(page, access, now).1 ==> {
            &&& page matches Some(u) && is_discord_origin(u)
            &&& access matches Some(p) && storage_domains_allowed(p.0, p.1)
        },
{
}

/// One operation on a login handoff, as the window performs it.
pub enum HandoffStep {
    Stop(LoginTermination),
    ReadClock(u64),
    Record(u64, LoginDiagnostics),
    BeginQuery(Seq<char>, u64),
    NavigationStarted,
    DocumentCommitted,
    Accept(Seq<char>, Seq<char>, u64),
    FinishQuery(u64, Option<Seq<char>>, Result<Option<Seq<char>>, ()>, u64),
    TakeToken(u64),
    QrRequestStarted(Option<Seq<char>>, u64),
    QrRequestFailed(u64),
    QrResponse(Option<Seq<char>>, u32, u64),
    BridgeMessage(bool, Option<Seq<char>>, u64),
    DecidePolicy(PolicyRequest, u64),
    StoragePermission(Option<Seq<char>>, Option<(Option<Seq<char>>, Option<Seq<char>>)>, u64),
    Report(u64, (u32, u32, u32), (u32, u32, u32)),
}

/// The state after one operation.
pub open spec fn step(s: HandoffState, op: HandoffStep) -> HandoffState {
    match op {
        HandoffStep::Stop(reason) => s.stop(reason),
        HandoffStep::ReadClock(now) => s.settle(now),
        HandoffStep::Record(now, d) => s.record(now, d),
        HandoffStep::BeginQuery(uri, now) => s.begin_query(uri, now).0,
        HandoffStep::NavigationStarted => s.navigation_started(),
        HandoffStep::DocumentCommitted => s.document_committed(),
        HandoffStep::Accept(uri, body, now) => s.accept(uri, body, now).0,
        HandoffStep::FinishQuery(document, page, result, now) => s.finish_query(
            document,
            page,
            result,
            now,
        ).0,
        HandoffStep::TakeToken(now) => s.take_token(now).0,
        HandoffStep::QrRequestStarted(page, now) => s.qr_request_started(page, now).0,
        HandoffStep::QrRequestFailed(now) => s.qr_request_failed(now),
        HandoffStep::QrResponse(page, status, now) => s.qr_response(page, status, now),
        HandoffStep::BridgeMessage(truthy, page, now) => s.bridge_message(truthy, page, now).0,
        HandoffStep::DecidePolicy(request, now) => s.decide_policy(request, now).0,
        HandoffStep::StoragePermission(page, access, now) => s.storage_permission(
            page,
            access,
            now,
        ).0,
        HandoffStep::Report(now, webkit, gtk) => s.report(now, webkit, gtk).0,
    }
}

/// The state after a sequence of operations, first to last.
pub open spec fn run(s: HandoffState, ops: Seq<HandoffStep>) -> HandoffState
    decreases ops.len(),
{
    if ops.len() == 0 {
        s
    } else {
        run(step(s, ops[0]), ops.drop_first())
    }
}

/// Over any sequence of operations, a candidate token stays scoped: it is held
/// only by a live window whose document committed and which has handed none
/// over, so an ended or consumed window holds none.
pub proof fn handoff_runs_keep_candidate_scoped(s: HandoffState, ops: Seq<HandoffStep>)
    requires
        s.wf(),
    ensures
        run(s, ops).wf(),
        run(s, ops).termination is Some || run(s, ops).consumed ==> run(s, ops).token is None,
    decreases ops.len(),
{
    if ops.len() > 0 {
        assert(step(s, ops[0]).wf());
        handoff_runs_keep_candidate_scoped(step(s, ops[0]), ops.drop_first());
    }
}

/// Over any sequence of operations, a window that handed its token over stays so.
pub proof fn handoff_runs_keep_consumption(s: HandoffState, ops: Seq<HandoffStep>)
    requires
        s.consumed,
    ensures
        run(s, ops).consumed,
    decreases ops.len(),
{
    if ops.len() > 0 {
        handoff_runs_keep_consumption(step(s, ops[0]), ops.drop_first());
    }
}

/// Over any sequence of operations, a recorded termination reason stays, or
/// becomes `Cancelled`; nothing clears it.
pub proof fn handoff_runs_keep_reason(s: HandoffState, ops: Seq<HandoffStep>, t: LoginTermination)
    requires
        s.termination == Some(t),
    ensures
        run(s, ops).termination == Some(t) || run(s, ops).termination == Some(
            LoginTermination::Cancelled,
        ),
    decreases ops.len(),
{
    if ops.len() > 0 {
        let next = step(s, ops[0]);
        if next.termination == Some(t) {
            handoff_runs_keep_reason(next, ops.drop_first(), t);
        } else {
            handoff_runs_keep_reason(next, ops.drop_first(), LoginTermination::Cancelled);
        }
    }
}

/// Only an accepted body stores a candidate: every other operation leaves the
/// candidate as it was or discards it.
pub proof fn handoff_stores_token_only_by_accept(s: HandoffState, op: HandoffStep)
    requires
        !(op is Accept),
        !(op is FinishQuery),
    ensures
        step(s, op).token is None || step(s, op).token == s.token,
{
}

/// The wake counter never goes down under any operation but `Record`, whose
/// update sets the diagnostics it is given; so over any sequence without
/// `Record`, once the bridge has woken the application it never wakes it again.
pub proof fn handoff_runs_wake_once(
    s: HandoffState,
    ops: Seq<HandoffStep>,
    truthy: bool,
    page: Option<Seq<char>>,
    now: u64,
)
    requires
        forall|i: int| 0 <= i < ops.len() ==> !(#[trigger] ops[i] is Record),
    ensures
        run(s, ops).diagnostics.bridge_wakes >= s.diagnostics.bridge_wakes,
        s.bridge_message(truthy, page, now).1 ==> s.diagnostics.bridge_wakes == 0
            && s.bridge_message(truthy, page, now).0.diagnostics.bridge_wakes == 1,
        s.diagnostics.bridge_wakes >= 1 ==> !run(s, ops).bridge_message(truthy, page, now).1,
    decreases ops.len(),
{
    if ops.len() > 0 {
        let rest = ops.drop_first();
        assert forall|i: int| 0 <= i < rest.len() implies !(#[trigger] rest[i] is Record) by {
            assert(rest[i] == ops[i + 1]);
        }
        assert(!(ops[0] is Record));
        handoff_runs_wake_once(step(s, ops[0]), rest, truthy, page, now);
    }
}

/// A live, committed window that holds no candidate and has handed none over
/// accepts every body from Discord's origin of at most `MAX_BODY_BYTES` bytes
/// that is its capability followed by a valid token, and stores that token.
pub proof fn handoff_accepts_every_capability_body(
    s: HandoffState,
    uri: Seq<char>,
    t: Seq<char>,
    now: u64,
)
    requires
        s.termination is None,
        now.saturating_sub(s.opened) <= LIFETIME,
        s.document_ready,
        s.token is None,
        !s.consumed,
        is_discord_origin(uri),
        byte_len(s.capability + t) <= MAX_BODY_BYTES,
        valid_secret(t),
    ensures
        s.accept(uri, s.capability + t, now).1,
        s.accept(uri, s.capability + t, now).0.token == Some(t),
        s.accept(uri, s.capability + t, now).0.diagnostics.candidate_accepted,
        s.accept(uri, s.capability + t, now).0.consumed == s.consumed,
{
    let body = s.capability + t;
    assert(body.subrange(0, s.capability.len() as int) =~= s.capability);
    assert(body.subrange(s.capability.len() as int, body.len() as int) =~= t);
}

/// A query of the current document whose page is on Discord's origin and whose
/// body is the capability followed by a valid token hands that token to the
/// window, under the same conditions as an acceptance.
pub proof fn handoff_current_query_results_are_accepted(
    s: HandoffState,
    uri: Seq<char>,
    t: Seq<char>,
    now: u64,
)
    requires
        s.termination is None,
        now.saturating_sub(s.opened) <= LIFETIME,
        s.document_ready,
        s.token is None,
        !s.consumed,
        is_discord_origin(uri),
        byte_len(s.capability + t) <= MAX_BODY_BYTES,
        valid_secret(t),
    ensures
        s.finish_query(s.document, Some(uri), Ok(Some(s.capability + t)), now).1,
        s.finish_query(s.document, Some(uri), Ok(Some(s.capability + t)), now).0.token == Some(t),
        !s.finish_query(s.document, Some(uri), Ok(Some(s.capability + t)), now).0.querying,
{
    let body = s.capability + t;
    assert(body.subrange(0, s.capability.len() as int) =~= s.capability);
    assert(body.subrange(s.capability.len() as int, body.len() as int) =~= t);
}

/// A live, committed window that holds no candidate, has handed none over and
/// runs no query starts one on any page of Discord's origin once
/// `QUERY_INTERVAL` has passed since the last one started.
pub proof fn handoff_queries_any_discord_page(s: HandoffState, uri: Seq<char>, now: u64)
    requires
        s.termination is None,
        now.saturating_sub(s.opened) <= LIFETIME,
        s.document_ready,
        s.token is None,
        !s.consumed,
        !s.querying,
        now.saturating_sub(s.last_query) >= QUERY_INTERVAL,
        is_discord_origin(uri),
    ensures
        s.begin_query(uri, now).1,
        s.begin_query(uri, now).0.querying,
        s.begin_query(uri, now).0.last_query == now,
{
}

/// Website-data access is granted to hCaptcha, and to every subdomain of it,
/// when it is embedded in Discord while the view shows Discord's origin; each
/// such grant is counted as allowed in a live window.
pub proof fn handoff_grants_embedded_hcaptcha_storage(
    s: HandoffState,
    page: Seq<char>,
    sub: Seq<char>,
    now: u64,
)
    requires
        is_discord_origin(page),
    ensures
        s.storage_permission(
            Some(page),
            Some((Some("discord.com"@), Some("hcaptcha.com"@))),
            now,
        ).1,
        s.storage_permission(
            Some(page),
            Some((Some("discord.com"@), Some(sub + ".hcaptcha.com"@))),
            now,
        ).1,
        s.termination is None && now.saturating_sub(s.opened) <= LIFETIME ==> s.storage_permission(
            Some(page),
            Some((Some("discord.com"@), Some(sub + ".hcaptcha.com"@))),
            now,
        ).0.diagnostics.storage_denied == s.diagnostics.storage_denied,
{
    let host = sub + ".hcaptcha.com"@;
    assert(host.subrange(host.len() - ".hcaptcha.com"@.len(), host.len() as int) =~= ".hcaptcha.com"@);
    assert(storage_domains_allowed(Some("discord.com"@), Some(host)));
    assert(storage_domains_allowed(Some("discord.com"@), Some("hcaptcha.com"@)));
}

/// No operation changes the moment a window opened.
pub proof fn handoff_runs_keep_opening(s: HandoffState, ops: Seq<HandoffStep>)
    ensures
        run(s, ops).opened == s.opened,
    decreases ops.len(),
{
    if ops.len() > 0 {
        handoff_runs_keep_opening(step(s, ops[0]), ops.drop_first());
    }
}

/// Whatever happened since a window opened at `opened`, its reported age at
/// `now` is the whole seconds since `opened`, at most `u16::MAX`; the report
/// also carries the window's termination and the given toolkit versions.
pub proof fn handoff_reports_age_since_opening(
    capability: Seq<char>,
    opened: u64,
    ops: Seq<HandoffStep>,
    now: u64,
    webkit: (u32, u32, u32),
    gtk: (u32, u32, u32),
)
    ensures
        ({
            let s = run(HandoffState::initial(capability, opened), ops);
            let d = s.report(now, webkit, gtk).1;
            let secs = now.saturating_sub(opened) / 1_000_000_000;
            &&& secs <= u16::MAX ==> d.elapsed_seconds == secs
            &&& secs > u16::MAX ==> d.elapsed_seconds == u16::MAX
            &&& d.termination == s.report(now, webkit, gtk).0.termination
            &&& d.webkit_version == Some(webkit)
            &&& d.gtk_version == Some(gtk)
        }),
{
    handoff_runs_keep_opening(HandoffState::initial(capability, opened), ops);
}

/// A live, committed window that holds a candidate and has handed none over
/// hands exactly that candidate over, and is consumed afterwards.
pub proof fn handoff_hands_over_the_candidate(s: HandoffState, t: Seq<char>, now: u64)
    requires
        s.termination is None,
        now.saturating_sub(s.opened) <= LIFETIME,
        s.document_ready,
        s.token == Some(t),
        !s.consumed,
    ensures
        s.take_token(now).1 == Some(t),
        s.take_token(now).0.consumed,
        s.take_token(now).0.token is None,
{
}

/// Navigations to Discord's or hCaptcha's origin are allowed and others
/// refused; a response of a supported type is allowed for a subresource from
/// anywhere and for the main document from Discord; other decisions are
/// refused, and each refusal in a live window is counted.
pub proof fn handoff_policy_allows_login_pages(s: HandoffState, request: PolicyRequest, now: u64)
    ensures
        match request {
            PolicyRequest::Navigation { uri } => match crate::text::opt_string_view(uri) {
                Some(u) => s.decide_policy(request, now).1 == (is_discord_origin(u)
                    || crate::origin::is_hcaptcha_origin(u)),
                None => !s.decide_policy(request, now).1,
            },
            PolicyRequest::Response { mime_supported, main_frame, uri } => {
                &&& !mime_supported ==> !s.decide_policy(request, now).1
                &&& mime_supported && !main_frame ==> s.decide_policy(request, now).1
                &&& mime_supported && main_frame ==> s.decide_policy(request, now).1 == (
                crate::text::opt_string_view(uri) matches Some(u) && is_discord_origin(u))
            },
            PolicyRequest::Other => !s.decide_policy(request, now).1,
        },
        !s.decide_policy(request, now).1 && s.termination is None && now.saturating_sub(s.opened)
            <= LIFETIME && s.diagnostics.blocked_navigations < u16::MAX ==> s.decide_policy(
            request,
            now,
        ).0.diagnostics.blocked_navigations == s.diagnostics.blocked_navigations + 1,
        s.decide_policy(request, now).1 ==> s.decide_policy(request, now).0 == s,
{
}

/// The first `true` message from a Discord page to a live window that may
/// still receive a candidate wakes the application.
pub proof fn handoff_first_message_wakes(s: HandoffState, page: Seq<char>, now: u64)
    requires
        s.termination is None,
        now.saturating_sub(s.opened) <= LIFETIME,
        !s.consumed,
        s.token is None,
        s.diagnostics.bridge_wakes == 0,
        is_discord_origin(page),
    ensures
        s.bridge_message(true, Some(page), now).1,
        s.bridge_message(true, Some(page), now).0.diagnostics.bridge_wakes == 1,
        !s.bridge_message(false, Some(page), now).1,
{
}

/// A live window follows QR exchange requests while fewer than
/// `QR_REQUEST_LIMIT` were followed, counting each.
pub proof fn handoff_follows_qr_requests_below_limit(s: HandoffState, uri: Seq<char>, now: u64)
    requires
        s.termination is None,
        now.saturating_sub(s.opened) <= LIFETIME,
        crate::origin::is_qr_exchange_uri(uri),
        s.diagnostics.qr_requests < QR_REQUEST_LIMIT,
    ensures
        s.qr_request_started(Some(uri), now).1,
        s.qr_request_started(Some(uri), now).0.diagnostics.qr_requests == s.diagnostics.qr_requests
            + 1,
{
}

/// A navigation makes a new document that is not committed yet, whose
/// results are told apart from the old one's.
pub proof fn handoff_navigation_makes_a_new_document(s: HandoffState)
    ensures
        s.navigation_started().document != s.document,
        !s.navigation_started().document_ready,
        s.navigation_started().document_committed().document_ready,
{
}

} // verus!
