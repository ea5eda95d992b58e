//! The login handoff: what the login window accepts from the page, when, and how
//! often, as a state machine driven by the window's events and a clock.
//!
//! Moments are nanoseconds on one monotonic clock chosen by the caller.
use vstd::prelude::*;
use crate::origin::{
    discord_origin, hcaptcha_origin, qr_exchange_uri, verification_storage_domains,
    is_discord_origin, is_hcaptcha_origin, is_qr_exchange_uri, storage_domains_allowed,
};
use crate::secret::{SessionSecret, valid_secret};
use crate::text::{starts_with, byte_len, opt_str_view, opt_string_view};

verus! {

/// How long a login window may stay open, in nanoseconds (600 s).
pub const LIFETIME: u64 = 600_000_000_000;

/// The least time between two token queries, in nanoseconds (100 ms).
pub const QUERY_INTERVAL: u64 = 100_000_000;

/// The most bytes of a page's handoff body: the capability and a 2048-byte token.
pub const MAX_BODY_BYTES: usize = 2113;

/// The most QR exchange requests whose outcome is followed.
pub const QR_REQUEST_LIMIT: u16 = 64;

/// Why a login window ended.
#[derive(Clone, Copy, PartialEq, Eq, Structural, Debug)]
pub enum LoginTermination {
    /// The owner closed the window, or the application dropped it.
    Cancelled,
    /// The web process ended on its own.
    WebProcessStopped,
    /// The window outlived `LIFETIME`.
    TimedOut,
}

/// Counters and facts about one login window, for troubleshooting.
#[derive(Clone, Copy, PartialEq, Eq, Debug)]
pub struct LoginDiagnostics {
    pub elapsed_seconds: u16,
    pub termination: Option<LoginTermination>,
    pub webkit_version: Option<(u32, u32, u32)>,
    pub gtk_version: Option<(u32, u32, u32)>,
    pub qr_requests: u16,
    pub qr_responses: u16,
    pub qr_network_failures: u16,
    pub qr_last_status: u16,
    pub query_attempts: u16,
    pub query_errors: u16,
    pub candidate_accepted: bool,
    pub bridge_wakes: u16,
    pub blocked_navigations: u16,
    pub storage_allowed: u16,
    pub storage_denied: u16,
}

/// Diagnostics with every counter at zero and nothing known.
pub open spec fn empty_diagnostics() -> LoginDiagnostics {
    LoginDiagnostics {
        elapsed_seconds: 0,
        termination: None,
        webkit_version: None,
        gtk_version: None,
        qr_requests: 0,
        qr_responses: 0,
        qr_network_failures: 0,
        qr_last_status: 0,
        query_attempts: 0,
        query_errors: 0,
        candidate_accepted: false,
        bridge_wakes: 0,
        blocked_navigations: 0,
        storage_allowed: 0,
        storage_denied: 0,
    }
}

impl Default for LoginDiagnostics {
    fn default() -> (r: Self)
        ensures
            r == empty_diagnostics(),
    {
        LoginDiagnostics {
            elapsed_seconds: 0,
            termination: None,
            webkit_version: None,
            gtk_version: None,
            qr_requests: 0,
            qr_responses: 0,
            qr_network_failures: 0,
            qr_last_status: 0,
            query_attempts: 0,
            query_errors: 0,
            candidate_accepted: false,
            bridge_wakes: 0,
            blocked_navigations: 0,
            storage_allowed: 0,
            storage_denied: 0,
        }
    }
}

/// A counter one higher, stopping at its maximum.
pub open spec fn bump(x: u16) -> u16 {
    x.saturating_add(1)
}

/// A policy decision that the web view asks for.
pub enum PolicyRequest {
    /// A navigation of any frame to `uri`.
    Navigation { uri: Option<String> },
    /// A response; `main_frame` when it is the main frame's main resource.
    Response { mime_supported: bool, main_frame: bool, uri: Option<String> },
    /// Any other kind of decision.
    Other,
}

/// Navigations may go to Discord or hCaptcha; a response is allowed when its
/// type is supported and, for the main document, it comes from Discord; any
/// other decision is refused.
pub open spec fn policy_allows(request: PolicyRequest) -> bool {
    match request {
        PolicyRequest::Navigation { uri } => opt_string_view(uri) matches Some(u) && (
        is_discord_origin(u) || is_hcaptcha_origin(u)),
        PolicyRequest::Response { mime_supported, main_frame, uri } => mime_supported && (
        !main_frame || (opt_string_view(uri) matches Some(u) && is_discord_origin(u))),
        PolicyRequest::Other => false,
    }
}

/// The abstract state of a login handoff.
pub struct HandoffState {
    pub opened: u64,
    pub termination: Option<LoginTermination>,
    pub querying: bool,
    pub consumed: bool,
    pub document: u64,
    pub document_ready: bool,
    pub last_query: u64,
    pub diagnostics: LoginDiagnostics,
    pub token: Option<Seq<char>>,
    pub capability: Seq<char>,
}

impl HandoffState {
    /// A window opened at `now` with this capability.
    pub open spec fn initial(capability: Seq<char>, now: u64) -> HandoffState {
        HandoffState {
            opened: now,
            termination: None,
            querying: false,
            consumed: false,
            document: 0,
            document_ready: false,
            last_query: now,
            diagnostics: empty_diagnostics(),
            token: None,
            capability,
        }
    }

    /// A candidate token is held only by a live window whose current document
    /// committed and which has not handed a token over yet.
    pub open spec fn wf(self) -> bool {
        self.token is Some ==> self.termination is None && self.document_ready && !self.consumed
    }

    pub open spec fn with_diagnostics(self, d: LoginDiagnostics) -> HandoffState {
        HandoffState { diagnostics: d, ..self }
    }

    /// Ending the window for `reason`: a cancellation always becomes the reason,
    /// another reason only when none was recorded; the candidate is discarded.
    pub open spec fn stop(self, reason: LoginTermination) -> HandoffState {
        HandoffState {
            termination: if reason == LoginTermination::Cancelled || self.termination is None {
                Some(reason)
            } else {
                self.termination
            },
            token: None,
            ..self
        }
    }

    /// The window has outlived `LIFETIME` at `now` and no reason is recorded yet.
    pub open spec fn expires_at(self, now: u64) -> bool {
        self.termination is None && now.saturating_sub(self.opened) > LIFETIME
    }

    /// The state once the clock is read at `now`: an expired window is stopped
    /// as `TimedOut`.
    pub open spec fn settle(self, now: u64) -> HandoffState {
        if self.expires_at(now) {
            self.stop(LoginTermination::TimedOut)
        } else {
            self
        }
    }

    /// The window is live at `now`.
    pub open spec fn live_at(self, now: u64) -> bool {
        self.settle(now).termination is None
    }

    /// Updating the diagnostics at `now`, which only a live window does.
    pub open spec fn record(self, now: u64, d: LoginDiagnostics) -> HandoffState {
        let s = self.settle(now);
        if s.termination is None {
            s.with_diagnostics(d)
        } else {
            s
        }
    }

    /// Starting a token query of the page at `uri` at `now`.
    pub open spec fn begin_query(self, uri: Seq<char>, now: u64) -> (HandoffState, bool) {
        let s = self.settle(now);
        if s.termination is Some || !s.document_ready || s.consumed || s.token is Some
            || s.querying || now.saturating_sub(s.last_query) < QUERY_INTERVAL
            || !is_discord_origin(uri) {
            (s, false)
        } else {
            (
                HandoffState {
                    querying: true,
                    last_query: now,
                    diagnostics: LoginDiagnostics {
                        query_attempts: bump(s.diagnostics.query_attempts),
                        ..s.diagnostics
                    },
                    ..s
                },
                true,
            )
        }
    }

    /// A new main-document load started: results of earlier documents become
    /// stale, the document is not committed yet, and the candidate is discarded.
    pub open spec fn navigation_started(self) -> HandoffState {
        HandoffState {
            document: self.document.wrapping_add(1),
            document_ready: false,
            token: None,
            ..self
        }
    }

    /// The new main document committed.
    pub open spec fn document_committed(self) -> HandoffState {
        HandoffState { document_ready: true, ..self }
    }

    /// The token carried by a body: what follows the capability, if the body
    /// begins with it.
    pub open spec fn body_token(self, body: Seq<char>) -> Option<Seq<char>> {
        let c = self.capability;
        if c.len() <= body.len() && body.subrange(0, c.len() as int) == c {
            Some(body.subrange(c.len() as int, body.len() as int))
        } else {
            None
        }
    }

    /// Accepting a body from the page at `uri` at `now`.
    pub open spec fn accept(self, uri: Seq<char>, body: Seq<char>, now: u64) -> (HandoffState, bool) {
        let s = self.settle(now);
        if s.termination is Some || !s.document_ready || s.consumed || s.token is Some
            || !is_discord_origin(uri) || byte_len(body) > MAX_BODY_BYTES {
            (s, false)
        } else {
            match s.body_token(body) {
                Some(t) => if valid_secret(t) {
                    (
                        HandoffState {
                            token: Some(t),
                            diagnostics: LoginDiagnostics { candidate_accepted: true, ..s.diagnostics },
                            ..s
                        },
                        true,
                    )
                } else {
                    (s, false)
                },
                None => (s, false),
            }
        }
    }

    /// A token query of `document` finished: the page was at `uri` and the
    /// evaluation gave `body` (`Err` where it failed, `None` where there was none).
    pub open spec fn finish_query(
        self,
        document: u64,
        uri: Option<Seq<char>>,
        body: Result<Option<Seq<char>>, ()>,
        now: u64,
    ) -> (HandoffState, bool) {
        let s = HandoffState {
            querying: false,
            diagnostics: if body is Err {
                LoginDiagnostics { query_errors: bump(self.diagnostics.query_errors), ..self.diagnostics }
            } else {
                self.diagnostics
            },
            ..self
        };
        if document != s.document {
            (s, false)
        } else {
            match (uri, body) {
                (Some(u), Ok(Some(b))) => s.accept(u, b, now),
                _ => (s, false),
            }
        }
    }

    /// Handing the candidate over at `now`, which happens at most once.
    pub open spec fn take_token(self, now: u64) -> (HandoffState, Option<Seq<char>>) {
        let s = self.settle(now);
        if s.termination is Some || !s.document_ready || s.consumed {
            (s, None)
        } else {
            match s.token {
                Some(t) => (HandoffState { token: None, consumed: true, ..s }, Some(t)),
                None => (s, None),
            }
        }
    }

    /// A request to `uri` started at `now`; QR exchange requests of a live
    /// window are counted, up to `QR_REQUEST_LIMIT`, and then followed.
    pub open spec fn qr_request_started(self, uri: Option<Seq<char>>, now: u64) -> (HandoffState, bool) {
        let s = self.settle(now);
        if s.termination is Some || !(uri matches Some(u) && is_qr_exchange_uri(u)) {
            (s, false)
        } else if s.diagnostics.qr_requests >= QR_REQUEST_LIMIT {
            (s, false)
        } else {
            (
                s.with_diagnostics(
                    LoginDiagnostics { qr_requests: (s.diagnostics.qr_requests + 1) as u16, ..s.diagnostics },
                ),
                true,
            )
        }
    }

    /// A followed QR exchange request failed at `now`.
    pub open spec fn qr_request_failed(self, now: u64) -> HandoffState {
        self.record(
            now,
            LoginDiagnostics {
                qr_network_failures: bump(self.diagnostics.qr_network_failures),
                ..self.diagnostics
            },
        )
    }

    /// A followed request finished at `now` with a response from `uri` and this
    /// status; only QR exchange responses with an HTTP status are counted.
    pub open spec fn qr_response(self, uri: Option<Seq<char>>, status: u32, now: u64) -> HandoffState {
        if !(uri matches Some(u) && is_qr_exchange_uri(u)) {
            self
        } else if 100 <= status <= 599 {
            self.record(
                now,
                LoginDiagnostics {
                    qr_responses: bump(self.diagnostics.qr_responses),
                    qr_last_status: status as u16,
                    ..self.diagnostics
                },
            )
        } else {
            self
        }
    }

    /// The page's bridge posted a message at `now`; a `true` message from
    /// Discord while a candidate may still come is counted as a wake.
    pub open spec fn bridge_message(self, truthy: bool, view_uri: Option<Seq<char>>, now: u64) -> (
        HandoffState,
        bool,
    ) {
        let s = self.settle(now);
        if s.termination is None && !s.consumed && s.token is None && truthy && (view_uri matches Some(
            u,
        ) && is_discord_origin(u)) {
            let d = LoginDiagnostics { bridge_wakes: bump(s.diagnostics.bridge_wakes), ..s.diagnostics };
            (s.with_diagnostics(d), d.bridge_wakes == 1)
        } else {
            (s, false)
        }
    }

    /// A policy decision at `now`; a refusal is counted.
    pub open spec fn decide_policy(self, request: PolicyRequest, now: u64) -> (HandoffState, bool) {
        if policy_allows(request) {
            (self, true)
        } else {
            (
                self.record(
                    now,
                    LoginDiagnostics {
                        blocked_navigations: bump(self.diagnostics.blocked_navigations),
                        ..self.diagnostics
                    },
                ),
                false,
            )
        }
    }

    /// A permission request at `now` while the view shows `view_uri`; `access`
    /// holds the current and requesting domains of a website-data access
    /// request. Only verification storage is granted; data access requests are
    /// counted as allowed or denied.
    pub open spec fn storage_permission(
        self,
        view_uri: Option<Seq<char>>,
        access: Option<(Option<Seq<char>>, Option<Seq<char>>)>,
        now: u64,
    ) -> (HandoffState, bool) {
        let granted = (view_uri matches Some(u) && is_discord_origin(u)) && (access matches Some(
            p,
        ) && storage_domains_allowed(p.0, p.1));
        match access {
            Some(_) => (
                self.record(
                    now,
                    if granted {
                        LoginDiagnostics { storage_allowed: bump(self.diagnostics.storage_allowed), ..self.diagnostics }
                    } else {
                        LoginDiagnostics { storage_denied: bump(self.diagnostics.storage_denied), ..self.diagnostics }
                    },
                ),
                granted,
            ),
            None => (self, granted),
        }
    }

    /// The diagnostics as reported at `now`, with the window's age in whole
    /// seconds (at most `u16::MAX`), its termination and the toolkit versions.
    pub open spec fn report(
        self,
        now: u64,
        webkit: (u32, u32, u32),
        gtk: (u32, u32, u32),
    ) -> (HandoffState, LoginDiagnostics) {
        let s = self.settle(now);
        let secs = now.saturating_sub(self.opened) / 1_000_000_000;
        (
            s,
            LoginDiagnostics {
                elapsed_seconds: if secs > u16::MAX as u64 {
                    u16::MAX
                } else {
                    secs as u16
                },
                termination: s.termination,
                webkit_version: Some(webkit),
                gtk_version: Some(gtk),
                ..self.diagnostics
            },
        )
    }
}

/// One login window's handoff state.
pub struct Handoff {
    pub opened: u64,
    pub termination: Option<LoginTermination>,
    pub querying: bool,
    pub consumed: bool,
    pub document: u64,
    pub document_ready: bool,
    pub last_query: u64,
    pub diagnostics: LoginDiagnostics,
    pub token: Option<SessionSecret>,
    pub capability: String,
}

pub open spec fn opt_secret_view(t: Option<SessionSecret>) -> Option<Seq<char>> {
    match t {
        Some(s) => Some(s@),
        None => None,
    }
}

pub open spec fn body_view(body: Result<Option<&str>, ()>) -> Result<Option<Seq<char>>, ()> {
    match body {
        Ok(Some(b)) => Ok(Some(b@)),
        Ok(None) => Ok(None),
        Err(()) => Err(()),
    }
}

pub open spec fn access_view(access: Option<(Option<&str>, Option<&str>)>) -> Option<
    (Option<Seq<char>>, Option<Seq<char>>),
> {
    match access {
        Some(p) => Some((opt_str_view(p.0), opt_str_view(p.1))),
        None => None,
    }
}

impl View for Handoff {
    type V = HandoffState;

    open spec fn view(&self) -> HandoffState {
        HandoffState {
            opened: self.opened,
            termination: self.termination,
            querying: self.querying,
            consumed: self.consumed,
            document: self.document,
            document_ready: self.document_ready,
            last_query: self.last_query,
            diagnostics: self.diagnostics,
            token: opt_secret_view(self.token),
            capability: self.capability@,
        }
    }
}

fn opt_discord(uri: Option<&str>) -> (r: bool)
    ensures
        r == (opt_str_view(uri) matches Some(u) && is_discord_origin(u)),
{
    match uri {
        Some(u) => discord_origin(u),
        None => false,
    }
}

fn opt_qr(uri: Option<&str>) -> (r: bool)
    ensures
        r == (opt_str_view(uri) matches Some(u) && is_qr_exchange_uri(u)),
{
    match uri {
        Some(u) => qr_exchange_uri(u),
        None => false,
    }
}

/// Whether the web view may go ahead with `request`.
pub fn policy_allowed(request: &PolicyRequest) -> (r: bool)
    ensures
        r == policy_allows(*request),
{
    match request {
        PolicyRequest::Navigation { uri } => match uri {
            Some(u) => discord_origin(u.as_str()) || hcaptcha_origin(u.as_str()),
            None => false,
        },
        PolicyRequest::Response { mime_supported, main_frame, uri } => {
            *mime_supported && (!*main_frame || match uri {
                Some(u) => discord_origin(u.as_str()),
                None => false,
            })
        },
        PolicyRequest::Other => false,
    }
}

impl Handoff {
    /// A window opened at `now` whose pages must prove `capability`.
    pub fn new(capability: String, now: u64) -> (r: Handoff)
        ensures
            r@ == HandoffState::initial(capability@, now),
    {
        Handoff {
            opened: now,
            termination: None,
            querying: false,
            consumed: false,
            document: 0,
            document_ready: false,
            last_query: now,
            diagnostics: LoginDiagnostics::default(),
            token: None,
            capability,
        }
    }

    /// Ends the window for `reason` and discards the candidate.
    pub fn stop(&mut self, reason: LoginTermination)
        ensures
            final(self)@ == old(self)@.stop(reason),
    {
        if reason == LoginTermination::Cancelled || self.termination.is_none() {
            self.termination = Some(reason);
        }
        self.token = None;
    }

    /// Why the window ended, reading the clock at `now` (an expired window is
    /// stopped as `TimedOut` here).
    pub fn termination_reason(&mut self, now: u64) -> (r: Option<LoginTermination>)
        ensures
            final(self)@ == old(self)@.settle(now),
            r == final(self)@.termination,
    {
        if self.termination.is_none() && now.saturating_sub(self.opened) > LIFETIME {
            self.stop(LoginTermination::TimedOut);
        }
        self.termination
    }

    /// Whether the window is still live at `now`.
    pub fn active(&mut self, now: u64) -> (r: bool)
        ensures
            final(self)@ == old(self)@.settle(now),
            r == old(self)@.live_at(now),
    {
        self.termination_reason(now).is_none()
    }

    /// Applies `update` to the diagnostics if the window is live at `now`.
    pub fn record(&mut self, now: u64, update: impl FnOnce(LoginDiagnostics) -> LoginDiagnostics)
        requires
            update.requires((old(self).diagnostics,)),
        ensures
            old(self)@.live_at(now) ==> update.ensures((old(self).diagnostics,), final(self).diagnostics)
                && final(self)@ == old(self)@.record(now, final(self).diagnostics),
            !old(self)@.live_at(now) ==> final(self)@ == old(self)@.settle(now),
    {
        if self.active(now) {
            let d = update(self.diagnostics);
            self.diagnostics = d;
        }
    }

    /// Starts a token query of the page at `uri` at `now`, when the window is
    /// live, its document committed, no candidate is held or was handed over, no
    /// query is running, the last one started at least `QUERY_INTERVAL` earlier,
    /// and the page is on Discord's origin.
    pub fn begin_query(&mut self, uri: &str, now: u64) -> (r: bool)
        ensures
            final(self)@ == old(self)@.begin_query(uri@, now).0,
            r == old(self)@.begin_query(uri@, now).1,
    {
        let live = self.active(now);
        if !live || !self.document_ready || self.consumed || self.token.is_some() || self.querying
            || now.saturating_sub(self.last_query) < QUERY_INTERVAL || !discord_origin(uri) {
            return false;
        }
        self.querying = true;
        self.last_query = now;
        self.diagnostics.query_attempts = self.diagnostics.query_attempts.saturating_add(1);
        true
    }

    /// A new main-document load started.
    pub fn navigation_started(&mut self)
        ensures
            final(self)@ == old(self)@.navigation_started(),
    {
        self.document = self.document.wrapping_add(1);
        self.document_ready = false;
        self.token = None;
    }

    /// The new main document committed.
    pub fn document_committed(&mut self)
        ensures
            final(self)@ == old(self)@.document_committed(),
    {
        self.document_ready = true;
    }

    /// Finishes the query of `document`; accepts the body when the query
    /// belongs to the current document and gave one.
    pub fn finish_query(
        &mut self,
        document: u64,
        uri: Option<&str>,
        body: Result<Option<&str>, ()>,
        now: u64,
    ) -> (r: bool)
        ensures
            final(self)@ == old(self)@.finish_query(document, opt_str_view(uri), body_view(body), now).0,
            r == old(self)@.finish_query(document, opt_str_view(uri), body_view(body), now).1,
    {
        self.querying = false;
        if body.is_err() {
            self.diagnostics.query_errors = self.diagnostics.query_errors.saturating_add(1);
        }
        if document != self.document {
            return false;
        }
        match (uri, body) {
            (Some(u), Ok(Some(b))) => self.accept(u, b, now),
            _ => false,
        }
    }

    /// Accepts a body from the page at `uri` at `now` as the candidate token:
    /// the window is live, committed, holds no candidate and has handed none
    /// over; the page is on Discord's origin; the body has at most
    /// `MAX_BODY_BYTES` bytes, begins with the capability, and what follows is a
    /// valid session token.
    pub fn accept(&mut self, uri: &str, body: &str, now: u64) -> (r: bool)
        ensures
            final(self)@ == old(self)@.accept(uri@, body@, now).0,
            r == old(self)@.accept(uri@, body@, now).1,
    {
        let live = self.active(now);
        if !live || !self.document_ready || self.consumed || self.token.is_some() || !discord_origin(uri)
            || body.len() > MAX_BODY_BYTES {
            return false;
        }
        if !starts_with(body, self.capability.as_str()) {
            return false;
        }
        let n = body.unicode_len();
        let c = self.capability.as_str().unicode_len();
        let value = body.substring_char(c, n).to_owned();
        match SessionSecret::from_owner_input(value) {
            Err(_) => false,
            Ok(secret) => {
                self.token = Some(secret);
                self.diagnostics.candidate_accepted = true;
                true
            },
        }
    }

    /// Hands the candidate over, at most once per window.
    pub fn take_token(&mut self, now: u64) -> (r: Option<SessionSecret>)
        ensures
            final(self)@ == old(self)@.take_token(now).0,
            opt_secret_view(r) == old(self)@.take_token(now).1,
    {
        let live = self.active(now);
        if !live || !self.document_ready || self.consumed {
            return None;
        }
        let mut token: Option<SessionSecret> = None;
        std::mem::swap(&mut token, &mut self.token);
        if token.is_some() {
            // Captures can be invalidated by navigation; only forwarding to the
            // application is irreversible. Never permit a second handoff.
            self.consumed = true;
        }
        token
    }

    /// A request to `uri` started; returns whether its outcome is to be followed.
    pub fn qr_request_started(&mut self, uri: Option<&str>, now: u64) -> (r: bool)
        ensures
            final(self)@ == old(self)@.qr_request_started(opt_str_view(uri), now).0,
            r == old(self)@.qr_request_started(opt_str_view(uri), now).1,
    {
        let live = self.active(now);
        if !live || !opt_qr(uri) {
            return false;
        }
        if self.diagnostics.qr_requests >= QR_REQUEST_LIMIT {
            return false;
        }
        self.diagnostics.qr_requests = self.diagnostics.qr_requests + 1;
        true
    }

    /// A followed QR exchange request failed.
    pub fn qr_request_failed(&mut self, now: u64)
        ensures
            final(self)@ == old(self)@.qr_request_failed(now),
    {
        if self.active(now) {
            self.diagnostics.qr_network_failures = self.diagnostics.qr_network_failures.saturating_add(1);
        }
    }

    /// A followed request finished with a response from `uri` and `status`.
    pub fn qr_response(&mut self, uri: Option<&str>, status: u32, now: u64)
        ensures
            final(self)@ == old(self)@.qr_response(opt_str_view(uri), status, now),
    {
        if !opt_qr(uri) {
            return;
        }
        if 100 <= status && status <= 599 {
            if self.active(now) {
                self.diagnostics.qr_responses = self.diagnostics.qr_responses.saturating_add(1);
                self.diagnostics.qr_last_status = status as u16;
            }
        }
    }

    /// The bridge posted a message; returns whether to wake the application
    /// (on the first counted wake only).
    pub fn bridge_message(&mut self, truthy: bool, view_uri: Option<&str>, now: u64) -> (r: bool)
        ensures
            final(self)@ == old(self)@.bridge_message(truthy, opt_str_view(view_uri), now).0,
            r == old(self)@.bridge_message(truthy, opt_str_view(view_uri), now).1,
    {
        let live = self.active(now);
        if live && !self.consumed && self.token.is_none() && truthy && opt_discord(view_uri) {
            self.diagnostics.bridge_wakes = self.diagnostics.bridge_wakes.saturating_add(1);
            return self.diagnostics.bridge_wakes == 1;
        }
        false
    }

    /// Decides a policy request, counting refusals.
    pub fn decide_policy(&mut self, request: &PolicyRequest, now: u64) -> (r: bool)
        ensures
            final(self)@ == old(self)@.decide_policy(*request, now).0,
            r == old(self)@.decide_policy(*request, now).1,
    {
        let allowed = policy_allowed(request);
        if !allowed {
            if self.active(now) {
                self.diagnostics.blocked_navigations = self.diagnostics.blocked_navigations.saturating_add(1);
            }
        }
        allowed
    }

    /// Decides a permission request; returns whether to grant it.
    pub fn storage_permission(
        &mut self,
        view_uri: Option<&str>,
        access: Option<(Option<&str>, Option<&str>)>,
        now: u64,
    ) -> (r: bool)
        ensures
            final(self)@ == old(self)@.storage_permission(opt_str_view(view_uri), access_view(access), now).0,
            r == old(self)@.storage_permission(opt_str_view(view_uri), access_view(access), now).1,
    {
        let granted = opt_discord(view_uri) && match access {
            Some((current, requesting)) => verification_storage_domains(current, requesting),
            None => false,
        };
        if access.is_some() {
            if self.active(now) {
                if granted {
                    self.diagnostics.storage_allowed = self.diagnostics.storage_allowed.saturating_add(1);
                } else {
                    self.diagnostics.storage_denied = self.diagnostics.storage_denied.saturating_add(1);
                }
            }
        }
        granted
    }

    /// The diagnostics as reported at `now`.
    pub fn report(&mut self, now: u64, webkit: (u32, u32, u32), gtk: (u32, u32, u32)) -> (r: LoginDiagnostics)
        ensures
            final(self)@ == old(self)@.report(now, webkit, gtk).0,
            r == old(self)@.report(now, webkit, gtk).1,
    {
        let mut d = self.diagnostics;
        let secs = now.saturating_sub(self.opened) / 1_000_000_000;
        d.elapsed_seconds = if secs > u16::MAX as u64 {
            u16::MAX
        } else {
            secs as u16
        };
        d.termination = self.termination_reason(now);
        d.webkit_version = Some(webkit);
        d.gtk_version = Some(gtk);
        d
    }
}

} // verus!
