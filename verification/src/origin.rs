//! Which pages the login window trusts: Discord's origin, hCaptcha's, the QR
//! login exchange endpoint and the storage access granted to verification.
use vstd::prelude::*;
use crate::text::{
    str_eq, starts_with, ends_with, find_char, all_ascii_digits, first_index_of, is_digit, byte_len,
    opt_string_view, opt_str_view,
};

verus! {

/// The parts of a parsed URL that the origin rules read.
pub struct UrlParts {
    pub scheme: String,
    pub host: Option<String>,
    pub port: Option<u16>,
    pub username: String,
    pub password: Option<String>,
    pub path: String,
}

/// The view of `UrlParts`.
pub struct UrlView {
    pub scheme: Seq<char>,
    pub host: Option<Seq<char>>,
    pub port: Option<u16>,
    pub username: Seq<char>,
    pub password: Option<Seq<char>>,
    pub path: Seq<char>,
}

impl View for UrlParts {
    type V = UrlView;

    open spec fn view(&self) -> UrlView {
        UrlView {
            scheme: self.scheme@,
            host: opt_string_view(self.host),
            port: self.port,
            username: self.username@,
            password: opt_string_view(self.password),
            path: self.path@,
        }
    }
}

/// What `url::Url::parse` makes of a text, read through its `scheme`, `host_str`,
/// `port`, `username`, `password` and `path` accessors; `None` where it fails.
pub uninterp spec fn parsed_url(text: Seq<char>) -> Option<UrlView>;

/// Calls `url::Url::parse` and copies out the parts the rules read; the result
/// is named by `parsed_url`.
#[verifier::external_body]
fn parse_url(text: &str) -> (r: Option<UrlParts>)
    ensures
        r matches Some(p) ==> parsed_url(text@) == Some(p@),
        r is None ==> parsed_url(text@) is None,
{
    match url::Url::parse(text) {
        Ok(url) => Some(UrlParts {
            scheme: url.scheme().to_string(),
            host: url.host_str().map(|h| h.to_string()),
            port: url.port(),
            username: url.username().to_string(),
            password: url.password().map(|p| p.to_string()),
            path: url.path().to_string(),
        }),
        Err(_) => None,
    }
}

/// A parsed URL uses `https` with no explicit port and no credentials.
pub open spec fn plain_https(u: UrlView) -> bool {
    &&& u.scheme == "https"@
    &&& u.port is None
    &&& u.username.len() == 0
    &&& u.password is None
}

/// `text` is a URL on Discord's web origin, `https://discord.com`.
pub open spec fn is_discord_origin(text: Seq<char>) -> bool {
    match parsed_url(text) {
        Some(u) => plain_https(u) && u.host == Some("discord.com"@),
        None => false,
    }
}

/// A host is hCaptcha's: `hcaptcha.com` or one of its subdomains.
pub open spec fn is_hcaptcha_host(host: Seq<char>) -> bool {
    ||| host == "hcaptcha.com"@
    ||| (".hcaptcha.com"@.len() <= host.len() && host.subrange(
        host.len() - ".hcaptcha.com"@.len(),
        host.len() as int,
    ) == ".hcaptcha.com"@)
}

/// `text` is a URL on hCaptcha's `https` origin or one of its subdomains.
pub open spec fn is_hcaptcha_origin(text: Seq<char>) -> bool {
    match parsed_url(text) {
        Some(u) => plain_https(u) && (u.host matches Some(h) && is_hcaptcha_host(h)),
        None => false,
    }
}

fn is_plain_https(u: &UrlParts) -> (r: bool)
    ensures
        r == plain_https(u@),
{
    str_eq(u.scheme.as_str(), "https") && u.port.is_none() && u.username.as_str().unicode_len() == 0
        && u.password.is_none()
}

/// Whether `uri` is on Discord's web origin.
pub fn discord_origin(uri: &str) -> (r: bool)
    ensures
        r == is_discord_origin(uri@),
{
    match parse_url(uri) {
        None => false,
        Some(u) => {
            if !is_plain_https(&u) {
                return false;
            }
            match &u.host {
                Some(h) => str_eq(h.as_str(), "discord.com"),
                None => false,
            }
        },
    }
}

fn hcaptcha_host(host: &str) -> (r: bool)
    ensures
        r == is_hcaptcha_host(host@),
{
    str_eq(host, "hcaptcha.com") || ends_with(host, ".hcaptcha.com")
}

/// Whether `uri` is on hCaptcha's origin.
pub fn hcaptcha_origin(uri: &str) -> (r: bool)
    ensures
        r == is_hcaptcha_origin(uri@),
{
    match parse_url(uri) {
        None => false,
        Some(u) => {
            if !is_plain_https(&u) {
                return false;
            }
            match &u.host {
                Some(h) => hcaptcha_host(h.as_str()),
                None => false,
            }
        },
    }
}

/// Storage access is granted only to hCaptcha embedded in Discord: the current
/// domain is `discord.com` and the requesting one is hCaptcha's.
pub open spec fn storage_domains_allowed(current: Option<Seq<char>>, requesting: Option<Seq<char>>) -> bool {
    &&& current == Some("discord.com"@)
    &&& requesting matches Some(d) && is_hcaptcha_host(d)
}

/// Whether a website-data access request between these domains is verification
/// storage that may be granted.
pub fn verification_storage_domains(current: Option<&str>, requesting: Option<&str>) -> (r: bool)
    ensures
        r == storage_domains_allowed(opt_str_view(current), opt_str_view(requesting)),
{
    let current_ok = match current {
        Some(c) => str_eq(c, "discord.com"),
        None => false,
    };
    if !current_ok {
        return false;
    }
    match requesting {
        Some(d) => hcaptcha_host(d),
        None => false,
    }
}

/// The route that follows the API version in the QR login exchange endpoint.
pub open spec fn qr_route() -> Seq<char> {
    "users/@me/remote-auth/login"@
}

/// A path is `/api/v{digits}/users/@me/remote-auth/login` with at least one digit.
pub open spec fn is_qr_path(path: Seq<char>) -> bool {
    let prefix = "/api/v"@;
    &&& prefix.len() <= path.len()
    &&& path.subrange(0, prefix.len() as int) == prefix
    &&& {
        let rest = path.subrange(prefix.len() as int, path.len() as int);
        match first_index_of(rest, '/') {
            Some(k) => {
                let version = rest.subrange(0, k);
                &&& version.len() > 0
                &&& forall|i: int| 0 <= i < version.len() ==> is_digit(#[trigger] version[i])
                &&& rest.subrange(k + 1, rest.len() as int) == qr_route()
            },
            None => false,
        }
    }
}

/// `value` is Discord's QR login exchange endpoint: at most 2048 bytes, on
/// Discord's origin, with a QR path (the query string is ignored).
pub open spec fn is_qr_exchange_uri(value: Seq<char>) -> bool {
    &&& byte_len(value) <= 2048
    &&& is_discord_origin(value)
    &&& parsed_url(value) matches Some(u) && is_qr_path(u.path)
}

fn qr_path(path: &str) -> (r: bool)
    ensures
        r == is_qr_path(path@),
{
    if !starts_with(path, "/api/v") {
        return false;
    }
    let n = path.unicode_len();
    let p = "/api/v".unicode_len();
    let rest = path.substring_char(p, n);
    assert(rest@ == path@.subrange("/api/v"@.len() as int, path@.len() as int));
    match find_char(rest, '/') {
        None => false,
        Some(k) => {
            let m = rest.unicode_len();
            let version = rest.substring_char(0, k);
            let route = rest.substring_char(k + 1, m);
            version.unicode_len() > 0 && all_ascii_digits(version) && str_eq(
                route,
                "users/@me/remote-auth/login",
            )
        },
    }
}

/// Whether `value` is the QR login exchange endpoint whose results the login
/// diagnostics count.
pub fn qr_exchange_uri(value: &str) -> (r: bool)
    ensures
        r == is_qr_exchange_uri(value@),
{
    if value.len() > 2048 || !discord_origin(value) {
        return false;
    }
    match parse_url(value) {
        None => false,
        Some(u) => qr_path(u.path.as_str()),
    }
}

/// Storage is allowed only for a requesting domain that is `hcaptcha.com` or
/// ends with `.hcaptcha.com`, from the current domain `discord.com`; every such
/// domain is allowed.
pub proof fn storage_domains_are_hcaptcha_in_discord(
    current: Option<Seq<char>>,
    requesting: Seq<char>,
    sub: Seq<char>,
)
    ensures
        storage_domains_allowed(current, Some(requesting)) ==> current == Some("discord.com"@) && (
        requesting == "hcaptcha.com"@ || exists|p: Seq<char>| requesting == p + ".hcaptcha.com"@),
        storage_domains_allowed(Some("discord.com"@), Some("hcaptcha.com"@)),
        storage_domains_allowed(Some("discord.com"@), Some(sub + ".hcaptcha.com"@)),
        !storage_domains_allowed(current, None),
{
    let host = sub + ".hcaptcha.com"@;
    assert(host.subrange(host.len() - ".hcaptcha.com"@.len(), host.len() as int) =~= ".hcaptcha.com"@);
    if storage_domains_allowed(current, Some(requesting)) && requesting != "hcaptcha.com"@ {
        let k = requesting.len() - ".hcaptcha.com"@.len();
        let p = requesting.subrange(0, k);
        assert(requesting =~= p + ".hcaptcha.com"@);
    }
}

/// Every path `/api/v{digits}/users/@me/remote-auth/login` with at least one
/// digit is the QR exchange path.
pub proof fn qr_paths_are_versioned_routes(version: Seq<char>)
    requires
        version.len() > 0,
        forall|i: int| 0 <= i < version.len() ==> is_digit(#[trigger] version[i]),
    ensures
        is_qr_path("/api/v"@ + version + seq!['/'] + qr_route()),
{
    let prefix = "/api/v"@;
    let path = prefix + version + seq!['/'] + qr_route();
    assert(path.subrange(0, prefix.len() as int) =~= prefix);
    let rest = path.subrange(prefix.len() as int, path.len() as int);
    assert(rest =~= version + seq!['/'] + qr_route());
    let k = version.len() as int;
    assert(rest[k] == '/');
    assert forall|j: int| 0 <= j < k implies rest[j] != '/' by {
        assert(rest[j] == version[j]);
        assert(is_digit(version[j]));
    }
    let w = choose|i: int| 0 <= i < rest.len() && rest[i] == '/' && forall|j: int| 0 <= j < i ==> rest[j] != '/';
    assert(w == k) by {
        if w < k {
            assert(rest[w] != '/');
        } else if w > k {
            assert(rest[k] != '/');
        }
    }
    assert(rest.subrange(0, k) =~= version);
    assert(rest.subrange(k + 1, rest.len() as int) =~= qr_route());
}

} // verus!
