//! The session token handed over by the login window, and the random capability
//! that a page must prove to hand one over.
use vstd::prelude::*;

verus! {

/// A token character is printable ASCII other than space.
pub open spec fn is_token_char(c: char) -> bool {
    '!' <= c && c <= '~'
}

/// A session token is a non-empty run of printable, non-space ASCII characters.
pub open spec fn valid_secret(s: Seq<char>) -> bool {
    s.len() > 0 && forall|i: int| 0 <= i < s.len() ==> is_token_char(#[trigger] s[i])
}

/// The owner's session token. Only `from_owner_input` makes one.
pub struct SessionSecret {
    value: String,
}

impl View for SessionSecret {
    type V = Seq<char>;

    closed spec fn view(&self) -> Seq<char> {
        self.value@
    }
}

/// The input is not a session token.
#[derive(Clone, Copy, PartialEq, Eq, Structural, Debug)]
pub struct InvalidSecret;

impl SessionSecret {
    /// Accepts `value` as a session token exactly when it is `valid_secret`.
    pub fn from_owner_input(value: String) -> (r: Result<SessionSecret, InvalidSecret>)
        ensures
            r is Ok <==> valid_secret(value@),
            r matches Ok(s) ==> s@ == value@,
    {
        let text = value.as_str();
        let n = text.unicode_len();
        if n == 0 {
            return Err(InvalidSecret);
        }
        let mut i: usize = 0;
        while i < n
            invariant
                n == text@.len(),
                text@ == value@,
                i <= n,
                forall|k: int| 0 <= k < i ==> is_token_char(#[trigger] text@[k]),
            decreases n - i,
        {
            let c = text.get_char(i);
            if !('!' <= c && c <= '~') {
                return Err(InvalidSecret);
            }
            i = i + 1;
        }
        Ok(SessionSecret { value })
    }

    /// The token's text.
    pub fn expose(&self) -> (r: &str)
        ensures
            r@ == self@,
    {
        self.value.as_str()
    }
}

/// Calls `String::push`, which appends one character.
#[verifier::external_body]
pub fn push_char(s: &mut String, c: char)
    ensures
        final(s)@ == old(s)@.push(c),
{
    s.push(c);
}

/// The lowercase hexadecimal digit of a value below 16.
pub open spec fn hex_digit(v: u8) -> char {
    if v < 10 {
        ('0' as u8 + v) as char
    } else {
        ('a' as u8 + (v - 10)) as char
    }
}

/// Two lowercase hexadecimal digits per byte, high nibble first.
pub open spec fn hex_text(bytes: Seq<u8>) -> Seq<char>
    decreases bytes.len(),
{
    if bytes.len() == 0 {
        Seq::empty()
    } else {
        hex_text(bytes.drop_last()).push(hex_digit(bytes.last() / 16)).push(
            hex_digit(bytes.last() % 16),
        )
    }
}

/// A capability is the hexadecimal text of its random bytes followed by `:`.
pub open spec fn capability_text(bytes: Seq<u8>) -> Seq<char> {
    hex_text(bytes).push(':')
}

fn hex_char(v: u8) -> (c: char)
    requires
        v < 16,
    ensures
        c == hex_digit(v),
{
    if v < 10 {
        ('0' as u8 + v) as char
    } else {
        ('a' as u8 + (v - 10)) as char
    }
}

/// The capability text for the given bytes.
pub fn capability_from_bytes(bytes: &[u8]) -> (r: String)
    ensures
        r@ == capability_text(bytes@),
{
    let mut out = String::new();
    let n = bytes.len();
    let mut i: usize = 0;
    while i < n
        invariant
            n == bytes@.len(),
            i <= n,
            out@ == hex_text(bytes@.subrange(0, i as int)),
        decreases n - i,
    {
        let b = bytes[i];
        push_char(&mut out, hex_char(b / 16));
        push_char(&mut out, hex_char(b % 16));
        i = i + 1;
        assert(bytes@.subrange(0, i as int).drop_last() =~= bytes@.subrange(0, i - 1));
    }
    assert(bytes@.subrange(0, n as int) =~= bytes@);
    push_char(&mut out, ':');
    out
}

/// The system's random source could not supply bytes.
#[derive(Clone, Copy, PartialEq, Eq, Structural, Debug)]
pub struct RandomUnavailable;

/// Calls `getrandom::fill` on a buffer of `n` zero bytes. What the bytes are is
/// left open (they come from the system's random source); where the call
/// succeeds the buffer still has `n` bytes.
#[verifier::external_body]
fn random_bytes(n: usize) -> (r: Option<Vec<u8>>)
    ensures
        r matches Some(v) ==> v@.len() == n,
{
    let mut buf = vec![0u8; n];
    match getrandom::fill(&mut buf) {
        Ok(()) => Some(buf),
        Err(_) => None,
    }
}

/// A fresh capability: 32 random bytes as 64 hexadecimal digits and a `:`.
pub fn new_capability() -> (r: Result<String, RandomUnavailable>)
    ensures
        r matches Ok(c) ==> exists|bytes: Seq<u8>| bytes.len() == 32 && c@ == capability_text(bytes),
{
    match random_bytes(32) {
        None => Err(RandomUnavailable),
        Some(bytes) => {
            let c = capability_from_bytes(bytes.as_slice());
            assert(bytes@.len() == 32 && c@ == capability_text(bytes@));
            Ok(c)
        },
    }
}

/// A session token is accepted exactly when it is non-empty and every one of
/// its characters lies between `!` and `~`: dots, dashes, underscores and
/// every other printable ASCII mark are token characters; spaces, control
/// characters and non-ASCII characters are not.
pub proof fn tokens_are_printable_ascii(s: Seq<char>)
    ensures
        valid_secret(s) <==> s.len() > 0 && forall|i: int| 0 <= i < s.len() ==> '!' <= #[trigger] s[i]
            && s[i] <= '~',
        valid_secret(s) ==> forall|i: int| 0 <= i < s.len() ==> #[trigger] s[i] != ' ',
{
}

/// A text without its trailing colons.
pub open spec fn trim_colons(s: Seq<char>) -> Seq<char>
    decreases s.len(),
{
    if s.len() > 0 && s.last() == ':' {
        trim_colons(s.drop_last())
    } else {
        s
    }
}

/// The script's text before the capability's name.
pub const PEEK_HEAD: &'static str = "(() => { if (window !== window.top || location.origin !== 'https://discord.com') return null; const peek = window['__serein_login_peek_";

/// The script's text after the capability's name.
pub const PEEK_TAIL: &'static str = "']; if (typeof peek !== 'function') return null; const value = peek(); return typeof value === 'string' && value.length <= 2113 && /^[\\x21-\\x7e]+$/.test(value) ? value : null; })()";

/// The main-frame script that reads the page's candidate: it answers only in
/// Discord's top frame, and only a string of at most 2113 printable non-space
/// ASCII characters, from the peek function named after the capability.
pub fn peek_script(capability: &str) -> (r: String)
    ensures
        r@ == PEEK_HEAD@ + trim_colons(capability@) + PEEK_TAIL@,
{
    let mut end = capability.unicode_len();
    assert(capability@.subrange(0, end as int) =~= capability@);
    while end > 0 && capability.get_char(end - 1) == ':'
        invariant
            end <= capability@.len(),
            trim_colons(capability@.subrange(0, end as int)) == trim_colons(capability@),
        decreases end,
    {
        assert(capability@.subrange(0, end as int).drop_last() =~= capability@.subrange(0, end - 1));
        end = end - 1;
    }
    let name = capability.substring_char(0, end);
    let mut out = String::from_str(PEEK_HEAD);
    out.append(name);
    out.append(PEEK_TAIL);
    out
}

} // verus!
