//! The account-local record of the last channel viewed in each guild, and the
//! text form in which it is stored.
use vstd::prelude::*;
use crate::text::byte_len;

verus! {

/// A Discord snowflake identifier.
#[derive(Clone, Copy, PartialEq, Eq, Structural, Debug, Hash)]
pub struct Id(pub u64);

/// Account-local last selected channel per guild, as `(guild, channel)` pairs.
/// Not synchronized to Discord.
#[derive(Clone, Debug, PartialEq, Eq)]
pub struct LastViewedChannels {
    pub pairs: Vec<(Id, Id)>,
}

/// A record is valid when it holds at most `MAX_ENTRIES` pairs, no identifier is
/// zero, and no guild occurs twice.
pub open spec fn valid_pairs(pairs: Seq<(Id, Id)>) -> bool {
    &&& pairs.len() <= LastViewedChannels::MAX_ENTRIES
    &&& forall|i: int| 0 <= i < pairs.len() ==> (#[trigger] pairs[i]).0.0 != 0 && pairs[i].1.0 != 0
    &&& forall|i: int, j: int|
        0 <= j < i < pairs.len() ==> (#[trigger] pairs[j]).0 != (#[trigger] pairs[i]).0
}

impl LastViewedChannels {
    /// The most pairs a valid record holds.
    pub const MAX_ENTRIES: usize = 1024;

    /// The most bytes the stored text of a record may take.
    pub const MAX_JSON_BYTES: usize = 65536;

    /// The empty record.
    pub fn new() -> (r: Self)
        ensures
            r.pairs@ == Seq::<(Id, Id)>::empty(),
    {
        LastViewedChannels { pairs: Vec::new() }
    }

    /// Whether the record satisfies `valid_pairs`.
    pub fn is_valid(&self) -> (r: bool)
        ensures
            r == valid_pairs(self.pairs@),
    {
        let n = self.pairs.len();
        if n > LastViewedChannels::MAX_ENTRIES {
            return false;
        }
        let mut i: usize = 0;
        while i < n
            invariant
                n == self.pairs@.len(),
                n <= LastViewedChannels::MAX_ENTRIES,
                i <= n,
                forall|a: int| 0 <= a < i ==> (#[trigger] self.pairs@[a]).0.0 != 0 && self.pairs@[a].1.0 != 0,
                forall|a: int, b: int|
                    0 <= b < a < i ==> (#[trigger] self.pairs@[b]).0 != (#[trigger] self.pairs@[a]).0,
            decreases n - i,
        {
            let (guild, channel) = self.pairs[i];
            if guild.0 == 0 || channel.0 == 0 {
                return false;
            }
            let mut j: usize = 0;
            while j < i
                invariant
                    n == self.pairs@.len(),
                    i < n,
                    j <= i,
                    guild == self.pairs@[i as int].0,
                    forall|b: int| 0 <= b < j ==> (#[trigger] self.pairs@[b]).0 != guild,
                decreases i - j,
            {
                if self.pairs[j].0.0 == guild.0 {
                    assert(self.pairs@[j as int].0 == self.pairs@[i as int].0);
                    return false;
                }
                j = j + 1;
            }
            i = i + 1;
        }
        true
    }
}

impl Default for LastViewedChannels {
    fn default() -> (r: Self)
        ensures
            r.pairs@ == Seq::<(Id, Id)>::empty(),
    {
        LastViewedChannels::new()
    }
}

/// Why a record could not be read back or stored.
#[derive(Clone, Copy, PartialEq, Eq, Structural, Debug)]
pub enum StoreError {
    /// The stored value is not a readable, valid record.
    Incompatible,
    /// The record is invalid or its text is too large to store.
    Capacity,
}

/// What saving a record does to the account's row.
#[derive(Clone, Debug)]
pub enum LastViewedWrite {
    /// Remove the account's row.
    Delete,
    /// Insert or replace the account's row with this text.
    Upsert(String),
}

/// The pairs as plain integers, the shape in which they are written as text.
pub open spec fn raw_pairs(pairs: Seq<(Id, Id)>) -> Seq<(u64, u64)> {
    pairs.map_values(|p: (Id, Id)| (p.0.0, p.1.0))
}

/// The plain integer pairs as identifier pairs.
pub open spec fn id_pairs(raw: Seq<(u64, u64)>) -> Seq<(Id, Id)> {
    raw.map_values(|p: (u64, u64)| (Id(p.0), Id(p.1)))
}

/// What `serde_json::from_str::<Vec<(u64, u64)>>` makes of a text; `None` where it fails.
pub uninterp spec fn json_pair_list(text: Seq<char>) -> Option<Seq<(u64, u64)>>;

/// The decimal digit character of a value below 10.
pub open spec fn digit_char(d: nat) -> char {
    if d == 0 {
        '0'
    } else if d == 1 {
        '1'
    } else if d == 2 {
        '2'
    } else if d == 3 {
        '3'
    } else if d == 4 {
        '4'
    } else if d == 5 {
        '5'
    } else if d == 6 {
        '6'
    } else if d == 7 {
        '7'
    } else if d == 8 {
        '8'
    } else {
        '9'
    }
}

/// A number in decimal, without leading zeros.
pub open spec fn decimal(n: nat) -> Seq<char>
    decreases n,
{
    if n < 10 {
        seq![digit_char(n)]
    } else {
        decimal(n / 10).push(digit_char(n % 10))
    }
}

/// One pair as a two-element JSON array, `[g,c]`.
pub open spec fn json_pair(p: (u64, u64)) -> Seq<char> {
    seq!['['] + decimal(p.0 as nat) + seq![','] + decimal(p.1 as nat) + seq![']']
}

/// The pairs' arrays separated by commas.
pub open spec fn json_items(pairs: Seq<(u64, u64)>) -> Seq<char>
    decreases pairs.len(),
{
    if pairs.len() == 0 {
        Seq::empty()
    } else if pairs.len() == 1 {
        json_pair(pairs[0])
    } else {
        json_items(pairs.drop_last()) + seq![','] + json_pair(pairs.last())
    }
}

/// The compact JSON text of a list of integer pairs, `[[g,c],[g,c]]`, as
/// `serde_json::to_string` writes it.
pub open spec fn json_pair_text(pairs: Seq<(u64, u64)>) -> Seq<char> {
    seq!['['] + json_items(pairs) + seq![']']
}

/// Ten to the power `k`.
pub open spec fn pow10(k: nat) -> nat
    decreases k,
{
    if k == 0 {
        1
    } else {
        10 * pow10((k - 1) as nat)
    }
}

proof fn lemma_decimal_short(n: nat, k: nat)
    requires
        1 <= k,
        n < pow10(k),
    ensures
        decimal(n).len() <= k,
        vstd::utf8::is_ascii_chars(decimal(n)),
    decreases k,
{
    if n >= 10 {
        if k == 1 {
            assert(pow10(1) == 10) by {
                reveal_with_fuel(pow10, 2);
            }
        }
        let m = pow10((k - 1) as nat);
        assert(n / 10 < m) by (nonlinear_arith)
            requires
                n < 10 * m,
        ;
        lemma_decimal_short(n / 10, (k - 1) as nat);
    }
}

proof fn lemma_pair_short(p: (u64, u64))
    ensures
        json_pair(p).len() <= 43,
        vstd::utf8::is_ascii_chars(json_pair(p)),
{
    assert(pow10(20) == 100000000000000000000nat) by {
        reveal_with_fuel(pow10, 21);
    }
    lemma_decimal_short(p.0 as nat, 20);
    lemma_decimal_short(p.1 as nat, 20);
    let a = decimal(p.0 as nat);
    let b = decimal(p.1 as nat);
    let t = json_pair(p);
    assert forall|i: int| 0 <= i < t.len() implies '\0' <= #[trigger] t[i] <= '\u{7f}' by {
        if i == 0 {
        } else if i < 1 + a.len() {
            assert(t[i] == a[i - 1]);
        } else if i == 1 + a.len() {
        } else if i < 2 + a.len() + b.len() {
            assert(t[i] == b[i - 2 - a.len()]);
        } else {
        }
    }
}

proof fn lemma_items_short(pairs: Seq<(u64, u64)>)
    ensures
        json_items(pairs).len() <= 44 * pairs.len(),
        vstd::utf8::is_ascii_chars(json_items(pairs)),
    decreases pairs.len(),
{
    if pairs.len() == 1 {
        lemma_pair_short(pairs[0]);
    } else if pairs.len() > 1 {
        lemma_items_short(pairs.drop_last());
        lemma_pair_short(pairs.last());
        let a = json_items(pairs.drop_last());
        let b = json_pair(pairs.last());
        let t = json_items(pairs);
        assert(t == a + seq![','] + b);
        assert forall|i: int| 0 <= i < t.len() implies '\0' <= #[trigger] t[i] <= '\u{7f}' by {
            if i < a.len() {
                assert(t[i] == a[i]);
            } else if i == a.len() {
            } else {
                assert(t[i] == b[i - a.len() - 1]);
            }
        }
    }
}

/// The text of at most `MAX_ENTRIES` pairs always fits in `MAX_JSON_BYTES` bytes:
/// each pair takes at most 43 ASCII characters and a comma.
pub proof fn stored_text_fits(pairs: Seq<(u64, u64)>)
    requires
        pairs.len() <= LastViewedChannels::MAX_ENTRIES,
    ensures
        byte_len(json_pair_text(pairs)) <= LastViewedChannels::MAX_JSON_BYTES,
{
    lemma_items_short(pairs);
    let a = json_items(pairs);
    let t = json_pair_text(pairs);
    assert forall|i: int| 0 <= i < t.len() implies '\0' <= #[trigger] t[i] <= '\u{7f}' by {
        if 0 < i < t.len() - 1 {
            assert(t[i] == a[i - 1]);
        }
    }
    vstd::utf8::is_ascii_chars_encode_utf8(t);
}

/// Calls `serde_json::from_str::<Vec<(u64, u64)>>`; the result is named by `json_pair_list`.
#[verifier::external_body]
fn parse_pair_list(text: &str) -> (r: Option<Vec<(u64, u64)>>)
    ensures
        r matches Some(v) ==> json_pair_list(text@) == Some(v@),
        r is None ==> json_pair_list(text@) is None,
{
    serde_json::from_str::<Vec<(u64, u64)>>(text).ok()
}

/// Calls `serde_json::to_string` on a list of integer pairs. It succeeds (it fails
/// only where a `Serialize` impl fails or a map has non-string keys, neither of
/// which integer pairs have); the text is the compact `json_pair_text(pairs)`, and
/// `serde_json::from_str` reads the same pairs back from it (integers are written
/// in decimal and read back exactly).
#[verifier::external_body]
fn write_pair_list(pairs: &Vec<(u64, u64)>) -> (r: Option<String>)
    ensures
        r is Some,
        r matches Some(t) ==> t@ == json_pair_text(pairs@) && json_pair_list(t@) == Some(pairs@),
{
    serde_json::to_string(pairs).ok()
}

/// What reading an account's row gives: no row is the empty record; a row whose
/// value the query returned as NULL, or whose text is not a list of pairs, or
/// whose pairs are not valid, is `Incompatible`.
pub open spec fn load_result(row: Option<Option<Seq<char>>>) -> Result<Seq<(Id, Id)>, StoreError> {
    match row {
        None => Ok(Seq::empty()),
        Some(None) => Err(StoreError::Incompatible),
        Some(Some(text)) => match json_pair_list(text) {
            None => Err(StoreError::Incompatible),
            Some(raw) => if valid_pairs(id_pairs(raw)) {
                Ok(id_pairs(raw))
            } else {
                Err(StoreError::Incompatible)
            },
        },
    }
}

/// The row that the store holds after a write.
pub open spec fn row_after(write: LastViewedWrite) -> Option<Option<Seq<char>>> {
    match write {
        LastViewedWrite::Delete => None,
        LastViewedWrite::Upsert(text) => Some(Some(text@)),
    }
}

/// The view of a row as the query returns it.
pub open spec fn row_view(row: Option<Option<String>>) -> Option<Option<Seq<char>>> {
    match row {
        None => None,
        Some(None) => Some(None),
        Some(Some(t)) => Some(Some(t@)),
    }
}

fn to_ids(raw: &Vec<(u64, u64)>) -> (r: Vec<(Id, Id)>)
    ensures
        r@ == id_pairs(raw@),
{
    let mut out: Vec<(Id, Id)> = Vec::new();
    let n = raw.len();
    let mut i: usize = 0;
    while i < n
        invariant
            n == raw@.len(),
            i <= n,
            out@ == id_pairs(raw@.subrange(0, i as int)),
        decreases n - i,
    {
        let (g, c) = raw[i];
        out.push((Id(g), Id(c)));
        i = i + 1;
        assert(id_pairs(raw@.subrange(0, i as int)) =~= id_pairs(raw@.subrange(0, i - 1)).push(
            (Id(g), Id(c)),
        ));
    }
    assert(raw@.subrange(0, n as int) =~= raw@);
    out
}

fn to_raw(pairs: &Vec<(Id, Id)>) -> (r: Vec<(u64, u64)>)
    ensures
        r@ == raw_pairs(pairs@),
{
    let mut out: Vec<(u64, u64)> = Vec::new();
    let n = pairs.len();
    let mut i: usize = 0;
    while i < n
        invariant
            n == pairs@.len(),
            i <= n,
            out@ == raw_pairs(pairs@.subrange(0, i as int)),
        decreases n - i,
    {
        let (g, c) = pairs[i];
        out.push((g.0, c.0));
        i = i + 1;
        assert(raw_pairs(pairs@.subrange(0, i as int)) =~= raw_pairs(pairs@.subrange(0, i - 1)).push(
            (g.0, c.0),
        ));
    }
    assert(pairs@.subrange(0, n as int) =~= pairs@);
    out
}

proof fn lemma_ids_of_raw(pairs: Seq<(Id, Id)>)
    ensures
        id_pairs(raw_pairs(pairs)) == pairs,
{
    assert(id_pairs(raw_pairs(pairs)) =~= pairs);
}

/// Turns the value that the row query returned into a record: `load_result`.
pub fn decode_last_viewed(row: Option<Option<String>>) -> (r: Result<LastViewedChannels, StoreError>)
    ensures
        match (r, load_result(row_view(row))) {
            (Ok(v), Ok(p)) => v.pairs@ == p,
            (Err(e), Err(f)) => e == f,
            _ => false,
        },
        r matches Ok(v) ==> valid_pairs(v.pairs@),
{
    match row {
        None => Ok(LastViewedChannels::new()),
        Some(None) => Err(StoreError::Incompatible),
        Some(Some(text)) => match parse_pair_list(text.as_str()) {
            None => Err(StoreError::Incompatible),
            Some(raw) => {
                let value = LastViewedChannels { pairs: to_ids(&raw) };
                if !value.is_valid() {
                    return Err(StoreError::Incompatible);
                }
                Ok(value)
            },
        },
    }
}

/// Decides what saving a record does. An invalid record is refused with
/// `Capacity`; an empty one deletes the row; any other is written as the JSON text
/// of its pairs (which for a valid record never exceeds `MAX_JSON_BYTES` bytes).
/// Whatever is written is read back by `decode_last_viewed` as the same record.
pub fn encode_last_viewed(value: &LastViewedChannels) -> (r: Result<LastViewedWrite, StoreError>)
    ensures
        !valid_pairs(value.pairs@) ==> r == Err::<LastViewedWrite, StoreError>(StoreError::Capacity),
        valid_pairs(value.pairs@) && value.pairs@.len() == 0 ==> r matches Ok(LastViewedWrite::Delete),
        valid_pairs(value.pairs@) && value.pairs@.len() > 0 ==> (r matches Ok(
            LastViewedWrite::Upsert(t),
        ) && t@ == json_pair_text(raw_pairs(value.pairs@)) && byte_len(t@)
            <= LastViewedChannels::MAX_JSON_BYTES),
        r matches Ok(w) ==> load_result(row_after(w)) == Ok::<Seq<(Id, Id)>, StoreError>(
            value.pairs@,
        ),
{
    if !value.is_valid() {
        return Err(StoreError::Capacity);
    }
    if value.pairs.len() == 0 {
        assert(value.pairs@ =~= Seq::<(Id, Id)>::empty());
        return Ok(LastViewedWrite::Delete);
    }
    let raw = to_raw(&value.pairs);
    match write_pair_list(&raw) {
        None => Err(StoreError::Incompatible),
        Some(text) => {
            proof {
                stored_text_fits(raw@);
            }
            if text.as_str().len() > LastViewedChannels::MAX_JSON_BYTES {
                return Err(StoreError::Capacity);
            }
            proof {
                lemma_ids_of_raw(value.pairs@);
            }
            Ok(LastViewedWrite::Upsert(text))
        },
    }
}

} // verus!
