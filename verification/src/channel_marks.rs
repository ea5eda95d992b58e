//! How a channel row shows its access marks.
use vstd::prelude::*;

verus! {

/// What the account may do in a channel, as far as its row shows it.
#[derive(Clone, Copy, PartialEq, Eq, Structural, Debug)]
pub struct ChannelAccess {
    pub muted: bool,
    pub hidden: bool,
    pub limited: bool,
    pub dim: bool,
}

/// How much a channel row stands out.
#[derive(Clone, Copy, PartialEq, Eq, Structural, Debug)]
pub enum Emphasis {
    Unavailable,
    Idle,
    Unread,
    Focused,
    Connected,
}

/// Which palette color a channel row's glyph and name take.
#[derive(Clone, Copy, PartialEq, Eq, Structural, Debug)]
pub enum Tint {
    /// The muted color, dimmed.
    DimmedMuted,
    /// The accent color.
    Accent,
    /// The strong text color.
    TextStrong,
    /// The muted color.
    Muted,
}

/// A dimmed channel, or an unavailable one, takes the dimmed muted color; a
/// connected one the accent; a focused or unread one strong text; an idle one
/// the muted color.
pub open spec fn tint_of(access: ChannelAccess, emphasis: Emphasis) -> Tint {
    if access.dim {
        Tint::DimmedMuted
    } else {
        match emphasis {
            Emphasis::Unavailable => Tint::DimmedMuted,
            Emphasis::Connected => Tint::Accent,
            Emphasis::Focused | Emphasis::Unread => Tint::TextStrong,
            Emphasis::Idle => Tint::Muted,
        }
    }
}

/// The color a channel row takes.
pub fn tint(access: ChannelAccess, emphasis: Emphasis) -> (r: Tint)
    ensures
        r == tint_of(access, emphasis),
{
    if access.dim {
        return Tint::DimmedMuted;
    }
    match emphasis {
        Emphasis::Unavailable => Tint::DimmedMuted,
        Emphasis::Connected => Tint::Accent,
        Emphasis::Focused | Emphasis::Unread => Tint::TextStrong,
        Emphasis::Idle => Tint::Muted,
    }
}

/// The part of a label that one mark contributes.
pub open spec fn mark(on: bool, text: Seq<char>) -> Seq<char> {
    if on {
        text
    } else {
        Seq::empty()
    }
}

/// The accessible label suffix: " · Muted", " · Hidden" and " · Limited" for
/// each mark that applies, in that order.
pub fn label(access: ChannelAccess) -> (r: &'static str)
    ensures
        r@ == mark(access.muted, " · Muted"@) + mark(access.hidden, " · Hidden"@) + mark(
            access.limited,
            " · Limited"@,
        ),
{
    proof {
        reveal_strlit(" · Muted");
        reveal_strlit(" · Hidden");
        reveal_strlit(" · Limited");
        reveal_strlit("");
        reveal_strlit(" · Muted · Hidden");
        reveal_strlit(" · Muted · Limited");
        reveal_strlit(" · Hidden · Limited");
        reveal_strlit(" · Muted · Hidden · Limited");
    }
    match (access.muted, access.hidden, access.limited) {
        (false, false, false) => {
            assert(""@ =~= Seq::<char>::empty() + Seq::<char>::empty() + Seq::<char>::empty());
            ""
        },
        (true, false, false) => {
            assert(" · Muted"@ =~= " · Muted"@ + Seq::<char>::empty() + Seq::<char>::empty());
            " · Muted"
        },
        (false, true, false) => {
            assert(" · Hidden"@ =~= Seq::<char>::empty() + " · Hidden"@ + Seq::<char>::empty());
            " · Hidden"
        },
        (false, false, true) => {
            assert(" · Limited"@ =~= Seq::<char>::empty() + Seq::<char>::empty() + " · Limited"@);
            " · Limited"
        },
        (true, true, false) => {
            assert(" · Muted · Hidden"@ =~= " · Muted"@ + " · Hidden"@ + Seq::<char>::empty());
            " · Muted · Hidden"
        },
        (true, false, true) => {
            assert(" · Muted · Limited"@ =~= " · Muted"@ + Seq::<char>::empty() + " · Limited"@);
            " · Muted · Limited"
        },
        (false, true, true) => {
            assert(" · Hidden · Limited"@ =~= Seq::<char>::empty() + " · Hidden"@ + " · Limited"@);
            " · Hidden · Limited"
        },
        (true, true, true) => {
            assert(" · Muted · Hidden · Limited"@ =~= " · Muted"@ + " · Hidden"@ + " · Limited"@);
            " · Muted · Hidden · Limited"
        },
    }
}

/// A dimmed channel takes the dimmed muted color whatever its emphasis;
/// otherwise an unavailable row is dimmed too, a connected one takes the accent,
/// a focused or unread one strong text and an idle one the muted color.
pub proof fn tint_follows_dimming_then_emphasis(access: ChannelAccess, emphasis: Emphasis)
    ensures
        access.dim ==> tint_of(access, emphasis) == Tint::DimmedMuted,
        !access.dim && emphasis == Emphasis::Unavailable ==> tint_of(access, emphasis)
            == Tint::DimmedMuted,
        !access.dim && emphasis == Emphasis::Connected ==> tint_of(access, emphasis) == Tint::Accent,
        !access.dim && (emphasis == Emphasis::Focused || emphasis == Emphasis::Unread) ==> tint_of(
            access,
            emphasis,
        ) == Tint::TextStrong,
        !access.dim && emphasis == Emphasis::Idle ==> tint_of(access, emphasis) == Tint::Muted,
{
}

} // verus!
