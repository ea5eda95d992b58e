use serein::channel_marks::{label, tint, ChannelAccess, Emphasis, Tint};
use serein::scroll::{Drive, ScrollSession};
use serein::selection::PointerState;

fn access(muted: bool, hidden: bool, limited: bool, dim: bool) -> ChannelAccess {
    ChannelAccess { muted, hidden, limited, dim }
}

#[test]
fn labels_list_each_mark_in_order() {
    assert_eq!(label(access(false, false, false, false)), "");
    assert_eq!(label(access(true, false, false, false)), " · Muted");
    assert_eq!(label(access(false, true, false, false)), " · Hidden");
    assert_eq!(label(access(false, false, true, false)), " · Limited");
    assert_eq!(label(access(true, true, false, false)), " · Muted · Hidden");
    assert_eq!(label(access(true, false, true, false)), " · Muted · Limited");
    assert_eq!(label(access(false, true, true, false)), " · Hidden · Limited");
    assert_eq!(label(access(true, true, true, false)), " · Muted · Hidden · Limited");
}

#[test]
fn dimmed_channels_always_take_the_dimmed_muted_tint() {
    let plain = access(false, false, false, false);
    let dim = access(false, false, false, true);
    assert_eq!(tint(dim, Emphasis::Connected), Tint::DimmedMuted);
    assert_eq!(tint(plain, Emphasis::Unavailable), Tint::DimmedMuted);
    assert_eq!(tint(plain, Emphasis::Connected), Tint::Accent);
    assert_eq!(tint(plain, Emphasis::Focused), Tint::TextStrong);
    assert_eq!(tint(plain, Emphasis::Unread), Tint::TextStrong);
    assert_eq!(tint(plain, Emphasis::Idle), Tint::Muted);
}

#[test]
fn a_hold_drives_only_its_list_and_ends_when_unclaimed() {
    let mut s: ScrollSession<(i32, i32), u32> = ScrollSession::new();
    assert_eq!(s.bind(1, true, 7, None), None);
    assert!(!s.holding());
    assert_eq!(s.bind(1, true, 7, Some((3, 4))), Some((3, 4)));
    assert!(s.holding());
    assert_eq!(s.bind(1, true, 8, Some((9, 9))), None);
    assert_eq!(s.drive, Drive::Holding { origin: (3, 4), target: 7 });
    s.applied = Some((7, 10));
    s.reap(1);
    assert!(s.holding());
    assert_eq!(s.bind(2, false, 7, None), Some((3, 4)));
    s.reap(2);
    assert!(s.holding());
    s.reap(3);
    assert!(!s.holding());
    assert_eq!(s.applied, None);
}

#[test]
fn a_stop_in_a_new_frame_ends_the_hold() {
    let mut s: ScrollSession<u8, u8> = ScrollSession::new();
    assert_eq!(s.bind(1, false, 1, Some(5)), Some(5));
    s.applied = Some((1, 2));
    assert_eq!(s.bind(2, true, 1, None), None);
    assert!(!s.holding());
    assert_eq!(s.applied, None);
    assert!(!s.armed);
    s.reap(2);
    assert!(!s.holding());
}

#[test]
fn right_click_over_a_selection_copies_silently_and_opens_the_menu() {
    let mut p = PointerState::new();
    let a = p.input_hook(true, true, false);
    assert!(a.swallow_secondary && a.push_copy);
    assert!(p.menu && p.silent);
    assert!(p.show_menu(false));
    assert!(!p.show_menu(true));
    let out = p.output_hook(Some("hello".to_string()), true, false);
    assert!(out.drop_copy && out.reset_cursor);
    assert!(!p.silent);
    assert_eq!(p.copy_request(), Some("hello".to_string()));
    let out = p.output_hook(Some("again".to_string()), true, true);
    assert!(!out.drop_copy && !out.reset_cursor);
    assert_eq!(p.cached, "again");
    let a = p.input_hook(false, true, false);
    assert!(!a.swallow_secondary && !a.push_copy && !p.menu);
    let a = p.input_hook(true, true, true);
    assert!(a.swallow_secondary && !a.push_copy && !p.silent);
}

#[test]
fn nothing_cached_means_nothing_to_copy() {
    let p = PointerState::new();
    assert_eq!(p.copy_request(), None);
}

#[test]
fn the_applied_offset_belongs_to_one_list() {
    let mut s: ScrollSession<u8, u32> = ScrollSession::new();
    assert_eq!(s.applied_to(1), None);
    s.set_applied(1, 40);
    assert_eq!(s.applied_to(1), Some(40));
    assert_eq!(s.applied_to(2), None);
    s.clear_applied();
    assert_eq!(s.applied_to(1), None);
}
