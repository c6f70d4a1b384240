use openzt::memory::ZtMemory;
use openzt::tooltip::{
    long_tooltips_enabled, plausible_string_range, read_tooltip_setting, read_zt_string, tooltip_string_id, tooltip_text,
    truncate_tooltip, SettingLookup, TooltipChange, TooltipPhase, TooltipState,
};

#[test]
fn display_help_0_uses_short_id_without_long_setting() {
    assert_eq!(tooltip_string_id(3383, 1, false), Some(3383));
}

#[test]
fn display_help_0_uses_short_id_without_exact_long_flag() {
    assert_eq!(tooltip_string_id(3383, 2, true), Some(3383));
    assert_eq!(tooltip_string_id(3383, 0, true), Some(3383));
}

#[test]
fn display_help_0_uses_long_id_only_when_setting_and_flag_match() {
    assert_eq!(tooltip_string_id(3383, 1, true), Some(33383));
}

#[test]
fn display_help_0_zero_or_negative_id_clears_tooltip() {
    assert_eq!(tooltip_string_id(0, 1, true), None);
    assert_eq!(tooltip_string_id(-1, 1, true), None);
}

#[test]
fn largest_help_id_still_has_a_long_variant() {
    assert_eq!(tooltip_string_id(i32::MAX, 1, true), Some(i32::MAX as u32 + 30_000));
}

#[test]
fn string_ranges_must_be_plausible() {
    assert!(plausible_string_range(0x100, 0x110, 0x120));
    assert!(!plausible_string_range(0, 0x10, 0x20));
    assert!(!plausible_string_range(0x100, 0xff, 0x120));
    assert!(!plausible_string_range(0x100, 0x110, 0x10f));
    assert!(!plausible_string_range(0x100, 0x100 + 2049, 0x100 + 2049));
    assert!(!plausible_string_range(0x100, 0x110, 0x100 + 4097));
    assert!(plausible_string_range(0x100, 0x100 + 2048, 0x100 + 4096));
}

#[test]
fn long_text_is_cut_with_an_ellipsis() {
    let short = "a".repeat(512);
    assert_eq!(truncate_tooltip(&short), short);
    let long = "é".repeat(600);
    let cut = truncate_tooltip(&long);
    assert_eq!(cut.chars().count(), 512);
    assert!(cut.ends_with("..."));
    assert_eq!(&cut[..cut.len() - 3], "é".repeat(509));
}

#[test]
fn tooltip_settings_take_the_first_section_that_has_the_key() {
    assert_eq!(read_tooltip_setting(&vec![], 500), 500);
    assert_eq!(read_tooltip_setting(&vec![SettingLookup::Missing, SettingLookup::Value(250), SettingLookup::Value(9)], 500), 250);
    assert_eq!(read_tooltip_setting(&vec![SettingLookup::Value(-3), SettingLookup::Value(9)], 500), 500);
    assert_eq!(read_tooltip_setting(&vec![SettingLookup::Missing, SettingLookup::Invalid, SettingLookup::Value(9)], 500), 500);
    assert!(long_tooltips_enabled(SettingLookup::Value(1)));
    assert!(!long_tooltips_enabled(SettingLookup::Value(2)));
    assert!(!long_tooltips_enabled(SettingLookup::Missing));
    assert!(!long_tooltips_enabled(SettingLookup::Invalid));
}

const MS: u64 = 1_000_000;

#[test]
fn tooltip_waits_shows_and_expires() {
    let mut state = TooltipState::new();
    assert_eq!(state.set_tooltip("  Buy animals \n", false, 1000, 500, 10_000), TooltipChange::Requested);
    assert_eq!(state.current.as_ref().unwrap().text, "Buy animals");
    match state.active_tooltip(1000 + 100 * MS, false) {
        TooltipPhase::Waiting(w) => assert_eq!(w, 400 * MS),
        other => panic!("expected waiting, got {:?}", other),
    }
    match state.active_tooltip(1000 + 600 * MS, false) {
        TooltipPhase::Visible(t) => assert_eq!(t, "Buy animals"),
        other => panic!("expected visible, got {:?}", other),
    }
    assert!(matches!(state.active_tooltip(1000 + 10_501 * MS, false), TooltipPhase::Hidden));
    assert!(state.current.is_none());
}

#[test]
fn same_text_renews_and_blank_text_clears() {
    let mut state = TooltipState::new();
    state.set_tooltip("Help", true, 0, 500, 1000);
    assert_eq!(state.set_tooltip(" Help ", false, 5 * MS, 200, 2000), TooltipChange::Renewed);
    let req = state.current.as_ref().unwrap();
    assert_eq!((req.requested_at, req.delay, req.duration, req.allow_blocked_pointer), (0, 500 * MS, 2000 * MS, true));
    assert_eq!(state.set_tooltip(" \t ", false, 6 * MS, 500, 1000), TooltipChange::Cleared);
    assert!(state.current.is_none());
}

#[test]
fn blocked_pointer_drops_tooltips_that_do_not_allow_it() {
    let mut state = TooltipState::new();
    state.set_tooltip("Game help", false, 0, 0, 1000);
    assert!(matches!(state.active_tooltip(1, true), TooltipPhase::Hidden));
    assert!(state.current.is_none());
    state.set_tooltip("Overlay help", true, 0, 0, 1000);
    assert!(matches!(state.active_tooltip(1, true), TooltipPhase::Visible(_)));
    state.clear();
    assert!(matches!(state.active_tooltip(1, false), TooltipPhase::Hidden));
}

fn put_bytes(mem: &mut ZtMemory, addr: u32, bytes: &[u8]) {
    for (i, b) in bytes.iter().enumerate() {
        mem.save_u8(addr + i as u32, *b);
    }
}

#[test]
fn help_text_is_read_from_a_string_object_or_plain_bytes() {
    let mut mem = ZtMemory::zeroed(0x1000, 0x200).unwrap();
    // A string object at 0x1000 whose text " Zoo\x00" lies at 0x1100.
    mem.save_u32(0x1000, 0x1100);
    mem.save_u32(0x1004, 0x1105);
    mem.save_u32(0x1008, 0x1110);
    put_bytes(&mut mem, 0x1100, b" Zoo\x00");
    assert_eq!(read_zt_string(&mem, 0x1000).unwrap(), " Zoo");
    assert_eq!(tooltip_text(&mem, 0x1000).unwrap(), "Zoo");

    // Plain text at 0x1040: its first word points nowhere plausible.
    put_bytes(&mut mem, 0x1040, b"Hello there\x00");
    assert!(read_zt_string(&mem, 0x1040).is_none());
    assert_eq!(tooltip_text(&mem, 0x1040).unwrap(), "Hello there");

    put_bytes(&mut mem, 0x1060, b"   \x00\x00\x00\x00\x00\x00\x00\x00\x00");
    assert!(tooltip_text(&mem, 0x1060).is_none());
    assert!(tooltip_text(&mem, 0).is_none());
}
