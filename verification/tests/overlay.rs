use openzt::overlay::{is_resize_cursor, rating_for_display, CursorChange, CursorIcon, LiveGameChange, Overlay, StatusRatings};

#[test]
fn overlay_ignores_input_outside_a_game() {
    let mut o = Overlay::new();
    o.capture.wants_pointer_input = true;
    o.capture.wants_keyboard_input = true;
    assert!(!o.wants_pointer_input());
    assert!(!o.wants_keyboard_input());
    assert!(!o.blocks_pointer_input(true));
    assert!(!o.is_vanilla_ui_visible());
    o.live_game_active = true;
    assert!(o.wants_pointer_input());
    assert!(o.wants_keyboard_input());
    assert!(o.is_vanilla_ui_visible());
}

#[test]
fn pointer_is_blocked_by_frame_or_overlay_elements() {
    let mut o = Overlay::new();
    o.set_live_game_active(true);
    assert!(!o.blocks_pointer_input(false));
    assert!(o.blocks_pointer_input(true));
    o.capture.pointer_over_resize_bounds = true;
    assert!(o.blocks_pointer_input(false));
    assert!(o.blocks_pointer_overlay(true, true, false));
    assert!(!o.blocks_pointer_overlay(false, true, true));
    o.toggle_vanilla_ui();
    assert!(!o.blocks_pointer_overlay(true, true, false));
    assert!(o.blocks_pointer_overlay(true, false, true));
    o.toggle_debug_window();
    assert!(!o.blocks_pointer_overlay(true, true, true));
}

#[test]
fn live_game_transitions() {
    let mut o = Overlay::new();
    o.set_paused(true);
    assert_eq!(o.set_live_game_active(true), LiveGameChange::Started);
    assert!(!o.is_paused());
    assert_eq!(o.set_live_game_active(true), LiveGameChange::Unchanged);
    assert_eq!(o.apply_egui_cursor(CursorIcon::Text, false), CursorChange::SetDefault);
    o.capture.wants_keyboard_input = true;
    assert_eq!(o.set_live_game_active(false), LiveGameChange::Stopped { cursor: CursorChange::Reset });
    assert!(!o.cursor_active);
    assert!(!o.capture.wants_keyboard_input);
    assert_eq!(o.set_live_game_active(true), LiveGameChange::Started);
    assert_eq!(o.set_live_game_active(false), LiveGameChange::Stopped { cursor: CursorChange::Keep });
}

#[test]
fn cursor_is_taken_and_given_back() {
    let mut o = Overlay::new();
    assert_eq!(o.apply_egui_cursor(CursorIcon::Default, false), CursorChange::Keep);
    assert_eq!(o.apply_egui_cursor(CursorIcon::Default, true), CursorChange::SetDefault);
    assert_eq!(o.apply_egui_cursor(CursorIcon::PointingHand, false), CursorChange::Keep);
    assert_eq!(o.apply_egui_cursor(CursorIcon::Default, false), CursorChange::Reset);
    assert_eq!(o.clear_egui_cursor(), CursorChange::Keep);
    o.apply_egui_cursor(CursorIcon::Grab, false);
    assert_eq!(o.clear_egui_cursor(), CursorChange::Reset);
}

#[test]
fn frames_record_capture_and_warn_once() {
    let mut o = Overlay::new();
    o.set_live_game_active(true);
    let out = o.record_frame(CursorIcon::ResizeEast, false, true, false, true);
    assert!(o.capture.pointer_over_resize_bounds);
    assert!(o.capture.wants_keyboard_input);
    assert_eq!(out.cursor, CursorChange::SetDefault);
    assert!(out.warn_platform_output);
    let out = o.record_frame(CursorIcon::Default, false, false, false, true);
    assert!(!out.warn_platform_output);
    assert_eq!(out.cursor, CursorChange::Reset);
    assert!(!o.frame_blocks_pointer_input());
}

#[test]
fn resize_cursors() {
    assert!(is_resize_cursor(CursorIcon::ResizeNwSe));
    assert!(is_resize_cursor(CursorIcon::ResizeRow));
    assert!(!is_resize_cursor(CursorIcon::Move));
    assert!(!is_resize_cursor(CursorIcon::NoCursor));
}

#[test]
fn ratings_default_and_clamp() {
    let mut r = StatusRatings::new();
    assert_eq!((r.animal_rating(), r.guest_rating(), r.zoo_rating()), (75, 75, 75));
    r.set_animal_rating(150);
    r.set_guest_rating(-4);
    r.set_zoo_rating(42);
    assert_eq!((r.animal_rating(), r.guest_rating(), r.zoo_rating()), (100, 0, 42));
    assert_eq!(rating_for_display(100), 100);
    assert_eq!(rating_for_display(i32::MIN), 0);
}
