use openzt::music::{fade_increment, FadeAction, MenuMusicHandler, StartPlay};

#[test]
fn fade_increment_truncates_toward_zero() {
    assert_eq!(fade_increment(0), 0);
    assert_eq!(fade_increment(1), 0);
    assert_eq!(fade_increment(2), 1);
    assert_eq!(fade_increment(1999), 999);
    assert_eq!(fade_increment(2000), 1000);
}

fn handler(sound_ptr: u32, fading: u8, fade_counter: i32, disabled: u8, warmup_ticks: i32) -> MenuMusicHandler {
    MenuMusicHandler { sound_ptr, fading, fade_counter, ini_menu_music_disabled: disabled, warmup_ticks }
}

#[test]
fn construct_reads_the_no_menu_music_setting() {
    let mut h = handler(5, 1, 7, 0, 3);
    h.construct(1);
    assert_eq!(h, handler(0, 0, 0, 1, 0));
    h.construct(2);
    assert_eq!(h.ini_menu_music_disabled, 0);
}

#[test]
fn init_steps() {
    let h = handler(0x50, 1, 9, 0, 0);
    assert_eq!(h.init_begin(true), (true, true));
    assert_eq!(h.init_begin(false), (false, true));
    assert_eq!(handler(0, 0, 0, 1, 0).init_begin(true), (false, false));
    let mut h = h;
    assert!(h.init_adopt(0x80));
    assert_eq!(h, handler(0x80, 0, 0, 0, 0));
    let mut failed = handler(0x50, 1, 9, 0, 0);
    assert!(!failed.init_adopt(0));
    assert_eq!(failed, handler(0, 1, 9, 0, 0));
}

#[test]
fn start_play_resets_the_fade() {
    let mut h = handler(0x80, 1, 400, 0, 5);
    assert_eq!(h.start_play(true, false), StartPlay::Reset { play_looped: true });
    assert_eq!(h, handler(0x80, 0, 0, 0, 5));
    assert_eq!(h.start_play(true, true), StartPlay::Reset { play_looped: false });
    let mut disabled = handler(0x80, 1, 400, 1, 5);
    assert_eq!(disabled.start_play(true, false), StartPlay::Skip);
    assert_eq!(disabled, handler(0x80, 1, 400, 1, 5));
}

#[test]
fn start_fade_only_while_playing() {
    let mut h = handler(0x80, 0, 55, 0, 0);
    h.start_fade(false);
    assert_eq!(h, handler(0x80, 0, 55, 0, 0));
    h.start_fade(true);
    assert_eq!(h, handler(0x80, 1, 0, 0, 0));
    h.fade_counter = 10;
    h.start_fade(true);
    assert_eq!(h.fade_counter, 10);
}

#[test]
fn fade_warms_up_then_attenuates_then_releases() {
    let mut h = handler(0x80, 1, 0, 0, 0);
    for _ in 0..5 {
        assert_eq!(h.update(100, true), FadeAction::Nothing);
    }
    assert_eq!(h.warmup_ticks, 5);
    assert_eq!(h.update(2000, true), FadeAction::Nothing);
    assert_eq!(h.update(1000, true), FadeAction::Attenuate(500));
    h.fade_counter = 2900;
    assert_eq!(h.update(400, false), FadeAction::Nothing);
    assert_eq!(h.fade_counter, 3100);
    assert_eq!(h.update(0, true), FadeAction::StopAndRelease(0x80));
    assert_eq!(h, handler(0, 0, 0, 0, 5));
    assert_eq!(h.update(100, true), FadeAction::Nothing);
}
