//! The menu music handler: plays the menu theme and fades it out when a game starts.
//!
//! The handler owns at most one sound (`sound_ptr`, 0 for none). The sound itself, and the sound
//! manager that loads and plays it, belong to the game: the methods here decide, from the handler's
//! state and what the caller has learned from the sound (whether it is valid, whether it is
//! playing), what the handler's next state is and which sound operations the caller performs.
use vstd::prelude::*;

verus! {

/// A fade is complete once the counter passes this value.
pub const FADE_END: i32 = 3000;

/// Updates with a step of this many milliseconds or more are skipped while fading.
pub const MAX_FADE_STEP: u32 = 2000;

/// Number of updates a fade waits before the volume starts to drop.
pub const WARMUP_UPDATES: i32 = 5;

/// The state of the menu music handler.
#[derive(Clone, Copy, Debug, PartialEq, Eq, Structural)]
pub struct MenuMusicHandler {
    /// The sound held, 0 for none.
    pub sound_ptr: u32,
    /// Non-zero while a fade is in progress.
    pub fading: u8,
    /// The fade attenuation reached so far.
    pub fade_counter: i32,
    /// Non-zero when the settings turn menu music off.
    pub ini_menu_music_disabled: u8,
    /// Updates counted before a fade starts to lower the volume.
    pub warmup_ticks: i32,
}

/// What the caller does to the sound when `start_play` runs.
#[derive(Clone, Copy, Debug, PartialEq, Eq, Structural)]
pub enum StartPlay {
    /// Nothing: menu music is disabled or there is no sound.
    Skip,
    /// Start the sound looping first if `play_looped`, then set its fade attenuation and its
    /// volume to 0.
    Reset { play_looped: bool },
}

/// What the caller does to the sound after an `update`.
#[derive(Clone, Copy, Debug, PartialEq, Eq, Structural)]
pub enum FadeAction {
    /// Nothing.
    Nothing,
    /// Set the sound's fade attenuation to the value, then its volume to 0.
    Attenuate(i32),
    /// The fade is over: stop the sound and release it (the handler no longer holds it).
    StopAndRelease(u32),
}

/// How much one update of `delta` milliseconds advances a fade: half of `delta`, rounded down.
pub open spec fn spec_fade_increment(delta: u32) -> int {
    delta as int / 2
}

/// The fade step for an update of `delta` milliseconds.
pub fn fade_increment(delta: u32) -> (r: i32)
    ensures
        r == spec_fade_increment(delta),
{
    (delta / 2) as i32
}

impl MenuMusicHandler {
    /// Sets up a handler with no sound; `no_menu_music_setting` is the value the settings hold
    /// under `[UI] noMenuMusic`, and 1 there turns menu music off.
    pub fn construct(&mut self, no_menu_music_setting: u32)
        ensures
            final(self).sound_ptr == 0,
            final(self).fading == 0,
            final(self).fade_counter == 0,
            final(self).warmup_ticks == 0,
            final(self).ini_menu_music_disabled == if no_menu_music_setting == 1 {
                1u8
            } else {
                0u8
            },
    {
        self.sound_ptr = 0;
        self.fading = 0;
        self.fade_counter = 0;
        self.warmup_ticks = 0;
        self.ini_menu_music_disabled = if no_menu_music_setting == 1 {
            1
        } else {
            0
        };
    }

    /// The first step of `init`: whether the sound held now is stopped and released (it is
    /// when it exists and `playing`), and whether a new sound is allocated (it is unless menu
    /// music is disabled; otherwise `init` fails here).
    pub fn init_begin(&self, playing: bool) -> (r: (bool, bool))
        ensures
            r.0 == (self.sound_ptr != 0 && playing),
            r.1 == (self.ini_menu_music_disabled == 0),
    {
        (self.sound_ptr != 0 && playing, self.ini_menu_music_disabled == 0)
    }

    /// The second step of `init`: holds `new_sound` (0 when allocation failed) and, when there is
    /// one, clears the fade. Returns whether the music file is then loaded into the sound; when it
    /// is, `init` succeeds exactly when the load does, and the caller then sets the sound's base
    /// attenuation.
    pub fn init_adopt(&mut self, new_sound: u32) -> (load: bool)
        ensures
            load == (new_sound != 0),
            final(self).sound_ptr == new_sound,
            final(self).ini_menu_music_disabled == old(self).ini_menu_music_disabled,
            final(self).warmup_ticks == old(self).warmup_ticks,
            load ==> final(self).fading == 0 && final(self).fade_counter == 0,
            !load ==> final(self).fading == old(self).fading
                && final(self).fade_counter == old(self).fade_counter,
    {
        self.sound_ptr = new_sound;
        if new_sound == 0 {
            return false;
        }
        self.fade_counter = 0;
        self.fading = 0;
        true
    }

    /// The handler after `start_play`.
    pub open spec fn spec_start_play(self) -> MenuMusicHandler {
        if self.ini_menu_music_disabled != 0 || self.sound_ptr == 0 {
            self
        } else {
            MenuMusicHandler { fading: 0, fade_counter: 0, ..self }
        }
    }

    /// Starts the menu music from full volume. `valid` and `playing` describe the sound held
    /// (they are not consulted when there is none).
    pub fn start_play(&mut self, valid: bool, playing: bool) -> (r: StartPlay)
        ensures
            *final(self) == old(self).spec_start_play(),
            r == if old(self).ini_menu_music_disabled != 0 || old(self).sound_ptr == 0 {
                StartPlay::Skip
            } else {
                StartPlay::Reset { play_looped: valid && !playing }
            },
    {
        if self.ini_menu_music_disabled != 0 || self.sound_ptr == 0 {
            return StartPlay::Skip;
        }
        let play_looped = valid && !playing;
        self.fading = 0;
        self.fade_counter = 0;
        StartPlay::Reset { play_looped }
    }

    /// The handler after `start_fade`.
    pub open spec fn spec_start_fade(self, playing: bool) -> MenuMusicHandler {
        if self.fading != 0 || self.sound_ptr == 0 || !playing {
            self
        } else {
            MenuMusicHandler { fading: 1, fade_counter: 0, ..self }
        }
    }

    /// Begins fading the music out, if the sound is `playing` and no fade is under way.
    pub fn start_fade(&mut self, playing: bool)
        ensures
            *final(self) == old(self).spec_start_fade(playing),
    {
        if self.fading != 0 || self.sound_ptr == 0 {
            return;
        }
        if playing {
            self.fading = 1;
            self.fade_counter = 0;
        }
    }

    /// Whether an update of `delta` advances the fade counter (rather than returning early).
    pub open spec fn advances_fade(self, delta: u32) -> bool {
        self.fading != 0 && self.sound_ptr != 0 && self.warmup_ticks >= WARMUP_UPDATES && delta
            < MAX_FADE_STEP
    }

    /// Whether an update of `delta` stays within 32-bit arithmetic.
    pub open spec fn update_fits(self, delta: u32) -> bool {
        &&& (self.fading != 0 && self.sound_ptr != 0 && self.warmup_ticks < WARMUP_UPDATES) ==> self.warmup_ticks
            < i32::MAX
        &&& self.advances_fade(delta) ==> self.fade_counter + spec_fade_increment(delta) <= i32::MAX
    }

    /// The handler after an update of `delta` milliseconds; `playing` tells whether the sound
    /// is playing when the fade ends.
    pub open spec fn spec_update(self, delta: u32, playing: bool) -> MenuMusicHandler {
        if self.fading == 0 || self.sound_ptr == 0 {
            self
        } else if self.warmup_ticks < WARMUP_UPDATES {
            MenuMusicHandler { warmup_ticks: (self.warmup_ticks + 1) as i32, ..self }
        } else if delta >= MAX_FADE_STEP {
            self
        } else {
            let counter = (self.fade_counter + spec_fade_increment(delta)) as i32;
            if counter > FADE_END && playing {
                MenuMusicHandler { fading: 0, fade_counter: 0, sound_ptr: 0, ..self }
            } else {
                MenuMusicHandler { fade_counter: counter, ..self }
            }
        }
    }

    /// The sound operation an update of `delta` calls for.
    pub open spec fn spec_update_action(self, delta: u32, playing: bool) -> FadeAction {
        if !self.advances_fade(delta) {
            FadeAction::Nothing
        } else {
            let counter = (self.fade_counter + spec_fade_increment(delta)) as i32;
            if counter > FADE_END {
                if playing {
                    FadeAction::StopAndRelease(self.sound_ptr)
                } else {
                    FadeAction::Nothing
                }
            } else {
                FadeAction::Attenuate(counter)
            }
        }
    }

    /// Advances the fade by an update of `delta` milliseconds. While a fade runs, the first
    /// updates only count up the warm-up; after that each update of less than `MAX_FADE_STEP`
    /// adds half of `delta` to the attenuation, and once it passes `FADE_END` a `playing` sound is
    /// stopped and released.
    pub fn update(&mut self, delta: u32, playing: bool) -> (a: FadeAction)
        requires
            old(self).update_fits(delta),
        ensures
            *final(self) == old(self).spec_update(delta, playing),
            a == old(self).spec_update_action(delta, playing),
    {
        if self.fading == 0 || self.sound_ptr == 0 {
            return FadeAction::Nothing;
        }
        if self.warmup_ticks < WARMUP_UPDATES {
            self.warmup_ticks = self.warmup_ticks + 1;
            return FadeAction::Nothing;
        }
        if delta >= MAX_FADE_STEP {
            return FadeAction::Nothing;
        }
        self.fade_counter = self.fade_counter + fade_increment(delta);
        if self.fade_counter > FADE_END {
            if playing {
                let sound = self.sound_ptr;
                self.fading = 0;
                self.fade_counter = 0;
                self.sound_ptr = 0;
                return FadeAction::StopAndRelease(sound);
            }
            return FadeAction::Nothing;
        }
        FadeAction::Attenuate(self.fade_counter)
    }
}

/// Starting a fade twice in a row, with the sound in the same state, does what starting it once
/// does.
pub proof fn law_start_fade_idempotent(h: MenuMusicHandler, playing: bool)
    ensures
        h.spec_start_fade(playing).spec_start_fade(playing) == h.spec_start_fade(playing),
{
}

/// An update never sets an attenuation beyond `FADE_END`, and never a negative one when the fade
/// counter was not negative.
pub proof fn law_attenuation_bounded(h: MenuMusicHandler, delta: u32, playing: bool)
    requires
        h.update_fits(delta),
    ensures
        h.spec_update_action(delta, playing) matches FadeAction::Attenuate(c) ==> c <= FADE_END && (
        h.fade_counter >= 0 ==> c >= 0),
{
}

/// Without a fade under way, an update changes nothing and asks for nothing.
pub proof fn law_update_idle_without_fade(h: MenuMusicHandler, delta: u32, playing: bool)
    requires
        h.fading == 0,
    ensures
        h.spec_update(delta, playing) == h,
        h.spec_update_action(delta, playing) == FadeAction::Nothing,
{
}

/// With menu music disabled, starting the music leaves the handler as it was.
pub proof fn law_disabled_music_stays_silent(h: MenuMusicHandler)
    requires
        h.ini_menu_music_disabled != 0,
    ensures
        h.spec_start_play() == h,
{
}

/// A fade that releases the sound leaves the handler holding none and not fading, so later
/// updates do nothing.
pub proof fn law_release_ends_fade(h: MenuMusicHandler, delta: u32, playing: bool, later: u32, later_playing: bool)
    requires
        h.spec_update_action(delta, playing) is StopAndRelease,
    ensures
        h.spec_update(delta, playing).sound_ptr == 0,
        h.spec_update(delta, playing).fading == 0,
        h.spec_update(delta, playing).spec_update(later, later_playing) == h.spec_update(delta, playing),
{
}

} // verus!
