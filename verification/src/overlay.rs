//! The state of the in-game overlay: whether a live game is running, what the overlay shows, which
//! input it captures, the cursor it has taken over, the pause flag, and the ratings, money and date
//! it displays.
//!
//! Drawing, window handles and pointer coordinates stay with the caller; the methods here take
//! what the caller measured (whether the pointer is over an overlay element, what the UI toolkit
//! asked for) and return what the caller is to do.
use vstd::prelude::*;


verus! {

/// The shape the UI toolkit asks the mouse cursor to take.
#[derive(Clone, Copy, Debug, PartialEq, Eq, Structural)]
pub enum CursorIcon {
    Default,
    /// No cursor at all (the toolkit's `None`).
    NoCursor,
    ContextMenu,
    Help,
    PointingHand,
    Progress,
    Wait,
    Cell,
    Crosshair,
    Text,
    VerticalText,
    Alias,
    Copy,
    Move,
    NoDrop,
    NotAllowed,
    Grab,
    Grabbing,
    AllScroll,
    ResizeHorizontal,
    ResizeNeSw,
    ResizeNwSe,
    ResizeVertical,
    ResizeEast,
    ResizeSouthEast,
    ResizeSouth,
    ResizeSouthWest,
    ResizeWest,
    ResizeNorthWest,
    ResizeNorth,
    ResizeNorthEast,
    ResizeColumn,
    ResizeRow,
    ZoomIn,
    ZoomOut,
}

/// Whether `icon` is one of the resize cursors.
pub open spec fn spec_is_resize_cursor(icon: CursorIcon) -> bool {
    match icon {
        CursorIcon::ResizeHorizontal | CursorIcon::ResizeNeSw | CursorIcon::ResizeNwSe
        | CursorIcon::ResizeVertical | CursorIcon::ResizeEast | CursorIcon::ResizeSouthEast
        | CursorIcon::ResizeSouth | CursorIcon::ResizeSouthWest | CursorIcon::ResizeWest
        | CursorIcon::ResizeNorthWest | CursorIcon::ResizeNorth | CursorIcon::ResizeNorthEast
        | CursorIcon::ResizeColumn | CursorIcon::ResizeRow => true,
        _ => false,
    }
}

/// Whether `icon` is one of the resize cursors, which the overlay shows at its window edges.
pub fn is_resize_cursor(icon: CursorIcon) -> (r: bool)
    ensures
        r == spec_is_resize_cursor(icon),
{
    match icon {
        CursorIcon::ResizeHorizontal | CursorIcon::ResizeNeSw | CursorIcon::ResizeNwSe
        | CursorIcon::ResizeVertical | CursorIcon::ResizeEast | CursorIcon::ResizeSouthEast
        | CursorIcon::ResizeSouth | CursorIcon::ResizeSouthWest | CursorIcon::ResizeWest
        | CursorIcon::ResizeNorthWest | CursorIcon::ResizeNorth | CursorIcon::ResizeNorthEast
        | CursorIcon::ResizeColumn | CursorIcon::ResizeRow => true,
        _ => false,
    }
}

/// What the caller does to the game's cursor.
#[derive(Clone, Copy, Debug, PartialEq, Eq, Structural)]
pub enum CursorChange {
    /// Nothing.
    Keep,
    /// Show the game's default arrow: the overlay has taken the cursor over.
    SetDefault,
    /// Give the cursor back to the game element under it.
    Reset,
}

/// The input the overlay captured during the last frame.
#[derive(Clone, Copy, Debug, PartialEq, Eq, Structural)]
pub struct InputCaptureState {
    pub pointer_over_resize_bounds: bool,
    pub wants_pointer_input: bool,
    pub wants_keyboard_input: bool,
    pub platform_output_warned: bool,
}

/// The capture state of a fresh frame: nothing captured.
pub open spec fn no_capture() -> InputCaptureState {
    InputCaptureState {
        pointer_over_resize_bounds: false,
        wants_pointer_input: false,
        wants_keyboard_input: false,
        platform_output_warned: false,
    }
}

/// Whether the overlay window can be resized by its edges.
pub const OPENZT_WINDOW_RESIZABLE: bool = true;

/// The overlay's state.
#[derive(Clone, Copy, Debug, PartialEq, Eq, Structural)]
pub struct Overlay {
    /// A game (not a menu) is running.
    pub live_game_active: bool,
    /// The redrawn game UI is shown.
    pub show_vanilla_ui: bool,
    /// The debug window is shown.
    pub show_debug_window: bool,
    pub capture: InputCaptureState,
    /// The game is paused.
    pub paused: bool,
    /// The overlay has taken over the cursor.
    pub cursor_active: bool,
}

/// What happened when the live-game flag was set.
#[derive(Clone, Copy, Debug, PartialEq, Eq, Structural)]
pub enum LiveGameChange {
    /// The flag already had that value.
    Unchanged,
    /// A game started: the pause flag was cleared.
    Started,
    /// The game stopped: the captured input was reset and the cursor released. The caller drops
    /// queued input events, hides the overlay window and, if `cursor`, resets the cursor.
    Stopped { cursor: CursorChange },
}

/// What the caller does after a frame was drawn.
#[derive(Clone, Copy, Debug, PartialEq, Eq, Structural)]
pub struct FrameOutcome {
    pub cursor: CursorChange,
    /// Log, once, that the toolkit asked for platform output the overlay does not provide.
    pub warn_platform_output: bool,
}

impl Overlay {
    /// The state at start-up: no game, the redrawn UI and the debug window on, nothing captured.
    pub fn new() -> (o: Overlay)
        ensures
            !o.live_game_active,
            o.show_vanilla_ui,
            o.show_debug_window,
            o.capture == no_capture(),
            !o.paused,
            !o.cursor_active,
    {
        Overlay {
            live_game_active: false,
            show_vanilla_ui: true,
            show_debug_window: true,
            capture: InputCaptureState {
                pointer_over_resize_bounds: false,
                wants_pointer_input: false,
                wants_keyboard_input: false,
                platform_output_warned: false,
            },
            paused: false,
            cursor_active: false,
        }
    }

    /// Whether a game is running.
    pub fn is_live_game_active(&self) -> (r: bool)
        ensures
            r == self.live_game_active,
    {
        self.live_game_active
    }

    /// Whether the redrawn game UI is on screen: only during a game, and when it is switched on.
    pub fn is_vanilla_ui_visible(&self) -> (r: bool)
        ensures
            r == (self.live_game_active && self.show_vanilla_ui),
    {
        self.live_game_active && self.show_vanilla_ui
    }

    /// Whether the overlay wants the pointer: never outside a game.
    pub fn wants_pointer_input(&self) -> (r: bool)
        ensures
            r == (self.live_game_active && self.capture.wants_pointer_input),
    {
        self.live_game_active && self.capture.wants_pointer_input
    }

    /// Whether the overlay wants the keyboard: never outside a game.
    pub fn wants_keyboard_input(&self) -> (r: bool)
        ensures
            r == (self.live_game_active && self.capture.wants_keyboard_input),
    {
        self.live_game_active && self.capture.wants_keyboard_input
    }

    /// Whether the last frame claimed the pointer: it was over the resize edges or the toolkit
    /// wanted it.
    pub fn frame_blocks_pointer_input(&self) -> (r: bool)
        ensures
            r == (self.capture.pointer_over_resize_bounds || self.capture.wants_pointer_input),
    {
        self.capture.pointer_over_resize_bounds || self.capture.wants_pointer_input
    }

    /// Whether a point is over an overlay element that blocks the game: the client size must be
    /// known, and the point must be over the redrawn UI while it is shown or over the debug window
    /// while it is shown.
    pub fn blocks_pointer_overlay(&self, client_size_known: bool, over_vanilla_ui: bool, over_debug_window: bool) -> (r: bool)
        ensures
            r == (client_size_known && ((self.show_vanilla_ui && over_vanilla_ui) || (self.show_debug_window
                && over_debug_window))),
    {
        if !client_size_known {
            return false;
        }
        if self.show_vanilla_ui && over_vanilla_ui {
            return true;
        }
        self.show_debug_window && over_debug_window
    }

    /// Whether the game must ignore the pointer: during a game, when the last frame claimed it or
    /// the pointer (where it is now, or where it was last seen) is over a blocking overlay
    /// element, as `pointer_over_overlay` tells.
    pub fn blocks_pointer_input(&self, pointer_over_overlay: bool) -> (r: bool)
        ensures
            r == (self.live_game_active && (self.capture.pointer_over_resize_bounds
                || self.capture.wants_pointer_input || pointer_over_overlay)),
    {
        if !self.live_game_active {
            return false;
        }
        self.frame_blocks_pointer_input() || pointer_over_overlay
    }

    /// Switches the debug window on or off.
    pub fn toggle_debug_window(&mut self)
        ensures
            *final(self) == (Overlay { show_debug_window: !old(self).show_debug_window, ..*old(self) }),
    {
        self.show_debug_window = !self.show_debug_window;
    }

    /// Switches the redrawn game UI on or off.
    pub fn toggle_vanilla_ui(&mut self)
        ensures
            *final(self) == (Overlay { show_vanilla_ui: !old(self).show_vanilla_ui, ..*old(self) }),
    {
        self.show_vanilla_ui = !self.show_vanilla_ui;
    }

    /// Whether the game is paused.
    pub fn is_paused(&self) -> (r: bool)
        ensures
            r == self.paused,
    {
        self.paused
    }

    /// Records whether the game is paused.
    pub fn set_paused(&mut self, paused: bool)
        ensures
            *final(self) == (Overlay { paused, ..*old(self) }),
    {
        self.paused = paused;
    }

    /// The overlay after `clear_egui_cursor`.
    pub open spec fn spec_clear_cursor(self) -> Overlay {
        Overlay { cursor_active: false, ..self }
    }

    /// Gives the cursor back to the game if the overlay had taken it.
    pub fn clear_egui_cursor(&mut self) -> (c: CursorChange)
        ensures
            *final(self) == old(self).spec_clear_cursor(),
            c == if old(self).cursor_active {
                CursorChange::Reset
            } else {
                CursorChange::Keep
            },
    {
        let was_active = self.cursor_active;
        self.cursor_active = false;
        if was_active {
            CursorChange::Reset
        } else {
            CursorChange::Keep
        }
    }

    /// Takes the cursor over while the overlay wants the pointer or the toolkit asks for a cursor
    /// other than the default, and gives it back otherwise; only changes are reported.
    pub fn apply_egui_cursor(&mut self, cursor_icon: CursorIcon, wants_pointer_input: bool) -> (c: CursorChange)
        ensures
            final(self).cursor_active == (wants_pointer_input || cursor_icon != CursorIcon::Default),
            *final(self) == (Overlay { cursor_active: final(self).cursor_active, ..*old(self) }),
            c == if final(self).cursor_active && !old(self).cursor_active {
                CursorChange::SetDefault
            } else if !final(self).cursor_active && old(self).cursor_active {
                CursorChange::Reset
            } else {
                CursorChange::Keep
            },
    {
        let wants_vanilla_arrow = wants_pointer_input || cursor_icon != CursorIcon::Default;
        let was_active = self.cursor_active;
        self.cursor_active = wants_vanilla_arrow;
        if wants_vanilla_arrow {
            if !was_active {
                return CursorChange::SetDefault;
            }
        } else if was_active {
            return CursorChange::Reset;
        }
        CursorChange::Keep
    }

    /// The overlay after `set_live_game_active(active)`.
    pub open spec fn spec_set_live_game_active(self, active: bool) -> Overlay {
        if self.live_game_active == active {
            self
        } else if active {
            Overlay { live_game_active: true, paused: false, ..self }
        } else {
            Overlay { live_game_active: false, capture: no_capture(), cursor_active: false, ..self }
        }
    }

    /// Records that a game started or stopped. Starting clears the pause flag; stopping drops the
    /// captured input and releases the cursor.
    pub fn set_live_game_active(&mut self, active: bool) -> (c: LiveGameChange)
        ensures
            *final(self) == old(self).spec_set_live_game_active(active),
            c == if old(self).live_game_active == active {
                LiveGameChange::Unchanged
            } else if active {
                LiveGameChange::Started
            } else {
                LiveGameChange::Stopped {
                    cursor: if old(self).cursor_active {
                        CursorChange::Reset
                    } else {
                        CursorChange::Keep
                    },
                }
            },
    {
        if self.live_game_active == active {
            return LiveGameChange::Unchanged;
        }
        self.live_game_active = active;
        if active {
            self.paused = false;
            LiveGameChange::Started
        } else {
            self.reset_capture_state();
            let cursor = self.clear_egui_cursor();
            LiveGameChange::Stopped { cursor }
        }
    }

    /// Forgets the captured input.
    pub fn reset_capture_state(&mut self)
        ensures
            *final(self) == (Overlay { capture: no_capture(), ..*old(self) }),
    {
        self.capture =
            InputCaptureState {
                pointer_over_resize_bounds: false,
                wants_pointer_input: false,
                wants_keyboard_input: false,
                platform_output_warned: false,
            };
    }

    /// Records what a drawn frame captured: the cursor `cursor_icon` the toolkit asked for, whether
    /// it wants the pointer and the keyboard, whether the pointer is over a blocking overlay
    /// element, and whether the toolkit asked for platform output. Returns the cursor change and
    /// whether to warn, once, about the platform output.
    pub fn record_frame(
        &mut self,
        cursor_icon: CursorIcon,
        toolkit_wants_pointer: bool,
        toolkit_wants_keyboard: bool,
        pointer_over_overlay: bool,
        has_platform_commands: bool,
    ) -> (o: FrameOutcome)
        ensures
            final(self).capture.pointer_over_resize_bounds == (OPENZT_WINDOW_RESIZABLE
                && spec_is_resize_cursor(cursor_icon)),
            final(self).capture.wants_pointer_input == toolkit_wants_pointer,
            final(self).capture.wants_keyboard_input == toolkit_wants_keyboard,
            o.warn_platform_output == (!old(self).capture.platform_output_warned && has_platform_commands),
            final(self).capture.platform_output_warned == (old(self).capture.platform_output_warned
                || has_platform_commands),
            final(self).cursor_active == (final(self).capture.pointer_over_resize_bounds
                || toolkit_wants_pointer || pointer_over_overlay || cursor_icon != CursorIcon::Default),
            o.cursor == if final(self).cursor_active && !old(self).cursor_active {
                CursorChange::SetDefault
            } else if !final(self).cursor_active && old(self).cursor_active {
                CursorChange::Reset
            } else {
                CursorChange::Keep
            },
            final(self).live_game_active == old(self).live_game_active,
            final(self).show_vanilla_ui == old(self).show_vanilla_ui,
            final(self).show_debug_window == old(self).show_debug_window,
            final(self).paused == old(self).paused,
    {
        let resize = OPENZT_WINDOW_RESIZABLE && is_resize_cursor(cursor_icon);
        self.capture.pointer_over_resize_bounds = resize;
        self.capture.wants_pointer_input = toolkit_wants_pointer;
        self.capture.wants_keyboard_input = toolkit_wants_keyboard;
        let cursor = self.apply_egui_cursor(cursor_icon, resize || toolkit_wants_pointer || pointer_over_overlay);
        let warn = !self.capture.platform_output_warned && has_platform_commands;
        if warn {
            self.capture.platform_output_warned = true;
        }
        FrameOutcome { cursor, warn_platform_output: warn }
    }
}

/// Outside a game the overlay captures no input and blocks nothing, whatever it recorded.
pub proof fn law_no_capture_outside_game(o: Overlay, pointer_over_overlay: bool)
    requires
        !o.live_game_active,
    ensures
        !(o.live_game_active && o.capture.wants_pointer_input),
        !(o.live_game_active && o.capture.wants_keyboard_input),
        !(o.live_game_active && (o.capture.pointer_over_resize_bounds || o.capture.wants_pointer_input
            || pointer_over_overlay)),
{
}

/// Stopping a game leaves nothing captured and the cursor released; starting one unpauses it.
/// Setting the flag to the value it has changes nothing.
pub proof fn law_live_game_transitions(o: Overlay, active: bool)
    ensures
        !active && o.live_game_active ==> o.spec_set_live_game_active(active).capture == no_capture()
            && !o.spec_set_live_game_active(active).cursor_active,
        active && !o.live_game_active ==> !o.spec_set_live_game_active(active).paused,
        o.spec_set_live_game_active(active).live_game_active == active,
        o.spec_set_live_game_active(active).spec_set_live_game_active(active) == o.spec_set_live_game_active(active),
{
}

/// The rating shown before the game reports one.
pub const DEFAULT_RATING: i32 = 75;

/// The zoo, animal and guest ratings as the game last reported them.
#[derive(Clone, Copy, Debug, PartialEq, Eq, Structural)]
pub struct StatusRatings {
    pub animal: i32,
    pub guest: i32,
    pub zoo: i32,
}

/// A rating as the meters show it: clamped to 0..=100.
pub open spec fn spec_rating_for_display(value: i32) -> u8 {
    if value < 0 {
        0
    } else if value > 100 {
        100
    } else {
        value as u8
    }
}

/// Clamps a reported rating to what a meter shows.
pub fn rating_for_display(value: i32) -> (r: u8)
    ensures
        r == spec_rating_for_display(value),
        r <= 100,
{
    if value < 0 {
        0
    } else if value > 100 {
        100
    } else {
        value as u8
    }
}

impl StatusRatings {
    /// Every rating at `DEFAULT_RATING`.
    pub fn new() -> (s: StatusRatings)
        ensures
            s == (StatusRatings { animal: DEFAULT_RATING, guest: DEFAULT_RATING, zoo: DEFAULT_RATING }),
    {
        StatusRatings { animal: DEFAULT_RATING, guest: DEFAULT_RATING, zoo: DEFAULT_RATING }
    }

    pub fn set_animal_rating(&mut self, value: i32)
        ensures
            *final(self) == (StatusRatings { animal: value, ..*old(self) }),
    {
        self.animal = value;
    }

    pub fn set_guest_rating(&mut self, value: i32)
        ensures
            *final(self) == (StatusRatings { guest: value, ..*old(self) }),
    {
        self.guest = value;
    }

    pub fn set_zoo_rating(&mut self, value: i32)
        ensures
            *final(self) == (StatusRatings { zoo: value, ..*old(self) }),
    {
        self.zoo = value;
    }

    /// The animal rating as its meter shows it.
    pub fn animal_rating(&self) -> (r: u8)
        ensures
            r == spec_rating_for_display(self.animal),
    {
        rating_for_display(self.animal)
    }

    /// The guest rating as its meter shows it.
    pub fn guest_rating(&self) -> (r: u8)
        ensures
            r == spec_rating_for_display(self.guest),
    {
        rating_for_display(self.guest)
    }

    /// The zoo rating as its meter shows it.
    pub fn zoo_rating(&self) -> (r: u8)
        ensures
            r == spec_rating_for_display(self.zoo),
    {
        rating_for_display(self.zoo)
    }
}

/// Setting one rating leaves the others as they were, and the meter shows the value set,
/// clamped.
pub proof fn law_rating_read_back(s: StatusRatings, value: i32)
    ensures
        spec_rating_for_display((StatusRatings { animal: value, ..s }).animal) == spec_rating_for_display(value),
        (StatusRatings { animal: value, ..s }).guest == s.guest,
        (StatusRatings { animal: value, ..s }).zoo == s.zoo,
        0 <= value <= 100 ==> spec_rating_for_display(value) == value,
{
}

} // verus!
