//! Routing of the game window's mouse messages: which the overlay sees, which it keeps from the
//! game, and when it holds the mouse capture.
use vstd::prelude::*;

verus! {

pub const WM_MOVE: u32 = 0x0003;
pub const WM_SIZE: u32 = 0x0005;
pub const WM_WINDOWPOSCHANGED: u32 = 0x0047;
pub const WM_MOUSEMOVE: u32 = 0x0200;
pub const WM_LBUTTONDOWN: u32 = 0x0201;
pub const WM_LBUTTONUP: u32 = 0x0202;
pub const WM_LBUTTONDBLCLK: u32 = 0x0203;
pub const WM_RBUTTONDOWN: u32 = 0x0204;
pub const WM_RBUTTONUP: u32 = 0x0205;
pub const WM_RBUTTONDBLCLK: u32 = 0x0206;
pub const WM_MOUSEWHEEL: u32 = 0x020a;
pub const WM_CAPTURECHANGED: u32 = 0x0215;
pub const WM_MOVING: u32 = 0x0216;

/// The window messages the overlay acts on.
#[derive(Clone, Copy, Debug, PartialEq, Eq, Structural)]
pub enum WindowMessage {
    MouseMove,
    /// A button went down (a double click counts as one); `primary` for the left button.
    ButtonDown { primary: bool },
    /// A button came up; `primary` for the left button.
    ButtonUp { primary: bool },
    MouseWheel,
    CaptureChanged,
    Other,
}

/// The message kind of a message number.
pub open spec fn spec_classify_message(msg: u32) -> WindowMessage {
    if msg == WM_MOUSEMOVE {
        WindowMessage::MouseMove
    } else if msg == WM_LBUTTONDOWN || msg == WM_LBUTTONDBLCLK {
        WindowMessage::ButtonDown { primary: true }
    } else if msg == WM_RBUTTONDOWN || msg == WM_RBUTTONDBLCLK {
        WindowMessage::ButtonDown { primary: false }
    } else if msg == WM_LBUTTONUP {
        WindowMessage::ButtonUp { primary: true }
    } else if msg == WM_RBUTTONUP {
        WindowMessage::ButtonUp { primary: false }
    } else if msg == WM_MOUSEWHEEL {
        WindowMessage::MouseWheel
    } else if msg == WM_CAPTURECHANGED {
        WindowMessage::CaptureChanged
    } else {
        WindowMessage::Other
    }
}

/// Classifies a window message.
pub fn classify_message(msg: u32) -> (m: WindowMessage)
    ensures
        m == spec_classify_message(msg),
{
    if msg == WM_MOUSEMOVE {
        WindowMessage::MouseMove
    } else if msg == WM_LBUTTONDOWN || msg == WM_LBUTTONDBLCLK {
        WindowMessage::ButtonDown { primary: true }
    } else if msg == WM_RBUTTONDOWN || msg == WM_RBUTTONDBLCLK {
        WindowMessage::ButtonDown { primary: false }
    } else if msg == WM_LBUTTONUP {
        WindowMessage::ButtonUp { primary: true }
    } else if msg == WM_RBUTTONUP {
        WindowMessage::ButtonUp { primary: false }
    } else if msg == WM_MOUSEWHEEL {
        WindowMessage::MouseWheel
    } else if msg == WM_CAPTURECHANGED {
        WindowMessage::CaptureChanged
    } else {
        WindowMessage::Other
    }
}

/// Whether the overlay window follows the game window after this message (a move or resize).
pub fn syncs_position(msg: u32) -> (r: bool)
    ensures
        r == (msg == WM_MOVE || msg == WM_MOVING || msg == WM_SIZE || msg == WM_WINDOWPOSCHANGED),
{
    msg == WM_MOVE || msg == WM_MOVING || msg == WM_SIZE || msg == WM_WINDOWPOSCHANGED
}

/// A 16-bit word read as a two's-complement signed value.
pub open spec fn signed_word(w: int) -> int {
    if w >= 32768 {
        w - 65536
    } else {
        w
    }
}

/// The signed 16-bit value in the low half of `v`.
pub open spec fn low_word_signed(v: u32) -> int {
    signed_word(v as int % 65536)
}

/// The signed 16-bit value in the high half of `v`.
pub open spec fn high_word_signed(v: u32) -> int {
    signed_word(v as int / 65536)
}

/// The signed value of the word `w` of `v`, by bits.
fn word_to_signed(w: u32) -> (r: i16)
    requires
        w < 65536,
    ensures
        r == signed_word(w as int),
{
    let r = (w as u16) as i16;
    assert(r == if w >= 32768 { w - 65536 } else { w as int }) by (bit_vector)
        requires
            w < 65536,
            r == (w as u16) as i16,
    ;
    r
}

/// The client-area position a mouse message carries in its `lparam`: x in the low word, y in
/// the high word, both signed.
pub fn pointer_coords(lparam: u32) -> (r: (i16, i16))
    ensures
        r.0 == low_word_signed(lparam),
        r.1 == high_word_signed(lparam),
{
    let low = lparam & 0xffff;
    let high = (lparam >> 16) & 0xffff;
    assert(low == lparam % 65536 && high == lparam / 65536) by (bit_vector)
        requires
            low == lparam & 0xffff,
            high == (lparam >> 16) & 0xffff,
    ;
    (word_to_signed(low), word_to_signed(high))
}

/// The wheel movement a wheel message carries in the high word of its `wparam`, signed.
pub fn wheel_delta(wparam: u32) -> (r: i16)
    ensures
        r == high_word_signed(wparam),
{
    let high = (wparam >> 16) & 0xffff;
    assert(high == wparam / 65536) by (bit_vector)
        requires
            high == (wparam >> 16) & 0xffff,
    ;
    word_to_signed(high)
}

/// The width and height of a window rectangle, or `None` when either is not positive.
pub fn rect_extent(left: i32, top: i32, right: i32, bottom: i32) -> (r: Option<(u32, u32)>)
    requires
        i32::MIN <= right - left <= i32::MAX,
        i32::MIN <= bottom - top <= i32::MAX,
    ensures
        r == (if right - left > 0 && bottom - top > 0 {
            Some(((right - left) as u32, (bottom - top) as u32))
        } else {
            None
        }),
{
    let width = right - left;
    let height = bottom - top;
    if width <= 0 || height <= 0 {
        return None;
    }
    Some((width as u32, height as u32))
}

/// What the window procedure does with a message.
#[derive(Clone, Copy, Debug, PartialEq, Eq, Structural)]
pub struct MessageAction {
    /// Give the mouse capture to the game window.
    pub set_capture: bool,
    /// Release the mouse capture.
    pub release_capture: bool,
    /// Hand the message on to the game (otherwise it is answered with 0).
    pub pass_to_game: bool,
}

/// The window procedure's state: whether the overlay holds the mouse capture.
#[derive(Clone, Copy, Debug, PartialEq, Eq, Structural)]
pub struct PointerCapture {
    pub captured: bool,
}

impl PointerCapture {
    /// The state after handling `msg`; `blocked` tells whether an overlay element that blocks the
    /// game is under the pointer.
    pub open spec fn spec_after(self, msg: WindowMessage, blocked: bool) -> PointerCapture {
        let consume = self.captured || blocked;
        match msg {
            WindowMessage::ButtonDown { .. } => if consume {
                PointerCapture { captured: true }
            } else {
                self
            },
            WindowMessage::ButtonUp { .. } => PointerCapture { captured: false },
            WindowMessage::CaptureChanged => PointerCapture { captured: false },
            _ => self,
        }
    }

    /// What the window procedure does for `msg`.
    pub open spec fn spec_action(self, msg: WindowMessage, blocked: bool) -> MessageAction {
        let consume = self.captured || blocked;
        match msg {
            WindowMessage::MouseMove => MessageAction { set_capture: false, release_capture: false, pass_to_game: !consume },
            WindowMessage::ButtonDown { .. } => MessageAction {
                set_capture: consume,
                release_capture: false,
                pass_to_game: !consume,
            },
            WindowMessage::ButtonUp { .. } => MessageAction {
                set_capture: false,
                release_capture: self.captured,
                pass_to_game: !consume,
            },
            WindowMessage::MouseWheel => MessageAction { set_capture: false, release_capture: false, pass_to_game: !consume },
            _ => MessageAction { set_capture: false, release_capture: false, pass_to_game: true },
        }
    }

    /// Handles one message. Mouse messages reach the overlay in any case; the game does not get
    /// them while the overlay holds the capture or the pointer is over a blocking element. A button
    /// press the game does not get takes the capture; a button release always lets it go.
    pub fn handle(&mut self, msg: WindowMessage, blocked: bool) -> (a: MessageAction)
        ensures
            *final(self) == old(self).spec_after(msg, blocked),
            a == old(self).spec_action(msg, blocked),
    {
        let consume = self.captured || blocked;
        match msg {
            WindowMessage::MouseMove => MessageAction { set_capture: false, release_capture: false, pass_to_game: !consume },
            WindowMessage::ButtonDown { .. } => {
                if consume {
                    self.captured = true;
                }
                MessageAction { set_capture: consume, release_capture: false, pass_to_game: !consume }
            },
            WindowMessage::ButtonUp { .. } => {
                let release = self.captured;
                self.captured = false;
                MessageAction { set_capture: false, release_capture: release, pass_to_game: !consume }
            },
            WindowMessage::MouseWheel => MessageAction { set_capture: false, release_capture: false, pass_to_game: !consume },
            WindowMessage::CaptureChanged => {
                self.captured = false;
                MessageAction { set_capture: false, release_capture: false, pass_to_game: true }
            },
            WindowMessage::Other => MessageAction { set_capture: false, release_capture: false, pass_to_game: true },
        }
    }
}

/// While the overlay holds the capture, no mouse message reaches the game; releasing a button
/// always ends the capture, and the capture is only released when it is held.
pub proof fn law_capture_withholds_mouse(c: PointerCapture, msg: WindowMessage, blocked: bool)
    ensures
        c.captured && msg != WindowMessage::CaptureChanged && msg != WindowMessage::Other ==> !c.spec_action(msg, blocked).pass_to_game,
        msg matches WindowMessage::ButtonUp { .. } ==> !c.spec_after(msg, blocked).captured,
        c.spec_action(msg, blocked).release_capture ==> c.captured,
        c.spec_action(msg, blocked).set_capture ==> c.spec_after(msg, blocked).captured,
{
}

} // verus!
