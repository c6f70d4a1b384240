use openzt::window_input::{
    classify_message, pointer_coords, rect_extent, syncs_position, wheel_delta, MessageAction, PointerCapture, WindowMessage, WM_CAPTURECHANGED,
    WM_LBUTTONDBLCLK, WM_LBUTTONDOWN, WM_LBUTTONUP, WM_MOUSEMOVE, WM_MOUSEWHEEL, WM_MOVE, WM_RBUTTONDBLCLK, WM_RBUTTONUP, WM_SIZE,
};

#[test]
fn messages_are_classified() {
    assert_eq!(classify_message(WM_MOUSEMOVE), WindowMessage::MouseMove);
    assert_eq!(classify_message(WM_LBUTTONDOWN), WindowMessage::ButtonDown { primary: true });
    assert_eq!(classify_message(WM_LBUTTONDBLCLK), WindowMessage::ButtonDown { primary: true });
    assert_eq!(classify_message(WM_RBUTTONDBLCLK), WindowMessage::ButtonDown { primary: false });
    assert_eq!(classify_message(WM_LBUTTONUP), WindowMessage::ButtonUp { primary: true });
    assert_eq!(classify_message(WM_RBUTTONUP), WindowMessage::ButtonUp { primary: false });
    assert_eq!(classify_message(WM_MOUSEWHEEL), WindowMessage::MouseWheel);
    assert_eq!(classify_message(WM_CAPTURECHANGED), WindowMessage::CaptureChanged);
    assert_eq!(classify_message(0x0100), WindowMessage::Other);
    assert!(syncs_position(WM_MOVE) && syncs_position(WM_SIZE) && syncs_position(0x0216) && syncs_position(0x0047));
    assert!(!syncs_position(WM_MOUSEMOVE));
}

#[test]
fn coordinates_are_signed_words() {
    assert_eq!(pointer_coords(0x0020_0010), (16, 32));
    assert_eq!(pointer_coords(0xfffe_ffff), (-1, -2));
    assert_eq!(pointer_coords(0x8000_7fff), (32767, -32768));
    assert_eq!(wheel_delta(0x0078_0000), 120);
    assert_eq!(wheel_delta(0xff88_0000), -120);
}

const PASS: MessageAction = MessageAction { set_capture: false, release_capture: false, pass_to_game: true };

#[test]
fn blocked_press_takes_the_capture_until_release() {
    let mut c = PointerCapture { captured: false };
    assert_eq!(c.handle(WindowMessage::MouseMove, false), PASS);
    let down = c.handle(WindowMessage::ButtonDown { primary: true }, true);
    assert_eq!(down, MessageAction { set_capture: true, release_capture: false, pass_to_game: false });
    assert!(c.captured);
    assert!(!c.handle(WindowMessage::MouseMove, false).pass_to_game);
    assert!(!c.handle(WindowMessage::MouseWheel, false).pass_to_game);
    let up = c.handle(WindowMessage::ButtonUp { primary: true }, false);
    assert_eq!(up, MessageAction { set_capture: false, release_capture: true, pass_to_game: false });
    assert!(!c.captured);
    assert_eq!(c.handle(WindowMessage::ButtonUp { primary: false }, false), PASS);
}

#[test]
fn capture_loss_and_other_messages_pass_through() {
    let mut c = PointerCapture { captured: true };
    assert_eq!(c.handle(WindowMessage::CaptureChanged, true), PASS);
    assert!(!c.captured);
    assert_eq!(c.handle(WindowMessage::Other, true), PASS);
    assert_eq!(c.handle(WindowMessage::ButtonDown { primary: false }, false), PASS);
    assert!(!c.captured);
}

#[test]
fn rect_extent_is_positive_size_or_none() {
    assert_eq!(rect_extent(0, 0, 800, 600), Some((800, 600)));
    assert_eq!(rect_extent(10, 20, 110, 70), Some((100, 50)));
    assert_eq!(rect_extent(0, 0, 0, 600), None);
    assert_eq!(rect_extent(0, 0, 800, -1), None);
    assert_eq!(rect_extent(50, 0, 10, 600), None);
}
