use native_windows_gui::base::ControlHandle;
use native_windows_gui::base::NwgError;
use native_windows_gui::base::{decode_font, decode_window, low_word, reply_as_i32, reply_as_u32};
use native_windows_gui::base::{reply_nonzero, Font};

#[test]
fn fresh_handle_is_blank() {
    let h = ControlHandle::default();
    assert!(h.blank());
    assert_eq!(h.hwnd(), None);
}

#[test]
fn bound_handle_reports_its_value() {
    let h = ControlHandle::Hwnd(0x1234);
    assert!(!h.blank());
    assert_eq!(h.hwnd(), Some(0x1234));
    assert_eq!(h.checked_hwnd(), 0x1234);
}

#[test]
fn destroy_releases_exactly_once() {
    let mut h = ControlHandle::Hwnd(0xbeef);
    assert_eq!(h.destroy(), Some(0xbeef));
    assert!(h.blank());
    assert_eq!(h.destroy(), None);
    assert!(h.blank());
}

#[test]
fn destroy_of_blank_handle_is_noop() {
    let mut h = ControlHandle::NoHandle;
    assert_eq!(h.destroy(), None);
}

#[test]
fn no_parent_error_names_the_control() {
    let e = NwgError::no_parent("Animation");
    match e {
        NwgError::ControlCreationError(name) => assert_eq!(name, "Animation"),
    }
}

#[test]
fn boolean_replies() {
    assert!(reply_nonzero(1));
    assert!(reply_nonzero(-1));
    assert!(!reply_nonzero(0));
}

#[test]
fn font_replies() {
    assert_eq!(decode_font(0), None);
    assert_eq!(decode_font(77), Some(Font { handle: 77 }));
}

#[test]
fn window_replies() {
    assert_eq!(decode_window(0), None);
    assert_eq!(decode_window(42), Some(42));
}

#[test]
fn narrowing_replies() {
    assert_eq!(reply_as_u32(4096), 4096);
    assert_eq!(reply_as_i32(-7), -7);
}

#[test]
fn low_word_of_nonnegative_values() {
    assert_eq!(low_word(0), 0);
    assert_eq!(low_word(3), 3);
    assert_eq!(low_word(0x12345), 0x2345);
}

#[test]
fn low_word_of_negative_values() {
    assert_eq!(low_word(-1), 0xffff);
    assert_eq!(low_word(-3), 0xfffd);
    assert_eq!(low_word(-65536), 0);
    assert_eq!(low_word(-65537), 0xffff);
}
