use egui_d3d9::inputman::{
    alter_modifiers, decode_message, get_key, is_decodable, get_key_modifiers, get_mouse_modifiers, shortcut, InputResult, Modifiers,
    PointerButton, Shortcut, VirtualKey, WindowInput, WM_CHAR, WM_KEYDOWN, WM_KEYUP, WM_LBUTTONDOWN,
    WM_MOUSEHWHEEL, WM_MOUSEMOVE, WM_MOUSEWHEEL, WM_SYSKEYDOWN, WM_XBUTTONDOWN, WM_XBUTTONUP,
};

const NONE: Modifiers = Modifiers { alt: false, ctrl: false, shift: false, mac_cmd: false, command: false };

#[test]
fn unknown_is_not_valid() {
    assert!(InputResult::Unknown.is_unknown());
    assert!(!InputResult::Unknown.is_valid());
    assert!(InputResult::Key.is_valid());
    assert!(!InputResult::Key.is_unknown());
}

#[test]
fn mouse_modifiers_from_flags() {
    let m = get_mouse_modifiers(0x0008 | 0x0004);
    assert!(m.ctrl && m.shift && m.command && !m.alt);
    assert_eq!(get_mouse_modifiers(0x0001), NONE);
    let k = get_key_modifiers(WM_SYSKEYDOWN, true, false);
    assert!(k.alt && k.ctrl && k.command && !k.shift);
    assert!(!get_key_modifiers(WM_KEYDOWN, false, false).alt);
}

#[test]
fn key_codes_decode() {
    assert_eq!(get_key(0x30), Some(VirtualKey::Digit(0)));
    assert_eq!(get_key(0x39), Some(VirtualKey::Digit(9)));
    assert_eq!(get_key(0x41), Some(VirtualKey::Letter(0)));
    assert_eq!(get_key(0x5A), Some(VirtualKey::Letter(25)));
    assert_eq!(get_key(0x70), Some(VirtualKey::Function(0)));
    assert_eq!(get_key(0x83), Some(VirtualKey::Function(19)));
    assert_eq!(get_key(0x0D), Some(VirtualKey::Enter));
    assert_eq!(get_key(0x22), Some(VirtualKey::PageDown));
    assert_eq!(get_key(0x1_0028), Some(VirtualKey::ArrowDown));
    assert_eq!(get_key(0x2_001B), Some(VirtualKey::Escape));
    assert_eq!(get_key(0x1_0030), None);
    assert_eq!(get_key(0x84), None);
    assert_eq!(get_key(0x10), None);
}

#[test]
fn clipboard_shortcuts() {
    let ctrl = Modifiers { ctrl: true, command: true, ..NONE };
    assert_eq!(shortcut(VirtualKey::Letter(21), ctrl), Shortcut::Paste);
    assert_eq!(shortcut(VirtualKey::Letter(2), ctrl), Shortcut::Copy);
    assert_eq!(shortcut(VirtualKey::Letter(23), ctrl), Shortcut::Cut);
    assert_eq!(shortcut(VirtualKey::Letter(21), NONE), Shortcut::NoShortcut);
    assert_eq!(shortcut(VirtualKey::Letter(0), ctrl), Shortcut::NoShortcut);
}

#[test]
fn messages_decode() {
    assert_eq!(decode_message(WM_MOUSEMOVE, 0, 0), (InputResult::MouseMove, WindowInput::PointerMoved { modifiers: NONE }));
    assert_eq!(
        decode_message(WM_LBUTTONDOWN, 0x0004, 0),
        (
            InputResult::MouseLeft,
            WindowInput::PointerButton {
                button: PointerButton::Primary,
                pressed: true,
                modifiers: Modifiers { shift: true, ..NONE }
            }
        )
    );
    assert_eq!(
        decode_message(WM_XBUTTONUP, 0x0002 << 16, 0),
        (InputResult::MouseMiddle, WindowInput::PointerButton { button: PointerButton::Extra2, pressed: false, modifiers: NONE })
    );
    assert_eq!(decode_message(WM_CHAR, 0x61, 0), (InputResult::Character, WindowInput::Character { code: 0x61 }));
    assert_eq!(
        decode_message(WM_MOUSEWHEEL, 120 << 16, 0),
        (InputResult::Scroll, WindowInput::Wheel { horizontal: false, delta: 120, modifiers: NONE })
    );
    assert_eq!(
        decode_message(WM_MOUSEHWHEEL, (0xFF88usize << 16) | 0x0008, 0),
        (InputResult::Zoom, WindowInput::Zoom { zoom_in: false })
    );
    assert_eq!(
        decode_message(WM_KEYDOWN, 0x41, 0x4000),
        (InputResult::Key, WindowInput::Key { pressed: true, sys: false, key: Some(VirtualKey::Letter(0)), repeat: true })
    );
    assert_eq!(
        decode_message(WM_KEYUP, 0x10, 0),
        (InputResult::Key, WindowInput::Key { pressed: false, sys: false, key: None, repeat: false })
    );
    assert_eq!(decode_message(0x0010, 0, 0), (InputResult::Unknown, WindowInput::Ignored));
}

#[test]
fn xbutton_messages_must_name_a_button() {
    assert!(!is_decodable(WM_XBUTTONDOWN, 0));
    assert!(!is_decodable(WM_XBUTTONUP, 0x0004 << 16));
    assert!(is_decodable(WM_XBUTTONDOWN, 0x0001 << 16));
    assert!(is_decodable(WM_MOUSEMOVE, 0));
    assert_eq!(
        decode_message(WM_XBUTTONDOWN, (0x0003 << 16) | 0x0008, 0),
        (
            InputResult::MouseMiddle,
            WindowInput::PointerButton {
                button: PointerButton::Extra1,
                pressed: true,
                modifiers: Modifiers { ctrl: true, command: true, ..NONE }
            }
        )
    );
}

#[test]
fn mouse_modifiers_replace_only_once_set() {
    let shift = Modifiers { shift: true, ..NONE };
    assert_eq!(alter_modifiers(None, shift), None);
    assert_eq!(alter_modifiers(Some(NONE), shift), Some(shift));
}
