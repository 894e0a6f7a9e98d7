use vstd::prelude::*;

verus! {

pub const WM_KEYDOWN: u32 = 0x0100;
pub const WM_KEYUP: u32 = 0x0101;
pub const WM_CHAR: u32 = 0x0102;
pub const WM_SYSKEYDOWN: u32 = 0x0104;
pub const WM_SYSKEYUP: u32 = 0x0105;
pub const WM_MOUSEMOVE: u32 = 0x0200;
pub const WM_LBUTTONDOWN: u32 = 0x0201;
pub const WM_LBUTTONUP: u32 = 0x0202;
pub const WM_LBUTTONDBLCLK: u32 = 0x0203;
pub const WM_RBUTTONDOWN: u32 = 0x0204;
pub const WM_RBUTTONUP: u32 = 0x0205;
pub const WM_RBUTTONDBLCLK: u32 = 0x0206;
pub const WM_MBUTTONDOWN: u32 = 0x0207;
pub const WM_MBUTTONUP: u32 = 0x0208;
pub const WM_MBUTTONDBLCLK: u32 = 0x0209;
pub const WM_MOUSEWHEEL: u32 = 0x020A;
pub const WM_XBUTTONDOWN: u32 = 0x020B;
pub const WM_XBUTTONUP: u32 = 0x020C;
pub const WM_XBUTTONDBLCLK: u32 = 0x020D;
pub const WM_MOUSEHWHEEL: u32 = 0x020E;

/// Mouse-message key state: the shift and control flags of `wparam`.
pub const MK_SHIFT: usize = 0x0004;
pub const MK_CONTROL: usize = 0x0008;
/// Which extra button an X-button message is about, in the high word of `wparam`.
pub const XBUTTON1: u16 = 0x0001;
pub const XBUTTON2: u16 = 0x0002;
/// The repeat flag tested in a key-down message's `lparam`.
pub const KF_REPEAT: isize = 0x4000;

/// High-level overview of recognized window messages.
#[derive(Clone, Copy, PartialEq, Eq, Structural, Debug)]
pub enum InputResult {
    Unknown,
    MouseMove,
    MouseLeft,
    MouseRight,
    MouseMiddle,
    Character,
    Scroll,
    Zoom,
    Key,
}

impl InputResult {
    pub fn is_valid(&self) -> (r: bool)
        ensures
            r == !(*self == InputResult::Unknown),
    {
        !self.is_unknown()
    }

    pub fn is_unknown(&self) -> (r: bool)
        ensures
            r == (*self == InputResult::Unknown),
    {
        matches!(*self, InputResult::Unknown)
    }
}

/// Modifier keys held during an event.
#[derive(Clone, Copy, PartialEq, Eq, Structural, Debug)]
pub struct Modifiers {
    pub alt: bool,
    pub ctrl: bool,
    pub shift: bool,
    pub mac_cmd: bool,
    pub command: bool,
}

#[derive(Clone, Copy, PartialEq, Eq, Structural, Debug)]
pub enum PointerButton {
    Primary,
    Secondary,
    Middle,
    Extra1,
    Extra2,
}

/// A key the UI understands, decoded from a virtual-key code.
#[derive(Clone, Copy, PartialEq, Eq, Structural, Debug)]
pub enum VirtualKey {
    /// `0`..`9`.
    Digit(u8),
    /// `A`..`Z`, as 0..25.
    Letter(u8),
    /// F1..F20, as 0..19.
    Function(u8),
    ArrowDown,
    ArrowLeft,
    ArrowRight,
    ArrowUp,
    Escape,
    Tab,
    Backspace,
    Enter,
    Space,
    Insert,
    Delete,
    Home,
    End,
    PageUp,
    PageDown,
}

/// What a window message means to the UI. Pointer positions are read from
/// `lparam` by the caller.
#[derive(Clone, Copy, PartialEq, Eq, Structural, Debug)]
pub enum WindowInput {
    Ignored,
    PointerMoved { modifiers: Modifiers },
    PointerButton { button: PointerButton, pressed: bool, modifiers: Modifiers },
    /// A character message with its code point, not yet checked.
    Character { code: usize },
    /// A wheel turn by `delta` raw wheel units.
    Wheel { horizontal: bool, delta: i16, modifiers: Modifiers },
    /// A wheel turn with control held: zoom in for a forward turn.
    Zoom { zoom_in: bool },
    /// A key press or release; `sys` for the system-key messages (a system key
    /// press is the one whose modifiers hold alt, see `get_key_modifiers`).
    Key { pressed: bool, sys: bool, key: Option<VirtualKey>, repeat: bool },
}

/// A clipboard shortcut that a key press with control held stands for.
#[derive(Clone, Copy, PartialEq, Eq, Structural, Debug)]
pub enum Shortcut {
    NoShortcut,
    Copy,
    Cut,
    Paste,
}

pub open spec fn mouse_modifiers_of(wparam: usize) -> Modifiers {
    Modifiers {
        alt: false,
        ctrl: wparam & MK_CONTROL != 0,
        shift: wparam & MK_SHIFT != 0,
        mac_cmd: false,
        command: wparam & MK_CONTROL != 0,
    }
}

/// The modifiers of a mouse message, from its key-state flags.
pub fn get_mouse_modifiers(wparam: usize) -> (r: Modifiers)
    ensures
        r == mouse_modifiers_of(wparam),
{
    let ctrl = wparam & MK_CONTROL != 0;
    Modifiers { alt: false, ctrl, shift: wparam & MK_SHIFT != 0, mac_cmd: false, command: ctrl }
}

/// The modifiers of a key message, given whether control and shift are down; alt
/// is held exactly for a system key press.
pub fn get_key_modifiers(msg: u32, ctrl: bool, shift: bool) -> (r: Modifiers)
    ensures
        r == (Modifiers { alt: msg == WM_SYSKEYDOWN, ctrl, shift, mac_cmd: false, command: ctrl }),
{
    Modifiers { alt: msg == WM_SYSKEYDOWN, mac_cmd: false, command: ctrl, shift, ctrl }
}

pub open spec fn key_of(code: usize) -> Option<VirtualKey> {
    if 0x30 <= code <= 0x39 {
        Some(VirtualKey::Digit((code - 0x30) as u8))
    } else if 0x41 <= code <= 0x5A {
        Some(VirtualKey::Letter((code - 0x41) as u8))
    } else if 0x70 <= code <= 0x83 {
        Some(VirtualKey::Function((code - 0x70) as u8))
    } else if code as u16 == 0x28u16 {
        Some(VirtualKey::ArrowDown)
    } else if code as u16 == 0x25u16 {
        Some(VirtualKey::ArrowLeft)
    } else if code as u16 == 0x27u16 {
        Some(VirtualKey::ArrowRight)
    } else if code as u16 == 0x26u16 {
        Some(VirtualKey::ArrowUp)
    } else if code as u16 == 0x1Bu16 {
        Some(VirtualKey::Escape)
    } else if code as u16 == 0x09u16 {
        Some(VirtualKey::Tab)
    } else if code as u16 == 0x08u16 {
        Some(VirtualKey::Backspace)
    } else if code as u16 == 0x0Du16 {
        Some(VirtualKey::Enter)
    } else if code as u16 == 0x20u16 {
        Some(VirtualKey::Space)
    } else if code as u16 == 0x2Du16 {
        Some(VirtualKey::Insert)
    } else if code as u16 == 0x2Eu16 {
        Some(VirtualKey::Delete)
    } else if code as u16 == 0x24u16 {
        Some(VirtualKey::Home)
    } else if code as u16 == 0x23u16 {
        Some(VirtualKey::End)
    } else if code as u16 == 0x21u16 {
        Some(VirtualKey::PageUp)
    } else if code as u16 == 0x22u16 {
        Some(VirtualKey::PageDown)
    } else {
        None
    }
}

/// Decodes a virtual-key code; codes the UI has no key for give `None`. The named
/// keys are matched on the low 16 bits of the code.
pub fn get_key(code: usize) -> (r: Option<VirtualKey>)
    ensures
        r == key_of(code),
{
    if 0x30 <= code && code <= 0x39 {
        Some(VirtualKey::Digit((code - 0x30) as u8))
    } else if 0x41 <= code && code <= 0x5A {
        Some(VirtualKey::Letter((code - 0x41) as u8))
    } else if 0x70 <= code && code <= 0x83 {
        Some(VirtualKey::Function((code - 0x70) as u8))
    } else {
        match code as u16 {
            0x28 => Some(VirtualKey::ArrowDown),
            0x25 => Some(VirtualKey::ArrowLeft),
            0x27 => Some(VirtualKey::ArrowRight),
            0x26 => Some(VirtualKey::ArrowUp),
            0x1B => Some(VirtualKey::Escape),
            0x09 => Some(VirtualKey::Tab),
            0x08 => Some(VirtualKey::Backspace),
            0x0D => Some(VirtualKey::Enter),
            0x20 => Some(VirtualKey::Space),
            0x2D => Some(VirtualKey::Insert),
            0x2E => Some(VirtualKey::Delete),
            0x24 => Some(VirtualKey::Home),
            0x23 => Some(VirtualKey::End),
            0x21 => Some(VirtualKey::PageUp),
            0x22 => Some(VirtualKey::PageDown),
            _ => None,
        }
    }
}

/// The clipboard shortcut of a key press: control with V pastes, with C copies,
/// with X cuts.
pub fn shortcut(key: VirtualKey, modifiers: Modifiers) -> (r: Shortcut)
    ensures
        r == (if !modifiers.ctrl {
            Shortcut::NoShortcut
        } else if key == VirtualKey::Letter(21) {
            Shortcut::Paste
        } else if key == VirtualKey::Letter(2) {
            Shortcut::Copy
        } else if key == VirtualKey::Letter(23) {
            Shortcut::Cut
        } else {
            Shortcut::NoShortcut
        }),
{
    if !modifiers.ctrl {
        return Shortcut::NoShortcut;
    }
    match key {
        VirtualKey::Letter(21) => Shortcut::Paste,
        VirtualKey::Letter(2) => Shortcut::Copy,
        VirtualKey::Letter(23) => Shortcut::Cut,
        _ => Shortcut::NoShortcut,
    }
}

pub open spec fn high_word(wparam: usize) -> u16 {
    (wparam >> 16usize) as u16
}

/// The extra button an X-button message names: the first one when its bit is set.
pub open spec fn extra_button_of(wparam: usize) -> PointerButton {
    if high_word(wparam) & XBUTTON1 != 0 {
        PointerButton::Extra1
    } else {
        PointerButton::Extra2
    }
}

pub open spec fn is_xbutton_message(umsg: u32) -> bool {
    umsg == WM_XBUTTONDOWN || umsg == WM_XBUTTONDBLCLK || umsg == WM_XBUTTONUP
}

/// A message that can be decoded: an X-button message names one of the two
/// extra buttons in the high word of `wparam`.
pub open spec fn decodable(umsg: u32, wparam: usize) -> bool {
    is_xbutton_message(umsg) ==> (high_word(wparam) & XBUTTON1 != 0 || high_word(wparam)
        & XBUTTON2 != 0)
}

pub open spec fn button_input(button: PointerButton, pressed: bool, wparam: usize) -> WindowInput {
    WindowInput::PointerButton { button, pressed, modifiers: mouse_modifiers_of(wparam) }
}

pub open spec fn wheel_input(horizontal: bool, wparam: usize) -> (InputResult, WindowInput) {
    let delta = high_word(wparam) as i16;
    if wparam & MK_CONTROL != 0 {
        (InputResult::Zoom, WindowInput::Zoom { zoom_in: delta > 0 })
    } else {
        (
            InputResult::Scroll,
            WindowInput::Wheel { horizontal, delta, modifiers: mouse_modifiers_of(wparam) },
        )
    }
}

/// What a window message means: its coarse kind and the input it carries.
pub open spec fn decode_of(umsg: u32, wparam: usize, lparam: isize) -> (InputResult, WindowInput) {
    if umsg == WM_MOUSEMOVE {
        (InputResult::MouseMove, WindowInput::PointerMoved { modifiers: mouse_modifiers_of(wparam) })
    } else if umsg == WM_LBUTTONDOWN || umsg == WM_LBUTTONDBLCLK {
        (InputResult::MouseLeft, button_input(PointerButton::Primary, true, wparam))
    } else if umsg == WM_LBUTTONUP {
        (InputResult::MouseLeft, button_input(PointerButton::Primary, false, wparam))
    } else if umsg == WM_RBUTTONDOWN || umsg == WM_RBUTTONDBLCLK {
        (InputResult::MouseRight, button_input(PointerButton::Secondary, true, wparam))
    } else if umsg == WM_RBUTTONUP {
        (InputResult::MouseRight, button_input(PointerButton::Secondary, false, wparam))
    } else if umsg == WM_MBUTTONDOWN || umsg == WM_MBUTTONDBLCLK {
        (InputResult::MouseMiddle, button_input(PointerButton::Middle, true, wparam))
    } else if umsg == WM_MBUTTONUP {
        (InputResult::MouseMiddle, button_input(PointerButton::Middle, false, wparam))
    } else if umsg == WM_XBUTTONDOWN || umsg == WM_XBUTTONDBLCLK || umsg == WM_XBUTTONUP {
        (
            InputResult::MouseMiddle,
            button_input(extra_button_of(wparam), umsg != WM_XBUTTONUP, wparam),
        )
    } else if umsg == WM_CHAR {
        (InputResult::Character, WindowInput::Character { code: wparam })
    } else if umsg == WM_MOUSEWHEEL {
        wheel_input(false, wparam)
    } else if umsg == WM_MOUSEHWHEEL {
        wheel_input(true, wparam)
    } else if umsg == WM_KEYDOWN || umsg == WM_SYSKEYDOWN {
        (
            InputResult::Key,
            WindowInput::Key {
                pressed: true,
                sys: umsg == WM_SYSKEYDOWN,
                key: key_of(wparam),
                repeat: lparam & KF_REPEAT > 0,
            },
        )
    } else if umsg == WM_KEYUP || umsg == WM_SYSKEYUP {
        (
            InputResult::Key,
            WindowInput::Key {
                pressed: false,
                sys: umsg == WM_SYSKEYUP,
                key: key_of(wparam),
                repeat: false,
            },
        )
    } else {
        (InputResult::Unknown, WindowInput::Ignored)
    }
}

fn decode_wheel(horizontal: bool, wparam: usize) -> (r: (InputResult, WindowInput))
    ensures
        r == wheel_input(horizontal, wparam),
{
    let delta = ((wparam >> 16usize) as u16) as i16;
    if wparam & MK_CONTROL != 0 {
        (InputResult::Zoom, WindowInput::Zoom { zoom_in: delta > 0 })
    } else {
        (
            InputResult::Scroll,
            WindowInput::Wheel { horizontal, delta, modifiers: get_mouse_modifiers(wparam) },
        )
    }
}

fn decode_button(button: PointerButton, pressed: bool, wparam: usize) -> (r: WindowInput)
    ensures
        r == button_input(button, pressed, wparam),
{
    WindowInput::PointerButton { button, pressed, modifiers: get_mouse_modifiers(wparam) }
}

/// Whether `decode_message` takes the message.
pub fn is_decodable(umsg: u32, wparam: usize) -> (r: bool)
    ensures
        r == decodable(umsg, wparam),
{
    let w_high = (wparam >> 16usize) as u16;
    !(umsg == WM_XBUTTONDOWN || umsg == WM_XBUTTONDBLCLK || umsg == WM_XBUTTONUP)
        || w_high & XBUTTON1 != 0 || w_high & XBUTTON2 != 0
}

/// The modifiers held after a mouse event reports `new`: they are replaced once a
/// key event has set them, and stay unset before.
pub fn alter_modifiers(current: Option<Modifiers>, new: Modifiers) -> (r: Option<Modifiers>)
    ensures
        r == (if current.is_some() { Some(new) } else { None::<Modifiers> }),
{
    match current {
        Some(_) => Some(new),
        None => None,
    }
}

/// Decodes one window message into its coarse kind and the input it carries.
pub fn decode_message(umsg: u32, wparam: usize, lparam: isize) -> (r: (InputResult, WindowInput))
    requires
        decodable(umsg, wparam),
    ensures
        r == decode_of(umsg, wparam, lparam),
{
    let w_high = (wparam >> 16usize) as u16;
    match umsg {
        WM_MOUSEMOVE => (
            InputResult::MouseMove,
            WindowInput::PointerMoved { modifiers: get_mouse_modifiers(wparam) },
        ),
        WM_LBUTTONDOWN | WM_LBUTTONDBLCLK => (
            InputResult::MouseLeft,
            decode_button(PointerButton::Primary, true, wparam),
        ),
        WM_LBUTTONUP => (InputResult::MouseLeft, decode_button(PointerButton::Primary, false, wparam)),
        WM_RBUTTONDOWN | WM_RBUTTONDBLCLK => (
            InputResult::MouseRight,
            decode_button(PointerButton::Secondary, true, wparam),
        ),
        WM_RBUTTONUP => (
            InputResult::MouseRight,
            decode_button(PointerButton::Secondary, false, wparam),
        ),
        WM_MBUTTONDOWN | WM_MBUTTONDBLCLK => (
            InputResult::MouseMiddle,
            decode_button(PointerButton::Middle, true, wparam),
        ),
        WM_MBUTTONUP => (
            InputResult::MouseMiddle,
            decode_button(PointerButton::Middle, false, wparam),
        ),
        WM_XBUTTONDOWN | WM_XBUTTONDBLCLK | WM_XBUTTONUP => {
            let pressed = umsg != WM_XBUTTONUP;
            let input = if w_high & XBUTTON1 != 0 {
                decode_button(PointerButton::Extra1, pressed, wparam)
            } else {
                decode_button(PointerButton::Extra2, pressed, wparam)
            };
            (InputResult::MouseMiddle, input)
        },
        WM_CHAR => (InputResult::Character, WindowInput::Character { code: wparam }),
        WM_MOUSEWHEEL => decode_wheel(false, wparam),
        WM_MOUSEHWHEEL => decode_wheel(true, wparam),
        WM_KEYDOWN | WM_SYSKEYDOWN => (
            InputResult::Key,
            WindowInput::Key {
                pressed: true,
                sys: umsg == WM_SYSKEYDOWN,
                key: get_key(wparam),
                repeat: lparam & KF_REPEAT > 0,
            },
        ),
        WM_KEYUP | WM_SYSKEYUP => (
            InputResult::Key,
            WindowInput::Key {
                pressed: false,
                sys: umsg == WM_SYSKEYUP,
                key: get_key(wparam),
                repeat: false,
            },
        ),
        _ => (InputResult::Unknown, WindowInput::Ignored),
    }
}

} // verus!
