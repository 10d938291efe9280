//! Keys and mouse buttons, and the mapping from Win32 virtual-key codes.

use vstd::prelude::*;

verus! {

/// A mouse button that the window reports.
#[derive(Clone, Copy, Debug, PartialEq, Eq, Structural)]
pub enum MouseButton {
    Left,
    Right,
    Middle,
}

/// A key of the keyboard, independent of the platform's numbering.
#[derive(Clone, Copy, Debug, PartialEq, Eq, Structural)]
pub enum Key {
    /// Backspace.
    Backspace,
    /// Tab.
    Tab,
    /// Clear (numpad 5 with Num Lock off).
    Clear,
    /// Enter.
    Enter,
    /// Either Shift key.
    Shift,
    /// Either Control key.
    Control,
    /// Either Alt key.
    Alt,
    /// Pause.
    Pause,
    /// Caps Lock.
    CapsLock,
    /// Escape.
    Escape,
    /// Space bar.
    Space,
    /// Page Up.
    PageUp,
    /// Page Down.
    PageDown,
    /// End.
    End,
    /// Home.
    Home,
    /// Left arrow.
    Left,
    /// Up arrow.
    Up,
    /// Right arrow.
    Right,
    /// Down arrow.
    Down,
    /// Print Screen.
    PrintScreen,
    /// Insert.
    Insert,
    /// Delete.
    Delete,
    /// Digit 0 on the main block.
    Num0,
    /// Digit 1 on the main block.
    Num1,
    /// Digit 2 on the main block.
    Num2,
    /// Digit 3 on the main block.
    Num3,
    /// Digit 4 on the main block.
    Num4,
    /// Digit 5 on the main block.
    Num5,
    /// Digit 6 on the main block.
    Num6,
    /// Digit 7 on the main block.
    Num7,
    /// Digit 8 on the main block.
    Num8,
    /// Digit 9 on the main block.
    Num9,
    /// Letter A.
    A,
    /// Letter B.
    B,
    /// Letter C.
    C,
    /// Letter D.
    D,
    /// Letter E.
    E,
    /// Letter F.
    F,
    /// Letter G.
    G,
    /// Letter H.
    H,
    /// Letter I.
    I,
    /// Letter J.
    J,
    /// Letter K.
    K,
    /// Letter L.
    L,
    /// Letter M.
    M,
    /// Letter N.
    N,
    /// Letter O.
    O,
    /// Letter P.
    P,
    /// Letter Q.
    Q,
    /// Letter R.
    R,
    /// Letter S.
    S,
    /// Letter T.
    T,
    /// Letter U.
    U,
    /// Letter V.
    V,
    /// Letter W.
    W,
    /// Letter X.
    X,
    /// Letter Y.
    Y,
    /// Letter Z.
    Z,
    /// Left Windows key.
    LeftSuper,
    /// Right Windows key.
    RightSuper,
    /// Application (context menu) key.
    Menu,
    /// Digit 0 on the numeric keypad.
    Numpad0,
    /// Digit 1 on the numeric keypad.
    Numpad1,
    /// Digit 2 on the numeric keypad.
    Numpad2,
    /// Digit 3 on the numeric keypad.
    Numpad3,
    /// Digit 4 on the numeric keypad.
    Numpad4,
    /// Digit 5 on the numeric keypad.
    Numpad5,
    /// Digit 6 on the numeric keypad.
    Numpad6,
    /// Digit 7 on the numeric keypad.
    Numpad7,
    /// Digit 8 on the numeric keypad.
    Numpad8,
    /// Digit 9 on the numeric keypad.
    Numpad9,
    /// Multiply on the numeric keypad.
    NumpadMultiply,
    /// Add on the numeric keypad.
    NumpadAdd,
    /// Subtract on the numeric keypad.
    NumpadSubtract,
    /// Decimal point on the numeric keypad.
    NumpadDecimal,
    /// Divide on the numeric keypad.
    NumpadDivide,
    /// Function key F1.
    F1,
    /// Function key F2.
    F2,
    /// Function key F3.
    F3,
    /// Function key F4.
    F4,
    /// Function key F5.
    F5,
    /// Function key F6.
    F6,
    /// Function key F7.
    F7,
    /// Function key F8.
    F8,
    /// Function key F9.
    F9,
    /// Function key F10.
    F10,
    /// Function key F11.
    F11,
    /// Function key F12.
    F12,
    /// Num Lock.
    NumLock,
    /// Scroll Lock.
    ScrollLock,
    /// Left Shift.
    LeftShift,
    /// Right Shift.
    RightShift,
    /// Left Control.
    LeftControl,
    /// Right Control.
    RightControl,
    /// Left Alt.
    LeftAlt,
    /// Right Alt.
    RightAlt,
    /// Semicolon on a US layout.
    Semicolon,
    /// Equals / plus.
    Equals,
    /// Comma.
    Comma,
    /// Minus.
    Minus,
    /// Period.
    Period,
    /// Slash on a US layout.
    Slash,
    /// Backtick on a US layout.
    Backtick,
    /// Left bracket on a US layout.
    LeftBracket,
    /// Backslash on a US layout.
    Backslash,
    /// Right bracket on a US layout.
    RightBracket,
    /// Apostrophe on a US layout.
    Apostrophe,
}

impl Key {
    /// The Win32 virtual-key code that stands for this key.
    ///
    /// No two keys share a code (`lemma_code_injective`).
    pub open spec fn code(self) -> u8 {
        match self {
            Key::Backspace => 0x08,
            Key::Tab => 0x09,
            Key::Clear => 0x0C,
            Key::Enter => 0x0D,
            Key::Shift => 0x10,
            Key::Control => 0x11,
            Key::Alt => 0x12,
            Key::Pause => 0x13,
            Key::CapsLock => 0x14,
            Key::Escape => 0x1B,
            Key::Space => 0x20,
            Key::PageUp => 0x21,
            Key::PageDown => 0x22,
            Key::End => 0x23,
            Key::Home => 0x24,
            Key::Left => 0x25,
            Key::Up => 0x26,
            Key::Right => 0x27,
            Key::Down => 0x28,
            Key::PrintScreen => 0x2C,
            Key::Insert => 0x2D,
            Key::Delete => 0x2E,
            Key::Num0 => 0x30,
            Key::Num1 => 0x31,
            Key::Num2 => 0x32,
            Key::Num3 => 0x33,
            Key::Num4 => 0x34,
            Key::Num5 => 0x35,
            Key::Num6 => 0x36,
            Key::Num7 => 0x37,
            Key::Num8 => 0x38,
            Key::Num9 => 0x39,
            Key::A => 0x41,
            Key::B => 0x42,
            Key::C => 0x43,
            Key::D => 0x44,
            Key::E => 0x45,
            Key::F => 0x46,
            Key::G => 0x47,
            Key::H => 0x48,
            Key::I => 0x49,
            Key::J => 0x4A,
            Key::K => 0x4B,
            Key::L => 0x4C,
            Key::M => 0x4D,
            Key::N => 0x4E,
            Key::O => 0x4F,
            Key::P => 0x50,
            Key::Q => 0x51,
            Key::R => 0x52,
            Key::S => 0x53,
            Key::T => 0x54,
            Key::U => 0x55,
            Key::V => 0x56,
            Key::W => 0x57,
            Key::X => 0x58,
            Key::Y => 0x59,
            Key::Z => 0x5A,
            Key::LeftSuper => 0x5B,
            Key::RightSuper => 0x5C,
            Key::Menu => 0x5D,
            Key::Numpad0 => 0x60,
            Key::Numpad1 => 0x61,
            Key::Numpad2 => 0x62,
            Key::Numpad3 => 0x63,
            Key::Numpad4 => 0x64,
            Key::Numpad5 => 0x65,
            Key::Numpad6 => 0x66,
            Key::Numpad7 => 0x67,
            Key::Numpad8 => 0x68,
            Key::Numpad9 => 0x69,
            Key::NumpadMultiply => 0x6A,
            Key::NumpadAdd => 0x6B,
            Key::NumpadSubtract => 0x6D,
            Key::NumpadDecimal => 0x6E,
            Key::NumpadDivide => 0x6F,
            Key::F1 => 0x70,
            Key::F2 => 0x71,
            Key::F3 => 0x72,
            Key::F4 => 0x73,
            Key::F5 => 0x74,
            Key::F6 => 0x75,
            Key::F7 => 0x76,
            Key::F8 => 0x77,
            Key::F9 => 0x78,
            Key::F10 => 0x79,
            Key::F11 => 0x7A,
            Key::F12 => 0x7B,
            Key::NumLock => 0x90,
            Key::ScrollLock => 0x91,
            Key::LeftShift => 0xA0,
            Key::RightShift => 0xA1,
            Key::LeftControl => 0xA2,
            Key::RightControl => 0xA3,
            Key::LeftAlt => 0xA4,
            Key::RightAlt => 0xA5,
            Key::Semicolon => 0xBA,
            Key::Equals => 0xBB,
            Key::Comma => 0xBC,
            Key::Minus => 0xBD,
            Key::Period => 0xBE,
            Key::Slash => 0xBF,
            Key::Backtick => 0xC0,
            Key::LeftBracket => 0xDB,
            Key::Backslash => 0xDC,
            Key::RightBracket => 0xDD,
            Key::Apostrophe => 0xDE,
        }
    }

    /// Whether some key has the given virtual-key code.
    pub open spec fn is_mapped(code: u8) -> bool {
        exists|key: Key| #[trigger] key.code() == code
    }

    /// The key that a virtual-key code stands for, if it stands for one.
    pub open spec fn of_code(code: u8) -> Option<Key> {
        if Key::is_mapped(code) {
            Some(choose|key: Key| #[trigger] key.code() == code)
        } else {
            None
        }
    }

    /// Distinct keys have distinct codes.
    pub proof fn lemma_code_injective(a: Key, b: Key)
        requires
            a.code() == b.code(),
        ensures
            a == b,
    {
    }

    /// Looking up a key's own code gives that key back.
    pub proof fn lemma_of_code_round_trip(key: Key)
        ensures
            Key::of_code(key.code()) == Some(key),
    {
        let code = key.code();
        assert(Key::is_mapped(code));
        let found = choose|k: Key| #[trigger] k.code() == code;
        Key::lemma_code_injective(found, key);
    }

    /// Maps a Win32 virtual-key code to the key it stands for.
    ///
    /// Returns the one key whose code it is, and `None` for every code that
    /// stands for no key.
    pub fn from_winapi(code: u8) -> (key: Option<Key>)
        ensures
            key == Key::of_code(code),
            forall|k: Key| (#[trigger] k.code() == code) <==> key == Some(k),
    {
        let key = match code {
            0x08 => Some(Key::Backspace),
            0x09 => Some(Key::Tab),
            0x0C => Some(Key::Clear),
            0x0D => Some(Key::Enter),
            0x10 => Some(Key::Shift),
            0x11 => Some(Key::Control),
            0x12 => Some(Key::Alt),
            0x13 => Some(Key::Pause),
            0x14 => Some(Key::CapsLock),
            0x1B => Some(Key::Escape),
            0x20 => Some(Key::Space),
            0x21 => Some(Key::PageUp),
            0x22 => Some(Key::PageDown),
            0x23 => Some(Key::End),
            0x24 => Some(Key::Home),
            0x25 => Some(Key::Left),
            0x26 => Some(Key::Up),
            0x27 => Some(Key::Right),
            0x28 => Some(Key::Down),
            0x2C => Some(Key::PrintScreen),
            0x2D => Some(Key::Insert),
            0x2E => Some(Key::Delete),
            0x30 => Some(Key::Num0),
            0x31 => Some(Key::Num1),
            0x32 => Some(Key::Num2),
            0x33 => Some(Key::Num3),
            0x34 => Some(Key::Num4),
            0x35 => Some(Key::Num5),
            0x36 => Some(Key::Num6),
            0x37 => Some(Key::Num7),
            0x38 => Some(Key::Num8),
            0x39 => Some(Key::Num9),
            0x41 => Some(Key::A),
            0x42 => Some(Key::B),
            0x43 => Some(Key::C),
            0x44 => Some(Key::D),
            0x45 => Some(Key::E),
            0x46 => Some(Key::F),
            0x47 => Some(Key::G),
            0x48 => Some(Key::H),
            0x49 => Some(Key::I),
            0x4A => Some(Key::J),
            0x4B => Some(Key::K),
            0x4C => Some(Key::L),
            0x4D => Some(Key::M),
            0x4E => Some(Key::N),
            0x4F => Some(Key::O),
            0x50 => Some(Key::P),
            0x51 => Some(Key::Q),
            0x52 => Some(Key::R),
            0x53 => Some(Key::S),
            0x54 => Some(Key::T),
            0x55 => Some(Key::U),
            0x56 => Some(Key::V),
            0x57 => Some(Key::W),
            0x58 => Some(Key::X),
            0x59 => Some(Key::Y),
            0x5A => Some(Key::Z),
            0x5B => Some(Key::LeftSuper),
            0x5C => Some(Key::RightSuper),
            0x5D => Some(Key::Menu),
            0x60 => Some(Key::Numpad0),
            0x61 => Some(Key::Numpad1),
            0x62 => Some(Key::Numpad2),
            0x63 => Some(Key::Numpad3),
            0x64 => Some(Key::Numpad4),
            0x65 => Some(Key::Numpad5),
            0x66 => Some(Key::Numpad6),
            0x67 => Some(Key::Numpad7),
            0x68 => Some(Key::Numpad8),
            0x69 => Some(Key::Numpad9),
            0x6A => Some(Key::NumpadMultiply),
            0x6B => Some(Key::NumpadAdd),
            0x6D => Some(Key::NumpadSubtract),
            0x6E => Some(Key::NumpadDecimal),
            0x6F => Some(Key::NumpadDivide),
            0x70 => Some(Key::F1),
            0x71 => Some(Key::F2),
            0x72 => Some(Key::F3),
            0x73 => Some(Key::F4),
            0x74 => Some(Key::F5),
            0x75 => Some(Key::F6),
            0x76 => Some(Key::F7),
            0x77 => Some(Key::F8),
            0x78 => Some(Key::F9),
            0x79 => Some(Key::F10),
            0x7A => Some(Key::F11),
            0x7B => Some(Key::F12),
            0x90 => Some(Key::NumLock),
            0x91 => Some(Key::ScrollLock),
            0xA0 => Some(Key::LeftShift),
            0xA1 => Some(Key::RightShift),
            0xA2 => Some(Key::LeftControl),
            0xA3 => Some(Key::RightControl),
            0xA4 => Some(Key::LeftAlt),
            0xA5 => Some(Key::RightAlt),
            0xBA => Some(Key::Semicolon),
            0xBB => Some(Key::Equals),
            0xBC => Some(Key::Comma),
            0xBD => Some(Key::Minus),
            0xBE => Some(Key::Period),
            0xBF => Some(Key::Slash),
            0xC0 => Some(Key::Backtick),
            0xDB => Some(Key::LeftBracket),
            0xDC => Some(Key::Backslash),
            0xDD => Some(Key::RightBracket),
            0xDE => Some(Key::Apostrophe),
            _ => None,
        };
        proof {
            if let Some(k) = key {
                assert(k.code() == code);
                Key::lemma_of_code_round_trip(k);
                assert forall|other: Key| (#[trigger] other.code() == code) implies key == Some(
                    other,
                ) by {
                    Key::lemma_code_injective(other, k);
                }
            } else {
                assert forall|k: Key| #[trigger] k.code() != code by {}
            }
        }
        key
    }
}

} // verus!
