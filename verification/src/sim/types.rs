use crate::config::types::Config;
use indexmap::IndexSet;
use vstd::prelude::*;

verus! {

/// A button that a hotkey can hold down: a mouse button or a keyboard key.
/// The order is the one in which the buttons are offered for selection.
#[derive(Debug, Copy, Clone, PartialEq, Eq, Hash, Structural)]
pub enum Button {
    MouseLeft,
    MouseRight,
    MouseMiddle,
    UpArrow,
    RightArrow,
    DownArrow,
    LeftArrow,
    ShiftLeft,
    ShiftRight,
    Function,
    Escape,
    Tab,
    Backspace,
    Return,
    CapsLock,
    Insert,
    Delete,
    Home,
    End,
    PageUp,
    PageDown,
    Space,
    KeyA,
    KeyB,
    KeyC,
    KeyD,
    KeyE,
    KeyF,
    KeyG,
    KeyH,
    KeyI,
    KeyJ,
    KeyK,
    KeyL,
    KeyM,
    KeyN,
    KeyO,
    KeyP,
    KeyQ,
    KeyR,
    KeyS,
    KeyT,
    KeyU,
    KeyV,
    KeyW,
    KeyX,
    KeyY,
    KeyZ,
    BackQuote,
    Num0,
    Num1,
    Num2,
    Num3,
    Num4,
    Num5,
    Num6,
    Num7,
    Num8,
    Num9,
    Minus,
    Equal,
    F1,
    F2,
    F3,
    F4,
    F5,
    F6,
    F7,
    F8,
    F9,
    F10,
    F11,
    F12,
    Alt,
    AltGr,
    ControlLeft,
    ControlRight,
    MetaLeft,
    MetaRight,
    BackSlash,
    Comma,
    Dot,
    LeftBracket,
    Quote,
    RightBracket,
    SemiColon,
    Slash,
    PrintScreen,
    ScrollLock,
    Pause,
    NumLock,
    Kp0,
    Kp1,
    Kp2,
    Kp3,
    Kp4,
    Kp5,
    Kp6,
    Kp7,
    Kp8,
    Kp9,
    KpDelete,
    KpDivide,
    KpMinus,
    KpMultiply,
    KpPlus,
    KpReturn,
}

/// A button of the simulated mouse.
#[derive(Debug, Copy, Clone, PartialEq, Eq, Hash, Structural)]
pub enum MouseButton {
    Left,
    Right,
    Middle,
}

/// A key of the simulated keyboard.
#[derive(Debug, Copy, Clone, PartialEq, Eq, Hash, Structural)]
pub enum Key {
    UpArrow,
    RightArrow,
    DownArrow,
    LeftArrow,
    ShiftLeft,
    ShiftRight,
    Function,
    Escape,
    Tab,
    Backspace,
    Return,
    CapsLock,
    Insert,
    Delete,
    Home,
    End,
    PageUp,
    PageDown,
    Space,
    KeyA,
    KeyB,
    KeyC,
    KeyD,
    KeyE,
    KeyF,
    KeyG,
    KeyH,
    KeyI,
    KeyJ,
    KeyK,
    KeyL,
    KeyM,
    KeyN,
    KeyO,
    KeyP,
    KeyQ,
    KeyR,
    KeyS,
    KeyT,
    KeyU,
    KeyV,
    KeyW,
    KeyX,
    KeyY,
    KeyZ,
    BackQuote,
    Num0,
    Num1,
    Num2,
    Num3,
    Num4,
    Num5,
    Num6,
    Num7,
    Num8,
    Num9,
    Minus,
    Equal,
    F1,
    F2,
    F3,
    F4,
    F5,
    F6,
    F7,
    F8,
    F9,
    F10,
    F11,
    F12,
    Alt,
    AltGr,
    ControlLeft,
    ControlRight,
    MetaLeft,
    MetaRight,
    BackSlash,
    Comma,
    Dot,
    LeftBracket,
    Quote,
    RightBracket,
    SemiColon,
    Slash,
    PrintScreen,
    ScrollLock,
    Pause,
    NumLock,
    Kp0,
    Kp1,
    Kp2,
    Kp3,
    Kp4,
    Kp5,
    Kp6,
    Kp7,
    Kp8,
    Kp9,
    KpDelete,
    KpDivide,
    KpMinus,
    KpMultiply,
    KpPlus,
    KpReturn,
}

impl Button {
    /// The number of buttons.
    pub const COUNT: usize = 107;

    /// The simulated mouse button that this button presses, if it is a mouse
    /// button.
    pub open spec fn mouse_button(self) -> Option<MouseButton> {
        match self {
            Button::MouseLeft => Some(MouseButton::Left),
            Button::MouseRight => Some(MouseButton::Right),
            Button::MouseMiddle => Some(MouseButton::Middle),
            _ => None,
        }
    }

    /// The simulated key that this button presses, if it is a keyboard key.
    pub open spec fn key(self) -> Option<Key> {
        match self {
            Button::MouseLeft | Button::MouseRight | Button::MouseMiddle => None,
            Button::UpArrow => Some(Key::UpArrow),
            Button::RightArrow => Some(Key::RightArrow),
            Button::DownArrow => Some(Key::DownArrow),
            Button::LeftArrow => Some(Key::LeftArrow),
            Button::ShiftLeft => Some(Key::ShiftLeft),
            Button::ShiftRight => Some(Key::ShiftRight),
            Button::Function => Some(Key::Function),
            Button::Escape => Some(Key::Escape),
            Button::Tab => Some(Key::Tab),
            Button::Backspace => Some(Key::Backspace),
            Button::Return => Some(Key::Return),
            Button::CapsLock => Some(Key::CapsLock),
            Button::Insert => Some(Key::Insert),
            Button::Delete => Some(Key::Delete),
            Button::Home => Some(Key::Home),
            Button::End => Some(Key::End),
            Button::PageUp => Some(Key::PageUp),
            Button::PageDown => Some(Key::PageDown),
            Button::Space => Some(Key::Space),
            Button::KeyA => Some(Key::KeyA),
            Button::KeyB => Some(Key::KeyB),
            Button::KeyC => Some(Key::KeyC),
            Button::KeyD => Some(Key::KeyD),
            Button::KeyE => Some(Key::KeyE),
            Button::KeyF => Some(Key::KeyF),
            Button::KeyG => Some(Key::KeyG),
            Button::KeyH => Some(Key::KeyH),
            Button::KeyI => Some(Key::KeyI),
            Button::KeyJ => Some(Key::KeyJ),
            Button::KeyK => Some(Key::KeyK),
            Button::KeyL => Some(Key::KeyL),
            Button::KeyM => Some(Key::KeyM),
            Button::KeyN => Some(Key::KeyN),
            Button::KeyO => Some(Key::KeyO),
            Button::KeyP => Some(Key::KeyP),
            Button::KeyQ => Some(Key::KeyQ),
            Button::KeyR => Some(Key::KeyR),
            Button::KeyS => Some(Key::KeyS),
            Button::KeyT => Some(Key::KeyT),
            Button::KeyU => Some(Key::KeyU),
            Button::KeyV => Some(Key::KeyV),
            Button::KeyW => Some(Key::KeyW),
            Button::KeyX => Some(Key::KeyX),
            Button::KeyY => Some(Key::KeyY),
            Button::KeyZ => Some(Key::KeyZ),
            Button::BackQuote => Some(Key::BackQuote),
            Button::Num0 => Some(Key::Num0),
            Button::Num1 => Some(Key::Num1),
            Button::Num2 => Some(Key::Num2),
            Button::Num3 => Some(Key::Num3),
            Button::Num4 => Some(Key::Num4),
            Button::Num5 => Some(Key::Num5),
            Button::Num6 => Some(Key::Num6),
            Button::Num7 => Some(Key::Num7),
            Button::Num8 => Some(Key::Num8),
            Button::Num9 => Some(Key::Num9),
            Button::Minus => Some(Key::Minus),
            Button::Equal => Some(Key::Equal),
            Button::F1 => Some(Key::F1),
            Button::F2 => Some(Key::F2),
            Button::F3 => Some(Key::F3),
            Button::F4 => Some(Key::F4),
            Button::F5 => Some(Key::F5),
            Button::F6 => Some(Key::F6),
            Button::F7 => Some(Key::F7),
            Button::F8 => Some(Key::F8),
            Button::F9 => Some(Key::F9),
            Button::F10 => Some(Key::F10),
            Button::F11 => Some(Key::F11),
            Button::F12 => Some(Key::F12),
            Button::Alt => Some(Key::Alt),
            Button::AltGr => Some(Key::AltGr),
            Button::ControlLeft => Some(Key::ControlLeft),
            Button::ControlRight => Some(Key::ControlRight),
            Button::MetaLeft => Some(Key::MetaLeft),
            Button::MetaRight => Some(Key::MetaRight),
            Button::BackSlash => Some(Key::BackSlash),
            Button::Comma => Some(Key::Comma),
            Button::Dot => Some(Key::Dot),
            Button::LeftBracket => Some(Key::LeftBracket),
            Button::Quote => Some(Key::Quote),
            Button::RightBracket => Some(Key::RightBracket),
            Button::SemiColon => Some(Key::SemiColon),
            Button::Slash => Some(Key::Slash),
            Button::PrintScreen => Some(Key::PrintScreen),
            Button::ScrollLock => Some(Key::ScrollLock),
            Button::Pause => Some(Key::Pause),
            Button::NumLock => Some(Key::NumLock),
            Button::Kp0 => Some(Key::Kp0),
            Button::Kp1 => Some(Key::Kp1),
            Button::Kp2 => Some(Key::Kp2),
            Button::Kp3 => Some(Key::Kp3),
            Button::Kp4 => Some(Key::Kp4),
            Button::Kp5 => Some(Key::Kp5),
            Button::Kp6 => Some(Key::Kp6),
            Button::Kp7 => Some(Key::Kp7),
            Button::Kp8 => Some(Key::Kp8),
            Button::Kp9 => Some(Key::Kp9),
            Button::KpDelete => Some(Key::KpDelete),
            Button::KpDivide => Some(Key::KpDivide),
            Button::KpMinus => Some(Key::KpMinus),
            Button::KpMultiply => Some(Key::KpMultiply),
            Button::KpPlus => Some(Key::KpPlus),
            Button::KpReturn => Some(Key::KpReturn),
        }
    }

    /// The text under which this button is shown.
    pub open spec fn label_text(self) -> Seq<char> {
        match self {
            Button::MouseLeft => "Mouse Left"@,
            Button::MouseRight => "Mouse Right"@,
            Button::MouseMiddle => "Mouse Middle"@,
            Button::UpArrow => "Up Arrow"@,
            Button::RightArrow => "Right Arrow"@,
            Button::DownArrow => "DownArrow"@,
            Button::LeftArrow => "Left Arrow"@,
            Button::ShiftLeft => "Shift Left"@,
            Button::ShiftRight => "Shift Right"@,
            Button::Function => "Fn"@,
            Button::Escape => "Esc"@,
            Button::Tab => "Tab"@,
            Button::Backspace => "Backspace"@,
            Button::Return => "Return"@,
            Button::CapsLock => "CapsLock"@,
            Button::Insert => "Insert"@,
            Button::Delete => "Delete"@,
            Button::Home => "Home"@,
            Button::End => "End"@,
            Button::PageUp => "Page Up"@,
            Button::PageDown => "Page Down"@,
            Button::Space => "Space"@,
            Button::KeyA => "A"@,
            Button::KeyB => "B"@,
            Button::KeyC => "C"@,
            Button::KeyD => "D"@,
            Button::KeyE => "E"@,
            Button::KeyF => "F"@,
            Button::KeyG => "G"@,
            Button::KeyH => "H"@,
            Button::KeyI => "I"@,
            Button::KeyJ => "J"@,
            Button::KeyK => "K"@,
            Button::KeyL => "L"@,
            Button::KeyM => "M"@,
            Button::KeyN => "N"@,
            Button::KeyO => "O"@,
            Button::KeyP => "P"@,
            Button::KeyQ => "Q"@,
            Button::KeyR => "R"@,
            Button::KeyS => "S"@,
            Button::KeyT => "T"@,
            Button::KeyU => "U"@,
            Button::KeyV => "V"@,
            Button::KeyW => "W"@,
            Button::KeyX => "X"@,
            Button::KeyY => "Y"@,
            Button::KeyZ => "Z"@,
            Button::BackQuote => "`"@,
            Button::Num0 => "0"@,
            Button::Num1 => "1"@,
            Button::Num2 => "2"@,
            Button::Num3 => "3"@,
            Button::Num4 => "4"@,
            Button::Num5 => "5"@,
            Button::Num6 => "6"@,
            Button::Num7 => "7"@,
            Button::Num8 => "8"@,
            Button::Num9 => "9"@,
            Button::Minus => "-"@,
            Button::Equal => "="@,
            Button::F1 => "F1"@,
            Button::F2 => "F2"@,
            Button::F3 => "F3"@,
            Button::F4 => "F4"@,
            Button::F5 => "F5"@,
            Button::F6 => "F6"@,
            Button::F7 => "F7"@,
            Button::F8 => "F8"@,
            Button::F9 => "F9"@,
            Button::F10 => "F10"@,
            Button::F11 => "F11"@,
            Button::F12 => "F12"@,
            Button::Alt => "Alt"@,
            Button::AltGr => "AltGr"@,
            Button::ControlLeft => "Control Left"@,
            Button::ControlRight => "Control Right"@,
            Button::MetaLeft => "Meta Left"@,
            Button::MetaRight => "Meta Right"@,
            Button::BackSlash => "\\"@,
            Button::Comma => ","@,
            Button::Dot => "."@,
            Button::LeftBracket => "Left Bracket"@,
            Button::Quote => "'"@,
            Button::RightBracket => "Right Bracket"@,
            Button::SemiColon => ";"@,
            Button::Slash => "/"@,
            Button::PrintScreen => "Print Screen"@,
            Button::ScrollLock => "Scroll Lock"@,
            Button::Pause => "Pause"@,
            Button::NumLock => "Num Lock"@,
            Button::Kp0 => "Keypad 0"@,
            Button::Kp1 => "Keypad 1"@,
            Button::Kp2 => "Keypad 2"@,
            Button::Kp3 => "Keypad 3"@,
            Button::Kp4 => "Keypad 4"@,
            Button::Kp5 => "Keypad 5"@,
            Button::Kp6 => "Keypad 6"@,
            Button::Kp7 => "Keypad 7"@,
            Button::Kp8 => "Keypad 8"@,
            Button::Kp9 => "Keypad 9"@,
            Button::KpDelete => "Keypad Delete"@,
            Button::KpDivide => "Keypad /"@,
            Button::KpMinus => "Keypad -"@,
            Button::KpMultiply => "Keypad *"@,
            Button::KpPlus => "Keypad +"@,
            Button::KpReturn => "Keypad Return"@,
        }
    }

    /// Every button once, in the order of the enumeration.
    pub open spec fn all_buttons() -> Seq<Button> {
        seq![
            Button::MouseLeft,
            Button::MouseRight,
            Button::MouseMiddle,
            Button::UpArrow,
            Button::RightArrow,
            Button::DownArrow,
            Button::LeftArrow,
            Button::ShiftLeft,
            Button::ShiftRight,
            Button::Function,
            Button::Escape,
            Button::Tab,
            Button::Backspace,
            Button::Return,
            Button::CapsLock,
            Button::Insert,
            Button::Delete,
            Button::Home,
            Button::End,
            Button::PageUp,
            Button::PageDown,
            Button::Space,
            Button::KeyA,
            Button::KeyB,
            Button::KeyC,
            Button::KeyD,
            Button::KeyE,
            Button::KeyF,
            Button::KeyG,
            Button::KeyH,
            Button::KeyI,
            Button::KeyJ,
            Button::KeyK,
            Button::KeyL,
            Button::KeyM,
            Button::KeyN,
            Button::KeyO,
            Button::KeyP,
            Button::KeyQ,
            Button::KeyR,
            Button::KeyS,
            Button::KeyT,
            Button::KeyU,
            Button::KeyV,
            Button::KeyW,
            Button::KeyX,
            Button::KeyY,
            Button::KeyZ,
            Button::BackQuote,
            Button::Num0,
            Button::Num1,
            Button::Num2,
            Button::Num3,
            Button::Num4,
            Button::Num5,
            Button::Num6,
            Button::Num7,
            Button::Num8,
            Button::Num9,
            Button::Minus,
            Button::Equal,
            Button::F1,
            Button::F2,
            Button::F3,
            Button::F4,
            Button::F5,
            Button::F6,
            Button::F7,
            Button::F8,
            Button::F9,
            Button::F10,
            Button::F11,
            Button::F12,
            Button::Alt,
            Button::AltGr,
            Button::ControlLeft,
            Button::ControlRight,
            Button::MetaLeft,
            Button::MetaRight,
            Button::BackSlash,
            Button::Comma,
            Button::Dot,
            Button::LeftBracket,
            Button::Quote,
            Button::RightBracket,
            Button::SemiColon,
            Button::Slash,
            Button::PrintScreen,
            Button::ScrollLock,
            Button::Pause,
            Button::NumLock,
            Button::Kp0,
            Button::Kp1,
            Button::Kp2,
            Button::Kp3,
            Button::Kp4,
            Button::Kp5,
            Button::Kp6,
            Button::Kp7,
            Button::Kp8,
            Button::Kp9,
            Button::KpDelete,
            Button::KpDivide,
            Button::KpMinus,
            Button::KpMultiply,
            Button::KpPlus,
            Button::KpReturn,
        ]
    }

    /// The place of this button in the enumeration, counted from 0.
    pub open spec fn ordinal(self) -> int {
        match self {
            Button::MouseLeft => 0,
            Button::MouseRight => 1,
            Button::MouseMiddle => 2,
            Button::UpArrow => 3,
            Button::RightArrow => 4,
            Button::DownArrow => 5,
            Button::LeftArrow => 6,
            Button::ShiftLeft => 7,
            Button::ShiftRight => 8,
            Button::Function => 9,
            Button::Escape => 10,
            Button::Tab => 11,
            Button::Backspace => 12,
            Button::Return => 13,
            Button::CapsLock => 14,
            Button::Insert => 15,
            Button::Delete => 16,
            Button::Home => 17,
            Button::End => 18,
            Button::PageUp => 19,
            Button::PageDown => 20,
            Button::Space => 21,
            Button::KeyA => 22,
            Button::KeyB => 23,
            Button::KeyC => 24,
            Button::KeyD => 25,
            Button::KeyE => 26,
            Button::KeyF => 27,
            Button::KeyG => 28,
            Button::KeyH => 29,
            Button::KeyI => 30,
            Button::KeyJ => 31,
            Button::KeyK => 32,
            Button::KeyL => 33,
            Button::KeyM => 34,
            Button::KeyN => 35,
            Button::KeyO => 36,
            Button::KeyP => 37,
            Button::KeyQ => 38,
            Button::KeyR => 39,
            Button::KeyS => 40,
            Button::KeyT => 41,
            Button::KeyU => 42,
            Button::KeyV => 43,
            Button::KeyW => 44,
            Button::KeyX => 45,
            Button::KeyY => 46,
            Button::KeyZ => 47,
            Button::BackQuote => 48,
            Button::Num0 => 49,
            Button::Num1 => 50,
            Button::Num2 => 51,
            Button::Num3 => 52,
            Button::Num4 => 53,
            Button::Num5 => 54,
            Button::Num6 => 55,
            Button::Num7 => 56,
            Button::Num8 => 57,
            Button::Num9 => 58,
            Button::Minus => 59,
            Button::Equal => 60,
            Button::F1 => 61,
            Button::F2 => 62,
            Button::F3 => 63,
            Button::F4 => 64,
            Button::F5 => 65,
            Button::F6 => 66,
            Button::F7 => 67,
            Button::F8 => 68,
            Button::F9 => 69,
            Button::F10 => 70,
            Button::F11 => 71,
            Button::F12 => 72,
            Button::Alt => 73,
            Button::AltGr => 74,
            Button::ControlLeft => 75,
            Button::ControlRight => 76,
            Button::MetaLeft => 77,
            Button::MetaRight => 78,
            Button::BackSlash => 79,
            Button::Comma => 80,
            Button::Dot => 81,
            Button::LeftBracket => 82,
            Button::Quote => 83,
            Button::RightBracket => 84,
            Button::SemiColon => 85,
            Button::Slash => 86,
            Button::PrintScreen => 87,
            Button::ScrollLock => 88,
            Button::Pause => 89,
            Button::NumLock => 90,
            Button::Kp0 => 91,
            Button::Kp1 => 92,
            Button::Kp2 => 93,
            Button::Kp3 => 94,
            Button::Kp4 => 95,
            Button::Kp5 => 96,
            Button::Kp6 => 97,
            Button::Kp7 => 98,
            Button::Kp8 => 99,
            Button::Kp9 => 100,
            Button::KpDelete => 101,
            Button::KpDivide => 102,
            Button::KpMinus => 103,
            Button::KpMultiply => 104,
            Button::KpPlus => 105,
            Button::KpReturn => 106,
        }
    }

    /// Every button once, in the order of the enumeration.
    pub fn all() -> (buttons: Vec<Button>)
        ensures
            buttons@ == Button::all_buttons(),
    {
        vec![
            Button::MouseLeft,
            Button::MouseRight,
            Button::MouseMiddle,
            Button::UpArrow,
            Button::RightArrow,
            Button::DownArrow,
            Button::LeftArrow,
            Button::ShiftLeft,
            Button::ShiftRight,
            Button::Function,
            Button::Escape,
            Button::Tab,
            Button::Backspace,
            Button::Return,
            Button::CapsLock,
            Button::Insert,
            Button::Delete,
            Button::Home,
            Button::End,
            Button::PageUp,
            Button::PageDown,
            Button::Space,
            Button::KeyA,
            Button::KeyB,
            Button::KeyC,
            Button::KeyD,
            Button::KeyE,
            Button::KeyF,
            Button::KeyG,
            Button::KeyH,
            Button::KeyI,
            Button::KeyJ,
            Button::KeyK,
            Button::KeyL,
            Button::KeyM,
            Button::KeyN,
            Button::KeyO,
            Button::KeyP,
            Button::KeyQ,
            Button::KeyR,
            Button::KeyS,
            Button::KeyT,
            Button::KeyU,
            Button::KeyV,
            Button::KeyW,
            Button::KeyX,
            Button::KeyY,
            Button::KeyZ,
            Button::BackQuote,
            Button::Num0,
            Button::Num1,
            Button::Num2,
            Button::Num3,
            Button::Num4,
            Button::Num5,
            Button::Num6,
            Button::Num7,
            Button::Num8,
            Button::Num9,
            Button::Minus,
            Button::Equal,
            Button::F1,
            Button::F2,
            Button::F3,
            Button::F4,
            Button::F5,
            Button::F6,
            Button::F7,
            Button::F8,
            Button::F9,
            Button::F10,
            Button::F11,
            Button::F12,
            Button::Alt,
            Button::AltGr,
            Button::ControlLeft,
            Button::ControlRight,
            Button::MetaLeft,
            Button::MetaRight,
            Button::BackSlash,
            Button::Comma,
            Button::Dot,
            Button::LeftBracket,
            Button::Quote,
            Button::RightBracket,
            Button::SemiColon,
            Button::Slash,
            Button::PrintScreen,
            Button::ScrollLock,
            Button::Pause,
            Button::NumLock,
            Button::Kp0,
            Button::Kp1,
            Button::Kp2,
            Button::Kp3,
            Button::Kp4,
            Button::Kp5,
            Button::Kp6,
            Button::Kp7,
            Button::Kp8,
            Button::Kp9,
            Button::KpDelete,
            Button::KpDivide,
            Button::KpMinus,
            Button::KpMultiply,
            Button::KpPlus,
            Button::KpReturn,
        ]
    }

    /// The simulated mouse button that this button presses, if it is a mouse
    /// button.
    pub fn rdev_mouse_button(&self) -> (button: Option<MouseButton>)
        ensures
            button == self.mouse_button(),
    {
        match self {
            Button::MouseLeft => Some(MouseButton::Left),
            Button::MouseRight => Some(MouseButton::Right),
            Button::MouseMiddle => Some(MouseButton::Middle),
            _ => None,
        }
    }

    /// The simulated key that this button presses, if it is a keyboard key.
    pub fn rdev_key(&self) -> (key: Option<Key>)
        ensures
            key == self.key(),
    {
        match self {
            Button::MouseLeft | Button::MouseRight | Button::MouseMiddle => None,
            Button::UpArrow => Some(Key::UpArrow),
            Button::RightArrow => Some(Key::RightArrow),
            Button::DownArrow => Some(Key::DownArrow),
            Button::LeftArrow => Some(Key::LeftArrow),
            Button::ShiftLeft => Some(Key::ShiftLeft),
            Button::ShiftRight => Some(Key::ShiftRight),
            Button::Function => Some(Key::Function),
            Button::Escape => Some(Key::Escape),
            Button::Tab => Some(Key::Tab),
            Button::Backspace => Some(Key::Backspace),
            Button::Return => Some(Key::Return),
            Button::CapsLock => Some(Key::CapsLock),
            Button::Insert => Some(Key::Insert),
            Button::Delete => Some(Key::Delete),
            Button::Home => Some(Key::Home),
            Button::End => Some(Key::End),
            Button::PageUp => Some(Key::PageUp),
            Button::PageDown => Some(Key::PageDown),
            Button::Space => Some(Key::Space),
            Button::KeyA => Some(Key::KeyA),
            Button::KeyB => Some(Key::KeyB),
            Button::KeyC => Some(Key::KeyC),
            Button::KeyD => Some(Key::KeyD),
            Button::KeyE => Some(Key::KeyE),
            Button::KeyF => Some(Key::KeyF),
            Button::KeyG => Some(Key::KeyG),
            Button::KeyH => Some(Key::KeyH),
            Button::KeyI => Some(Key::KeyI),
            Button::KeyJ => Some(Key::KeyJ),
            Button::KeyK => Some(Key::KeyK),
            Button::KeyL => Some(Key::KeyL),
            Button::KeyM => Some(Key::KeyM),
            Button::KeyN => Some(Key::KeyN),
            Button::KeyO => Some(Key::KeyO),
            Button::KeyP => Some(Key::KeyP),
            Button::KeyQ => Some(Key::KeyQ),
            Button::KeyR => Some(Key::KeyR),
            Button::KeyS => Some(Key::KeyS),
            Button::KeyT => Some(Key::KeyT),
            Button::KeyU => Some(Key::KeyU),
            Button::KeyV => Some(Key::KeyV),
            Button::KeyW => Some(Key::KeyW),
            Button::KeyX => Some(Key::KeyX),
            Button::KeyY => Some(Key::KeyY),
            Button::KeyZ => Some(Key::KeyZ),
            Button::BackQuote => Some(Key::BackQuote),
            Button::Num0 => Some(Key::Num0),
            Button::Num1 => Some(Key::Num1),
            Button::Num2 => Some(Key::Num2),
            Button::Num3 => Some(Key::Num3),
            Button::Num4 => Some(Key::Num4),
            Button::Num5 => Some(Key::Num5),
            Button::Num6 => Some(Key::Num6),
            Button::Num7 => Some(Key::Num7),
            Button::Num8 => Some(Key::Num8),
            Button::Num9 => Some(Key::Num9),
            Button::Minus => Some(Key::Minus),
            Button::Equal => Some(Key::Equal),
            Button::F1 => Some(Key::F1),
            Button::F2 => Some(Key::F2),
            Button::F3 => Some(Key::F3),
            Button::F4 => Some(Key::F4),
            Button::F5 => Some(Key::F5),
            Button::F6 => Some(Key::F6),
            Button::F7 => Some(Key::F7),
            Button::F8 => Some(Key::F8),
            Button::F9 => Some(Key::F9),
            Button::F10 => Some(Key::F10),
            Button::F11 => Some(Key::F11),
            Button::F12 => Some(Key::F12),
            Button::Alt => Some(Key::Alt),
            Button::AltGr => Some(Key::AltGr),
            Button::ControlLeft => Some(Key::ControlLeft),
            Button::ControlRight => Some(Key::ControlRight),
            Button::MetaLeft => Some(Key::MetaLeft),
            Button::MetaRight => Some(Key::MetaRight),
            Button::BackSlash => Some(Key::BackSlash),
            Button::Comma => Some(Key::Comma),
            Button::Dot => Some(Key::Dot),
            Button::LeftBracket => Some(Key::LeftBracket),
            Button::Quote => Some(Key::Quote),
            Button::RightBracket => Some(Key::RightBracket),
            Button::SemiColon => Some(Key::SemiColon),
            Button::Slash => Some(Key::Slash),
            Button::PrintScreen => Some(Key::PrintScreen),
            Button::ScrollLock => Some(Key::ScrollLock),
            Button::Pause => Some(Key::Pause),
            Button::NumLock => Some(Key::NumLock),
            Button::Kp0 => Some(Key::Kp0),
            Button::Kp1 => Some(Key::Kp1),
            Button::Kp2 => Some(Key::Kp2),
            Button::Kp3 => Some(Key::Kp3),
            Button::Kp4 => Some(Key::Kp4),
            Button::Kp5 => Some(Key::Kp5),
            Button::Kp6 => Some(Key::Kp6),
            Button::Kp7 => Some(Key::Kp7),
            Button::Kp8 => Some(Key::Kp8),
            Button::Kp9 => Some(Key::Kp9),
            Button::KpDelete => Some(Key::KpDelete),
            Button::KpDivide => Some(Key::KpDivide),
            Button::KpMinus => Some(Key::KpMinus),
            Button::KpMultiply => Some(Key::KpMultiply),
            Button::KpPlus => Some(Key::KpPlus),
            Button::KpReturn => Some(Key::KpReturn),
        }
    }

    /// The text under which this button is shown.
    pub fn label(&self) -> (text: &'static str)
        ensures
            text@ == self.label_text(),
    {
        match self {
            Button::MouseLeft => "Mouse Left",
            Button::MouseRight => "Mouse Right",
            Button::MouseMiddle => "Mouse Middle",
            Button::UpArrow => "Up Arrow",
            Button::RightArrow => "Right Arrow",
            Button::DownArrow => "DownArrow",
            Button::LeftArrow => "Left Arrow",
            Button::ShiftLeft => "Shift Left",
            Button::ShiftRight => "Shift Right",
            Button::Function => "Fn",
            Button::Escape => "Esc",
            Button::Tab => "Tab",
            Button::Backspace => "Backspace",
            Button::Return => "Return",
            Button::CapsLock => "CapsLock",
            Button::Insert => "Insert",
            Button::Delete => "Delete",
            Button::Home => "Home",
            Button::End => "End",
            Button::PageUp => "Page Up",
            Button::PageDown => "Page Down",
            Button::Space => "Space",
            Button::KeyA => "A",
            Button::KeyB => "B",
            Button::KeyC => "C",
            Button::KeyD => "D",
            Button::KeyE => "E",
            Button::KeyF => "F",
            Button::KeyG => "G",
            Button::KeyH => "H",
            Button::KeyI => "I",
            Button::KeyJ => "J",
            Button::KeyK => "K",
            Button::KeyL => "L",
            Button::KeyM => "M",
            Button::KeyN => "N",
            Button::KeyO => "O",
            Button::KeyP => "P",
            Button::KeyQ => "Q",
            Button::KeyR => "R",
            Button::KeyS => "S",
            Button::KeyT => "T",
            Button::KeyU => "U",
            Button::KeyV => "V",
            Button::KeyW => "W",
            Button::KeyX => "X",
            Button::KeyY => "Y",
            Button::KeyZ => "Z",
            Button::BackQuote => "`",
            Button::Num0 => "0",
            Button::Num1 => "1",
            Button::Num2 => "2",
            Button::Num3 => "3",
            Button::Num4 => "4",
            Button::Num5 => "5",
            Button::Num6 => "6",
            Button::Num7 => "7",
            Button::Num8 => "8",
            Button::Num9 => "9",
            Button::Minus => "-",
            Button::Equal => "=",
            Button::F1 => "F1",
            Button::F2 => "F2",
            Button::F3 => "F3",
            Button::F4 => "F4",
            Button::F5 => "F5",
            Button::F6 => "F6",
            Button::F7 => "F7",
            Button::F8 => "F8",
            Button::F9 => "F9",
            Button::F10 => "F10",
            Button::F11 => "F11",
            Button::F12 => "F12",
            Button::Alt => "Alt",
            Button::AltGr => "AltGr",
            Button::ControlLeft => "Control Left",
            Button::ControlRight => "Control Right",
            Button::MetaLeft => "Meta Left",
            Button::MetaRight => "Meta Right",
            Button::BackSlash => "\\",
            Button::Comma => ",",
            Button::Dot => ".",
            Button::LeftBracket => "Left Bracket",
            Button::Quote => "'",
            Button::RightBracket => "Right Bracket",
            Button::SemiColon => ";",
            Button::Slash => "/",
            Button::PrintScreen => "Print Screen",
            Button::ScrollLock => "Scroll Lock",
            Button::Pause => "Pause",
            Button::NumLock => "Num Lock",
            Button::Kp0 => "Keypad 0",
            Button::Kp1 => "Keypad 1",
            Button::Kp2 => "Keypad 2",
            Button::Kp3 => "Keypad 3",
            Button::Kp4 => "Keypad 4",
            Button::Kp5 => "Keypad 5",
            Button::Kp6 => "Keypad 6",
            Button::Kp7 => "Keypad 7",
            Button::Kp8 => "Keypad 8",
            Button::Kp9 => "Keypad 9",
            Button::KpDelete => "Keypad Delete",
            Button::KpDivide => "Keypad /",
            Button::KpMinus => "Keypad -",
            Button::KpMultiply => "Keypad *",
            Button::KpPlus => "Keypad +",
            Button::KpReturn => "Keypad Return",
        }
    }

    /// A button is a mouse button or a keyboard key, never both and never
    /// neither.
    pub proof fn lemma_mouse_button_or_key(self)
        ensures
            self.mouse_button() is Some <==> self.key() is None,
    {
    }

    /// Two buttons that press the same key are the same button.
    pub proof fn lemma_key_is_injective(self, other: Button)
        requires
            self.key() is Some,
            self.key() == other.key(),
        ensures
            self == other,
    {
    }

    /// Two buttons that press the same mouse button are the same button.
    pub proof fn lemma_mouse_button_is_injective(self, other: Button)
        requires
            self.mouse_button() is Some,
            self.mouse_button() == other.mouse_button(),
        ensures
            self == other,
    {
    }

    /// `all_buttons` holds each button at the place of its ordinal, so it
    /// holds every button, and none twice.
    pub proof fn lemma_all_buttons_complete(self)
        ensures
            Button::all_buttons().len() == Button::COUNT,
            0 <= self.ordinal() < Button::COUNT,
            Button::all_buttons()[self.ordinal()] == self,
            Button::all_buttons().contains(self),
    {
    }

    /// `all_buttons` holds no button twice.
    pub proof fn lemma_all_buttons_distinct()
        ensures
            Button::all_buttons().no_duplicates(),
    {
    }
}

/// The buttons that are held down at one moment, each at most once.
pub type HeldButtons = IndexSet<Button>;

/// A command to the input simulation.
pub enum InputSimCommand {
    /// Hold exactly these buttons from now on.
    SetHeldButtons(HeldButtons),
}

/// A command to the mapping from breath to buttons.
pub enum BreathInputSimCommand {
    /// Use these hotkeys from now on.
    SetConfig(Config),
}

} // verus!
