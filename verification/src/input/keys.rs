use vstd::prelude::*;
use crate::input::button::Button;

verus! {

/// A key as the windowing backend names it, before it is mapped to a `Button`.
#[derive(Clone, Copy, Debug, PartialEq, Eq, Structural)]
pub enum VirtualKey {
    Key1,
    Key2,
    Key3,
    Key4,
    Key5,
    Key6,
    Key7,
    Key8,
    Key9,
    Key0,
    A,
    B,
    C,
    D,
    E,
    F,
    G,
    H,
    I,
    J,
    K,
    L,
    M,
    N,
    O,
    P,
    Q,
    R,
    S,
    T,
    U,
    V,
    W,
    X,
    Y,
    Z,
    Escape,
    F1,
    F2,
    F3,
    F4,
    F5,
    F6,
    F7,
    F8,
    F9,
    F10,
    F11,
    F12,
    F13,
    F14,
    F15,
    F16,
    F17,
    F18,
    F19,
    F20,
    F21,
    F22,
    F23,
    F24,
    Snapshot,
    Scroll,
    Pause,
    Insert,
    Home,
    Delete,
    End,
    PageDown,
    PageUp,
    Left,
    Up,
    Right,
    Down,
    Back,
    Return,
    Space,
    Compose,
    Caret,
    Numlock,
    Numpad0,
    Numpad1,
    Numpad2,
    Numpad3,
    Numpad4,
    Numpad5,
    Numpad6,
    Numpad7,
    Numpad8,
    Numpad9,
    AbntC1,
    AbntC2,
    Add,
    Apostrophe,
    Apps,
    At,
    Ax,
    Backslash,
    Calculator,
    Capital,
    Colon,
    Comma,
    Convert,
    Decimal,
    Divide,
    Equals,
    Grave,
    Kana,
    Kanji,
    LAlt,
    LBracket,
    LControl,
    LShift,
    LWin,
    Mail,
    MediaSelect,
    MediaStop,
    Minus,
    Multiply,
    Mute,
    MyComputer,
    NavigateForward,
    NavigateBackward,
    NextTrack,
    NoConvert,
    NumpadComma,
    NumpadEnter,
    NumpadEquals,
    OEM102,
    Period,
    PlayPause,
    Power,
    PrevTrack,
    RAlt,
    RBracket,
    RControl,
    RShift,
    RWin,
    Semicolon,
    Slash,
    Sleep,
    Stop,
    Subtract,
    Sysrq,
    Tab,
    Underline,
    Unlabeled,
    VolumeDown,
    VolumeUp,
    Wake,
    WebBack,
    WebFavorites,
    WebForward,
    WebHome,
    WebRefresh,
    WebSearch,
    WebStop,
    Yen,
    Copy,
    Paste,
    Cut,
}

/// A mouse button as the windowing backend names it: one of the three main
/// buttons, or another one by its number.
#[derive(Clone, Copy, Debug, PartialEq, Eq, Structural)]
pub enum PointerButton {
    Left,
    Middle,
    Right,
    Other(u8),
}

/// The button that a backend key stands for. A key that the table does not
/// list, and a key press that came without a key name, is `Button::Unknown`.
pub open spec fn button_of_key(key: Option<VirtualKey>) -> Button {
    match key {
        None => Button::Unknown,
        Some(VirtualKey::Space) => Button::Space,
        Some(VirtualKey::Apostrophe) => Button::Apostrophe,
        Some(VirtualKey::Comma) => Button::Comma,
        Some(VirtualKey::Period) => Button::Period,
        Some(VirtualKey::Slash) => Button::Slash,
        Some(VirtualKey::Grave) => Button::Tilde,
        Some(VirtualKey::Key1) => Button::Num1,
        Some(VirtualKey::Key2) => Button::Num2,
        Some(VirtualKey::Key3) => Button::Num3,
        Some(VirtualKey::Key4) => Button::Num4,
        Some(VirtualKey::Key5) => Button::Num5,
        Some(VirtualKey::Key6) => Button::Num6,
        Some(VirtualKey::Key7) => Button::Num7,
        Some(VirtualKey::Key8) => Button::Num8,
        Some(VirtualKey::Key9) => Button::Num9,
        Some(VirtualKey::Key0) => Button::Num0,
        Some(VirtualKey::Subtract) => Button::Minus,
        Some(VirtualKey::Equals) => Button::Equals,
        Some(VirtualKey::A) => Button::A,
        Some(VirtualKey::B) => Button::B,
        Some(VirtualKey::C) => Button::C,
        Some(VirtualKey::D) => Button::D,
        Some(VirtualKey::E) => Button::E,
        Some(VirtualKey::F) => Button::F,
        Some(VirtualKey::G) => Button::G,
        Some(VirtualKey::H) => Button::H,
        Some(VirtualKey::I) => Button::I,
        Some(VirtualKey::J) => Button::J,
        Some(VirtualKey::K) => Button::K,
        Some(VirtualKey::L) => Button::L,
        Some(VirtualKey::M) => Button::M,
        Some(VirtualKey::N) => Button::N,
        Some(VirtualKey::O) => Button::O,
        Some(VirtualKey::P) => Button::P,
        Some(VirtualKey::Q) => Button::Q,
        Some(VirtualKey::R) => Button::R,
        Some(VirtualKey::S) => Button::S,
        Some(VirtualKey::T) => Button::T,
        Some(VirtualKey::U) => Button::U,
        Some(VirtualKey::V) => Button::V,
        Some(VirtualKey::W) => Button::W,
        Some(VirtualKey::X) => Button::X,
        Some(VirtualKey::Y) => Button::Y,
        Some(VirtualKey::Z) => Button::Z,
        Some(VirtualKey::LBracket) => Button::BracketLeft,
        Some(VirtualKey::RBracket) => Button::BracketRight,
        Some(VirtualKey::Backslash) => Button::Backslash,
        Some(VirtualKey::Semicolon) => Button::Semicolon,
        Some(VirtualKey::Escape) => Button::Esc,
        Some(VirtualKey::Return) => Button::Enter,
        Some(VirtualKey::Tab) => Button::Tab,
        Some(VirtualKey::Back) => Button::Backspace,
        Some(VirtualKey::Insert) => Button::Insert,
        Some(VirtualKey::Delete) => Button::Delete,
        Some(VirtualKey::Right) => Button::ArrowRight,
        Some(VirtualKey::Left) => Button::ArrowLeft,
        Some(VirtualKey::Down) => Button::ArrowDown,
        Some(VirtualKey::Up) => Button::ArrowUp,
        Some(VirtualKey::PageUp) => Button::PgUp,
        Some(VirtualKey::PageDown) => Button::PgDown,
        Some(VirtualKey::Home) => Button::Home,
        Some(VirtualKey::End) => Button::End,
        Some(VirtualKey::Capital) => Button::CapsLock,
        Some(VirtualKey::Scroll) => Button::ScrollLock,
        Some(VirtualKey::Numlock) => Button::NumLock,
        Some(VirtualKey::Snapshot) => Button::PrintScreen,
        Some(VirtualKey::Pause) => Button::Pause,
        Some(VirtualKey::F1) => Button::F1,
        Some(VirtualKey::F2) => Button::F2,
        Some(VirtualKey::F3) => Button::F3,
        Some(VirtualKey::F4) => Button::F4,
        Some(VirtualKey::F5) => Button::F5,
        Some(VirtualKey::F6) => Button::F6,
        Some(VirtualKey::F7) => Button::F7,
        Some(VirtualKey::F8) => Button::F8,
        Some(VirtualKey::F9) => Button::F9,
        Some(VirtualKey::F10) => Button::F10,
        Some(VirtualKey::F11) => Button::F11,
        Some(VirtualKey::F12) => Button::F12,
        Some(VirtualKey::Numpad0) => Button::NumPad0,
        Some(VirtualKey::Numpad1) => Button::NumPad1,
        Some(VirtualKey::Numpad2) => Button::NumPad2,
        Some(VirtualKey::Numpad3) => Button::NumPad3,
        Some(VirtualKey::Numpad4) => Button::NumPad4,
        Some(VirtualKey::Numpad5) => Button::NumPad5,
        Some(VirtualKey::Numpad6) => Button::NumPad6,
        Some(VirtualKey::Numpad7) => Button::NumPad7,
        Some(VirtualKey::Numpad8) => Button::NumPad8,
        Some(VirtualKey::Numpad9) => Button::NumPad9,
        Some(VirtualKey::NumpadComma) => Button::NumPadDec,
        Some(VirtualKey::Divide) => Button::NumPadDiv,
        Some(VirtualKey::Multiply) => Button::NumPadMult,
        Some(VirtualKey::Minus) => Button::NumPadSub,
        Some(VirtualKey::Add) => Button::NumPadAdd,
        Some(VirtualKey::NumpadEnter) => Button::NumPadEnter,
        Some(VirtualKey::NumpadEquals) => Button::NumPadEq,
        Some(VirtualKey::LShift) => Button::LShift,
        Some(VirtualKey::LControl) => Button::LCtrl,
        Some(VirtualKey::LAlt) => Button::LAlt,
        Some(VirtualKey::LWin) => Button::LSuper,
        Some(VirtualKey::RShift) => Button::RShift,
        Some(VirtualKey::RControl) => Button::RCtrl,
        Some(VirtualKey::RAlt) => Button::RAlt,
        Some(VirtualKey::RWin) => Button::RSuper,
        Some(_) => Button::Unknown,
    }
}

/// The button that a backend mouse button stands for: the three main buttons
/// by name, the numbers 4 to 8 as `Mouse4` to `Mouse8`, any other number as
/// `Button::Unknown`.
pub open spec fn button_of_pointer(button: PointerButton) -> Button {
    match button {
        PointerButton::Left => Button::MouseLeft,
        PointerButton::Middle => Button::MouseMiddle,
        PointerButton::Right => Button::MouseRight,
        PointerButton::Other(n) => if n == 4 {
            Button::Mouse4
        } else if n == 5 {
            Button::Mouse5
        } else if n == 6 {
            Button::Mouse6
        } else if n == 7 {
            Button::Mouse7
        } else if n == 8 {
            Button::Mouse8
        } else {
            Button::Unknown
        },
    }
}

/// Maps a key that the backend reported to the button it stands for.
pub fn convert_key(key: Option<VirtualKey>) -> (button: Button)
    ensures
        button == button_of_key(key),
{
    let key = match key {
        Some(key) => key,
        None => return Button::Unknown,
    };
    match key {
        VirtualKey::Space => Button::Space,
        VirtualKey::Apostrophe => Button::Apostrophe,
        VirtualKey::Comma => Button::Comma,
        VirtualKey::Period => Button::Period,
        VirtualKey::Slash => Button::Slash,
        VirtualKey::Grave => Button::Tilde,
        VirtualKey::Key1 => Button::Num1,
        VirtualKey::Key2 => Button::Num2,
        VirtualKey::Key3 => Button::Num3,
        VirtualKey::Key4 => Button::Num4,
        VirtualKey::Key5 => Button::Num5,
        VirtualKey::Key6 => Button::Num6,
        VirtualKey::Key7 => Button::Num7,
        VirtualKey::Key8 => Button::Num8,
        VirtualKey::Key9 => Button::Num9,
        VirtualKey::Key0 => Button::Num0,
        VirtualKey::Subtract => Button::Minus,
        VirtualKey::Equals => Button::Equals,
        VirtualKey::A => Button::A,
        VirtualKey::B => Button::B,
        VirtualKey::C => Button::C,
        VirtualKey::D => Button::D,
        VirtualKey::E => Button::E,
        VirtualKey::F => Button::F,
        VirtualKey::G => Button::G,
        VirtualKey::H => Button::H,
        VirtualKey::I => Button::I,
        VirtualKey::J => Button::J,
        VirtualKey::K => Button::K,
        VirtualKey::L => Button::L,
        VirtualKey::M => Button::M,
        VirtualKey::N => Button::N,
        VirtualKey::O => Button::O,
        VirtualKey::P => Button::P,
        VirtualKey::Q => Button::Q,
        VirtualKey::R => Button::R,
        VirtualKey::S => Button::S,
        VirtualKey::T => Button::T,
        VirtualKey::U => Button::U,
        VirtualKey::V => Button::V,
        VirtualKey::W => Button::W,
        VirtualKey::X => Button::X,
        VirtualKey::Y => Button::Y,
        VirtualKey::Z => Button::Z,
        VirtualKey::LBracket => Button::BracketLeft,
        VirtualKey::RBracket => Button::BracketRight,
        VirtualKey::Backslash => Button::Backslash,
        VirtualKey::Semicolon => Button::Semicolon,
        VirtualKey::Escape => Button::Esc,
        VirtualKey::Return => Button::Enter,
        VirtualKey::Tab => Button::Tab,
        VirtualKey::Back => Button::Backspace,
        VirtualKey::Insert => Button::Insert,
        VirtualKey::Delete => Button::Delete,
        VirtualKey::Right => Button::ArrowRight,
        VirtualKey::Left => Button::ArrowLeft,
        VirtualKey::Down => Button::ArrowDown,
        VirtualKey::Up => Button::ArrowUp,
        VirtualKey::PageUp => Button::PgUp,
        VirtualKey::PageDown => Button::PgDown,
        VirtualKey::Home => Button::Home,
        VirtualKey::End => Button::End,
        VirtualKey::Capital => Button::CapsLock,
        VirtualKey::Scroll => Button::ScrollLock,
        VirtualKey::Numlock => Button::NumLock,
        VirtualKey::Snapshot => Button::PrintScreen,
        VirtualKey::Pause => Button::Pause,
        VirtualKey::F1 => Button::F1,
        VirtualKey::F2 => Button::F2,
        VirtualKey::F3 => Button::F3,
        VirtualKey::F4 => Button::F4,
        VirtualKey::F5 => Button::F5,
        VirtualKey::F6 => Button::F6,
        VirtualKey::F7 => Button::F7,
        VirtualKey::F8 => Button::F8,
        VirtualKey::F9 => Button::F9,
        VirtualKey::F10 => Button::F10,
        VirtualKey::F11 => Button::F11,
        VirtualKey::F12 => Button::F12,
        VirtualKey::Numpad0 => Button::NumPad0,
        VirtualKey::Numpad1 => Button::NumPad1,
        VirtualKey::Numpad2 => Button::NumPad2,
        VirtualKey::Numpad3 => Button::NumPad3,
        VirtualKey::Numpad4 => Button::NumPad4,
        VirtualKey::Numpad5 => Button::NumPad5,
        VirtualKey::Numpad6 => Button::NumPad6,
        VirtualKey::Numpad7 => Button::NumPad7,
        VirtualKey::Numpad8 => Button::NumPad8,
        VirtualKey::Numpad9 => Button::NumPad9,
        VirtualKey::NumpadComma => Button::NumPadDec,
        VirtualKey::Divide => Button::NumPadDiv,
        VirtualKey::Multiply => Button::NumPadMult,
        VirtualKey::Minus => Button::NumPadSub,
        VirtualKey::Add => Button::NumPadAdd,
        VirtualKey::NumpadEnter => Button::NumPadEnter,
        VirtualKey::NumpadEquals => Button::NumPadEq,
        VirtualKey::LShift => Button::LShift,
        VirtualKey::LControl => Button::LCtrl,
        VirtualKey::LAlt => Button::LAlt,
        VirtualKey::LWin => Button::LSuper,
        VirtualKey::RShift => Button::RShift,
        VirtualKey::RControl => Button::RCtrl,
        VirtualKey::RAlt => Button::RAlt,
        VirtualKey::RWin => Button::RSuper,
        _ => Button::Unknown,
    }
}

/// Maps a mouse button that the backend reported to the button it stands for.
pub fn convert_pointer_button(button: PointerButton) -> (mapped: Button)
    ensures
        mapped == button_of_pointer(button),
{
    match button {
        PointerButton::Left => Button::MouseLeft,
        PointerButton::Middle => Button::MouseMiddle,
        PointerButton::Right => Button::MouseRight,
        PointerButton::Other(4) => Button::Mouse4,
        PointerButton::Other(5) => Button::Mouse5,
        PointerButton::Other(6) => Button::Mouse6,
        PointerButton::Other(7) => Button::Mouse7,
        PointerButton::Other(8) => Button::Mouse8,
        PointerButton::Other(_) => Button::Unknown,
    }
}

} // verus!
