use vstd::prelude::*;

verus! {

/// How many buttons have a flag in an input snapshot: every one but `Unknown`.
pub const BUTTON_COUNT: usize = 113;

/// A physical input: a mouse button or a key. The set is closed.
///
/// `Unknown` stands for whatever the backend reports and this set does not name.
#[derive(Clone, Copy, Debug, PartialEq, Eq, Structural)]
pub enum Button {
    Unknown,
    MouseLeft,
    MouseRight,
    MouseMiddle,
    Mouse4,
    Mouse5,
    Mouse6,
    Mouse7,
    Mouse8,
    LShift,
    LCtrl,
    LAlt,
    LSuper,
    RShift,
    RCtrl,
    RAlt,
    RSuper,
    Tab,
    CapsLock,
    Backspace,
    Esc,
    F1,
    F2,
    F3,
    F4,
    F5,
    F6,
    F7,
    F8,
    F9,
    F10,
    F11,
    F12,
    PrintScreen,
    ScrollLock,
    Pause,
    Insert,
    Delete,
    Home,
    End,
    PgUp,
    PgDown,
    Menu,
    ArrowLeft,
    ArrowUp,
    ArrowRight,
    ArrowDown,
    Tilde,
    Num1,
    Num2,
    Num3,
    Num4,
    Num5,
    Num6,
    Num7,
    Num8,
    Num9,
    Num0,
    Q,
    W,
    E,
    R,
    T,
    Y,
    U,
    I,
    O,
    P,
    A,
    S,
    D,
    F,
    G,
    H,
    J,
    K,
    L,
    Z,
    X,
    C,
    V,
    B,
    N,
    M,
    Space,
    Minus,
    Equals,
    BracketLeft,
    BracketRight,
    Backslash,
    Semicolon,
    Apostrophe,
    Enter,
    Comma,
    Period,
    Slash,
    NumPad0,
    NumPad1,
    NumPad2,
    NumPad3,
    NumPad4,
    NumPad5,
    NumPad6,
    NumPad7,
    NumPad8,
    NumPad9,
    NumLock,
    NumPadDec,
    NumPadDiv,
    NumPadMult,
    NumPadSub,
    NumPadAdd,
    NumPadEq,
    NumPadEnter,
}

impl Button {
    /// The place of this button's flag in an input snapshot. `Unknown` has none.
    pub open spec fn slot(self) -> Option<usize> {
        match self {
            Button::Unknown => None,
            Button::MouseLeft => Some(0),
            Button::MouseRight => Some(1),
            Button::MouseMiddle => Some(2),
            Button::Mouse4 => Some(3),
            Button::Mouse5 => Some(4),
            Button::Mouse6 => Some(5),
            Button::Mouse7 => Some(6),
            Button::Mouse8 => Some(7),
            Button::LShift => Some(8),
            Button::LCtrl => Some(9),
            Button::LAlt => Some(10),
            Button::LSuper => Some(11),
            Button::RShift => Some(12),
            Button::RCtrl => Some(13),
            Button::RAlt => Some(14),
            Button::RSuper => Some(15),
            Button::Tab => Some(16),
            Button::CapsLock => Some(17),
            Button::Backspace => Some(18),
            Button::Esc => Some(19),
            Button::F1 => Some(20),
            Button::F2 => Some(21),
            Button::F3 => Some(22),
            Button::F4 => Some(23),
            Button::F5 => Some(24),
            Button::F6 => Some(25),
            Button::F7 => Some(26),
            Button::F8 => Some(27),
            Button::F9 => Some(28),
            Button::F10 => Some(29),
            Button::F11 => Some(30),
            Button::F12 => Some(31),
            Button::PrintScreen => Some(32),
            Button::ScrollLock => Some(33),
            Button::Pause => Some(34),
            Button::Insert => Some(35),
            Button::Delete => Some(36),
            Button::Home => Some(37),
            Button::End => Some(38),
            Button::PgUp => Some(39),
            Button::PgDown => Some(40),
            Button::Menu => Some(41),
            Button::ArrowLeft => Some(42),
            Button::ArrowUp => Some(43),
            Button::ArrowRight => Some(44),
            Button::ArrowDown => Some(45),
            Button::Tilde => Some(46),
            Button::Num1 => Some(47),
            Button::Num2 => Some(48),
            Button::Num3 => Some(49),
            Button::Num4 => Some(50),
            Button::Num5 => Some(51),
            Button::Num6 => Some(52),
            Button::Num7 => Some(53),
            Button::Num8 => Some(54),
            Button::Num9 => Some(55),
            Button::Num0 => Some(56),
            Button::Q => Some(57),
            Button::W => Some(58),
            Button::E => Some(59),
            Button::R => Some(60),
            Button::T => Some(61),
            Button::Y => Some(62),
            Button::U => Some(63),
            Button::I => Some(64),
            Button::O => Some(65),
            Button::P => Some(66),
            Button::A => Some(67),
            Button::S => Some(68),
            Button::D => Some(69),
            Button::F => Some(70),
            Button::G => Some(71),
            Button::H => Some(72),
            Button::J => Some(73),
            Button::K => Some(74),
            Button::L => Some(75),
            Button::Z => Some(76),
            Button::X => Some(77),
            Button::C => Some(78),
            Button::V => Some(79),
            Button::B => Some(80),
            Button::N => Some(81),
            Button::M => Some(82),
            Button::Space => Some(83),
            Button::Minus => Some(84),
            Button::Equals => Some(85),
            Button::BracketLeft => Some(86),
            Button::BracketRight => Some(87),
            Button::Backslash => Some(88),
            Button::Semicolon => Some(89),
            Button::Apostrophe => Some(90),
            Button::Enter => Some(91),
            Button::Comma => Some(92),
            Button::Period => Some(93),
            Button::Slash => Some(94),
            Button::NumPad0 => Some(95),
            Button::NumPad1 => Some(96),
            Button::NumPad2 => Some(97),
            Button::NumPad3 => Some(98),
            Button::NumPad4 => Some(99),
            Button::NumPad5 => Some(100),
            Button::NumPad6 => Some(101),
            Button::NumPad7 => Some(102),
            Button::NumPad8 => Some(103),
            Button::NumPad9 => Some(104),
            Button::NumLock => Some(105),
            Button::NumPadDec => Some(106),
            Button::NumPadDiv => Some(107),
            Button::NumPadMult => Some(108),
            Button::NumPadSub => Some(109),
            Button::NumPadAdd => Some(110),
            Button::NumPadEq => Some(111),
            Button::NumPadEnter => Some(112),
        }
    }

    /// Computes `slot`.
    pub fn slot_of(self) -> (slot: Option<usize>)
        ensures
            slot == self.slot(),
    {
        match self {
            Button::Unknown => None,
            Button::MouseLeft => Some(0),
            Button::MouseRight => Some(1),
            Button::MouseMiddle => Some(2),
            Button::Mouse4 => Some(3),
            Button::Mouse5 => Some(4),
            Button::Mouse6 => Some(5),
            Button::Mouse7 => Some(6),
            Button::Mouse8 => Some(7),
            Button::LShift => Some(8),
            Button::LCtrl => Some(9),
            Button::LAlt => Some(10),
            Button::LSuper => Some(11),
            Button::RShift => Some(12),
            Button::RCtrl => Some(13),
            Button::RAlt => Some(14),
            Button::RSuper => Some(15),
            Button::Tab => Some(16),
            Button::CapsLock => Some(17),
            Button::Backspace => Some(18),
            Button::Esc => Some(19),
            Button::F1 => Some(20),
            Button::F2 => Some(21),
            Button::F3 => Some(22),
            Button::F4 => Some(23),
            Button::F5 => Some(24),
            Button::F6 => Some(25),
            Button::F7 => Some(26),
            Button::F8 => Some(27),
            Button::F9 => Some(28),
            Button::F10 => Some(29),
            Button::F11 => Some(30),
            Button::F12 => Some(31),
            Button::PrintScreen => Some(32),
            Button::ScrollLock => Some(33),
            Button::Pause => Some(34),
            Button::Insert => Some(35),
            Button::Delete => Some(36),
            Button::Home => Some(37),
            Button::End => Some(38),
            Button::PgUp => Some(39),
            Button::PgDown => Some(40),
            Button::Menu => Some(41),
            Button::ArrowLeft => Some(42),
            Button::ArrowUp => Some(43),
            Button::ArrowRight => Some(44),
            Button::ArrowDown => Some(45),
            Button::Tilde => Some(46),
            Button::Num1 => Some(47),
            Button::Num2 => Some(48),
            Button::Num3 => Some(49),
            Button::Num4 => Some(50),
            Button::Num5 => Some(51),
            Button::Num6 => Some(52),
            Button::Num7 => Some(53),
            Button::Num8 => Some(54),
            Button::Num9 => Some(55),
            Button::Num0 => Some(56),
            Button::Q => Some(57),
            Button::W => Some(58),
            Button::E => Some(59),
            Button::R => Some(60),
            Button::T => Some(61),
            Button::Y => Some(62),
            Button::U => Some(63),
            Button::I => Some(64),
            Button::O => Some(65),
            Button::P => Some(66),
            Button::A => Some(67),
            Button::S => Some(68),
            Button::D => Some(69),
            Button::F => Some(70),
            Button::G => Some(71),
            Button::H => Some(72),
            Button::J => Some(73),
            Button::K => Some(74),
            Button::L => Some(75),
            Button::Z => Some(76),
            Button::X => Some(77),
            Button::C => Some(78),
            Button::V => Some(79),
            Button::B => Some(80),
            Button::N => Some(81),
            Button::M => Some(82),
            Button::Space => Some(83),
            Button::Minus => Some(84),
            Button::Equals => Some(85),
            Button::BracketLeft => Some(86),
            Button::BracketRight => Some(87),
            Button::Backslash => Some(88),
            Button::Semicolon => Some(89),
            Button::Apostrophe => Some(90),
            Button::Enter => Some(91),
            Button::Comma => Some(92),
            Button::Period => Some(93),
            Button::Slash => Some(94),
            Button::NumPad0 => Some(95),
            Button::NumPad1 => Some(96),
            Button::NumPad2 => Some(97),
            Button::NumPad3 => Some(98),
            Button::NumPad4 => Some(99),
            Button::NumPad5 => Some(100),
            Button::NumPad6 => Some(101),
            Button::NumPad7 => Some(102),
            Button::NumPad8 => Some(103),
            Button::NumPad9 => Some(104),
            Button::NumLock => Some(105),
            Button::NumPadDec => Some(106),
            Button::NumPadDiv => Some(107),
            Button::NumPadMult => Some(108),
            Button::NumPadSub => Some(109),
            Button::NumPadAdd => Some(110),
            Button::NumPadEq => Some(111),
            Button::NumPadEnter => Some(112),
        }
    }

    /// Every button but `Unknown` has a slot below `BUTTON_COUNT`, and no two
    /// buttons share one.
    pub proof fn lemma_slots_distinct(a: Button, b: Button)
        ensures
            a.slot() is None <==> a == Button::Unknown,
            a.slot() matches Some(i) ==> i < BUTTON_COUNT,
            a.slot() is Some && a.slot() == b.slot() ==> a == b,
    {
    }
}

} // verus!
