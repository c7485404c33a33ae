use vstd::prelude::*;

verus! {

/// Types that can be transformed into a matrix row and column.
pub trait IntoMatrixRowColumn {
    /// The matrix address this value stands for.
    spec fn spec_matrix_row_and_column(&self) -> (u8, u8);

    /// The address lies within the scan matrix: its row below 6 and its
    /// column below 21.
    proof fn matrix_address_in_bounds(&self)
        ensures
            self.spec_matrix_row_and_column().0 < 6,
            self.spec_matrix_row_and_column().1 < 21,
    ;

    /// Return a tuple `(row, column)` that represents the matrix row and
    /// column for this type. Addresses always lie within the 6 x 21 scan
    /// matrix.
    fn into_matrix_row_and_column(&self) -> (rc: (u8, u8))
        ensures
            rc == self.spec_matrix_row_and_column(),
            rc.0 < 6,
            rc.1 < 21,
    ;
}

/// Types that can be associated with a scan index.
pub trait FromScanIndex: Sized {
    /// The value, if any, that the given scan index decodes to.
    spec fn spec_from_scan_index(index: u8) -> Option<Self>;

    /// Return the instance of this type for the given scan index.
    fn from_scan_index(index: u8) -> (r: Option<Self>)
        ensures
            r == Self::spec_from_scan_index(index),
    ;
}

/// A key on the keyboard.
#[derive(Clone, Copy, Debug, Hash, Eq, PartialEq, Structural)]
pub enum Key {
    /// Escape key (`Esc`).
    Escape,
    /// Function key (`F1`).
    F1,
    /// Function key (`F2`).
    F2,
    /// Function key (`F3`).
    F3,
    /// Function key (`F4`).
    F4,
    /// Function key (`F5`).
    F5,
    /// Function key (`F6`).
    F6,
    /// Function key (`F7`).
    F7,
    /// Function key (`F8`).
    F8,
    /// Function key (`F9`).
    F9,
    /// Function key (`F10`).
    F10,
    /// Function key (`F11`).
    F11,
    /// Function key (`F12`).
    F12,
    /// Print screen key (`Prt Sc`).
    PrintScreen,
    /// Pause (or break) key.
    Pause,
    /// Scroll lock key (`Scr Lk`).
    ScrollLock,
    /// Analog profile key (`A1`).
    A1,
    /// Analog profile key (`A2`).
    A2,
    /// Analog profile key (`A3`).
    A3,
    /// Mode key.
    Mode,
    /// Tilde key (`~`).
    Tilde,
    /// Number one key (`1`).
    One,
    /// Number two key (`2`).
    Two,
    /// Number three key (`3`).
    Three,
    /// Number four key (`4`).
    Four,
    /// Number five key (`5`).
    Five,
    /// Number six key (`6`).
    Six,
    /// Number seven key (`7`).
    Seven,
    /// Number eight key (`8`).
    Eight,
    /// Number nine key (`9`).
    Nine,
    /// Number zero key (`0`).
    Zero,
    /// Dash or hyphen key (`-`).
    Dash,
    /// Equals key (`=`).
    Equals,
    /// Backspace key.
    Backspace,
    /// Insert key (`Ins`).
    Insert,
    /// Home key.
    Home,
    /// Page up key (`Pg Up`).
    PageUp,
    /// Number lock key (`Num`).
    NumLock,
    /// Divide key on the numpad (`/`).
    NumDivide,
    /// Multiply key on the numpad (`*`).
    NumMultiply,
    /// Subtract key on the numpad (`-`).
    NumSubtract,
    /// Tab key.
    Tab,
    /// Letter `q` key.
    Q,
    /// Letter `w` key.
    W,
    /// Letter `e` key.
    E,
    /// Letter `r` key.
    R,
    /// Letter `t` key.
    T,
    /// Letter `y` key.
    Y,
    /// Letter `u` key.
    U,
    /// Letter `i` key.
    I,
    /// Letter `o` key.
    O,
    /// Letter `p` key.
    P,
    /// Left square bracket key (`[`).
    LeftBracket,
    /// Right square bracket key (`]`).
    RightBracket,
    /// Backslash key (`\`).
    Backslash,
    /// Delete key (`Del`).
    Delete,
    /// End key.
    End,
    /// Page down key (`Pg Dn`).
    PageDown,
    /// Number seven key (`7`) on the numpad.
    NumSeven,
    /// Number eight key (`8`) on the numpad.
    NumEight,
    /// Number nine key (`9`) on the numpad.
    NumNine,
    /// Addition key on the numpad (`+`).
    NumAddition,
    /// Capitalization lock key.
    CapsLock,
    /// Letter `a` key.
    A,
    /// Letter `s` key.
    S,
    /// Letter `d` key.
    D,
    /// Letter `f` key.
    F,
    /// Letter `g` key.
    G,
    /// Letter `h` key.
    H,
    /// Letter `j` key.
    J,
    /// Letter `k` key.
    K,
    /// Letter `l` key.
    L,
    /// Semi-colon key (`;`).
    SemiColon,
    /// Apostrophe key (`'`).
    Apostrophe,
    /// Represents a key that is specific to the keyboard layout.
    ISO1,
    /// Return (or enter) key.
    Return,
    /// Number four key (`4`) on the numpad.
    NumFour,
    /// Number five key (`5`) on the numpad.
    NumFive,
    /// Number six key (`6`) on the numpad.
    NumSix,
    /// Left shift modifier key.
    LeftShift,
    /// Represents a key that is specific to the keyboard layout.
    ISO2,
    /// Letter `z` key.
    Z,
    /// Letter `x` key.
    X,
    /// Letter `c` key.
    C,
    /// Letter `v` key.
    V,
    /// Letter `b` key.
    B,
    /// Letter `n` key.
    N,
    /// Letter `m` key.
    M,
    /// Comma key (`,`).
    Comma,
    /// Period key (`.`).
    Period,
    /// Forward slash key (`/`).
    ForwardSlash,
    /// Right shift modifier key.
    RightShift,
    /// Up arrow key.
    UpArrow,
    /// Number one key (`1`) on the numpad.
    NumOne,
    /// Number two key (`2`) on the numpad.
    NumTwo,
    /// Number three key (`3`) on the numpad.
    NumThree,
    /// Return (or enter) key on the numpad.
    NumReturn,
    /// Left control modifier key.
    LeftControl,
    /// Left mod (or Windows) modifier key.
    LeftMod,
    /// Left alt modifier key.
    LeftAlt,
    /// Space key (` `).
    Space,
    /// Right alt modifier key.
    RightAlt,
    /// Right mod modifier key.
    RightMod,
    /// Function key (`Fn`).
    Fn,
    /// Right control modifier key.
    RightControl,
    /// Left arrow key.
    LeftArrow,
    /// Down arrow key.
    DownArrow,
    /// Right arrow key.
    RightArrow,
    /// Number zero key (`0`) on the numpad.
    NumZero,
    /// Delete key (`Del`) on the numpad.
    NumDelete,
}

/// The matrix address of each key: its row and column in the physical
/// 6 x 21 scan matrix.
pub open spec fn matrix_address(key: Key) -> (u8, u8) {
    match key {
        Key::Escape => (0, 0),
        Key::F1 => (0, 2),
        Key::F2 => (0, 3),
        Key::F3 => (0, 4),
        Key::F4 => (0, 5),
        Key::F5 => (0, 6),
        Key::F6 => (0, 7),
        Key::F7 => (0, 8),
        Key::F8 => (0, 9),
        Key::F9 => (0, 10),
        Key::F10 => (0, 11),
        Key::F11 => (0, 12),
        Key::F12 => (0, 13),
        Key::PrintScreen => (0, 14),
        Key::Pause => (0, 15),
        Key::ScrollLock => (0, 16),
        Key::A1 => (0, 17),
        Key::A2 => (0, 18),
        Key::A3 => (0, 19),
        Key::Mode => (0, 20),
        Key::Tilde => (1, 0),
        Key::One => (1, 1),
        Key::Two => (1, 2),
        Key::Three => (1, 3),
        Key::Four => (1, 4),
        Key::Five => (1, 5),
        Key::Six => (1, 6),
        Key::Seven => (1, 7),
        Key::Eight => (1, 8),
        Key::Nine => (1, 9),
        Key::Zero => (1, 10),
        Key::Dash => (1, 11),
        Key::Equals => (1, 12),
        Key::Backspace => (1, 13),
        Key::Insert => (1, 14),
        Key::Home => (1, 15),
        Key::PageUp => (1, 16),
        Key::NumLock => (1, 17),
        Key::NumDivide => (1, 18),
        Key::NumMultiply => (1, 19),
        Key::NumSubtract => (1, 20),
        Key::Tab => (2, 0),
        Key::Q => (2, 1),
        Key::W => (2, 2),
        Key::E => (2, 3),
        Key::R => (2, 4),
        Key::T => (2, 5),
        Key::Y => (2, 6),
        Key::U => (2, 7),
        Key::I => (2, 8),
        Key::O => (2, 9),
        Key::P => (2, 10),
        Key::LeftBracket => (2, 11),
        Key::RightBracket => (2, 12),
        Key::Backslash => (2, 13),
        Key::Delete => (2, 14),
        Key::End => (2, 15),
        Key::PageDown => (2, 16),
        Key::NumSeven => (2, 17),
        Key::NumEight => (2, 18),
        Key::NumNine => (2, 19),
        Key::NumAddition => (2, 20),
        Key::CapsLock => (3, 0),
        Key::A => (3, 1),
        Key::S => (3, 2),
        Key::D => (3, 3),
        Key::F => (3, 4),
        Key::G => (3, 5),
        Key::H => (3, 6),
        Key::J => (3, 7),
        Key::K => (3, 8),
        Key::L => (3, 9),
        Key::SemiColon => (3, 10),
        Key::Apostrophe => (3, 11),
        Key::ISO1 => (3, 12),
        Key::Return => (3, 13),
        Key::NumFour => (3, 17),
        Key::NumFive => (3, 18),
        Key::NumSix => (3, 19),
        Key::LeftShift => (4, 0),
        Key::ISO2 => (4, 1),
        Key::Z => (4, 2),
        Key::X => (4, 3),
        Key::C => (4, 4),
        Key::V => (4, 5),
        Key::B => (4, 6),
        Key::N => (4, 7),
        Key::M => (4, 8),
        Key::Comma => (4, 9),
        Key::Period => (4, 10),
        Key::ForwardSlash => (4, 11),
        Key::RightShift => (4, 13),
        Key::UpArrow => (4, 15),
        Key::NumOne => (4, 17),
        Key::NumTwo => (4, 18),
        Key::NumThree => (4, 19),
        Key::NumReturn => (4, 20),
        Key::LeftControl => (5, 0),
        Key::LeftMod => (5, 1),
        Key::LeftAlt => (5, 2),
        Key::Space => (5, 6),
        Key::RightAlt => (5, 10),
        Key::RightMod => (5, 11),
        Key::Fn => (5, 12),
        Key::RightControl => (5, 13),
        Key::LeftArrow => (5, 14),
        Key::DownArrow => (5, 15),
        Key::RightArrow => (5, 16),
        Key::NumZero => (5, 18),
        Key::NumDelete => (5, 19),
    }
}

/// The key, if any, that the analog SDK's scan index decodes to. Indices
/// 88, 89, and 111 upward have no key assigned; index 45 is shared by
/// `ISO1` and `Backslash` and decodes to `ISO1`.
pub open spec fn key_from_scan_index(index: u8) -> Option<Key> {
    match index {
        0 => Some(Key::Escape),
        1 => Some(Key::F1),
        2 => Some(Key::F2),
        3 => Some(Key::F3),
        4 => Some(Key::F4),
        5 => Some(Key::F5),
        6 => Some(Key::F6),
        7 => Some(Key::F7),
        8 => Some(Key::F8),
        9 => Some(Key::F9),
        10 => Some(Key::F10),
        11 => Some(Key::F11),
        12 => Some(Key::F12),
        13 => Some(Key::PrintScreen),
        14 => Some(Key::Pause),
        15 => Some(Key::ScrollLock),
        16 => Some(Key::Tilde),
        17 => Some(Key::One),
        18 => Some(Key::Two),
        19 => Some(Key::Three),
        20 => Some(Key::Four),
        21 => Some(Key::Five),
        22 => Some(Key::Six),
        23 => Some(Key::Seven),
        24 => Some(Key::Eight),
        25 => Some(Key::Nine),
        26 => Some(Key::Zero),
        27 => Some(Key::Dash),
        28 => Some(Key::Equals),
        29 => Some(Key::Backspace),
        30 => Some(Key::Insert),
        31 => Some(Key::Home),
        32 => Some(Key::Tab),
        33 => Some(Key::Q),
        34 => Some(Key::W),
        35 => Some(Key::E),
        36 => Some(Key::R),
        37 => Some(Key::T),
        38 => Some(Key::Y),
        39 => Some(Key::U),
        40 => Some(Key::I),
        41 => Some(Key::O),
        42 => Some(Key::P),
        43 => Some(Key::LeftBracket),
        44 => Some(Key::RightBracket),
        45 => Some(Key::ISO1),
        46 => Some(Key::Delete),
        47 => Some(Key::End),
        48 => Some(Key::CapsLock),
        49 => Some(Key::A),
        50 => Some(Key::S),
        51 => Some(Key::D),
        52 => Some(Key::F),
        53 => Some(Key::G),
        54 => Some(Key::H),
        55 => Some(Key::I),
        56 => Some(Key::J),
        57 => Some(Key::K),
        58 => Some(Key::L),
        59 => Some(Key::SemiColon),
        60 => Some(Key::Return),
        61 => Some(Key::PageUp),
        62 => Some(Key::PageDown),
        63 => Some(Key::UpArrow),
        64 => Some(Key::LeftShift),
        65 => Some(Key::Z),
        66 => Some(Key::X),
        67 => Some(Key::C),
        68 => Some(Key::V),
        69 => Some(Key::B),
        70 => Some(Key::N),
        71 => Some(Key::M),
        72 => Some(Key::Comma),
        73 => Some(Key::Period),
        74 => Some(Key::ForwardSlash),
        75 => Some(Key::RightShift),
        76 => Some(Key::LeftArrow),
        77 => Some(Key::DownArrow),
        78 => Some(Key::RightArrow),
        79 => Some(Key::RightControl),
        80 => Some(Key::LeftControl),
        81 => Some(Key::LeftMod),
        82 => Some(Key::LeftAlt),
        83 => Some(Key::Space),
        84 => Some(Key::RightAlt),
        85 => Some(Key::RightMod),
        86 => Some(Key::Fn),
        87 => Some(Key::ISO2),
        90 => Some(Key::NumOne),
        91 => Some(Key::NumTwo),
        92 => Some(Key::NumThree),
        93 => Some(Key::NumReturn),
        94 => Some(Key::NumDelete),
        95 => Some(Key::NumZero),
        96 => Some(Key::NumSix),
        97 => Some(Key::NumFive),
        98 => Some(Key::NumFour),
        99 => Some(Key::NumAddition),
        100 => Some(Key::NumNine),
        101 => Some(Key::NumEight),
        102 => Some(Key::NumSeven),
        103 => Some(Key::NumSubtract),
        104 => Some(Key::NumMultiply),
        105 => Some(Key::NumDivide),
        106 => Some(Key::NumLock),
        107 => Some(Key::A1),
        108 => Some(Key::A2),
        109 => Some(Key::A3),
        110 => Some(Key::Mode),
        _ => None,
    }
}

/// The scan index the hardware assigns to each key. `Apostrophe` has no
/// index in the hardware's table; `Backslash` shares index 45 with `ISO1`;
/// `I` also answers to index 55, with 40 as its own.
pub open spec fn scan_index(key: Key) -> Option<u8> {
    match key {
        Key::Escape => Some(0),
        Key::F1 => Some(1),
        Key::F2 => Some(2),
        Key::F3 => Some(3),
        Key::F4 => Some(4),
        Key::F5 => Some(5),
        Key::F6 => Some(6),
        Key::F7 => Some(7),
        Key::F8 => Some(8),
        Key::F9 => Some(9),
        Key::F10 => Some(10),
        Key::F11 => Some(11),
        Key::F12 => Some(12),
        Key::PrintScreen => Some(13),
        Key::Pause => Some(14),
        Key::ScrollLock => Some(15),
        Key::A1 => Some(107),
        Key::A2 => Some(108),
        Key::A3 => Some(109),
        Key::Mode => Some(110),
        Key::Tilde => Some(16),
        Key::One => Some(17),
        Key::Two => Some(18),
        Key::Three => Some(19),
        Key::Four => Some(20),
        Key::Five => Some(21),
        Key::Six => Some(22),
        Key::Seven => Some(23),
        Key::Eight => Some(24),
        Key::Nine => Some(25),
        Key::Zero => Some(26),
        Key::Dash => Some(27),
        Key::Equals => Some(28),
        Key::Backspace => Some(29),
        Key::Insert => Some(30),
        Key::Home => Some(31),
        Key::PageUp => Some(61),
        Key::NumLock => Some(106),
        Key::NumDivide => Some(105),
        Key::NumMultiply => Some(104),
        Key::NumSubtract => Some(103),
        Key::Tab => Some(32),
        Key::Q => Some(33),
        Key::W => Some(34),
        Key::E => Some(35),
        Key::R => Some(36),
        Key::T => Some(37),
        Key::Y => Some(38),
        Key::U => Some(39),
        Key::I => Some(40),
        Key::O => Some(41),
        Key::P => Some(42),
        Key::LeftBracket => Some(43),
        Key::RightBracket => Some(44),
        Key::Backslash => Some(45),
        Key::Delete => Some(46),
        Key::End => Some(47),
        Key::PageDown => Some(62),
        Key::NumSeven => Some(102),
        Key::NumEight => Some(101),
        Key::NumNine => Some(100),
        Key::NumAddition => Some(99),
        Key::CapsLock => Some(48),
        Key::A => Some(49),
        Key::S => Some(50),
        Key::D => Some(51),
        Key::F => Some(52),
        Key::G => Some(53),
        Key::H => Some(54),
        Key::J => Some(56),
        Key::K => Some(57),
        Key::L => Some(58),
        Key::SemiColon => Some(59),
        Key::Apostrophe => None,
        Key::ISO1 => Some(45),
        Key::Return => Some(60),
        Key::NumFour => Some(98),
        Key::NumFive => Some(97),
        Key::NumSix => Some(96),
        Key::LeftShift => Some(64),
        Key::ISO2 => Some(87),
        Key::Z => Some(65),
        Key::X => Some(66),
        Key::C => Some(67),
        Key::V => Some(68),
        Key::B => Some(69),
        Key::N => Some(70),
        Key::M => Some(71),
        Key::Comma => Some(72),
        Key::Period => Some(73),
        Key::ForwardSlash => Some(74),
        Key::RightShift => Some(75),
        Key::UpArrow => Some(63),
        Key::NumOne => Some(90),
        Key::NumTwo => Some(91),
        Key::NumThree => Some(92),
        Key::NumReturn => Some(93),
        Key::LeftControl => Some(80),
        Key::LeftMod => Some(81),
        Key::LeftAlt => Some(82),
        Key::Space => Some(83),
        Key::RightAlt => Some(84),
        Key::RightMod => Some(85),
        Key::Fn => Some(86),
        Key::RightControl => Some(79),
        Key::LeftArrow => Some(76),
        Key::DownArrow => Some(77),
        Key::RightArrow => Some(78),
        Key::NumZero => Some(95),
        Key::NumDelete => Some(94),
    }
}

/// The human-readable label of each key.
pub open spec fn spec_name(key: Key) -> Seq<char> {
    match key {
        Key::Escape => "Esc"@,
        Key::F1 => "F1"@,
        Key::F2 => "F2"@,
        Key::F3 => "F3"@,
        Key::F4 => "F4"@,
        Key::F5 => "F5"@,
        Key::F6 => "F6"@,
        Key::F7 => "F7"@,
        Key::F8 => "F8"@,
        Key::F9 => "F9"@,
        Key::F10 => "F10"@,
        Key::F11 => "F11"@,
        Key::F12 => "F12"@,
        Key::PrintScreen => "Print Screen"@,
        Key::Pause => "Pause"@,
        Key::ScrollLock => "Scroll Lock"@,
        Key::A1 => "A1"@,
        Key::A2 => "A2"@,
        Key::A3 => "A3"@,
        Key::Mode => "Mode"@,
        Key::Tilde => "~"@,
        Key::One => "1"@,
        Key::Two => "2"@,
        Key::Three => "3"@,
        Key::Four => "4"@,
        Key::Five => "5"@,
        Key::Six => "6"@,
        Key::Seven => "7"@,
        Key::Eight => "8"@,
        Key::Nine => "9"@,
        Key::Zero => "0"@,
        Key::Dash => "-"@,
        Key::Equals => "="@,
        Key::Backspace => "Backspace"@,
        Key::Insert => "Insert"@,
        Key::Home => "Home"@,
        Key::PageUp => "Page Up"@,
        Key::NumLock => "Num Lock"@,
        Key::NumDivide => "\\"@,
        Key::NumMultiply => "*"@,
        Key::NumSubtract => "-"@,
        Key::Tab => "Tab"@,
        Key::Q => "Q"@,
        Key::W => "W"@,
        Key::E => "E"@,
        Key::R => "R"@,
        Key::T => "T"@,
        Key::Y => "Y"@,
        Key::U => "U"@,
        Key::I => "I"@,
        Key::O => "O"@,
        Key::P => "P"@,
        Key::LeftBracket => "["@,
        Key::RightBracket => "]"@,
        Key::Backslash => "\\"@,
        Key::Delete => "Delete"@,
        Key::End => "End"@,
        Key::PageDown => "Page Down"@,
        Key::NumSeven => "7"@,
        Key::NumEight => "8"@,
        Key::NumNine => "9"@,
        Key::NumAddition => "+"@,
        Key::CapsLock => "Caps Lock"@,
        Key::A => "A"@,
        Key::S => "S"@,
        Key::D => "D"@,
        Key::F => "F"@,
        Key::G => "G"@,
        Key::H => "H"@,
        Key::J => "J"@,
        Key::K => "K"@,
        Key::L => "L"@,
        Key::SemiColon => ";"@,
        Key::Apostrophe => "'"@,
        Key::ISO1 => "ISO"@,
        Key::Return => "Return"@,
        Key::NumFour => "4"@,
        Key::NumFive => "5"@,
        Key::NumSix => "6"@,
        Key::LeftShift => "Left Shift"@,
        Key::ISO2 => "ISO"@,
        Key::Z => "Z"@,
        Key::X => "X"@,
        Key::C => "C"@,
        Key::V => "V"@,
        Key::B => "B"@,
        Key::N => "N"@,
        Key::M => "M"@,
        Key::Comma => "Comma"@,
        Key::Period => "Period"@,
        Key::ForwardSlash => "/"@,
        Key::RightShift => "Right Shift"@,
        Key::UpArrow => "Up Arrow"@,
        Key::NumOne => "1"@,
        Key::NumTwo => "2"@,
        Key::NumThree => "3"@,
        Key::NumReturn => "Return"@,
        Key::LeftControl => "Left Control"@,
        Key::LeftMod => "Left Mod"@,
        Key::LeftAlt => "Left Alt"@,
        Key::Space => "Space"@,
        Key::RightAlt => "Right Alt"@,
        Key::RightMod => "Right Mod"@,
        Key::Fn => "Fn"@,
        Key::RightControl => "Right Control"@,
        Key::LeftArrow => "Left Arrow"@,
        Key::DownArrow => "Down Arrow"@,
        Key::RightArrow => "Right Arrow"@,
        Key::NumZero => "0"@,
        Key::NumDelete => "Delete"@,
    }
}

impl Key {
    /// The human-readable label used to display the key.
    pub fn name(&self) -> (r: &'static str)
        ensures
            r@ == spec_name(*self),
    {
        match *self {
            Key::Escape => "Esc",
            Key::F1 => "F1",
            Key::F2 => "F2",
            Key::F3 => "F3",
            Key::F4 => "F4",
            Key::F5 => "F5",
            Key::F6 => "F6",
            Key::F7 => "F7",
            Key::F8 => "F8",
            Key::F9 => "F9",
            Key::F10 => "F10",
            Key::F11 => "F11",
            Key::F12 => "F12",
            Key::PrintScreen => "Print Screen",
            Key::Pause => "Pause",
            Key::ScrollLock => "Scroll Lock",
            Key::A1 => "A1",
            Key::A2 => "A2",
            Key::A3 => "A3",
            Key::Mode => "Mode",
            Key::Tilde => "~",
            Key::One => "1",
            Key::Two => "2",
            Key::Three => "3",
            Key::Four => "4",
            Key::Five => "5",
            Key::Six => "6",
            Key::Seven => "7",
            Key::Eight => "8",
            Key::Nine => "9",
            Key::Zero => "0",
            Key::Dash => "-",
            Key::Equals => "=",
            Key::Backspace => "Backspace",
            Key::Insert => "Insert",
            Key::Home => "Home",
            Key::PageUp => "Page Up",
            Key::NumLock => "Num Lock",
            Key::NumDivide => "\\",
            Key::NumMultiply => "*",
            Key::NumSubtract => "-",
            Key::Tab => "Tab",
            Key::Q => "Q",
            Key::W => "W",
            Key::E => "E",
            Key::R => "R",
            Key::T => "T",
            Key::Y => "Y",
            Key::U => "U",
            Key::I => "I",
            Key::O => "O",
            Key::P => "P",
            Key::LeftBracket => "[",
            Key::RightBracket => "]",
            Key::Backslash => "\\",
            Key::Delete => "Delete",
            Key::End => "End",
            Key::PageDown => "Page Down",
            Key::NumSeven => "7",
            Key::NumEight => "8",
            Key::NumNine => "9",
            Key::NumAddition => "+",
            Key::CapsLock => "Caps Lock",
            Key::A => "A",
            Key::S => "S",
            Key::D => "D",
            Key::F => "F",
            Key::G => "G",
            Key::H => "H",
            Key::J => "J",
            Key::K => "K",
            Key::L => "L",
            Key::SemiColon => ";",
            Key::Apostrophe => "'",
            Key::ISO1 => "ISO",
            Key::Return => "Return",
            Key::NumFour => "4",
            Key::NumFive => "5",
            Key::NumSix => "6",
            Key::LeftShift => "Left Shift",
            Key::ISO2 => "ISO",
            Key::Z => "Z",
            Key::X => "X",
            Key::C => "C",
            Key::V => "V",
            Key::B => "B",
            Key::N => "N",
            Key::M => "M",
            Key::Comma => "Comma",
            Key::Period => "Period",
            Key::ForwardSlash => "/",
            Key::RightShift => "Right Shift",
            Key::UpArrow => "Up Arrow",
            Key::NumOne => "1",
            Key::NumTwo => "2",
            Key::NumThree => "3",
            Key::NumReturn => "Return",
            Key::LeftControl => "Left Control",
            Key::LeftMod => "Left Mod",
            Key::LeftAlt => "Left Alt",
            Key::Space => "Space",
            Key::RightAlt => "Right Alt",
            Key::RightMod => "Right Mod",
            Key::Fn => "Fn",
            Key::RightControl => "Right Control",
            Key::LeftArrow => "Left Arrow",
            Key::DownArrow => "Down Arrow",
            Key::RightArrow => "Right Arrow",
            Key::NumZero => "0",
            Key::NumDelete => "Delete",
        }
    }
}

impl IntoMatrixRowColumn for Key {
    open spec fn spec_matrix_row_and_column(&self) -> (u8, u8) {
        matrix_address(*self)
    }

    proof fn matrix_address_in_bounds(&self) {
    }

    /// Returns the matrix row and column of the key.
    fn into_matrix_row_and_column(&self) -> (u8, u8) {
        match *self {
            Key::Escape => (0, 0),
            Key::F1 => (0, 2),
            Key::F2 => (0, 3),
            Key::F3 => (0, 4),
            Key::F4 => (0, 5),
            Key::F5 => (0, 6),
            Key::F6 => (0, 7),
            Key::F7 => (0, 8),
            Key::F8 => (0, 9),
            Key::F9 => (0, 10),
            Key::F10 => (0, 11),
            Key::F11 => (0, 12),
            Key::F12 => (0, 13),
            Key::PrintScreen => (0, 14),
            Key::Pause => (0, 15),
            Key::ScrollLock => (0, 16),
            Key::A1 => (0, 17),
            Key::A2 => (0, 18),
            Key::A3 => (0, 19),
            Key::Mode => (0, 20),
            Key::Tilde => (1, 0),
            Key::One => (1, 1),
            Key::Two => (1, 2),
            Key::Three => (1, 3),
            Key::Four => (1, 4),
            Key::Five => (1, 5),
            Key::Six => (1, 6),
            Key::Seven => (1, 7),
            Key::Eight => (1, 8),
            Key::Nine => (1, 9),
            Key::Zero => (1, 10),
            Key::Dash => (1, 11),
            Key::Equals => (1, 12),
            Key::Backspace => (1, 13),
            Key::Insert => (1, 14),
            Key::Home => (1, 15),
            Key::PageUp => (1, 16),
            Key::NumLock => (1, 17),
            Key::NumDivide => (1, 18),
            Key::NumMultiply => (1, 19),
            Key::NumSubtract => (1, 20),
            Key::Tab => (2, 0),
            Key::Q => (2, 1),
            Key::W => (2, 2),
            Key::E => (2, 3),
            Key::R => (2, 4),
            Key::T => (2, 5),
            Key::Y => (2, 6),
            Key::U => (2, 7),
            Key::I => (2, 8),
            Key::O => (2, 9),
            Key::P => (2, 10),
            Key::LeftBracket => (2, 11),
            Key::RightBracket => (2, 12),
            Key::Backslash => (2, 13),
            Key::Delete => (2, 14),
            Key::End => (2, 15),
            Key::PageDown => (2, 16),
            Key::NumSeven => (2, 17),
            Key::NumEight => (2, 18),
            Key::NumNine => (2, 19),
            Key::NumAddition => (2, 20),
            Key::CapsLock => (3, 0),
            Key::A => (3, 1),
            Key::S => (3, 2),
            Key::D => (3, 3),
            Key::F => (3, 4),
            Key::G => (3, 5),
            Key::H => (3, 6),
            Key::J => (3, 7),
            Key::K => (3, 8),
            Key::L => (3, 9),
            Key::SemiColon => (3, 10),
            Key::Apostrophe => (3, 11),
            Key::ISO1 => (3, 12),
            Key::Return => (3, 13),
            Key::NumFour => (3, 17),
            Key::NumFive => (3, 18),
            Key::NumSix => (3, 19),
            Key::LeftShift => (4, 0),
            Key::ISO2 => (4, 1),
            Key::Z => (4, 2),
            Key::X => (4, 3),
            Key::C => (4, 4),
            Key::V => (4, 5),
            Key::B => (4, 6),
            Key::N => (4, 7),
            Key::M => (4, 8),
            Key::Comma => (4, 9),
            Key::Period => (4, 10),
            Key::ForwardSlash => (4, 11),
            Key::RightShift => (4, 13),
            Key::UpArrow => (4, 15),
            Key::NumOne => (4, 17),
            Key::NumTwo => (4, 18),
            Key::NumThree => (4, 19),
            Key::NumReturn => (4, 20),
            Key::LeftControl => (5, 0),
            Key::LeftMod => (5, 1),
            Key::LeftAlt => (5, 2),
            Key::Space => (5, 6),
            Key::RightAlt => (5, 10),
            Key::RightMod => (5, 11),
            Key::Fn => (5, 12),
            Key::RightControl => (5, 13),
            Key::LeftArrow => (5, 14),
            Key::DownArrow => (5, 15),
            Key::RightArrow => (5, 16),
            Key::NumZero => (5, 18),
            Key::NumDelete => (5, 19),
        }
    }
}

impl FromScanIndex for Key {
    open spec fn spec_from_scan_index(index: u8) -> Option<Key> {
        key_from_scan_index(index)
    }

    /// Return the key that corresponds to the provided scan index, if any.
    fn from_scan_index(index: u8) -> Option<Key> {
        match index {
            0 => Some(Key::Escape),
            1 => Some(Key::F1),
            2 => Some(Key::F2),
            3 => Some(Key::F3),
            4 => Some(Key::F4),
            5 => Some(Key::F5),
            6 => Some(Key::F6),
            7 => Some(Key::F7),
            8 => Some(Key::F8),
            9 => Some(Key::F9),
            10 => Some(Key::F10),
            11 => Some(Key::F11),
            12 => Some(Key::F12),
            13 => Some(Key::PrintScreen),
            14 => Some(Key::Pause),
            15 => Some(Key::ScrollLock),
            16 => Some(Key::Tilde),
            17 => Some(Key::One),
            18 => Some(Key::Two),
            19 => Some(Key::Three),
            20 => Some(Key::Four),
            21 => Some(Key::Five),
            22 => Some(Key::Six),
            23 => Some(Key::Seven),
            24 => Some(Key::Eight),
            25 => Some(Key::Nine),
            26 => Some(Key::Zero),
            27 => Some(Key::Dash),
            28 => Some(Key::Equals),
            29 => Some(Key::Backspace),
            30 => Some(Key::Insert),
            31 => Some(Key::Home),
            32 => Some(Key::Tab),
            33 => Some(Key::Q),
            34 => Some(Key::W),
            35 => Some(Key::E),
            36 => Some(Key::R),
            37 => Some(Key::T),
            38 => Some(Key::Y),
            39 => Some(Key::U),
            40 => Some(Key::I),
            41 => Some(Key::O),
            42 => Some(Key::P),
            43 => Some(Key::LeftBracket),
            44 => Some(Key::RightBracket),
            45 => Some(Key::ISO1),
            46 => Some(Key::Delete),
            47 => Some(Key::End),
            48 => Some(Key::CapsLock),
            49 => Some(Key::A),
            50 => Some(Key::S),
            51 => Some(Key::D),
            52 => Some(Key::F),
            53 => Some(Key::G),
            54 => Some(Key::H),
            55 => Some(Key::I),
            56 => Some(Key::J),
            57 => Some(Key::K),
            58 => Some(Key::L),
            59 => Some(Key::SemiColon),
            60 => Some(Key::Return),
            61 => Some(Key::PageUp),
            62 => Some(Key::PageDown),
            63 => Some(Key::UpArrow),
            64 => Some(Key::LeftShift),
            65 => Some(Key::Z),
            66 => Some(Key::X),
            67 => Some(Key::C),
            68 => Some(Key::V),
            69 => Some(Key::B),
            70 => Some(Key::N),
            71 => Some(Key::M),
            72 => Some(Key::Comma),
            73 => Some(Key::Period),
            74 => Some(Key::ForwardSlash),
            75 => Some(Key::RightShift),
            76 => Some(Key::LeftArrow),
            77 => Some(Key::DownArrow),
            78 => Some(Key::RightArrow),
            79 => Some(Key::RightControl),
            80 => Some(Key::LeftControl),
            81 => Some(Key::LeftMod),
            82 => Some(Key::LeftAlt),
            83 => Some(Key::Space),
            84 => Some(Key::RightAlt),
            85 => Some(Key::RightMod),
            86 => Some(Key::Fn),
            87 => Some(Key::ISO2),
            90 => Some(Key::NumOne),
            91 => Some(Key::NumTwo),
            92 => Some(Key::NumThree),
            93 => Some(Key::NumReturn),
            94 => Some(Key::NumDelete),
            95 => Some(Key::NumZero),
            96 => Some(Key::NumSix),
            97 => Some(Key::NumFive),
            98 => Some(Key::NumFour),
            99 => Some(Key::NumAddition),
            100 => Some(Key::NumNine),
            101 => Some(Key::NumEight),
            102 => Some(Key::NumSeven),
            103 => Some(Key::NumSubtract),
            104 => Some(Key::NumMultiply),
            105 => Some(Key::NumDivide),
            106 => Some(Key::NumLock),
            107 => Some(Key::A1),
            108 => Some(Key::A2),
            109 => Some(Key::A3),
            110 => Some(Key::Mode),
            _ => None,
        }
    }
}

/// Every matrix address lies within the 6 x 21 scan matrix.
pub proof fn lemma_matrix_address_in_bounds(key: Key)
    ensures
        matrix_address(key).0 < 6,
        matrix_address(key).1 < 21,
{
}

/// Distinct keys occupy distinct matrix addresses: the table overlays no
/// two keys onto one physical position.
pub proof fn lemma_matrix_address_injective(a: Key, b: Key)
    requires
        matrix_address(a) == matrix_address(b),
    ensures
        a == b,
{
}

/// Decoding a key's own scan index yields that key back, except for the
/// documented aliasing: `Backslash` shares index 45 with `ISO1`, and the
/// decode direction resolves it to `ISO1`. (`Apostrophe` is the one key
/// with no scan index at all.)
pub proof fn lemma_scan_index_round_trip(key: Key)
    requires
        scan_index(key) is Some,
    ensures
        key != Key::Backslash ==> key_from_scan_index(scan_index(key)->0) == Some(key),
        key == Key::Backslash ==> key_from_scan_index(scan_index(key)->0) == Some(Key::ISO1),
{
}

/// Scan indices 88, 89, and everything from 111 upward decode to no key.
pub proof fn lemma_unassigned_scan_index(index: u8)
    requires
        index == 88 || index == 89 || index >= 111,
    ensures
        key_from_scan_index(index) is None,
{
}

} // verus!
