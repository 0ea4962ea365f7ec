//! Keyboard input: key identifiers, modifier state and keyboard events.

use vstd::prelude::*;

verus! {

/// The symbolic name of a key, for every key that a native key code can
/// stand for.
#[derive(Clone, Copy, Debug, PartialEq, Eq, Hash, Structural)]
pub enum KeyCode {
    // The digits above the letters.
    Key0,
    Key1,
    Key2,
    Key3,
    Key4,
    Key5,
    Key6,
    Key7,
    Key8,
    Key9,
    // The letters.
    A,
    B,
    C,
    D,
    E,
    F,
    G,
    H,
    I,
    J,
    K,
    L,
    M,
    N,
    O,
    P,
    Q,
    R,
    S,
    T,
    U,
    V,
    W,
    X,
    Y,
    Z,
    // Punctuation.
    Grave,
    Minus,
    Equals,
    LBracket,
    RBracket,
    Semicolon,
    Apostrophe,
    Comma,
    Period,
    Slash,
    Backslash,
    // The numeric keypad.
    Numpad0,
    Numpad1,
    Numpad2,
    Numpad3,
    Numpad4,
    Numpad5,
    Numpad6,
    Numpad7,
    Numpad8,
    Numpad9,
    NumpadComma,
    Multiply,
    Add,
    Divide,
    NumpadEquals,
    NumpadEnter,
    // Whitespace and editing.
    Space,
    Enter,
    Tab,
    Backspace,
    Delete,
    Escape,
    // Modifier keys.
    LWin,
    LShift,
    Capital,
    LAlt,
    LControl,
    RShift,
    RAlt,
    RControl,
    // Function keys.
    F1,
    F2,
    F3,
    F4,
    F5,
    F6,
    F7,
    F8,
    F9,
    F10,
    F11,
    F12,
    F13,
    F14,
    F15,
    F16,
    F17,
    F18,
    F19,
    F20,
    // Volume keys.
    VolumeUp,
    VolumeDown,
    Mute,
    // Navigation.
    Insert,
    Home,
    End,
    PageUp,
    PageDown,
    Left,
    Right,
    Down,
    Up,
}

/// The key that a native virtual key code stands for; `None` for a code that
/// names no key known here. The hyphen of the main block and the minus of the
/// keypad are one key, `Minus`.
pub open spec fn key_code_of(code: u16) -> Option<KeyCode> {
    match code {
        29 => Some(KeyCode::Key0),
        18 => Some(KeyCode::Key1),
        19 => Some(KeyCode::Key2),
        20 => Some(KeyCode::Key3),
        21 => Some(KeyCode::Key4),
        23 => Some(KeyCode::Key5),
        22 => Some(KeyCode::Key6),
        26 => Some(KeyCode::Key7),
        28 => Some(KeyCode::Key8),
        25 => Some(KeyCode::Key9),
        0 => Some(KeyCode::A),
        11 => Some(KeyCode::B),
        8 => Some(KeyCode::C),
        2 => Some(KeyCode::D),
        14 => Some(KeyCode::E),
        3 => Some(KeyCode::F),
        5 => Some(KeyCode::G),
        4 => Some(KeyCode::H),
        34 => Some(KeyCode::I),
        38 => Some(KeyCode::J),
        40 => Some(KeyCode::K),
        37 => Some(KeyCode::L),
        46 => Some(KeyCode::M),
        45 => Some(KeyCode::N),
        31 => Some(KeyCode::O),
        35 => Some(KeyCode::P),
        12 => Some(KeyCode::Q),
        15 => Some(KeyCode::R),
        1 => Some(KeyCode::S),
        17 => Some(KeyCode::T),
        32 => Some(KeyCode::U),
        9 => Some(KeyCode::V),
        13 => Some(KeyCode::W),
        7 => Some(KeyCode::X),
        16 => Some(KeyCode::Y),
        6 => Some(KeyCode::Z),
        50 => Some(KeyCode::Grave),
        27 => Some(KeyCode::Minus),
        24 => Some(KeyCode::Equals),
        33 => Some(KeyCode::LBracket),
        30 => Some(KeyCode::RBracket),
        41 => Some(KeyCode::Semicolon),
        39 => Some(KeyCode::Apostrophe),
        43 => Some(KeyCode::Comma),
        47 => Some(KeyCode::Period),
        44 => Some(KeyCode::Slash),
        42 => Some(KeyCode::Backslash),
        82 => Some(KeyCode::Numpad0),
        83 => Some(KeyCode::Numpad1),
        84 => Some(KeyCode::Numpad2),
        85 => Some(KeyCode::Numpad3),
        86 => Some(KeyCode::Numpad4),
        87 => Some(KeyCode::Numpad5),
        88 => Some(KeyCode::Numpad6),
        89 => Some(KeyCode::Numpad7),
        91 => Some(KeyCode::Numpad8),
        92 => Some(KeyCode::Numpad9),
        65 => Some(KeyCode::NumpadComma),
        67 => Some(KeyCode::Multiply),
        69 => Some(KeyCode::Add),
        75 => Some(KeyCode::Divide),
        78 => Some(KeyCode::Minus),
        81 => Some(KeyCode::NumpadEquals),
        76 => Some(KeyCode::NumpadEnter),
        49 => Some(KeyCode::Space),
        36 => Some(KeyCode::Enter),
        48 => Some(KeyCode::Tab),
        51 => Some(KeyCode::Backspace),
        117 => Some(KeyCode::Delete),
        53 => Some(KeyCode::Escape),
        55 => Some(KeyCode::LWin),
        56 => Some(KeyCode::LShift),
        57 => Some(KeyCode::Capital),
        58 => Some(KeyCode::LAlt),
        59 => Some(KeyCode::LControl),
        60 => Some(KeyCode::RShift),
        61 => Some(KeyCode::RAlt),
        62 => Some(KeyCode::RControl),
        122 => Some(KeyCode::F1),
        120 => Some(KeyCode::F2),
        99 => Some(KeyCode::F3),
        118 => Some(KeyCode::F4),
        96 => Some(KeyCode::F5),
        97 => Some(KeyCode::F6),
        98 => Some(KeyCode::F7),
        100 => Some(KeyCode::F8),
        101 => Some(KeyCode::F9),
        109 => Some(KeyCode::F10),
        103 => Some(KeyCode::F11),
        111 => Some(KeyCode::F12),
        105 => Some(KeyCode::F13),
        107 => Some(KeyCode::F14),
        113 => Some(KeyCode::F15),
        106 => Some(KeyCode::F16),
        64 => Some(KeyCode::F17),
        79 => Some(KeyCode::F18),
        80 => Some(KeyCode::F19),
        90 => Some(KeyCode::F20),
        72 => Some(KeyCode::VolumeUp),
        73 => Some(KeyCode::VolumeDown),
        74 => Some(KeyCode::Mute),
        114 => Some(KeyCode::Insert),
        115 => Some(KeyCode::Home),
        119 => Some(KeyCode::End),
        116 => Some(KeyCode::PageUp),
        121 => Some(KeyCode::PageDown),
        123 => Some(KeyCode::Left),
        124 => Some(KeyCode::Right),
        125 => Some(KeyCode::Down),
        126 => Some(KeyCode::Up),
        _ => None,
    }
}

impl KeyCode {
    /// Translates the virtual key code of a native key event.
    pub fn from_native(code: u16) -> (key: Option<KeyCode>)
        ensures
            key == key_code_of(code),
    {
        match code {
            29 => Some(KeyCode::Key0),
            18 => Some(KeyCode::Key1),
            19 => Some(KeyCode::Key2),
            20 => Some(KeyCode::Key3),
            21 => Some(KeyCode::Key4),
            23 => Some(KeyCode::Key5),
            22 => Some(KeyCode::Key6),
            26 => Some(KeyCode::Key7),
            28 => Some(KeyCode::Key8),
            25 => Some(KeyCode::Key9),
            0 => Some(KeyCode::A),
            11 => Some(KeyCode::B),
            8 => Some(KeyCode::C),
            2 => Some(KeyCode::D),
            14 => Some(KeyCode::E),
            3 => Some(KeyCode::F),
            5 => Some(KeyCode::G),
            4 => Some(KeyCode::H),
            34 => Some(KeyCode::I),
            38 => Some(KeyCode::J),
            40 => Some(KeyCode::K),
            37 => Some(KeyCode::L),
            46 => Some(KeyCode::M),
            45 => Some(KeyCode::N),
            31 => Some(KeyCode::O),
            35 => Some(KeyCode::P),
            12 => Some(KeyCode::Q),
            15 => Some(KeyCode::R),
            1 => Some(KeyCode::S),
            17 => Some(KeyCode::T),
            32 => Some(KeyCode::U),
            9 => Some(KeyCode::V),
            13 => Some(KeyCode::W),
            7 => Some(KeyCode::X),
            16 => Some(KeyCode::Y),
            6 => Some(KeyCode::Z),
            50 => Some(KeyCode::Grave),
            27 => Some(KeyCode::Minus),
            24 => Some(KeyCode::Equals),
            33 => Some(KeyCode::LBracket),
            30 => Some(KeyCode::RBracket),
            41 => Some(KeyCode::Semicolon),
            39 => Some(KeyCode::Apostrophe),
            43 => Some(KeyCode::Comma),
            47 => Some(KeyCode::Period),
            44 => Some(KeyCode::Slash),
            42 => Some(KeyCode::Backslash),
            82 => Some(KeyCode::Numpad0),
            83 => Some(KeyCode::Numpad1),
            84 => Some(KeyCode::Numpad2),
            85 => Some(KeyCode::Numpad3),
            86 => Some(KeyCode::Numpad4),
            87 => Some(KeyCode::Numpad5),
            88 => Some(KeyCode::Numpad6),
            89 => Some(KeyCode::Numpad7),
            91 => Some(KeyCode::Numpad8),
            92 => Some(KeyCode::Numpad9),
            65 => Some(KeyCode::NumpadComma),
            67 => Some(KeyCode::Multiply),
            69 => Some(KeyCode::Add),
            75 => Some(KeyCode::Divide),
            78 => Some(KeyCode::Minus),
            81 => Some(KeyCode::NumpadEquals),
            76 => Some(KeyCode::NumpadEnter),
            49 => Some(KeyCode::Space),
            36 => Some(KeyCode::Enter),
            48 => Some(KeyCode::Tab),
            51 => Some(KeyCode::Backspace),
            117 => Some(KeyCode::Delete),
            53 => Some(KeyCode::Escape),
            55 => Some(KeyCode::LWin),
            56 => Some(KeyCode::LShift),
            57 => Some(KeyCode::Capital),
            58 => Some(KeyCode::LAlt),
            59 => Some(KeyCode::LControl),
            60 => Some(KeyCode::RShift),
            61 => Some(KeyCode::RAlt),
            62 => Some(KeyCode::RControl),
            122 => Some(KeyCode::F1),
            120 => Some(KeyCode::F2),
            99 => Some(KeyCode::F3),
            118 => Some(KeyCode::F4),
            96 => Some(KeyCode::F5),
            97 => Some(KeyCode::F6),
            98 => Some(KeyCode::F7),
            100 => Some(KeyCode::F8),
            101 => Some(KeyCode::F9),
            109 => Some(KeyCode::F10),
            103 => Some(KeyCode::F11),
            111 => Some(KeyCode::F12),
            105 => Some(KeyCode::F13),
            107 => Some(KeyCode::F14),
            113 => Some(KeyCode::F15),
            106 => Some(KeyCode::F16),
            64 => Some(KeyCode::F17),
            79 => Some(KeyCode::F18),
            80 => Some(KeyCode::F19),
            90 => Some(KeyCode::F20),
            72 => Some(KeyCode::VolumeUp),
            73 => Some(KeyCode::VolumeDown),
            74 => Some(KeyCode::Mute),
            114 => Some(KeyCode::Insert),
            115 => Some(KeyCode::Home),
            119 => Some(KeyCode::End),
            116 => Some(KeyCode::PageUp),
            121 => Some(KeyCode::PageDown),
            123 => Some(KeyCode::Left),
            124 => Some(KeyCode::Right),
            125 => Some(KeyCode::Down),
            126 => Some(KeyCode::Up),
            _ => None,
        }
    }
}

/// A virtual key code that stands for a key: for `Minus` the code of the
/// hyphen in the main block, for every other key its only code.
pub open spec fn native_code_of(key: KeyCode) -> u16 {
    match key {
        KeyCode::Key0 => 29,
        KeyCode::Key1 => 18,
        KeyCode::Key2 => 19,
        KeyCode::Key3 => 20,
        KeyCode::Key4 => 21,
        KeyCode::Key5 => 23,
        KeyCode::Key6 => 22,
        KeyCode::Key7 => 26,
        KeyCode::Key8 => 28,
        KeyCode::Key9 => 25,
        KeyCode::A => 0,
        KeyCode::B => 11,
        KeyCode::C => 8,
        KeyCode::D => 2,
        KeyCode::E => 14,
        KeyCode::F => 3,
        KeyCode::G => 5,
        KeyCode::H => 4,
        KeyCode::I => 34,
        KeyCode::J => 38,
        KeyCode::K => 40,
        KeyCode::L => 37,
        KeyCode::M => 46,
        KeyCode::N => 45,
        KeyCode::O => 31,
        KeyCode::P => 35,
        KeyCode::Q => 12,
        KeyCode::R => 15,
        KeyCode::S => 1,
        KeyCode::T => 17,
        KeyCode::U => 32,
        KeyCode::V => 9,
        KeyCode::W => 13,
        KeyCode::X => 7,
        KeyCode::Y => 16,
        KeyCode::Z => 6,
        KeyCode::Grave => 50,
        KeyCode::Minus => 27,
        KeyCode::Equals => 24,
        KeyCode::LBracket => 33,
        KeyCode::RBracket => 30,
        KeyCode::Semicolon => 41,
        KeyCode::Apostrophe => 39,
        KeyCode::Comma => 43,
        KeyCode::Period => 47,
        KeyCode::Slash => 44,
        KeyCode::Backslash => 42,
        KeyCode::Numpad0 => 82,
        KeyCode::Numpad1 => 83,
        KeyCode::Numpad2 => 84,
        KeyCode::Numpad3 => 85,
        KeyCode::Numpad4 => 86,
        KeyCode::Numpad5 => 87,
        KeyCode::Numpad6 => 88,
        KeyCode::Numpad7 => 89,
        KeyCode::Numpad8 => 91,
        KeyCode::Numpad9 => 92,
        KeyCode::NumpadComma => 65,
        KeyCode::Multiply => 67,
        KeyCode::Add => 69,
        KeyCode::Divide => 75,
        KeyCode::NumpadEquals => 81,
        KeyCode::NumpadEnter => 76,
        KeyCode::Space => 49,
        KeyCode::Enter => 36,
        KeyCode::Tab => 48,
        KeyCode::Backspace => 51,
        KeyCode::Delete => 117,
        KeyCode::Escape => 53,
        KeyCode::LWin => 55,
        KeyCode::LShift => 56,
        KeyCode::Capital => 57,
        KeyCode::LAlt => 58,
        KeyCode::LControl => 59,
        KeyCode::RShift => 60,
        KeyCode::RAlt => 61,
        KeyCode::RControl => 62,
        KeyCode::F1 => 122,
        KeyCode::F2 => 120,
        KeyCode::F3 => 99,
        KeyCode::F4 => 118,
        KeyCode::F5 => 96,
        KeyCode::F6 => 97,
        KeyCode::F7 => 98,
        KeyCode::F8 => 100,
        KeyCode::F9 => 101,
        KeyCode::F10 => 109,
        KeyCode::F11 => 103,
        KeyCode::F12 => 111,
        KeyCode::F13 => 105,
        KeyCode::F14 => 107,
        KeyCode::F15 => 113,
        KeyCode::F16 => 106,
        KeyCode::F17 => 64,
        KeyCode::F18 => 79,
        KeyCode::F19 => 80,
        KeyCode::F20 => 90,
        KeyCode::VolumeUp => 72,
        KeyCode::VolumeDown => 73,
        KeyCode::Mute => 74,
        KeyCode::Insert => 114,
        KeyCode::Home => 115,
        KeyCode::End => 119,
        KeyCode::PageUp => 116,
        KeyCode::PageDown => 121,
        KeyCode::Left => 123,
        KeyCode::Right => 124,
        KeyCode::Down => 125,
        KeyCode::Up => 126,
    }
}

/// No code above 126 stands for a key.
pub proof fn lemma_key_codes_are_small(code: u16)
    ensures
        code > 126 ==> key_code_of(code) is None,
{
}

/// Every key has a code that stands for it.
pub proof fn lemma_every_key_has_a_code(key: KeyCode)
    ensures
        key_code_of(native_code_of(key)) == Some(key),
{
}

/// Two different codes stand for the same key only where they are the two
/// codes of `Minus`, 27 and 78.
pub proof fn lemma_key_codes_differ(a: u16, b: u16)
    requires
        a != b,
        key_code_of(a) is Some,
        key_code_of(a) == key_code_of(b),
    ensures
        key_code_of(a) == Some(KeyCode::Minus),
        (a == 27 && b == 78) || (a == 78 && b == 27),
{
}

/// The bit of a native modifier-flags word that is set while a shift key is
/// held (bit 17).
pub const SHIFT_KEY_MASK: u64 = 0x2_0000;

/// The bit that is set while a control key is held (bit 18).
pub const CONTROL_KEY_MASK: u64 = 0x4_0000;

/// The bit that is set while an option key is held (bit 19).
pub const ALTERNATE_KEY_MASK: u64 = 0x8_0000;

/// The bit that is set while a command key is held (bit 20).
pub const COMMAND_KEY_MASK: u64 = 0x10_0000;

/// The state of the modifier keys.
#[derive(Clone, Copy, Debug, PartialEq, Eq, Hash, Structural)]
pub struct ModifiersState {
    /// Whether a shift key is pressed.
    pub shift: bool,
    /// Whether a control key is pressed.
    pub control: bool,
    /// Whether an alt (option) key is pressed.
    pub alt: bool,
    /// Whether a logo (command) key is pressed.
    pub logo: bool,
}

/// Whether every bit of `mask` is set in `flags`.
pub open spec fn has_flags(flags: u64, mask: u64) -> bool {
    flags & mask == mask
}

/// The modifier state that a native modifier-flags word describes.
pub open spec fn modifiers_of(flags: u64) -> ModifiersState {
    ModifiersState {
        shift: has_flags(flags, SHIFT_KEY_MASK),
        control: has_flags(flags, CONTROL_KEY_MASK),
        alt: has_flags(flags, ALTERNATE_KEY_MASK),
        logo: has_flags(flags, COMMAND_KEY_MASK),
    }
}

impl ModifiersState {
    /// Reads the modifier state out of the modifier flags of a native event.
    pub fn from_flags(flags: u64) -> (modifiers: ModifiersState)
        ensures
            modifiers == modifiers_of(flags),
    {
        ModifiersState {
            shift: flags & SHIFT_KEY_MASK == SHIFT_KEY_MASK,
            control: flags & CONTROL_KEY_MASK == CONTROL_KEY_MASK,
            alt: flags & ALTERNATE_KEY_MASK == ALTERNATE_KEY_MASK,
            logo: flags & COMMAND_KEY_MASK == COMMAND_KEY_MASK,
        }
    }
}

/// Each modifier is one bit of the flags word: shift is bit 17, control bit
/// 18, alt bit 19 and logo bit 20.
pub proof fn lemma_modifier_bits(flags: u64)
    ensures
        modifiers_of(flags).shift <==> (flags / 0x2_0000) % 2 == 1,
        modifiers_of(flags).control <==> (flags / 0x4_0000) % 2 == 1,
        modifiers_of(flags).alt <==> (flags / 0x8_0000) % 2 == 1,
        modifiers_of(flags).logo <==> (flags / 0x10_0000) % 2 == 1,
{
    assert((flags & 0x2_0000 == 0x2_0000) <==> (flags / 0x2_0000) % 2 == 1) by (bit_vector);
    assert((flags & 0x4_0000 == 0x4_0000) <==> (flags / 0x4_0000) % 2 == 1) by (bit_vector);
    assert((flags & 0x8_0000 == 0x8_0000) <==> (flags / 0x8_0000) % 2 == 1) by (bit_vector);
    assert((flags & 0x10_0000 == 0x10_0000) <==> (flags / 0x10_0000) % 2 == 1) by (bit_vector);
}

/// The flags word in which exactly the bits of the pressed modifiers are set.
pub open spec fn flags_of(modifiers: ModifiersState) -> u64 {
    ((if modifiers.shift { SHIFT_KEY_MASK } else { 0 })
        + (if modifiers.control { CONTROL_KEY_MASK } else { 0 })
        + (if modifiers.alt { ALTERNATE_KEY_MASK } else { 0 })
        + (if modifiers.logo { COMMAND_KEY_MASK } else { 0 })) as u64
}

/// The four modifiers are independent: every state is the state of some
/// flags word.
pub proof fn lemma_every_state_has_flags(modifiers: ModifiersState)
    ensures
        modifiers_of(flags_of(modifiers)) == modifiers,
{
    let flags = flags_of(modifiers);
    lemma_modifier_bits(flags);
}

/// Only the four modifier bits count: whatever else is set in the flags word,
/// the state is the same.
pub proof fn lemma_other_flags_ignored(flags: u64, other: u64)
    requires
        other & 0x1E_0000 == 0,
    ensures
        modifiers_of(flags | other) == modifiers_of(flags),
{
    assert(((flags | other) & 0x2_0000 == 0x2_0000) <==> (flags & 0x2_0000 == 0x2_0000))
        by (bit_vector)
        requires
            other & 0x1E_0000 == 0,
    ;
    assert(((flags | other) & 0x4_0000 == 0x4_0000) <==> (flags & 0x4_0000 == 0x4_0000))
        by (bit_vector)
        requires
            other & 0x1E_0000 == 0,
    ;
    assert(((flags | other) & 0x8_0000 == 0x8_0000) <==> (flags & 0x8_0000 == 0x8_0000))
        by (bit_vector)
        requires
            other & 0x1E_0000 == 0,
    ;
    assert(((flags | other) & 0x10_0000 == 0x10_0000) <==> (flags & 0x10_0000 == 0x10_0000))
        by (bit_vector)
        requires
            other & 0x1E_0000 == 0,
    ;
}

/// A keyboard event.
#[derive(Clone, Copy, Debug, PartialEq, Eq, Hash, Structural)]
pub enum Event {
    /// A keyboard key was pressed.
    KeyPressed {
        /// The key identifier.
        key_code: KeyCode,
        /// The state of the modifier keys.
        modifiers: ModifiersState,
    },
    /// A keyboard key was released.
    KeyReleased {
        /// The key identifier.
        key_code: KeyCode,
        /// The state of the modifier keys.
        modifiers: ModifiersState,
    },
}

} // verus!
