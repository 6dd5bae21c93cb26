use vstd::prelude::*;

verus! {

/// A key of a macOS keyboard, as reported by AppKit's virtual key codes.
#[derive(Clone, Copy, Debug, PartialEq, Eq, Structural)]
pub enum NSKeys {
    A,
    B,
    C,
    D,
    E,
    F,
    G,
    H,
    I,
    J,
    K,
    L,
    M,
    N,
    O,
    P,
    Q,
    R,
    S,
    T,
    U,
    V,
    W,
    X,
    Y,
    Z,
    Num0,
    Num1,
    Num2,
    Num3,
    Num4,
    Num5,
    Num6,
    Num7,
    Num8,
    Num9,
    Apostrophe,
    BackApostrophe,
    Backslash,
    Backspace,
    CapsLock,
    Comma,
    Delete,
    Equals,
    Escape,
    FrontSlash,
    LeftBracket,
    Minus,
    Period,
    Return,
    RightBracket,
    Semicolon,
    Tab,
    Space,
    Shift,
    Control,
    Command,
    Option,
    Fn,
    Up,
    Left,
    Down,
    Right,
    F1,
    F2,
    F3,
    F4,
    F5,
    F6,
    F7,
    F8,
    F9,
    F10,
    F11,
    F12,
    F13,
    F14,
    F15,
    F16,
    F17,
    F18,
    F19,
    F20,
    Home,
    End,
    PageUp,
    PageDown,
    Insert,
}

/// The keys of the editor's input model that an [`NSKeys`] key can stand for
/// (named as egui names them).
#[derive(Clone, Copy, Debug, PartialEq, Eq, Structural)]
pub enum Key {
    A,
    B,
    C,
    D,
    E,
    F,
    G,
    H,
    I,
    J,
    K,
    L,
    M,
    N,
    O,
    P,
    Q,
    R,
    S,
    T,
    U,
    V,
    W,
    X,
    Y,
    Z,
    Num0,
    Num1,
    Num2,
    Num3,
    Num4,
    Num5,
    Num6,
    Num7,
    Num8,
    Num9,
    Backspace,
    Delete,
    Escape,
    Enter,
    Tab,
    Space,
    ArrowUp,
    ArrowLeft,
    ArrowDown,
    ArrowRight,
    F1,
    F2,
    F3,
    F4,
    F5,
    F6,
    F7,
    F8,
    F9,
    F10,
    F11,
    F12,
    F13,
    F14,
    F15,
    F16,
    F17,
    F18,
    F19,
    F20,
    Home,
    End,
    PageUp,
    PageDown,
    Insert,
}

/// The key that a virtual key code of the Carbon `Events.h` table stands for;
/// codes outside the table stand for no key.
pub open spec fn key_for_code(key_code: u16) -> Option<NSKeys> {
    match key_code {
        0 => Some(NSKeys::A),
        1 => Some(NSKeys::S),
        2 => Some(NSKeys::D),
        3 => Some(NSKeys::F),
        4 => Some(NSKeys::H),
        5 => Some(NSKeys::G),
        6 => Some(NSKeys::Z),
        7 => Some(NSKeys::X),
        8 => Some(NSKeys::C),
        9 => Some(NSKeys::V),
        11 => Some(NSKeys::B),
        12 => Some(NSKeys::Q),
        13 => Some(NSKeys::W),
        14 => Some(NSKeys::E),
        15 => Some(NSKeys::R),
        16 => Some(NSKeys::Y),
        17 => Some(NSKeys::T),
        18 => Some(NSKeys::Num1),
        19 => Some(NSKeys::Num2),
        20 => Some(NSKeys::Num3),
        21 => Some(NSKeys::Num4),
        22 => Some(NSKeys::Num6),
        23 => Some(NSKeys::Num5),
        24 => Some(NSKeys::Equals),
        25 => Some(NSKeys::Num9),
        26 => Some(NSKeys::Num7),
        27 => Some(NSKeys::Minus),
        28 => Some(NSKeys::Num8),
        29 => Some(NSKeys::Num0),
        30 => Some(NSKeys::RightBracket),
        31 => Some(NSKeys::O),
        32 => Some(NSKeys::U),
        33 => Some(NSKeys::LeftBracket),
        34 => Some(NSKeys::I),
        35 => Some(NSKeys::P),
        36 => Some(NSKeys::Return),
        37 => Some(NSKeys::L),
        38 => Some(NSKeys::J),
        39 => Some(NSKeys::Apostrophe),
        40 => Some(NSKeys::K),
        41 => Some(NSKeys::Semicolon),
        42 => Some(NSKeys::Backslash),
        43 => Some(NSKeys::Comma),
        44 => Some(NSKeys::FrontSlash),
        45 => Some(NSKeys::N),
        46 => Some(NSKeys::M),
        47 => Some(NSKeys::Period),
        48 => Some(NSKeys::Tab),
        49 => Some(NSKeys::Space),
        50 => Some(NSKeys::BackApostrophe),
        51 => Some(NSKeys::Backspace),
        53 => Some(NSKeys::Escape),
        55 => Some(NSKeys::Command),
        56 => Some(NSKeys::Shift),
        57 => Some(NSKeys::CapsLock),
        58 => Some(NSKeys::Option),
        59 => Some(NSKeys::Control),
        60 => Some(NSKeys::Shift),  // right-hand Shift
        61 => Some(NSKeys::Option),  // right-hand Option
        62 => Some(NSKeys::Control),  // right-hand Control
        63 => Some(NSKeys::Fn),
        64 => Some(NSKeys::F17),
        65 => Some(NSKeys::Period),  // keypad
        79 => Some(NSKeys::F18),
        80 => Some(NSKeys::F19),
        81 => Some(NSKeys::Equals),  // keypad
        82 => Some(NSKeys::Num0),  // keypad
        83 => Some(NSKeys::Num1),  // keypad
        84 => Some(NSKeys::Num2),  // keypad
        85 => Some(NSKeys::Num3),  // keypad
        86 => Some(NSKeys::Num4),  // keypad
        87 => Some(NSKeys::Num5),  // keypad
        88 => Some(NSKeys::Num6),  // keypad
        89 => Some(NSKeys::Num7),  // keypad
        90 => Some(NSKeys::F20),
        91 => Some(NSKeys::Num8),  // keypad
        92 => Some(NSKeys::Num9),  // keypad
        96 => Some(NSKeys::F5),
        97 => Some(NSKeys::F6),
        98 => Some(NSKeys::F7),
        99 => Some(NSKeys::F3),
        100 => Some(NSKeys::F8),
        101 => Some(NSKeys::F9),
        103 => Some(NSKeys::F11),
        105 => Some(NSKeys::F13),
        106 => Some(NSKeys::F16),
        107 => Some(NSKeys::F14),
        109 => Some(NSKeys::F10),
        111 => Some(NSKeys::F12),
        113 => Some(NSKeys::F15),
        115 => Some(NSKeys::Home),
        116 => Some(NSKeys::PageUp),
        118 => Some(NSKeys::F4),
        119 => Some(NSKeys::End),
        120 => Some(NSKeys::F2),
        121 => Some(NSKeys::PageDown),
        122 => Some(NSKeys::F1),
        123 => Some(NSKeys::Left),
        124 => Some(NSKeys::Right),
        125 => Some(NSKeys::Down),
        126 => Some(NSKeys::Up),
        _ => None,
    }
}

/// Whether typing the key produces text.
pub open spec fn produces_text(key: NSKeys) -> bool {
    match key {
        NSKeys::A | NSKeys::B | NSKeys::C | NSKeys::D | NSKeys::E | NSKeys::F | NSKeys::G | NSKeys::H | NSKeys::I | NSKeys::J | NSKeys::K | NSKeys::L | NSKeys::M | NSKeys::N | NSKeys::O | NSKeys::P | NSKeys::Q | NSKeys::R | NSKeys::S | NSKeys::T | NSKeys::U | NSKeys::V | NSKeys::W | NSKeys::X | NSKeys::Y | NSKeys::Z | NSKeys::Num0 | NSKeys::Num1 | NSKeys::Num2 | NSKeys::Num3 | NSKeys::Num4 | NSKeys::Num5 | NSKeys::Num6 | NSKeys::Num7 | NSKeys::Num8 | NSKeys::Num9 | NSKeys::Apostrophe | NSKeys::BackApostrophe | NSKeys::Backslash | NSKeys::Comma | NSKeys::Equals | NSKeys::FrontSlash | NSKeys::LeftBracket | NSKeys::Minus | NSKeys::Period | NSKeys::RightBracket | NSKeys::Semicolon | NSKeys::Space => true,
        _ => false,
    }
}

/// The editor key that an [`NSKeys`] key stands for, if any.
pub open spec fn editor_key_for(key: NSKeys) -> Option<Key> {
    match key {
        NSKeys::A => Some(Key::A),
        NSKeys::B => Some(Key::B),
        NSKeys::C => Some(Key::C),
        NSKeys::D => Some(Key::D),
        NSKeys::E => Some(Key::E),
        NSKeys::F => Some(Key::F),
        NSKeys::G => Some(Key::G),
        NSKeys::H => Some(Key::H),
        NSKeys::I => Some(Key::I),
        NSKeys::J => Some(Key::J),
        NSKeys::K => Some(Key::K),
        NSKeys::L => Some(Key::L),
        NSKeys::M => Some(Key::M),
        NSKeys::N => Some(Key::N),
        NSKeys::O => Some(Key::O),
        NSKeys::P => Some(Key::P),
        NSKeys::Q => Some(Key::Q),
        NSKeys::R => Some(Key::R),
        NSKeys::S => Some(Key::S),
        NSKeys::T => Some(Key::T),
        NSKeys::U => Some(Key::U),
        NSKeys::V => Some(Key::V),
        NSKeys::W => Some(Key::W),
        NSKeys::X => Some(Key::X),
        NSKeys::Y => Some(Key::Y),
        NSKeys::Z => Some(Key::Z),
        NSKeys::Num0 => Some(Key::Num0),
        NSKeys::Num1 => Some(Key::Num1),
        NSKeys::Num2 => Some(Key::Num2),
        NSKeys::Num3 => Some(Key::Num3),
        NSKeys::Num4 => Some(Key::Num4),
        NSKeys::Num5 => Some(Key::Num5),
        NSKeys::Num6 => Some(Key::Num6),
        NSKeys::Num7 => Some(Key::Num7),
        NSKeys::Num8 => Some(Key::Num8),
        NSKeys::Num9 => Some(Key::Num9),
        NSKeys::Backspace => Some(Key::Backspace),
        NSKeys::Delete => Some(Key::Delete),
        NSKeys::Escape => Some(Key::Escape),
        NSKeys::Return => Some(Key::Enter),
        NSKeys::Tab => Some(Key::Tab),
        NSKeys::Space => Some(Key::Space),
        NSKeys::Up => Some(Key::ArrowUp),
        NSKeys::Left => Some(Key::ArrowLeft),
        NSKeys::Down => Some(Key::ArrowDown),
        NSKeys::Right => Some(Key::ArrowRight),
        NSKeys::F1 => Some(Key::F1),
        NSKeys::F2 => Some(Key::F2),
        NSKeys::F3 => Some(Key::F3),
        NSKeys::F4 => Some(Key::F4),
        NSKeys::F5 => Some(Key::F5),
        NSKeys::F6 => Some(Key::F6),
        NSKeys::F7 => Some(Key::F7),
        NSKeys::F8 => Some(Key::F8),
        NSKeys::F9 => Some(Key::F9),
        NSKeys::F10 => Some(Key::F10),
        NSKeys::F11 => Some(Key::F11),
        NSKeys::F12 => Some(Key::F12),
        NSKeys::F13 => Some(Key::F13),
        NSKeys::F14 => Some(Key::F14),
        NSKeys::F15 => Some(Key::F15),
        NSKeys::F16 => Some(Key::F16),
        NSKeys::F17 => Some(Key::F17),
        NSKeys::F18 => Some(Key::F18),
        NSKeys::F19 => Some(Key::F19),
        NSKeys::F20 => Some(Key::F20),
        NSKeys::Home => Some(Key::Home),
        NSKeys::End => Some(Key::End),
        NSKeys::PageUp => Some(Key::PageUp),
        NSKeys::PageDown => Some(Key::PageDown),
        NSKeys::Insert => Some(Key::Insert),
        _ => None,
    }
}

/// Whether the key is a letter.
pub open spec fn is_letter(k: NSKeys) -> bool {
    k == NSKeys::A || k == NSKeys::B || k == NSKeys::C || k == NSKeys::D || k == NSKeys::E || k == NSKeys::F || k == NSKeys::G || k == NSKeys::H || k == NSKeys::I || k == NSKeys::J || k == NSKeys::K || k == NSKeys::L || k == NSKeys::M || k == NSKeys::N || k == NSKeys::O || k == NSKeys::P || k == NSKeys::Q || k == NSKeys::R || k == NSKeys::S || k == NSKeys::T || k == NSKeys::U || k == NSKeys::V || k == NSKeys::W || k == NSKeys::X || k == NSKeys::Y || k == NSKeys::Z
}

/// Whether the key is a digit.
pub open spec fn is_digit(k: NSKeys) -> bool {
    k == NSKeys::Num0 || k == NSKeys::Num1 || k == NSKeys::Num2 || k == NSKeys::Num3 || k == NSKeys::Num4 || k == NSKeys::Num5 || k == NSKeys::Num6 || k == NSKeys::Num7 || k == NSKeys::Num8 || k == NSKeys::Num9
}

/// The key-code table is Carbon's `Events.h` (`kVK_` constants) for the keys
/// the editor handles.
pub proof fn lemma_key_codes_follow_events_h()
    ensures
        key_for_code(0x00) == Some(NSKeys::A),  // kVK_ANSI_A
        key_for_code(0x01) == Some(NSKeys::S),  // kVK_ANSI_S
        key_for_code(0x02) == Some(NSKeys::D),  // kVK_ANSI_D
        key_for_code(0x03) == Some(NSKeys::F),  // kVK_ANSI_F
        key_for_code(0x04) == Some(NSKeys::H),  // kVK_ANSI_H
        key_for_code(0x05) == Some(NSKeys::G),  // kVK_ANSI_G
        key_for_code(0x06) == Some(NSKeys::Z),  // kVK_ANSI_Z
        key_for_code(0x07) == Some(NSKeys::X),  // kVK_ANSI_X
        key_for_code(0x08) == Some(NSKeys::C),  // kVK_ANSI_C
        key_for_code(0x09) == Some(NSKeys::V),  // kVK_ANSI_V
        key_for_code(0x0B) == Some(NSKeys::B),  // kVK_ANSI_B
        key_for_code(0x0C) == Some(NSKeys::Q),  // kVK_ANSI_Q
        key_for_code(0x0D) == Some(NSKeys::W),  // kVK_ANSI_W
        key_for_code(0x0E) == Some(NSKeys::E),  // kVK_ANSI_E
        key_for_code(0x0F) == Some(NSKeys::R),  // kVK_ANSI_R
        key_for_code(0x10) == Some(NSKeys::Y),  // kVK_ANSI_Y
        key_for_code(0x11) == Some(NSKeys::T),  // kVK_ANSI_T
        key_for_code(0x12) == Some(NSKeys::Num1),  // kVK_ANSI_1
        key_for_code(0x13) == Some(NSKeys::Num2),  // kVK_ANSI_2
        key_for_code(0x14) == Some(NSKeys::Num3),  // kVK_ANSI_3
        key_for_code(0x15) == Some(NSKeys::Num4),  // kVK_ANSI_4
        key_for_code(0x16) == Some(NSKeys::Num6),  // kVK_ANSI_6
        key_for_code(0x17) == Some(NSKeys::Num5),  // kVK_ANSI_5
        key_for_code(0x18) == Some(NSKeys::Equals),  // kVK_ANSI_Equal
        key_for_code(0x19) == Some(NSKeys::Num9),  // kVK_ANSI_9
        key_for_code(0x1A) == Some(NSKeys::Num7),  // kVK_ANSI_7
        key_for_code(0x1B) == Some(NSKeys::Minus),  // kVK_ANSI_Minus
        key_for_code(0x1C) == Some(NSKeys::Num8),  // kVK_ANSI_8
        key_for_code(0x1D) == Some(NSKeys::Num0),  // kVK_ANSI_0
        key_for_code(0x1E) == Some(NSKeys::RightBracket),  // kVK_ANSI_RightBracket
        key_for_code(0x1F) == Some(NSKeys::O),  // kVK_ANSI_O
        key_for_code(0x20) == Some(NSKeys::U),  // kVK_ANSI_U
        key_for_code(0x21) == Some(NSKeys::LeftBracket),  // kVK_ANSI_LeftBracket
        key_for_code(0x22) == Some(NSKeys::I),  // kVK_ANSI_I
        key_for_code(0x23) == Some(NSKeys::P),  // kVK_ANSI_P
        key_for_code(0x24) == Some(NSKeys::Return),  // kVK_Return
        key_for_code(0x25) == Some(NSKeys::L),  // kVK_ANSI_L
        key_for_code(0x26) == Some(NSKeys::J),  // kVK_ANSI_J
        key_for_code(0x27) == Some(NSKeys::Apostrophe),  // kVK_ANSI_Quote
        key_for_code(0x28) == Some(NSKeys::K),  // kVK_ANSI_K
        key_for_code(0x29) == Some(NSKeys::Semicolon),  // kVK_ANSI_Semicolon
        key_for_code(0x2A) == Some(NSKeys::Backslash),  // kVK_ANSI_Backslash
        key_for_code(0x2B) == Some(NSKeys::Comma),  // kVK_ANSI_Comma
        key_for_code(0x2C) == Some(NSKeys::FrontSlash),  // kVK_ANSI_Slash
        key_for_code(0x2D) == Some(NSKeys::N),  // kVK_ANSI_N
        key_for_code(0x2E) == Some(NSKeys::M),  // kVK_ANSI_M
        key_for_code(0x2F) == Some(NSKeys::Period),  // kVK_ANSI_Period
        key_for_code(0x30) == Some(NSKeys::Tab),  // kVK_Tab
        key_for_code(0x31) == Some(NSKeys::Space),  // kVK_Space
        key_for_code(0x32) == Some(NSKeys::BackApostrophe),  // kVK_ANSI_Grave
        key_for_code(0x33) == Some(NSKeys::Backspace),  // kVK_Delete
        key_for_code(0x35) == Some(NSKeys::Escape),  // kVK_Escape
        key_for_code(0x37) == Some(NSKeys::Command),  // kVK_Command
        key_for_code(0x38) == Some(NSKeys::Shift),  // kVK_Shift
        key_for_code(0x39) == Some(NSKeys::CapsLock),  // kVK_CapsLock
        key_for_code(0x3A) == Some(NSKeys::Option),  // kVK_Option
        key_for_code(0x3B) == Some(NSKeys::Control),  // kVK_Control
        key_for_code(0x3C) == Some(NSKeys::Shift),  // kVK_RightShift
        key_for_code(0x3D) == Some(NSKeys::Option),  // kVK_RightOption
        key_for_code(0x3E) == Some(NSKeys::Control),  // kVK_RightControl
        key_for_code(0x3F) == Some(NSKeys::Fn),  // kVK_Function
        key_for_code(0x40) == Some(NSKeys::F17),  // kVK_F17
        key_for_code(0x41) == Some(NSKeys::Period),  // kVK_ANSI_KeypadDecimal
        key_for_code(0x4F) == Some(NSKeys::F18),  // kVK_F18
        key_for_code(0x50) == Some(NSKeys::F19),  // kVK_F19
        key_for_code(0x51) == Some(NSKeys::Equals),  // kVK_ANSI_KeypadEquals
        key_for_code(0x52) == Some(NSKeys::Num0),  // kVK_ANSI_Keypad0
        key_for_code(0x53) == Some(NSKeys::Num1),  // kVK_ANSI_Keypad1
        key_for_code(0x54) == Some(NSKeys::Num2),  // kVK_ANSI_Keypad2
        key_for_code(0x55) == Some(NSKeys::Num3),  // kVK_ANSI_Keypad3
        key_for_code(0x56) == Some(NSKeys::Num4),  // kVK_ANSI_Keypad4
        key_for_code(0x57) == Some(NSKeys::Num5),  // kVK_ANSI_Keypad5
        key_for_code(0x58) == Some(NSKeys::Num6),  // kVK_ANSI_Keypad6
        key_for_code(0x59) == Some(NSKeys::Num7),  // kVK_ANSI_Keypad7
        key_for_code(0x5A) == Some(NSKeys::F20),  // kVK_F20
        key_for_code(0x5B) == Some(NSKeys::Num8),  // kVK_ANSI_Keypad8
        key_for_code(0x5C) == Some(NSKeys::Num9),  // kVK_ANSI_Keypad9
        key_for_code(0x60) == Some(NSKeys::F5),  // kVK_F5
        key_for_code(0x61) == Some(NSKeys::F6),  // kVK_F6
        key_for_code(0x62) == Some(NSKeys::F7),  // kVK_F7
        key_for_code(0x63) == Some(NSKeys::F3),  // kVK_F3
        key_for_code(0x64) == Some(NSKeys::F8),  // kVK_F8
        key_for_code(0x65) == Some(NSKeys::F9),  // kVK_F9
        key_for_code(0x67) == Some(NSKeys::F11),  // kVK_F11
        key_for_code(0x69) == Some(NSKeys::F13),  // kVK_F13
        key_for_code(0x6A) == Some(NSKeys::F16),  // kVK_F16
        key_for_code(0x6B) == Some(NSKeys::F14),  // kVK_F14
        key_for_code(0x6D) == Some(NSKeys::F10),  // kVK_F10
        key_for_code(0x6F) == Some(NSKeys::F12),  // kVK_F12
        key_for_code(0x71) == Some(NSKeys::F15),  // kVK_F15
        key_for_code(0x73) == Some(NSKeys::Home),  // kVK_Home
        key_for_code(0x74) == Some(NSKeys::PageUp),  // kVK_PageUp
        key_for_code(0x76) == Some(NSKeys::F4),  // kVK_F4
        key_for_code(0x77) == Some(NSKeys::End),  // kVK_End
        key_for_code(0x78) == Some(NSKeys::F2),  // kVK_F2
        key_for_code(0x79) == Some(NSKeys::PageDown),  // kVK_PageDown
        key_for_code(0x7A) == Some(NSKeys::F1),  // kVK_F1
        key_for_code(0x7B) == Some(NSKeys::Left),  // kVK_LeftArrow
        key_for_code(0x7C) == Some(NSKeys::Right),  // kVK_RightArrow
        key_for_code(0x7D) == Some(NSKeys::Down),  // kVK_DownArrow
        key_for_code(0x7E) == Some(NSKeys::Up),  // kVK_UpArrow
{
}

/// The keypad's digits, decimal point and equals sign and the right-hand
/// modifiers give the same keys as the main keys; keypad operators, volume,
/// help, forward delete and the right-hand command key give none, and no code
/// gives the delete or insert keys.
pub proof fn lemma_key_codes_alias(code: u16)
    ensures
        key_for_code(29) == key_for_code(82) && key_for_code(82) == Some(NSKeys::Num0),
        key_for_code(18) == key_for_code(83) && key_for_code(83) == Some(NSKeys::Num1),
        key_for_code(19) == key_for_code(84) && key_for_code(84) == Some(NSKeys::Num2),
        key_for_code(20) == key_for_code(85) && key_for_code(85) == Some(NSKeys::Num3),
        key_for_code(21) == key_for_code(86) && key_for_code(86) == Some(NSKeys::Num4),
        key_for_code(23) == key_for_code(87) && key_for_code(87) == Some(NSKeys::Num5),
        key_for_code(22) == key_for_code(88) && key_for_code(88) == Some(NSKeys::Num6),
        key_for_code(26) == key_for_code(89) && key_for_code(89) == Some(NSKeys::Num7),
        key_for_code(28) == key_for_code(91) && key_for_code(91) == Some(NSKeys::Num8),
        key_for_code(25) == key_for_code(92) && key_for_code(92) == Some(NSKeys::Num9),
        key_for_code(47) == key_for_code(65) && key_for_code(24) == key_for_code(81),
        key_for_code(56) == key_for_code(60) && key_for_code(60) == Some(NSKeys::Shift),
        key_for_code(58) == key_for_code(61) && key_for_code(61) == Some(NSKeys::Option),
        key_for_code(59) == key_for_code(62) && key_for_code(62) == Some(NSKeys::Control),
        key_for_code(54) is None && key_for_code(67) is None && key_for_code(69) is None,
        key_for_code(71) is None && key_for_code(72) is None && key_for_code(73) is None,
        key_for_code(74) is None && key_for_code(75) is None && key_for_code(76) is None,
        key_for_code(78) is None && key_for_code(114) is None && key_for_code(117) is None,
        code > 126 ==> key_for_code(code) is None,
        key_for_code(code) != Some(NSKeys::Delete) && key_for_code(code) != Some(NSKeys::Insert),
{
}

/// Letters, digits, the space bar and punctuation type text; modifiers,
/// arrows, function and navigation keys, return, tab, escape and the delete
/// keys do not. Each letter, digit, function and navigation key stands for
/// the editor key of the same name; return is enter, the arrows are the arrow
/// keys; punctuation and modifier keys stand for none.
pub proof fn lemma_keys_type_text_and_name_editor_keys(k: NSKeys)
    ensures
        produces_text(k) <==> (k == NSKeys::Space || k == NSKeys::Apostrophe || k
            == NSKeys::BackApostrophe || k == NSKeys::Backslash || k == NSKeys::Comma || k
            == NSKeys::Equals || k == NSKeys::FrontSlash || k == NSKeys::LeftBracket || k
            == NSKeys::Minus || k == NSKeys::Period || k == NSKeys::RightBracket || k
            == NSKeys::Semicolon || is_letter(k) || is_digit(k)),
        editor_key_for(k) is None <==> (k == NSKeys::Apostrophe || k == NSKeys::BackApostrophe || k
            == NSKeys::Backslash || k == NSKeys::Comma || k == NSKeys::Equals || k == NSKeys::FrontSlash
            || k == NSKeys::LeftBracket || k == NSKeys::Minus || k == NSKeys::Period || k
            == NSKeys::RightBracket || k == NSKeys::Semicolon || k == NSKeys::CapsLock || k
            == NSKeys::Command || k == NSKeys::Control || k == NSKeys::Option || k == NSKeys::Shift
            || k == NSKeys::Fn),
        editor_key_for(NSKeys::A) == Some(Key::A),
        editor_key_for(NSKeys::B) == Some(Key::B),
        editor_key_for(NSKeys::C) == Some(Key::C),
        editor_key_for(NSKeys::D) == Some(Key::D),
        editor_key_for(NSKeys::E) == Some(Key::E),
        editor_key_for(NSKeys::F) == Some(Key::F),
        editor_key_for(NSKeys::G) == Some(Key::G),
        editor_key_for(NSKeys::H) == Some(Key::H),
        editor_key_for(NSKeys::I) == Some(Key::I),
        editor_key_for(NSKeys::J) == Some(Key::J),
        editor_key_for(NSKeys::K) == Some(Key::K),
        editor_key_for(NSKeys::L) == Some(Key::L),
        editor_key_for(NSKeys::M) == Some(Key::M),
        editor_key_for(NSKeys::N) == Some(Key::N),
        editor_key_for(NSKeys::O) == Some(Key::O),
        editor_key_for(NSKeys::P) == Some(Key::P),
        editor_key_for(NSKeys::Q) == Some(Key::Q),
        editor_key_for(NSKeys::R) == Some(Key::R),
        editor_key_for(NSKeys::S) == Some(Key::S),
        editor_key_for(NSKeys::T) == Some(Key::T),
        editor_key_for(NSKeys::U) == Some(Key::U),
        editor_key_for(NSKeys::V) == Some(Key::V),
        editor_key_for(NSKeys::W) == Some(Key::W),
        editor_key_for(NSKeys::X) == Some(Key::X),
        editor_key_for(NSKeys::Y) == Some(Key::Y),
        editor_key_for(NSKeys::Z) == Some(Key::Z),
        editor_key_for(NSKeys::Num0) == Some(Key::Num0),
        editor_key_for(NSKeys::Num1) == Some(Key::Num1),
        editor_key_for(NSKeys::Num2) == Some(Key::Num2),
        editor_key_for(NSKeys::Num3) == Some(Key::Num3),
        editor_key_for(NSKeys::Num4) == Some(Key::Num4),
        editor_key_for(NSKeys::Num5) == Some(Key::Num5),
        editor_key_for(NSKeys::Num6) == Some(Key::Num6),
        editor_key_for(NSKeys::Num7) == Some(Key::Num7),
        editor_key_for(NSKeys::Num8) == Some(Key::Num8),
        editor_key_for(NSKeys::Num9) == Some(Key::Num9),
        editor_key_for(NSKeys::Backspace) == Some(Key::Backspace),
        editor_key_for(NSKeys::Delete) == Some(Key::Delete),
        editor_key_for(NSKeys::Escape) == Some(Key::Escape),
        editor_key_for(NSKeys::Return) == Some(Key::Enter),
        editor_key_for(NSKeys::Tab) == Some(Key::Tab),
        editor_key_for(NSKeys::Space) == Some(Key::Space),
        editor_key_for(NSKeys::Up) == Some(Key::ArrowUp),
        editor_key_for(NSKeys::Left) == Some(Key::ArrowLeft),
        editor_key_for(NSKeys::Down) == Some(Key::ArrowDown),
        editor_key_for(NSKeys::Right) == Some(Key::ArrowRight),
        editor_key_for(NSKeys::F1) == Some(Key::F1),
        editor_key_for(NSKeys::F2) == Some(Key::F2),
        editor_key_for(NSKeys::F3) == Some(Key::F3),
        editor_key_for(NSKeys::F4) == Some(Key::F4),
        editor_key_for(NSKeys::F5) == Some(Key::F5),
        editor_key_for(NSKeys::F6) == Some(Key::F6),
        editor_key_for(NSKeys::F7) == Some(Key::F7),
        editor_key_for(NSKeys::F8) == Some(Key::F8),
        editor_key_for(NSKeys::F9) == Some(Key::F9),
        editor_key_for(NSKeys::F10) == Some(Key::F10),
        editor_key_for(NSKeys::F11) == Some(Key::F11),
        editor_key_for(NSKeys::F12) == Some(Key::F12),
        editor_key_for(NSKeys::F13) == Some(Key::F13),
        editor_key_for(NSKeys::F14) == Some(Key::F14),
        editor_key_for(NSKeys::F15) == Some(Key::F15),
        editor_key_for(NSKeys::F16) == Some(Key::F16),
        editor_key_for(NSKeys::F17) == Some(Key::F17),
        editor_key_for(NSKeys::F18) == Some(Key::F18),
        editor_key_for(NSKeys::F19) == Some(Key::F19),
        editor_key_for(NSKeys::F20) == Some(Key::F20),
        editor_key_for(NSKeys::Home) == Some(Key::Home),
        editor_key_for(NSKeys::End) == Some(Key::End),
        editor_key_for(NSKeys::PageUp) == Some(Key::PageUp),
        editor_key_for(NSKeys::PageDown) == Some(Key::PageDown),
        editor_key_for(NSKeys::Insert) == Some(Key::Insert),
{
}

impl NSKeys {
    /// Maps a virtual key code to a key, sourced from the Carbon `Events.h`
    /// header. Esoteric keys (keypad operators, volume, help, forward delete)
    /// are not mapped.
    pub fn from(key_code: u16) -> (key: Option<Self>)
        ensures
            key == key_for_code(key_code),
    {
        let key = match key_code {
            0 => NSKeys::A,
            1 => NSKeys::S,
            2 => NSKeys::D,
            3 => NSKeys::F,
            4 => NSKeys::H,
            5 => NSKeys::G,
            6 => NSKeys::Z,
            7 => NSKeys::X,
            8 => NSKeys::C,
            9 => NSKeys::V,
            11 => NSKeys::B,
            12 => NSKeys::Q,
            13 => NSKeys::W,
            14 => NSKeys::E,
            15 => NSKeys::R,
            16 => NSKeys::Y,
            17 => NSKeys::T,
            18 => NSKeys::Num1,
            19 => NSKeys::Num2,
            20 => NSKeys::Num3,
            21 => NSKeys::Num4,
            22 => NSKeys::Num6,
            23 => NSKeys::Num5,
            24 => NSKeys::Equals,
            25 => NSKeys::Num9,
            26 => NSKeys::Num7,
            27 => NSKeys::Minus,
            28 => NSKeys::Num8,
            29 => NSKeys::Num0,
            30 => NSKeys::RightBracket,
            31 => NSKeys::O,
            32 => NSKeys::U,
            33 => NSKeys::LeftBracket,
            34 => NSKeys::I,
            35 => NSKeys::P,
            36 => NSKeys::Return,
            37 => NSKeys::L,
            38 => NSKeys::J,
            39 => NSKeys::Apostrophe,
            40 => NSKeys::K,
            41 => NSKeys::Semicolon,
            42 => NSKeys::Backslash,
            43 => NSKeys::Comma,
            44 => NSKeys::FrontSlash,
            45 => NSKeys::N,
            46 => NSKeys::M,
            47 => NSKeys::Period,
            48 => NSKeys::Tab,
            49 => NSKeys::Space,
            50 => NSKeys::BackApostrophe,
            51 => NSKeys::Backspace,
            53 => NSKeys::Escape,
            55 => NSKeys::Command,
            56 => NSKeys::Shift,
            57 => NSKeys::CapsLock,
            58 => NSKeys::Option,
            59 => NSKeys::Control,
            60 => NSKeys::Shift,  // right-hand Shift
            61 => NSKeys::Option,  // right-hand Option
            62 => NSKeys::Control,  // right-hand Control
            63 => NSKeys::Fn,
            64 => NSKeys::F17,
            65 => NSKeys::Period,  // keypad
            79 => NSKeys::F18,
            80 => NSKeys::F19,
            81 => NSKeys::Equals,  // keypad
            82 => NSKeys::Num0,  // keypad
            83 => NSKeys::Num1,  // keypad
            84 => NSKeys::Num2,  // keypad
            85 => NSKeys::Num3,  // keypad
            86 => NSKeys::Num4,  // keypad
            87 => NSKeys::Num5,  // keypad
            88 => NSKeys::Num6,  // keypad
            89 => NSKeys::Num7,  // keypad
            90 => NSKeys::F20,
            91 => NSKeys::Num8,  // keypad
            92 => NSKeys::Num9,  // keypad
            96 => NSKeys::F5,
            97 => NSKeys::F6,
            98 => NSKeys::F7,
            99 => NSKeys::F3,
            100 => NSKeys::F8,
            101 => NSKeys::F9,
            103 => NSKeys::F11,
            105 => NSKeys::F13,
            106 => NSKeys::F16,
            107 => NSKeys::F14,
            109 => NSKeys::F10,
            111 => NSKeys::F12,
            113 => NSKeys::F15,
            115 => NSKeys::Home,
            116 => NSKeys::PageUp,
            118 => NSKeys::F4,
            119 => NSKeys::End,
            120 => NSKeys::F2,
            121 => NSKeys::PageDown,
            122 => NSKeys::F1,
            123 => NSKeys::Left,
            124 => NSKeys::Right,
            125 => NSKeys::Down,
            126 => NSKeys::Up,
            _ => return None,
        };
        Some(key)
    }

    /// Whether typing this key produces text.
    pub fn valid_text(&self) -> (valid: bool)
        ensures
            valid == produces_text(*self),
    {
        match self {
            NSKeys::A | NSKeys::B | NSKeys::C | NSKeys::D | NSKeys::E | NSKeys::F | NSKeys::G | NSKeys::H | NSKeys::I | NSKeys::J | NSKeys::K | NSKeys::L | NSKeys::M | NSKeys::N | NSKeys::O | NSKeys::P | NSKeys::Q | NSKeys::R | NSKeys::S | NSKeys::T | NSKeys::U | NSKeys::V | NSKeys::W | NSKeys::X | NSKeys::Y | NSKeys::Z | NSKeys::Num0 | NSKeys::Num1 | NSKeys::Num2 | NSKeys::Num3 | NSKeys::Num4 | NSKeys::Num5 | NSKeys::Num6 | NSKeys::Num7 | NSKeys::Num8 | NSKeys::Num9 | NSKeys::Apostrophe | NSKeys::BackApostrophe | NSKeys::Backslash | NSKeys::Comma | NSKeys::Equals | NSKeys::FrontSlash | NSKeys::LeftBracket | NSKeys::Minus | NSKeys::Period | NSKeys::RightBracket | NSKeys::Semicolon | NSKeys::Space => true,
            NSKeys::Backspace | NSKeys::CapsLock | NSKeys::Delete | NSKeys::Escape | NSKeys::Return | NSKeys::Tab | NSKeys::Shift | NSKeys::Control | NSKeys::Command | NSKeys::Option | NSKeys::Fn | NSKeys::Up | NSKeys::Left | NSKeys::Down | NSKeys::Right | NSKeys::F1 | NSKeys::F2 | NSKeys::F3 | NSKeys::F4 | NSKeys::F5 | NSKeys::F6 | NSKeys::F7 | NSKeys::F8 | NSKeys::F9 | NSKeys::F10 | NSKeys::F11 | NSKeys::F12 | NSKeys::F13 | NSKeys::F14 | NSKeys::F15 | NSKeys::F16 | NSKeys::F17 | NSKeys::F18 | NSKeys::F19 | NSKeys::F20 | NSKeys::Home | NSKeys::End | NSKeys::PageUp | NSKeys::PageDown | NSKeys::Insert => false,
        }
    }

    /// The editor key this key stands for; punctuation and modifier keys
    /// stand for none.
    pub fn egui_key(&self) -> (key: Option<Key>)
        ensures
            key == editor_key_for(*self),
    {
        let key = match self {
            NSKeys::A => Key::A,
            NSKeys::B => Key::B,
            NSKeys::C => Key::C,
            NSKeys::D => Key::D,
            NSKeys::E => Key::E,
            NSKeys::F => Key::F,
            NSKeys::G => Key::G,
            NSKeys::H => Key::H,
            NSKeys::I => Key::I,
            NSKeys::J => Key::J,
            NSKeys::K => Key::K,
            NSKeys::L => Key::L,
            NSKeys::M => Key::M,
            NSKeys::N => Key::N,
            NSKeys::O => Key::O,
            NSKeys::P => Key::P,
            NSKeys::Q => Key::Q,
            NSKeys::R => Key::R,
            NSKeys::S => Key::S,
            NSKeys::T => Key::T,
            NSKeys::U => Key::U,
            NSKeys::V => Key::V,
            NSKeys::W => Key::W,
            NSKeys::X => Key::X,
            NSKeys::Y => Key::Y,
            NSKeys::Z => Key::Z,
            NSKeys::Num0 => Key::Num0,
            NSKeys::Num1 => Key::Num1,
            NSKeys::Num2 => Key::Num2,
            NSKeys::Num3 => Key::Num3,
            NSKeys::Num4 => Key::Num4,
            NSKeys::Num5 => Key::Num5,
            NSKeys::Num6 => Key::Num6,
            NSKeys::Num7 => Key::Num7,
            NSKeys::Num8 => Key::Num8,
            NSKeys::Num9 => Key::Num9,
            NSKeys::Backspace => Key::Backspace,
            NSKeys::Delete => Key::Delete,
            NSKeys::Escape => Key::Escape,
            NSKeys::Return => Key::Enter,
            NSKeys::Tab => Key::Tab,
            NSKeys::Space => Key::Space,
            NSKeys::Up => Key::ArrowUp,
            NSKeys::Left => Key::ArrowLeft,
            NSKeys::Down => Key::ArrowDown,
            NSKeys::Right => Key::ArrowRight,
            NSKeys::F1 => Key::F1,
            NSKeys::F2 => Key::F2,
            NSKeys::F3 => Key::F3,
            NSKeys::F4 => Key::F4,
            NSKeys::F5 => Key::F5,
            NSKeys::F6 => Key::F6,
            NSKeys::F7 => Key::F7,
            NSKeys::F8 => Key::F8,
            NSKeys::F9 => Key::F9,
            NSKeys::F10 => Key::F10,
            NSKeys::F11 => Key::F11,
            NSKeys::F12 => Key::F12,
            NSKeys::F13 => Key::F13,
            NSKeys::F14 => Key::F14,
            NSKeys::F15 => Key::F15,
            NSKeys::F16 => Key::F16,
            NSKeys::F17 => Key::F17,
            NSKeys::F18 => Key::F18,
            NSKeys::F19 => Key::F19,
            NSKeys::F20 => Key::F20,
            NSKeys::Home => Key::Home,
            NSKeys::End => Key::End,
            NSKeys::PageUp => Key::PageUp,
            NSKeys::PageDown => Key::PageDown,
            NSKeys::Insert => Key::Insert,
            NSKeys::Apostrophe | NSKeys::BackApostrophe | NSKeys::Backslash | NSKeys::CapsLock | NSKeys::Comma | NSKeys::Equals | NSKeys::FrontSlash | NSKeys::LeftBracket | NSKeys::Minus | NSKeys::Period | NSKeys::RightBracket | NSKeys::Semicolon | NSKeys::Shift | NSKeys::Control | NSKeys::Command | NSKeys::Option | NSKeys::Fn => return None,
        };
        Some(key)
    }
}

} // verus!
