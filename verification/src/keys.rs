//! The key translation table: a static bidirectional map between raw
//! hardware scan codes (0..=255) and semantic key identifiers.
//!
//! Every scan code resolves to some `Code`; codes the table does not
//! assign resolve to `Code::Unknown`. On the assigned subset the table
//! is a bijection, so the reverse lookup recovers the scan code.
use vstd::prelude::*;
use vstd::string::*;

verus! {

/// A logical key, independent of the hardware scan code that produced it.
#[allow(non_camel_case_types)]
#[derive(Copy, Clone, Debug, PartialEq, Eq, Structural)]
pub enum Code {
    NoneKey,
    ErrorRollOver,
    POSTFail,
    ErrorUndefined,
    A,
    B,
    C,
    D,
    E,
    F,
    G,
    H,
    I,
    J,
    K,
    L,
    M,
    N,
    O,
    P,
    Q,
    R,
    S,
    T,
    U,
    V,
    W,
    X,
    Y,
    Z,
    N1,
    N2,
    N3,
    N4,
    N5,
    N6,
    N7,
    N8,
    N9,
    N0,
    Enter,
    Escape,
    Backspace,
    Tab,
    Space,
    Minus,
    Equals,
    LeftBracket,
    RightBracket,
    Backslash,
    UK_Hash,
    Semicolon,
    Quote,
    Grave,
    Comma,
    Period,
    Slash,
    CapsLock,
    F1,
    F2,
    F3,
    F4,
    F5,
    F6,
    F7,
    F8,
    F9,
    F10,
    F11,
    F12,
    PrintScreen,
    ScrollLock,
    Pause,
    Insert,
    Home,
    PageUp,
    Delete,
    End,
    PageDown,
    Right,
    Left,
    Down,
    Up,
    KP_NumLock,
    KP_Divide,
    KP_Multiply,
    KP_Subtract,
    KP_Add,
    KP_Enter,
    KP_1,
    KP_2,
    KP_3,
    KP_4,
    KP_5,
    KP_6,
    KP_7,
    KP_8,
    KP_9,
    KP_0,
    KP_Period,
    UK_Backslash,
    KP_Equal,
    F13,
    F14,
    F15,
    F16,
    F17,
    F18,
    F19,
    F20,
    F21,
    F22,
    F23,
    F24,
    Execute,
    Help,
    Menu,
    Select,
    Stop,
    Again,
    Undo,
    Cut,
    Copy,
    Paste,
    Find,
    Mute,
    VolumeUp,
    VolumeDown,
    LockingCapsLock,
    LockingNumLock,
    LockingScrollLock,
    KP_Comma,
    KP_EqualSign,
    International1,
    International2,
    International3,
    International4,
    International5,
    International6,
    International7,
    International8,
    International9,
    LANG1,
    LANG2,
    LANG3,
    LANG4,
    LANG5,
    LANG6,
    LANG7,
    LANG8,
    LANG9,
    AltErase,
    SysReq,
    Cancel,
    Clear,
    Prior,
    Return,
    Separator,
    Out,
    Oper,
    ClearAgain,
    CrSelProps,
    ExSel,
    KP_00,
    KP_000,
    ThousandsSep,
    DecimalSep,
    CurrencyUnit,
    CurrencySubUnit,
    KP_LeftParent,
    KP_RightParent,
    KP_LeftCurly,
    KP_RightCurly,
    KP_Tab,
    KP_Backspace,
    KP_A,
    KP_B,
    KP_C,
    KP_D,
    KP_E,
    KP_F,
    KP_XOR,
    KP_Pow,
    KP_Percent,
    KP_LeftAngle,
    KP_RightAngle,
    KP_BitAnd,
    KP_LogicAnd,
    KP_BitOr,
    KP_LogicOr,
    KP_Colon,
    KP_Hash,
    KP_Space,
    KP_At,
    KP_Not,
    KP_MemStore,
    KP_MemRecall,
    KP_MemClear,
    KP_MemAdd,
    KP_MemSubtract,
    KP_MemMultiply,
    KP_MemDivide,
    KP_PlusMinus,
    KP_Clear,
    KP_ClearEntry,
    KP_Binary,
    KP_Octal,
    KP_Decimal,
    KP_Hexadecimal,
    LeftCtrl,
    LeftShift,
    LeftAlt,
    LeftSuper,
    RightCtrl,
    RightShift,
    RightAlt,
    RightSuper,
    Unknown,
}

pub open spec fn key_of_code_a(c: u8) -> Code {
    if c == 9 {
        Code::Escape
    } else if c == 10 {
        Code::N1
    } else if c == 11 {
        Code::N2
    } else if c == 12 {
        Code::N3
    } else if c == 13 {
        Code::N4
    } else if c == 14 {
        Code::N5
    } else if c == 15 {
        Code::N6
    } else if c == 16 {
        Code::N7
    } else if c == 17 {
        Code::N8
    } else if c == 18 {
        Code::N9
    } else if c == 19 {
        Code::N0
    } else if c == 20 {
        Code::Minus
    } else if c == 21 {
        Code::Equals
    } else if c == 22 {
        Code::Backspace
    } else if c == 23 {
        Code::Tab
    } else if c == 24 {
        Code::Q
    } else if c == 25 {
        Code::W
    } else if c == 26 {
        Code::E
    } else if c == 27 {
        Code::R
    } else if c == 28 {
        Code::T
    } else if c == 29 {
        Code::Y
    } else if c == 30 {
        Code::U
    } else if c == 31 {
        Code::I
    } else if c == 32 {
        Code::O
    } else if c == 33 {
        Code::P
    } else if c == 34 {
        Code::LeftBracket
    } else if c == 35 {
        Code::RightBracket
    } else if c == 36 {
        Code::Enter
    } else if c == 37 {
        Code::LeftCtrl
    } else if c == 38 {
        Code::A
    } else if c == 39 {
        Code::S
    } else if c == 40 {
        Code::D
    } else if c == 41 {
        Code::F
    } else if c == 42 {
        Code::G
    } else if c == 43 {
        Code::H
    } else if c == 44 {
        Code::J
    } else if c == 45 {
        Code::K
    } else if c == 46 {
        Code::L
    } else if c == 47 {
        Code::Semicolon
    } else if c == 48 {
        Code::Quote
    } else if c == 49 {
        Code::Grave
    } else if c == 50 {
        Code::LeftShift
    } else if c == 51 {
        Code::UK_Hash
    } else if c == 52 {
        Code::Z
    } else if c == 53 {
        Code::X
    } else if c == 54 {
        Code::C
    } else if c == 55 {
        Code::V
    } else if c == 56 {
        Code::B
    } else if c == 57 {
        Code::N
    } else if c == 58 {
        Code::M
    } else if c == 59 {
        Code::Comma
    } else if c == 60 {
        Code::Period
    } else if c == 61 {
        Code::Slash
    } else if c == 62 {
        Code::RightShift
    } else if c == 63 {
        Code::KP_Multiply
    } else {
        Code::Unknown
    }
}

pub open spec fn key_of_code_b(c: u8) -> Code {
    if c == 64 {
        Code::LeftAlt
    } else if c == 65 {
        Code::Space
    } else if c == 66 {
        Code::CapsLock
    } else if c == 67 {
        Code::F1
    } else if c == 68 {
        Code::F2
    } else if c == 69 {
        Code::F3
    } else if c == 70 {
        Code::F4
    } else if c == 71 {
        Code::F5
    } else if c == 72 {
        Code::F6
    } else if c == 73 {
        Code::F7
    } else if c == 74 {
        Code::F8
    } else if c == 75 {
        Code::F9
    } else if c == 76 {
        Code::F10
    } else if c == 77 {
        Code::KP_NumLock
    } else if c == 78 {
        Code::ScrollLock
    } else if c == 79 {
        Code::KP_7
    } else if c == 80 {
        Code::KP_8
    } else if c == 81 {
        Code::KP_9
    } else if c == 82 {
        Code::KP_Subtract
    } else if c == 83 {
        Code::KP_4
    } else if c == 84 {
        Code::KP_5
    } else if c == 85 {
        Code::KP_6
    } else if c == 86 {
        Code::KP_Add
    } else if c == 87 {
        Code::KP_1
    } else if c == 88 {
        Code::KP_2
    } else if c == 89 {
        Code::KP_3
    } else if c == 90 {
        Code::KP_0
    } else if c == 91 {
        Code::KP_Period
    } else if c == 94 {
        Code::UK_Backslash
    } else if c == 95 {
        Code::F11
    } else if c == 96 {
        Code::F12
    } else if c == 98 {
        Code::LANG3
    } else if c == 99 {
        Code::LANG4
    } else if c == 104 {
        Code::KP_Enter
    } else if c == 105 {
        Code::RightCtrl
    } else if c == 106 {
        Code::KP_Divide
    } else if c == 107 {
        Code::PrintScreen
    } else if c == 108 {
        Code::RightAlt
    } else if c == 110 {
        Code::Home
    } else if c == 111 {
        Code::Up
    } else if c == 112 {
        Code::PageUp
    } else if c == 113 {
        Code::Left
    } else if c == 114 {
        Code::Right
    } else if c == 115 {
        Code::End
    } else if c == 116 {
        Code::Down
    } else if c == 117 {
        Code::PageDown
    } else if c == 118 {
        Code::Insert
    } else if c == 119 {
        Code::Delete
    } else if c == 121 {
        Code::Mute
    } else if c == 122 {
        Code::VolumeDown
    } else if c == 123 {
        Code::VolumeUp
    } else if c == 125 {
        Code::KP_Equal
    } else if c == 126 {
        Code::KP_PlusMinus
    } else if c == 127 {
        Code::Pause
    } else {
        Code::Unknown
    }
}

pub open spec fn key_of_code_c(c: u8) -> Code {
    if c == 129 {
        Code::KP_Decimal
    } else if c == 130 {
        Code::LANG1
    } else if c == 131 {
        Code::LANG2
    } else if c == 134 {
        Code::LeftSuper
    } else if c == 135 {
        Code::Menu
    } else if c == 136 {
        Code::Cancel
    } else if c == 137 {
        Code::Again
    } else if c == 139 {
        Code::Undo
    } else if c == 141 {
        Code::Copy
    } else if c == 143 {
        Code::Paste
    } else if c == 144 {
        Code::Find
    } else if c == 145 {
        Code::Cut
    } else if c == 146 {
        Code::Help
    } else {
        Code::Unknown
    }
}

pub open spec fn key_of_code_d(c: u8) -> Code {
    Code::Unknown
}

/// The scan-code table as a total mathematical map: codes the table does
/// not assign go to `Code::Unknown`.
pub open spec fn key_of_code(c: u8) -> Code {
    if c < 64 {
        key_of_code_a(c)
    } else if c < 128 {
        key_of_code_b(c)
    } else if c < 192 {
        key_of_code_c(c)
    } else {
        key_of_code_d(c)
    }
}

fn key_for_code_a(c: u8) -> (k: Code)
    requires
        0 <= c < 64,
    ensures
        k == key_of_code_a(c),
{
    match c {
        9 => Code::Escape,
        10 => Code::N1,
        11 => Code::N2,
        12 => Code::N3,
        13 => Code::N4,
        14 => Code::N5,
        15 => Code::N6,
        16 => Code::N7,
        17 => Code::N8,
        18 => Code::N9,
        19 => Code::N0,
        20 => Code::Minus,
        21 => Code::Equals,
        22 => Code::Backspace,
        23 => Code::Tab,
        24 => Code::Q,
        25 => Code::W,
        26 => Code::E,
        27 => Code::R,
        28 => Code::T,
        29 => Code::Y,
        30 => Code::U,
        31 => Code::I,
        32 => Code::O,
        33 => Code::P,
        34 => Code::LeftBracket,
        35 => Code::RightBracket,
        36 => Code::Enter,
        37 => Code::LeftCtrl,
        38 => Code::A,
        39 => Code::S,
        40 => Code::D,
        41 => Code::F,
        42 => Code::G,
        43 => Code::H,
        44 => Code::J,
        45 => Code::K,
        46 => Code::L,
        47 => Code::Semicolon,
        48 => Code::Quote,
        49 => Code::Grave,
        50 => Code::LeftShift,
        51 => Code::UK_Hash,
        52 => Code::Z,
        53 => Code::X,
        54 => Code::C,
        55 => Code::V,
        56 => Code::B,
        57 => Code::N,
        58 => Code::M,
        59 => Code::Comma,
        60 => Code::Period,
        61 => Code::Slash,
        62 => Code::RightShift,
        63 => Code::KP_Multiply,
        _ => Code::Unknown,
    }
}

fn key_for_code_b(c: u8) -> (k: Code)
    requires
        64 <= c < 128,
    ensures
        k == key_of_code_b(c),
{
    match c {
        64 => Code::LeftAlt,
        65 => Code::Space,
        66 => Code::CapsLock,
        67 => Code::F1,
        68 => Code::F2,
        69 => Code::F3,
        70 => Code::F4,
        71 => Code::F5,
        72 => Code::F6,
        73 => Code::F7,
        74 => Code::F8,
        75 => Code::F9,
        76 => Code::F10,
        77 => Code::KP_NumLock,
        78 => Code::ScrollLock,
        79 => Code::KP_7,
        80 => Code::KP_8,
        81 => Code::KP_9,
        82 => Code::KP_Subtract,
        83 => Code::KP_4,
        84 => Code::KP_5,
        85 => Code::KP_6,
        86 => Code::KP_Add,
        87 => Code::KP_1,
        88 => Code::KP_2,
        89 => Code::KP_3,
        90 => Code::KP_0,
        91 => Code::KP_Period,
        94 => Code::UK_Backslash,
        95 => Code::F11,
        96 => Code::F12,
        98 => Code::LANG3,
        99 => Code::LANG4,
        104 => Code::KP_Enter,
        105 => Code::RightCtrl,
        106 => Code::KP_Divide,
        107 => Code::PrintScreen,
        108 => Code::RightAlt,
        110 => Code::Home,
        111 => Code::Up,
        112 => Code::PageUp,
        113 => Code::Left,
        114 => Code::Right,
        115 => Code::End,
        116 => Code::Down,
        117 => Code::PageDown,
        118 => Code::Insert,
        119 => Code::Delete,
        121 => Code::Mute,
        122 => Code::VolumeDown,
        123 => Code::VolumeUp,
        125 => Code::KP_Equal,
        126 => Code::KP_PlusMinus,
        127 => Code::Pause,
        _ => Code::Unknown,
    }
}

fn key_for_code_c(c: u8) -> (k: Code)
    requires
        128 <= c < 192,
    ensures
        k == key_of_code_c(c),
{
    match c {
        129 => Code::KP_Decimal,
        130 => Code::LANG1,
        131 => Code::LANG2,
        134 => Code::LeftSuper,
        135 => Code::Menu,
        136 => Code::Cancel,
        137 => Code::Again,
        139 => Code::Undo,
        141 => Code::Copy,
        143 => Code::Paste,
        144 => Code::Find,
        145 => Code::Cut,
        146 => Code::Help,
        _ => Code::Unknown,
    }
}

fn key_for_code_d(c: u8) -> (k: Code)
    requires
        192 <= c < 256,
    ensures
        k == key_of_code_d(c),
{
    match c {
        _ => Code::Unknown,
    }
}

fn key_for_code(c: u8) -> (k: Code)
    ensures
        k == key_of_code(c),
{
    if c < 64 {
        key_for_code_a(c)
    } else if c < 128 {
        key_for_code_b(c)
    } else if c < 192 {
        key_for_code_c(c)
    } else {
        key_for_code_d(c)
    }
}

/// Builds the 256-entry scan-code table, entry by entry, so that the
/// entry at each index is exactly what `key_of_code` assigns to it.
pub fn build_keycode_table() -> (t: Vec<Code>)
    ensures
        t@.len() == 256,
        forall|i: int| 0 <= i < 256 ==> t@[i] == key_of_code(i as u8),
{
    let mut t: Vec<Code> = Vec::new();
    let mut i: usize = 0;
    while i < 256
        invariant
            i <= 256,
            t@.len() == i,
            forall|j: int| 0 <= j < i ==> t@[j] == key_of_code(j as u8),
        decreases 256 - i,
    {
        t.push(key_for_code(i as u8));
        i = i + 1;
    }
    t
}

/// The scan code that the table assigns to a key, if any: the inverse of
/// `key_of_code` on its assigned subset.
pub open spec fn code_of_key(key: Code) -> Option<u8> {
    if key == Code::Escape {
        Some(9u8)
    } else if key == Code::N1 {
        Some(10u8)
    } else if key == Code::N2 {
        Some(11u8)
    } else if key == Code::N3 {
        Some(12u8)
    } else if key == Code::N4 {
        Some(13u8)
    } else if key == Code::N5 {
        Some(14u8)
    } else if key == Code::N6 {
        Some(15u8)
    } else if key == Code::N7 {
        Some(16u8)
    } else if key == Code::N8 {
        Some(17u8)
    } else if key == Code::N9 {
        Some(18u8)
    } else if key == Code::N0 {
        Some(19u8)
    } else if key == Code::Minus {
        Some(20u8)
    } else if key == Code::Equals {
        Some(21u8)
    } else if key == Code::Backspace {
        Some(22u8)
    } else if key == Code::Tab {
        Some(23u8)
    } else if key == Code::Q {
        Some(24u8)
    } else if key == Code::W {
        Some(25u8)
    } else if key == Code::E {
        Some(26u8)
    } else if key == Code::R {
        Some(27u8)
    } else if key == Code::T {
        Some(28u8)
    } else if key == Code::Y {
        Some(29u8)
    } else if key == Code::U {
        Some(30u8)
    } else if key == Code::I {
        Some(31u8)
    } else if key == Code::O {
        Some(32u8)
    } else if key == Code::P {
        Some(33u8)
    } else if key == Code::LeftBracket {
        Some(34u8)
    } else if key == Code::RightBracket {
        Some(35u8)
    } else if key == Code::Enter {
        Some(36u8)
    } else if key == Code::LeftCtrl {
        Some(37u8)
    } else if key == Code::A {
        Some(38u8)
    } else if key == Code::S {
        Some(39u8)
    } else if key == Code::D {
        Some(40u8)
    } else if key == Code::F {
        Some(41u8)
    } else if key == Code::G {
        Some(42u8)
    } else if key == Code::H {
        Some(43u8)
    } else if key == Code::J {
        Some(44u8)
    } else if key == Code::K {
        Some(45u8)
    } else if key == Code::L {
        Some(46u8)
    } else if key == Code::Semicolon {
        Some(47u8)
    } else if key == Code::Quote {
        Some(48u8)
    } else if key == Code::Grave {
        Some(49u8)
    } else if key == Code::LeftShift {
        Some(50u8)
    } else if key == Code::UK_Hash {
        Some(51u8)
    } else if key == Code::Z {
        Some(52u8)
    } else if key == Code::X {
        Some(53u8)
    } else if key == Code::C {
        Some(54u8)
    } else if key == Code::V {
        Some(55u8)
    } else if key == Code::B {
        Some(56u8)
    } else if key == Code::N {
        Some(57u8)
    } else if key == Code::M {
        Some(58u8)
    } else if key == Code::Comma {
        Some(59u8)
    } else if key == Code::Period {
        Some(60u8)
    } else if key == Code::Slash {
        Some(61u8)
    } else if key == Code::RightShift {
        Some(62u8)
    } else if key == Code::KP_Multiply {
        Some(63u8)
    } else if key == Code::LeftAlt {
        Some(64u8)
    } else if key == Code::Space {
        Some(65u8)
    } else if key == Code::CapsLock {
        Some(66u8)
    } else if key == Code::F1 {
        Some(67u8)
    } else if key == Code::F2 {
        Some(68u8)
    } else if key == Code::F3 {
        Some(69u8)
    } else if key == Code::F4 {
        Some(70u8)
    } else if key == Code::F5 {
        Some(71u8)
    } else if key == Code::F6 {
        Some(72u8)
    } else if key == Code::F7 {
        Some(73u8)
    } else if key == Code::F8 {
        Some(74u8)
    } else if key == Code::F9 {
        Some(75u8)
    } else if key == Code::F10 {
        Some(76u8)
    } else if key == Code::KP_NumLock {
        Some(77u8)
    } else if key == Code::ScrollLock {
        Some(78u8)
    } else if key == Code::KP_7 {
        Some(79u8)
    } else if key == Code::KP_8 {
        Some(80u8)
    } else if key == Code::KP_9 {
        Some(81u8)
    } else if key == Code::KP_Subtract {
        Some(82u8)
    } else if key == Code::KP_4 {
        Some(83u8)
    } else if key == Code::KP_5 {
        Some(84u8)
    } else if key == Code::KP_6 {
        Some(85u8)
    } else if key == Code::KP_Add {
        Some(86u8)
    } else if key == Code::KP_1 {
        Some(87u8)
    } else if key == Code::KP_2 {
        Some(88u8)
    } else if key == Code::KP_3 {
        Some(89u8)
    } else if key == Code::KP_0 {
        Some(90u8)
    } else if key == Code::KP_Period {
        Some(91u8)
    } else if key == Code::UK_Backslash {
        Some(94u8)
    } else if key == Code::F11 {
        Some(95u8)
    } else if key == Code::F12 {
        Some(96u8)
    } else if key == Code::LANG3 {
        Some(98u8)
    } else if key == Code::LANG4 {
        Some(99u8)
    } else if key == Code::KP_Enter {
        Some(104u8)
    } else if key == Code::RightCtrl {
        Some(105u8)
    } else if key == Code::KP_Divide {
        Some(106u8)
    } else if key == Code::PrintScreen {
        Some(107u8)
    } else if key == Code::RightAlt {
        Some(108u8)
    } else if key == Code::Home {
        Some(110u8)
    } else if key == Code::Up {
        Some(111u8)
    } else if key == Code::PageUp {
        Some(112u8)
    } else if key == Code::Left {
        Some(113u8)
    } else if key == Code::Right {
        Some(114u8)
    } else if key == Code::End {
        Some(115u8)
    } else if key == Code::Down {
        Some(116u8)
    } else if key == Code::PageDown {
        Some(117u8)
    } else if key == Code::Insert {
        Some(118u8)
    } else if key == Code::Delete {
        Some(119u8)
    } else if key == Code::Mute {
        Some(121u8)
    } else if key == Code::VolumeDown {
        Some(122u8)
    } else if key == Code::VolumeUp {
        Some(123u8)
    } else if key == Code::KP_Equal {
        Some(125u8)
    } else if key == Code::KP_PlusMinus {
        Some(126u8)
    } else if key == Code::Pause {
        Some(127u8)
    } else if key == Code::KP_Decimal {
        Some(129u8)
    } else if key == Code::LANG1 {
        Some(130u8)
    } else if key == Code::LANG2 {
        Some(131u8)
    } else if key == Code::LeftSuper {
        Some(134u8)
    } else if key == Code::Menu {
        Some(135u8)
    } else if key == Code::Cancel {
        Some(136u8)
    } else if key == Code::Again {
        Some(137u8)
    } else if key == Code::Undo {
        Some(139u8)
    } else if key == Code::Copy {
        Some(141u8)
    } else if key == Code::Paste {
        Some(143u8)
    } else if key == Code::Find {
        Some(144u8)
    } else if key == Code::Cut {
        Some(145u8)
    } else if key == Code::Help {
        Some(146u8)
    } else {
        None
    }
}

proof fn lemma_table_inverse_a(c: u8)
    requires
        0 <= c < 64,
        key_of_code(c) != Code::Unknown,
    ensures
        code_of_key(key_of_code(c)) == Some(c),
{
}

proof fn lemma_table_inverse_b(c: u8)
    requires
        64 <= c < 128,
        key_of_code(c) != Code::Unknown,
    ensures
        code_of_key(key_of_code(c)) == Some(c),
{
}

proof fn lemma_table_inverse_c(c: u8)
    requires
        128 <= c < 192,
        key_of_code(c) != Code::Unknown,
    ensures
        code_of_key(key_of_code(c)) == Some(c),
{
}

/// On every assigned scan code, `code_of_key` inverts `key_of_code`.
pub proof fn lemma_table_inverse(c: u8)
    requires
        key_of_code(c) != Code::Unknown,
    ensures
        code_of_key(key_of_code(c)) == Some(c),
{
    if c < 64 {
        lemma_table_inverse_a(c);
    } else if c < 128 {
        lemma_table_inverse_b(c);
    } else if c < 192 {
        lemma_table_inverse_c(c);
    }
}

/// The scan codes to which the table assigns a key.
pub open spec fn assigned_code(c: u8) -> bool {
    (9 <= c <= 91)
        || (94 <= c <= 96)
        || (98 <= c <= 99)
        || (104 <= c <= 108)
        || (110 <= c <= 119)
        || (121 <= c <= 123)
        || (125 <= c <= 127)
        || (129 <= c <= 131)
        || (134 <= c <= 137)
        || (c == 139)
        || (c == 141)
        || (143 <= c <= 146)
}

/// Scan codes outside the assigned set all resolve to `Code::Unknown`.
pub proof fn lemma_unassigned_is_unknown(c: u8)
    requires
        !assigned_code(c),
    ensures
        key_of_code(c) == Code::Unknown,
{
}

/// Scan codes inside the assigned set never resolve to `Code::Unknown`.
pub proof fn lemma_assigned_is_known(c: u8)
    requires
        assigned_code(c),
    ensures
        key_of_code(c) != Code::Unknown,
{
}

/// The first scan code at or after `i` whose table entry is `key`.
pub open spec fn first_code_from(key: Code, i: int) -> Option<u8>
    decreases 256 - i,
{
    if i < 0 || i >= 256 {
        None
    } else if key_of_code(i as u8) == key {
        Some(i as u8)
    } else {
        first_code_from(key, i + 1)
    }
}

/// The scan code a reverse lookup finds for a key: the first table entry
/// equal to it, scanning from scan code zero.
pub open spec fn key_to_code_spec(key: Code) -> Option<u8> {
    first_code_from(key, 0)
}

proof fn lemma_first_code_from_finds(key: Code, c: u8, i: int)
    requires
        0 <= i <= c,
        key_of_code(c) == key,
        forall|j: int| i <= j < c ==> #[trigger] key_of_code(j as u8) != key,
    ensures
        first_code_from(key, i) == Some(c),
    decreases c - i,
{
    if i < c {
        lemma_first_code_from_finds(key, c, i + 1);
    }
}

/// The reverse lookup inverts the forward lookup on every assigned scan
/// code: the table is a bijection between the assigned codes and the
/// keys it mentions.
pub proof fn lemma_code_key_round_trip(c: u8)
    requires
        key_of_code(c) != Code::Unknown,
    ensures
        key_to_code_spec(key_of_code(c)) == Some(c),
{
    let key = key_of_code(c);
    assert forall|j: int| 0 <= j < c implies #[trigger] key_of_code(j as u8) != key by {
        if key_of_code(j as u8) == key {
            lemma_table_inverse(j as u8);
            lemma_table_inverse(c);
        }
    }
    lemma_first_code_from_finds(key, c, 0);
}

fn str_eq(a: &str, b: &str) -> (r: bool)
    ensures
        r == (a@ == b@),
{
    let sa = String::from_str(a);
    let sb = String::from_str(b);
    sa == sb
}

pub open spec fn code_of_name_a(s: Seq<char>) -> Option<Code> {
    if s == "none"@ {
        Some(Code::NoneKey)
    } else if s == "error_roll_over"@ {
        Some(Code::ErrorRollOver)
    } else if s == "post_fail"@ {
        Some(Code::POSTFail)
    } else if s == "error_undefined"@ {
        Some(Code::ErrorUndefined)
    } else if s == "a"@ {
        Some(Code::A)
    } else if s == "b"@ {
        Some(Code::B)
    } else if s == "c"@ {
        Some(Code::C)
    } else if s == "d"@ {
        Some(Code::D)
    } else if s == "e"@ {
        Some(Code::E)
    } else if s == "f"@ {
        Some(Code::F)
    } else if s == "g"@ {
        Some(Code::G)
    } else if s == "h"@ {
        Some(Code::H)
    } else if s == "i"@ {
        Some(Code::I)
    } else if s == "j"@ {
        Some(Code::J)
    } else if s == "k"@ {
        Some(Code::K)
    } else if s == "l"@ {
        Some(Code::L)
    } else if s == "m"@ {
        Some(Code::M)
    } else if s == "n"@ {
        Some(Code::N)
    } else if s == "o"@ {
        Some(Code::O)
    } else if s == "p"@ {
        Some(Code::P)
    } else if s == "q"@ {
        Some(Code::Q)
    } else if s == "r"@ {
        Some(Code::R)
    } else if s == "s"@ {
        Some(Code::S)
    } else if s == "t"@ {
        Some(Code::T)
    } else if s == "u"@ {
        Some(Code::U)
    } else if s == "v"@ {
        Some(Code::V)
    } else if s == "w"@ {
        Some(Code::W)
    } else if s == "x"@ {
        Some(Code::X)
    } else if s == "y"@ {
        Some(Code::Y)
    } else if s == "z"@ {
        Some(Code::Z)
    } else if s == "n1"@ {
        Some(Code::N1)
    } else if s == "n2"@ {
        Some(Code::N2)
    } else if s == "n3"@ {
        Some(Code::N3)
    } else if s == "n4"@ {
        Some(Code::N4)
    } else if s == "n5"@ {
        Some(Code::N5)
    } else if s == "n6"@ {
        Some(Code::N6)
    } else if s == "n7"@ {
        Some(Code::N7)
    } else if s == "n8"@ {
        Some(Code::N8)
    } else if s == "n9"@ {
        Some(Code::N9)
    } else if s == "n0"@ {
        Some(Code::N0)
    } else if s == "enter"@ {
        Some(Code::Enter)
    } else if s == "escape"@ {
        Some(Code::Escape)
    } else if s == "backspace"@ {
        Some(Code::Backspace)
    } else if s == "tab"@ {
        Some(Code::Tab)
    } else if s == "space"@ {
        Some(Code::Space)
    } else if s == "minus"@ {
        Some(Code::Minus)
    } else if s == "equals"@ {
        Some(Code::Equals)
    } else if s == "left_bracket"@ {
        Some(Code::LeftBracket)
    } else if s == "right_bracket"@ {
        Some(Code::RightBracket)
    } else if s == "backslash"@ {
        Some(Code::Backslash)
    } else if s == "uk_hash"@ {
        Some(Code::UK_Hash)
    } else if s == "semicolon"@ {
        Some(Code::Semicolon)
    } else if s == "quote"@ {
        Some(Code::Quote)
    } else if s == "grave"@ {
        Some(Code::Grave)
    } else if s == "comma"@ {
        Some(Code::Comma)
    } else if s == "period"@ {
        Some(Code::Period)
    } else {
        None
    }
}

pub open spec fn code_of_name_b(s: Seq<char>) -> Option<Code> {
    if s == "slash"@ {
        Some(Code::Slash)
    } else if s == "caps_lock"@ {
        Some(Code::CapsLock)
    } else if s == "f1"@ {
        Some(Code::F1)
    } else if s == "f2"@ {
        Some(Code::F2)
    } else if s == "f3"@ {
        Some(Code::F3)
    } else if s == "f4"@ {
        Some(Code::F4)
    } else if s == "f5"@ {
        Some(Code::F5)
    } else if s == "f6"@ {
        Some(Code::F6)
    } else if s == "f7"@ {
        Some(Code::F7)
    } else if s == "f8"@ {
        Some(Code::F8)
    } else if s == "f9"@ {
        Some(Code::F9)
    } else if s == "f10"@ {
        Some(Code::F10)
    } else if s == "f11"@ {
        Some(Code::F11)
    } else if s == "f12"@ {
        Some(Code::F12)
    } else if s == "print_screen"@ {
        Some(Code::PrintScreen)
    } else if s == "scroll_lock"@ {
        Some(Code::ScrollLock)
    } else if s == "pause"@ {
        Some(Code::Pause)
    } else if s == "insert"@ {
        Some(Code::Insert)
    } else if s == "home"@ {
        Some(Code::Home)
    } else if s == "page_up"@ {
        Some(Code::PageUp)
    } else if s == "delete"@ {
        Some(Code::Delete)
    } else if s == "end"@ {
        Some(Code::End)
    } else if s == "page_down"@ {
        Some(Code::PageDown)
    } else if s == "right"@ {
        Some(Code::Right)
    } else if s == "left"@ {
        Some(Code::Left)
    } else if s == "down"@ {
        Some(Code::Down)
    } else if s == "up"@ {
        Some(Code::Up)
    } else if s == "kp_num_lock"@ {
        Some(Code::KP_NumLock)
    } else if s == "kp_divide"@ {
        Some(Code::KP_Divide)
    } else if s == "kp_multiply"@ {
        Some(Code::KP_Multiply)
    } else if s == "kp_subtract"@ {
        Some(Code::KP_Subtract)
    } else if s == "kp_add"@ {
        Some(Code::KP_Add)
    } else if s == "kp_enter"@ {
        Some(Code::KP_Enter)
    } else if s == "kp_1"@ {
        Some(Code::KP_1)
    } else if s == "kp_2"@ {
        Some(Code::KP_2)
    } else if s == "kp_3"@ {
        Some(Code::KP_3)
    } else if s == "kp_4"@ {
        Some(Code::KP_4)
    } else if s == "kp_5"@ {
        Some(Code::KP_5)
    } else if s == "kp_6"@ {
        Some(Code::KP_6)
    } else if s == "kp_7"@ {
        Some(Code::KP_7)
    } else if s == "kp_8"@ {
        Some(Code::KP_8)
    } else if s == "kp_9"@ {
        Some(Code::KP_9)
    } else if s == "kp_0"@ {
        Some(Code::KP_0)
    } else if s == "kp_period"@ {
        Some(Code::KP_Period)
    } else if s == "uk_backslash"@ {
        Some(Code::UK_Backslash)
    } else if s == "kp_equal"@ {
        Some(Code::KP_Equal)
    } else if s == "f13"@ {
        Some(Code::F13)
    } else if s == "f14"@ {
        Some(Code::F14)
    } else if s == "f15"@ {
        Some(Code::F15)
    } else if s == "f16"@ {
        Some(Code::F16)
    } else if s == "f17"@ {
        Some(Code::F17)
    } else if s == "f18"@ {
        Some(Code::F18)
    } else if s == "f19"@ {
        Some(Code::F19)
    } else if s == "f20"@ {
        Some(Code::F20)
    } else if s == "f21"@ {
        Some(Code::F21)
    } else if s == "f22"@ {
        Some(Code::F22)
    } else {
        None
    }
}

pub open spec fn code_of_name_c(s: Seq<char>) -> Option<Code> {
    if s == "f23"@ {
        Some(Code::F23)
    } else if s == "f24"@ {
        Some(Code::F24)
    } else if s == "execute"@ {
        Some(Code::Execute)
    } else if s == "help"@ {
        Some(Code::Help)
    } else if s == "menu"@ {
        Some(Code::Menu)
    } else if s == "select"@ {
        Some(Code::Select)
    } else if s == "stop"@ {
        Some(Code::Stop)
    } else if s == "again"@ {
        Some(Code::Again)
    } else if s == "undo"@ {
        Some(Code::Undo)
    } else if s == "cut"@ {
        Some(Code::Cut)
    } else if s == "copy"@ {
        Some(Code::Copy)
    } else if s == "paste"@ {
        Some(Code::Paste)
    } else if s == "find"@ {
        Some(Code::Find)
    } else if s == "mute"@ {
        Some(Code::Mute)
    } else if s == "volume_up"@ {
        Some(Code::VolumeUp)
    } else if s == "volume_down"@ {
        Some(Code::VolumeDown)
    } else if s == "locking_caps_lock"@ {
        Some(Code::LockingCapsLock)
    } else if s == "locking_num_lock"@ {
        Some(Code::LockingNumLock)
    } else if s == "locking_scroll_lock"@ {
        Some(Code::LockingScrollLock)
    } else if s == "kp_comma"@ {
        Some(Code::KP_Comma)
    } else if s == "kp_equal_sign"@ {
        Some(Code::KP_EqualSign)
    } else if s == "international1"@ {
        Some(Code::International1)
    } else if s == "international2"@ {
        Some(Code::International2)
    } else if s == "international3"@ {
        Some(Code::International3)
    } else if s == "international4"@ {
        Some(Code::International4)
    } else if s == "international5"@ {
        Some(Code::International5)
    } else if s == "international6"@ {
        Some(Code::International6)
    } else if s == "international7"@ {
        Some(Code::International7)
    } else if s == "international8"@ {
        Some(Code::International8)
    } else if s == "international9"@ {
        Some(Code::International9)
    } else if s == "lang1"@ {
        Some(Code::LANG1)
    } else if s == "lang2"@ {
        Some(Code::LANG2)
    } else if s == "lang3"@ {
        Some(Code::LANG3)
    } else if s == "lang4"@ {
        Some(Code::LANG4)
    } else if s == "lang5"@ {
        Some(Code::LANG5)
    } else if s == "lang6"@ {
        Some(Code::LANG6)
    } else if s == "lang7"@ {
        Some(Code::LANG7)
    } else if s == "lang8"@ {
        Some(Code::LANG8)
    } else if s == "lang9"@ {
        Some(Code::LANG9)
    } else if s == "alt_erase"@ {
        Some(Code::AltErase)
    } else if s == "sys_req"@ {
        Some(Code::SysReq)
    } else if s == "cancel"@ {
        Some(Code::Cancel)
    } else if s == "clear"@ {
        Some(Code::Clear)
    } else if s == "prior"@ {
        Some(Code::Prior)
    } else if s == "return"@ {
        Some(Code::Return)
    } else if s == "separator"@ {
        Some(Code::Separator)
    } else if s == "out"@ {
        Some(Code::Out)
    } else if s == "oper"@ {
        Some(Code::Oper)
    } else if s == "clear_again"@ {
        Some(Code::ClearAgain)
    } else if s == "cr_sel_props"@ {
        Some(Code::CrSelProps)
    } else if s == "ex_sel"@ {
        Some(Code::ExSel)
    } else if s == "kp_00"@ {
        Some(Code::KP_00)
    } else if s == "kp_000"@ {
        Some(Code::KP_000)
    } else if s == "thousands_sep"@ {
        Some(Code::ThousandsSep)
    } else if s == "decimal_sep"@ {
        Some(Code::DecimalSep)
    } else if s == "currency_unit"@ {
        Some(Code::CurrencyUnit)
    } else {
        None
    }
}

pub open spec fn code_of_name_d(s: Seq<char>) -> Option<Code> {
    if s == "currency_sub_unit"@ {
        Some(Code::CurrencySubUnit)
    } else if s == "kp_left_parent"@ {
        Some(Code::KP_LeftParent)
    } else if s == "kp_right_parent"@ {
        Some(Code::KP_RightParent)
    } else if s == "kp_left_curly"@ {
        Some(Code::KP_LeftCurly)
    } else if s == "kp_right_curly"@ {
        Some(Code::KP_RightCurly)
    } else if s == "kp_tab"@ {
        Some(Code::KP_Tab)
    } else if s == "kp_backspace"@ {
        Some(Code::KP_Backspace)
    } else if s == "kp_a"@ {
        Some(Code::KP_A)
    } else if s == "kp_b"@ {
        Some(Code::KP_B)
    } else if s == "kp_c"@ {
        Some(Code::KP_C)
    } else if s == "kp_d"@ {
        Some(Code::KP_D)
    } else if s == "kp_e"@ {
        Some(Code::KP_E)
    } else if s == "kp_f"@ {
        Some(Code::KP_F)
    } else if s == "kp_xor"@ {
        Some(Code::KP_XOR)
    } else if s == "kp_pow"@ {
        Some(Code::KP_Pow)
    } else if s == "kp_percent"@ {
        Some(Code::KP_Percent)
    } else if s == "kp_left_angle"@ {
        Some(Code::KP_LeftAngle)
    } else if s == "kp_right_angle"@ {
        Some(Code::KP_RightAngle)
    } else if s == "kp_bit_and"@ {
        Some(Code::KP_BitAnd)
    } else if s == "kp_logic_and"@ {
        Some(Code::KP_LogicAnd)
    } else if s == "kp_bit_or"@ {
        Some(Code::KP_BitOr)
    } else if s == "kp_logic_or"@ {
        Some(Code::KP_LogicOr)
    } else if s == "kp_colon"@ {
        Some(Code::KP_Colon)
    } else if s == "kp_hash"@ {
        Some(Code::KP_Hash)
    } else if s == "kp_space"@ {
        Some(Code::KP_Space)
    } else if s == "kp_at"@ {
        Some(Code::KP_At)
    } else if s == "kp_not"@ {
        Some(Code::KP_Not)
    } else if s == "kp_mem_store"@ {
        Some(Code::KP_MemStore)
    } else if s == "kp_mem_recall"@ {
        Some(Code::KP_MemRecall)
    } else if s == "kp_mem_clear"@ {
        Some(Code::KP_MemClear)
    } else if s == "kp_mem_add"@ {
        Some(Code::KP_MemAdd)
    } else if s == "kp_mem_subtract"@ {
        Some(Code::KP_MemSubtract)
    } else if s == "kp_mem_multiply"@ {
        Some(Code::KP_MemMultiply)
    } else if s == "kp_mem_divide"@ {
        Some(Code::KP_MemDivide)
    } else if s == "kp_plus_minus"@ {
        Some(Code::KP_PlusMinus)
    } else if s == "kp_clear"@ {
        Some(Code::KP_Clear)
    } else if s == "kp_clear_entry"@ {
        Some(Code::KP_ClearEntry)
    } else if s == "kp_binary"@ {
        Some(Code::KP_Binary)
    } else if s == "kp_octal"@ {
        Some(Code::KP_Octal)
    } else if s == "kp_decimal"@ {
        Some(Code::KP_Decimal)
    } else if s == "kp_hexadecimal"@ {
        Some(Code::KP_Hexadecimal)
    } else if s == "ctrl"@ {
        Some(Code::LeftCtrl)
    } else if s == "shift"@ {
        Some(Code::LeftShift)
    } else if s == "left_alt"@ {
        Some(Code::LeftAlt)
    } else if s == "left_super"@ {
        Some(Code::LeftSuper)
    } else if s == "right_ctrl"@ {
        Some(Code::RightCtrl)
    } else if s == "right_shift"@ {
        Some(Code::RightShift)
    } else if s == "right_alt"@ {
        Some(Code::RightAlt)
    } else if s == "right_super"@ {
        Some(Code::RightSuper)
    } else if s == "unknown"@ {
        Some(Code::Unknown)
    } else {
        None
    }
}

/// The key, if any, whose lower-case textual name is `s`.
pub open spec fn code_of_name(s: Seq<char>) -> Option<Code> {
    if code_of_name_a(s) is Some {
        code_of_name_a(s)
    } else if code_of_name_b(s) is Some {
        code_of_name_b(s)
    } else if code_of_name_c(s) is Some {
        code_of_name_c(s)
    } else if code_of_name_d(s) is Some {
        code_of_name_d(s)
    } else {
        None
    }
}

fn from_name_a(letter: &str) -> (r: Option<Code>)
    ensures
        r == code_of_name_a(letter@),
{
    if str_eq(letter, "none") {
        Some(Code::NoneKey)
    } else if str_eq(letter, "error_roll_over") {
        Some(Code::ErrorRollOver)
    } else if str_eq(letter, "post_fail") {
        Some(Code::POSTFail)
    } else if str_eq(letter, "error_undefined") {
        Some(Code::ErrorUndefined)
    } else if str_eq(letter, "a") {
        Some(Code::A)
    } else if str_eq(letter, "b") {
        Some(Code::B)
    } else if str_eq(letter, "c") {
        Some(Code::C)
    } else if str_eq(letter, "d") {
        Some(Code::D)
    } else if str_eq(letter, "e") {
        Some(Code::E)
    } else if str_eq(letter, "f") {
        Some(Code::F)
    } else if str_eq(letter, "g") {
        Some(Code::G)
    } else if str_eq(letter, "h") {
        Some(Code::H)
    } else if str_eq(letter, "i") {
        Some(Code::I)
    } else if str_eq(letter, "j") {
        Some(Code::J)
    } else if str_eq(letter, "k") {
        Some(Code::K)
    } else if str_eq(letter, "l") {
        Some(Code::L)
    } else if str_eq(letter, "m") {
        Some(Code::M)
    } else if str_eq(letter, "n") {
        Some(Code::N)
    } else if str_eq(letter, "o") {
        Some(Code::O)
    } else if str_eq(letter, "p") {
        Some(Code::P)
    } else if str_eq(letter, "q") {
        Some(Code::Q)
    } else if str_eq(letter, "r") {
        Some(Code::R)
    } else if str_eq(letter, "s") {
        Some(Code::S)
    } else if str_eq(letter, "t") {
        Some(Code::T)
    } else if str_eq(letter, "u") {
        Some(Code::U)
    } else if str_eq(letter, "v") {
        Some(Code::V)
    } else if str_eq(letter, "w") {
        Some(Code::W)
    } else if str_eq(letter, "x") {
        Some(Code::X)
    } else if str_eq(letter, "y") {
        Some(Code::Y)
    } else if str_eq(letter, "z") {
        Some(Code::Z)
    } else if str_eq(letter, "n1") {
        Some(Code::N1)
    } else if str_eq(letter, "n2") {
        Some(Code::N2)
    } else if str_eq(letter, "n3") {
        Some(Code::N3)
    } else if str_eq(letter, "n4") {
        Some(Code::N4)
    } else if str_eq(letter, "n5") {
        Some(Code::N5)
    } else if str_eq(letter, "n6") {
        Some(Code::N6)
    } else if str_eq(letter, "n7") {
        Some(Code::N7)
    } else if str_eq(letter, "n8") {
        Some(Code::N8)
    } else if str_eq(letter, "n9") {
        Some(Code::N9)
    } else if str_eq(letter, "n0") {
        Some(Code::N0)
    } else if str_eq(letter, "enter") {
        Some(Code::Enter)
    } else if str_eq(letter, "escape") {
        Some(Code::Escape)
    } else if str_eq(letter, "backspace") {
        Some(Code::Backspace)
    } else if str_eq(letter, "tab") {
        Some(Code::Tab)
    } else if str_eq(letter, "space") {
        Some(Code::Space)
    } else if str_eq(letter, "minus") {
        Some(Code::Minus)
    } else if str_eq(letter, "equals") {
        Some(Code::Equals)
    } else if str_eq(letter, "left_bracket") {
        Some(Code::LeftBracket)
    } else if str_eq(letter, "right_bracket") {
        Some(Code::RightBracket)
    } else if str_eq(letter, "backslash") {
        Some(Code::Backslash)
    } else if str_eq(letter, "uk_hash") {
        Some(Code::UK_Hash)
    } else if str_eq(letter, "semicolon") {
        Some(Code::Semicolon)
    } else if str_eq(letter, "quote") {
        Some(Code::Quote)
    } else if str_eq(letter, "grave") {
        Some(Code::Grave)
    } else if str_eq(letter, "comma") {
        Some(Code::Comma)
    } else if str_eq(letter, "period") {
        Some(Code::Period)
    } else {
        None
    }
}

fn from_name_b(letter: &str) -> (r: Option<Code>)
    ensures
        r == code_of_name_b(letter@),
{
    if str_eq(letter, "slash") {
        Some(Code::Slash)
    } else if str_eq(letter, "caps_lock") {
        Some(Code::CapsLock)
    } else if str_eq(letter, "f1") {
        Some(Code::F1)
    } else if str_eq(letter, "f2") {
        Some(Code::F2)
    } else if str_eq(letter, "f3") {
        Some(Code::F3)
    } else if str_eq(letter, "f4") {
        Some(Code::F4)
    } else if str_eq(letter, "f5") {
        Some(Code::F5)
    } else if str_eq(letter, "f6") {
        Some(Code::F6)
    } else if str_eq(letter, "f7") {
        Some(Code::F7)
    } else if str_eq(letter, "f8") {
        Some(Code::F8)
    } else if str_eq(letter, "f9") {
        Some(Code::F9)
    } else if str_eq(letter, "f10") {
        Some(Code::F10)
    } else if str_eq(letter, "f11") {
        Some(Code::F11)
    } else if str_eq(letter, "f12") {
        Some(Code::F12)
    } else if str_eq(letter, "print_screen") {
        Some(Code::PrintScreen)
    } else if str_eq(letter, "scroll_lock") {
        Some(Code::ScrollLock)
    } else if str_eq(letter, "pause") {
        Some(Code::Pause)
    } else if str_eq(letter, "insert") {
        Some(Code::Insert)
    } else if str_eq(letter, "home") {
        Some(Code::Home)
    } else if str_eq(letter, "page_up") {
        Some(Code::PageUp)
    } else if str_eq(letter, "delete") {
        Some(Code::Delete)
    } else if str_eq(letter, "end") {
        Some(Code::End)
    } else if str_eq(letter, "page_down") {
        Some(Code::PageDown)
    } else if str_eq(letter, "right") {
        Some(Code::Right)
    } else if str_eq(letter, "left") {
        Some(Code::Left)
    } else if str_eq(letter, "down") {
        Some(Code::Down)
    } else if str_eq(letter, "up") {
        Some(Code::Up)
    } else if str_eq(letter, "kp_num_lock") {
        Some(Code::KP_NumLock)
    } else if str_eq(letter, "kp_divide") {
        Some(Code::KP_Divide)
    } else if str_eq(letter, "kp_multiply") {
        Some(Code::KP_Multiply)
    } else if str_eq(letter, "kp_subtract") {
        Some(Code::KP_Subtract)
    } else if str_eq(letter, "kp_add") {
        Some(Code::KP_Add)
    } else if str_eq(letter, "kp_enter") {
        Some(Code::KP_Enter)
    } else if str_eq(letter, "kp_1") {
        Some(Code::KP_1)
    } else if str_eq(letter, "kp_2") {
        Some(Code::KP_2)
    } else if str_eq(letter, "kp_3") {
        Some(Code::KP_3)
    } else if str_eq(letter, "kp_4") {
        Some(Code::KP_4)
    } else if str_eq(letter, "kp_5") {
        Some(Code::KP_5)
    } else if str_eq(letter, "kp_6") {
        Some(Code::KP_6)
    } else if str_eq(letter, "kp_7") {
        Some(Code::KP_7)
    } else if str_eq(letter, "kp_8") {
        Some(Code::KP_8)
    } else if str_eq(letter, "kp_9") {
        Some(Code::KP_9)
    } else if str_eq(letter, "kp_0") {
        Some(Code::KP_0)
    } else if str_eq(letter, "kp_period") {
        Some(Code::KP_Period)
    } else if str_eq(letter, "uk_backslash") {
        Some(Code::UK_Backslash)
    } else if str_eq(letter, "kp_equal") {
        Some(Code::KP_Equal)
    } else if str_eq(letter, "f13") {
        Some(Code::F13)
    } else if str_eq(letter, "f14") {
        Some(Code::F14)
    } else if str_eq(letter, "f15") {
        Some(Code::F15)
    } else if str_eq(letter, "f16") {
        Some(Code::F16)
    } else if str_eq(letter, "f17") {
        Some(Code::F17)
    } else if str_eq(letter, "f18") {
        Some(Code::F18)
    } else if str_eq(letter, "f19") {
        Some(Code::F19)
    } else if str_eq(letter, "f20") {
        Some(Code::F20)
    } else if str_eq(letter, "f21") {
        Some(Code::F21)
    } else if str_eq(letter, "f22") {
        Some(Code::F22)
    } else {
        None
    }
}

fn from_name_c(letter: &str) -> (r: Option<Code>)
    ensures
        r == code_of_name_c(letter@),
{
    if str_eq(letter, "f23") {
        Some(Code::F23)
    } else if str_eq(letter, "f24") {
        Some(Code::F24)
    } else if str_eq(letter, "execute") {
        Some(Code::Execute)
    } else if str_eq(letter, "help") {
        Some(Code::Help)
    } else if str_eq(letter, "menu") {
        Some(Code::Menu)
    } else if str_eq(letter, "select") {
        Some(Code::Select)
    } else if str_eq(letter, "stop") {
        Some(Code::Stop)
    } else if str_eq(letter, "again") {
        Some(Code::Again)
    } else if str_eq(letter, "undo") {
        Some(Code::Undo)
    } else if str_eq(letter, "cut") {
        Some(Code::Cut)
    } else if str_eq(letter, "copy") {
        Some(Code::Copy)
    } else if str_eq(letter, "paste") {
        Some(Code::Paste)
    } else if str_eq(letter, "find") {
        Some(Code::Find)
    } else if str_eq(letter, "mute") {
        Some(Code::Mute)
    } else if str_eq(letter, "volume_up") {
        Some(Code::VolumeUp)
    } else if str_eq(letter, "volume_down") {
        Some(Code::VolumeDown)
    } else if str_eq(letter, "locking_caps_lock") {
        Some(Code::LockingCapsLock)
    } else if str_eq(letter, "locking_num_lock") {
        Some(Code::LockingNumLock)
    } else if str_eq(letter, "locking_scroll_lock") {
        Some(Code::LockingScrollLock)
    } else if str_eq(letter, "kp_comma") {
        Some(Code::KP_Comma)
    } else if str_eq(letter, "kp_equal_sign") {
        Some(Code::KP_EqualSign)
    } else if str_eq(letter, "international1") {
        Some(Code::International1)
    } else if str_eq(letter, "international2") {
        Some(Code::International2)
    } else if str_eq(letter, "international3") {
        Some(Code::International3)
    } else if str_eq(letter, "international4") {
        Some(Code::International4)
    } else if str_eq(letter, "international5") {
        Some(Code::International5)
    } else if str_eq(letter, "international6") {
        Some(Code::International6)
    } else if str_eq(letter, "international7") {
        Some(Code::International7)
    } else if str_eq(letter, "international8") {
        Some(Code::International8)
    } else if str_eq(letter, "international9") {
        Some(Code::International9)
    } else if str_eq(letter, "lang1") {
        Some(Code::LANG1)
    } else if str_eq(letter, "lang2") {
        Some(Code::LANG2)
    } else if str_eq(letter, "lang3") {
        Some(Code::LANG3)
    } else if str_eq(letter, "lang4") {
        Some(Code::LANG4)
    } else if str_eq(letter, "lang5") {
        Some(Code::LANG5)
    } else if str_eq(letter, "lang6") {
        Some(Code::LANG6)
    } else if str_eq(letter, "lang7") {
        Some(Code::LANG7)
    } else if str_eq(letter, "lang8") {
        Some(Code::LANG8)
    } else if str_eq(letter, "lang9") {
        Some(Code::LANG9)
    } else if str_eq(letter, "alt_erase") {
        Some(Code::AltErase)
    } else if str_eq(letter, "sys_req") {
        Some(Code::SysReq)
    } else if str_eq(letter, "cancel") {
        Some(Code::Cancel)
    } else if str_eq(letter, "clear") {
        Some(Code::Clear)
    } else if str_eq(letter, "prior") {
        Some(Code::Prior)
    } else if str_eq(letter, "return") {
        Some(Code::Return)
    } else if str_eq(letter, "separator") {
        Some(Code::Separator)
    } else if str_eq(letter, "out") {
        Some(Code::Out)
    } else if str_eq(letter, "oper") {
        Some(Code::Oper)
    } else if str_eq(letter, "clear_again") {
        Some(Code::ClearAgain)
    } else if str_eq(letter, "cr_sel_props") {
        Some(Code::CrSelProps)
    } else if str_eq(letter, "ex_sel") {
        Some(Code::ExSel)
    } else if str_eq(letter, "kp_00") {
        Some(Code::KP_00)
    } else if str_eq(letter, "kp_000") {
        Some(Code::KP_000)
    } else if str_eq(letter, "thousands_sep") {
        Some(Code::ThousandsSep)
    } else if str_eq(letter, "decimal_sep") {
        Some(Code::DecimalSep)
    } else if str_eq(letter, "currency_unit") {
        Some(Code::CurrencyUnit)
    } else {
        None
    }
}

fn from_name_d(letter: &str) -> (r: Option<Code>)
    ensures
        r == code_of_name_d(letter@),
{
    if str_eq(letter, "currency_sub_unit") {
        Some(Code::CurrencySubUnit)
    } else if str_eq(letter, "kp_left_parent") {
        Some(Code::KP_LeftParent)
    } else if str_eq(letter, "kp_right_parent") {
        Some(Code::KP_RightParent)
    } else if str_eq(letter, "kp_left_curly") {
        Some(Code::KP_LeftCurly)
    } else if str_eq(letter, "kp_right_curly") {
        Some(Code::KP_RightCurly)
    } else if str_eq(letter, "kp_tab") {
        Some(Code::KP_Tab)
    } else if str_eq(letter, "kp_backspace") {
        Some(Code::KP_Backspace)
    } else if str_eq(letter, "kp_a") {
        Some(Code::KP_A)
    } else if str_eq(letter, "kp_b") {
        Some(Code::KP_B)
    } else if str_eq(letter, "kp_c") {
        Some(Code::KP_C)
    } else if str_eq(letter, "kp_d") {
        Some(Code::KP_D)
    } else if str_eq(letter, "kp_e") {
        Some(Code::KP_E)
    } else if str_eq(letter, "kp_f") {
        Some(Code::KP_F)
    } else if str_eq(letter, "kp_xor") {
        Some(Code::KP_XOR)
    } else if str_eq(letter, "kp_pow") {
        Some(Code::KP_Pow)
    } else if str_eq(letter, "kp_percent") {
        Some(Code::KP_Percent)
    } else if str_eq(letter, "kp_left_angle") {
        Some(Code::KP_LeftAngle)
    } else if str_eq(letter, "kp_right_angle") {
        Some(Code::KP_RightAngle)
    } else if str_eq(letter, "kp_bit_and") {
        Some(Code::KP_BitAnd)
    } else if str_eq(letter, "kp_logic_and") {
        Some(Code::KP_LogicAnd)
    } else if str_eq(letter, "kp_bit_or") {
        Some(Code::KP_BitOr)
    } else if str_eq(letter, "kp_logic_or") {
        Some(Code::KP_LogicOr)
    } else if str_eq(letter, "kp_colon") {
        Some(Code::KP_Colon)
    } else if str_eq(letter, "kp_hash") {
        Some(Code::KP_Hash)
    } else if str_eq(letter, "kp_space") {
        Some(Code::KP_Space)
    } else if str_eq(letter, "kp_at") {
        Some(Code::KP_At)
    } else if str_eq(letter, "kp_not") {
        Some(Code::KP_Not)
    } else if str_eq(letter, "kp_mem_store") {
        Some(Code::KP_MemStore)
    } else if str_eq(letter, "kp_mem_recall") {
        Some(Code::KP_MemRecall)
    } else if str_eq(letter, "kp_mem_clear") {
        Some(Code::KP_MemClear)
    } else if str_eq(letter, "kp_mem_add") {
        Some(Code::KP_MemAdd)
    } else if str_eq(letter, "kp_mem_subtract") {
        Some(Code::KP_MemSubtract)
    } else if str_eq(letter, "kp_mem_multiply") {
        Some(Code::KP_MemMultiply)
    } else if str_eq(letter, "kp_mem_divide") {
        Some(Code::KP_MemDivide)
    } else if str_eq(letter, "kp_plus_minus") {
        Some(Code::KP_PlusMinus)
    } else if str_eq(letter, "kp_clear") {
        Some(Code::KP_Clear)
    } else if str_eq(letter, "kp_clear_entry") {
        Some(Code::KP_ClearEntry)
    } else if str_eq(letter, "kp_binary") {
        Some(Code::KP_Binary)
    } else if str_eq(letter, "kp_octal") {
        Some(Code::KP_Octal)
    } else if str_eq(letter, "kp_decimal") {
        Some(Code::KP_Decimal)
    } else if str_eq(letter, "kp_hexadecimal") {
        Some(Code::KP_Hexadecimal)
    } else if str_eq(letter, "ctrl") {
        Some(Code::LeftCtrl)
    } else if str_eq(letter, "shift") {
        Some(Code::LeftShift)
    } else if str_eq(letter, "left_alt") {
        Some(Code::LeftAlt)
    } else if str_eq(letter, "left_super") {
        Some(Code::LeftSuper)
    } else if str_eq(letter, "right_ctrl") {
        Some(Code::RightCtrl)
    } else if str_eq(letter, "right_shift") {
        Some(Code::RightShift)
    } else if str_eq(letter, "right_alt") {
        Some(Code::RightAlt)
    } else if str_eq(letter, "right_super") {
        Some(Code::RightSuper)
    } else if str_eq(letter, "unknown") {
        Some(Code::Unknown)
    } else {
        None
    }
}

impl Code {
    /// Parses the textual key name used by the keybinding configuration.
    pub fn from_name(letter: &str) -> (r: Option<Code>)
        ensures
            r == code_of_name(letter@),
    {
        let ra = from_name_a(letter);
        if ra.is_some() {
            return ra;
        }
        let rb = from_name_b(letter);
        if rb.is_some() {
            return rb;
        }
        let rc = from_name_c(letter);
        if rc.is_some() {
            return rc;
        }
        let rd = from_name_d(letter);
        if rd.is_some() {
            return rd;
        }
        None
    }
}

/// The static scan-code table, built once at startup and read-only
/// thereafter.
pub struct KeyTable {
    table: Vec<Code>,
}

impl KeyTable {
    /// The table holds exactly the 256 entries of `key_of_code`.
    pub closed spec fn wf(&self) -> bool {
        self.table@.len() == 256 && forall|i: int| 0 <= i < 256 ==> self.table@[i] == key_of_code(i as u8)
    }

    pub fn new() -> (t: Self)
        ensures
            t.wf(),
    {
        KeyTable { table: build_keycode_table() }
    }

    /// Translates a raw scan code to its semantic key; scan codes the
    /// table does not assign translate to `Code::Unknown`.
    pub fn code(&self, xcode: u8) -> (r: Option<Code>)
        requires
            self.wf(),
        ensures
            r == Some(key_of_code(xcode)),
    {
        Some(self.table[xcode as usize])
    }

    /// Reverse lookup by linear scan: the first scan code whose table
    /// entry equals `key`, or `None` when the key has no assigned code.
    pub fn key_to_code(&self, key: Code) -> (r: Option<u8>)
        requires
            self.wf(),
        ensures
            r == key_to_code_spec(key),
    {
        let mut i: usize = 0;
        while i < 256
            invariant
                self.wf(),
                i <= 256,
                first_code_from(key, 0) == first_code_from(key, i as int),
            decreases 256 - i,
        {
            if self.table[i] == key {
                return Some(i as u8);
            }
            i = i + 1;
        }
        None
    }

    /// Reverse lookup from a textual key name, as the keybinding
    /// configuration writes keys.
    pub fn keycode(&self, letter: &str) -> (r: Option<u8>)
        requires
            self.wf(),
        ensures
            r == keycode_spec(letter@),
    {
        match Code::from_name(letter) {
            Some(key) => self.key_to_code(key),
            None => None,
        }
    }
}

/// What a reverse lookup by name returns: the first scan
/// code, or `None` for an unknown name or an unassigned key.
pub open spec fn keycode_spec(s: Seq<char>) -> Option<u8> {
    match code_of_name(s) {
        Some(key) => key_to_code_spec(key),
        None => None,
    }
}

} // verus!
