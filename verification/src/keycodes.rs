//! Key codes: the HID keyboard usages, the layer keys and the bootloader key.

use vstd::prelude::*;

verus! {

/// A logical key code.
///
/// Each variant stands for one usage of the HID keyboard page, named by a short
/// form of the usage's name. `L1` to `L5` select a layer and `BTL` asks for the
/// bootloader: both lie in the range that the HID table leaves unassigned.
#[derive(PartialEq, Eq, Structural, Debug, Clone, Copy)]
pub enum KC {
    /// Keyboard ErrorRollOver
    ERO,
    /// Keyboard POSTFail
    PF,
    /// Keyboard ErrorUndefined
    EU,
    /// Keyboard a and A
    Aa,
    /// Keyboard b and B
    Bb,
    /// Keyboard c and C
    Cc,
    /// Keyboard d and D
    Dd,
    /// Keyboard e and E
    Ee,
    /// Keyboard f and F
    Ff,
    /// Keyboard g and G
    Gg,
    /// Keyboard h and H
    Hh,
    /// Keyboard i and I
    Ii,
    /// Keyboard j and J
    Jj,
    /// Keyboard k and K
    Kk,
    /// Keyboard l and L
    Ll,
    /// Keyboard m and M
    Mm,
    /// Keyboard n and N
    Nn,
    /// Keyboard o and O
    Oo,
    /// Keyboard p and P
    Pp,
    /// Keyboard q and Q
    Qq,
    /// Keyboard r and R
    Rr,
    /// Keyboard s and S
    Ss,
    /// Keyboard t and T
    Tt,
    /// Keyboard u and U
    Uu,
    /// Keyboard v and V
    Vv,
    /// Keyboard w and W
    Ww,
    /// Keyboard x and X
    Xx,
    /// Keyboard y and Y
    Yy,
    /// Keyboard z and Z
    Zz,
    /// Keyboard 1 and !
    K1,
    /// Keyboard 2 and @
    K2,
    /// Keyboard 3 and #
    K3,
    /// Keyboard 4 and $
    K4,
    /// Keyboard 5 and %
    K5,
    /// Keyboard 6 and ^
    K6,
    /// Keyboard 7 and &
    K7,
    /// Keyboard 8 and *
    K8,
    /// Keyboard 9 and (
    K9,
    /// Keyboard 0 and )
    K0,
    /// Keyboard Return (ENTER)
    Enter,
    /// Keyboard ESCAPE
    Escape,
    /// Keyboard DELETE (Backspace)
    Backspace,
    /// Keyboard Tab
    Tab,
    /// Keyboard Spacebar
    Space,
    /// Keyboard - and _
    Dash,
    /// Keyboard = and +
    Equal,
    /// Keyboard [ and {
    OpenBracket,
    /// Keyboard ] and }
    CloseBracket,
    /// Keyboard \ and |
    Bslash,
    /// Keyboard Non‑US #
    NonUSHash,
    /// Keyboard ; and :
    SemiColon,
    /// Keyboard ' and "
    Quote,
    /// Keyboard ` and ~
    BacktickTilde,
    /// Keyboard , and <
    Comma,
    /// Keyboard . and >
    Period,
    /// Keyboard / and ?
    Fslash,
    /// Keyboard Caps Lock
    CapsLock,
    /// Keyboard F1
    F1,
    /// Keyboard F2
    F2,
    /// Keyboard F3
    F3,
    /// Keyboard F4
    F4,
    /// Keyboard F5
    F5,
    /// Keyboard F6
    F6,
    /// Keyboard F7
    F7,
    /// Keyboard F8
    F8,
    /// Keyboard F9
    F9,
    /// Keyboard F10
    F10,
    /// Keyboard F11
    F11,
    /// Keyboard F12
    F12,
    /// Keyboard F13
    F13,
    /// Keyboard F14
    F14,
    /// Keyboard F15
    F15,
    /// Keyboard F16
    F16,
    /// Keyboard F17
    F17,
    /// Keyboard F18
    F18,
    /// Keyboard F19
    F19,
    /// Keyboard F20
    F20,
    /// Keyboard F21
    F21,
    /// Keyboard F22
    F22,
    /// Keyboard F23
    F23,
    /// Keyboard F24
    F24,
    /// Keyboard PrintScreen
    PrintS,
    /// Keyboard ScrollLock
    ScrollLock,
    /// Keyboard Pause
    Pause,
    /// Keyboard Insert
    Insert,
    /// Keyboard Home
    Home,
    /// Keyboard PageUp
    PageUp,
    /// Keyboard Delete Forward
    Delete,
    /// Keyboard End
    End,
    /// Keyboard PageDown
    PageDown,
    /// Keyboard RightArrow
    RightArr,
    /// Keyboard LeftArrow
    LeftArr,
    /// Keyboard DownArrow
    DownArr,
    /// Keyboard UpArrow
    UpArr,
    /// Keypad Num Lock and Clear
    NumLock,
    /// Keypad /
    KeypadDivide,
    /// Keypad *
    KeypadMultiply,
    /// Keypad -
    KMinus,
    /// Keypad +
    KeypadPlus,
    /// Keypad ENTER
    KeypadEnter,
    /// Keypad 1 and End
    Keypad1End,
    /// Keypad 2 and DownArrow
    Keypad2DownArrow,
    /// Keypad 3 and PageDown
    Keypad3PageDown,
    /// Keypad 4 and LeftArrow
    Keypad4LeftArrow,
    /// Keypad 5
    Keypad5,
    /// Keypad 6 and RightArrow
    Keypad6RightArrow,
    /// Keypad 7 and Home
    Keypad7Home,
    /// Keypad 8 and UpArrow
    Keypad8UpArrow,
    /// Keypad 9 and PageUp
    Keypad9PageUp,
    /// Keypad 0 and Insert
    Keypad0Insert,
    /// Keypad . and Delete
    KeypadPeriodDelete,
    /// Keyboard Non‑US \ and |
    USSlash,
    /// Keyboard Application
    Application,
    /// Keyboard Power
    Power,
    /// Keypad =
    KeypadEqual,
    /// Keyboard Execute
    Execute,
    /// Keyboard Help
    Help,
    /// Keyboard Menu
    Menu,
    /// Keyboard Select
    Select,
    /// Keyboard Stop
    Stop,
    /// Keyboard Again
    Again,
    /// Keyboard Undo
    Undo,
    /// Keyboard Cut
    Cut,
    /// Keyboard Copy
    Copy,
    /// Keyboard Paste
    Paste,
    /// Keyboard Find
    Find,
    /// Keyboard Mute
    Mute,
    /// Keyboard Volume Up
    VolumeUp,
    /// Keyboard Volume Down
    VolumeDown,
    /// Keyboard Locking Caps Lock
    LockingCapsLock,
    /// Keyboard Locking Num Lock
    LockingNumLock,
    /// Keyboard Locking Scroll Lock
    LockingScrollLock,
    /// Keypad Comma
    KeypadComma,
    /// Keypad Equal Sign
    KeypadEqualSign,
    /// Keyboard International1
    International1,
    /// Keyboard International2
    International2,
    /// Keyboard International3
    International3,
    /// Keyboard International4
    International4,
    /// Keyboard International5
    International5,
    /// Keyboard International6
    International6,
    /// Keyboard International7
    International7,
    /// Keyboard International8
    International8,
    /// Keyboard International9
    International9,
    /// Keyboard LANG1
    LANG1,
    /// Keyboard LANG2
    LANG2,
    /// Keyboard LANG3
    LANG3,
    /// Keyboard LANG4
    LANG4,
    /// Keyboard LANG5
    LANG5,
    /// Keyboard LANG6
    LANG6,
    /// Keyboard LANG7
    LANG7,
    /// Keyboard LANG8
    LANG8,
    /// Keyboard LANG9
    LANG9,
    /// Keyboard Alternate Erase
    AlternateErase,
    /// Keyboard Sys Req Attention
    SysReqAttention,
    /// Keyboard Cancel
    Cancel,
    /// Keyboard Clear
    Clear,
    /// Keyboard Prior
    Prior,
    /// Keyboard Return
    Return,
    /// Keyboard Separator
    Separator,
    /// Keyboard Out
    Out,
    /// Keyboard Oper
    Oper,
    /// Keyboard Clear Again
    ClearAgain,
    /// Keyboard Cr Sel Props
    CrSelProps,
    /// Keyboard Ex Sel
    ExSel,
    /// Keypad00
    Keypad00,
    /// Keypad000
    Keypad000,
    /// Thousands Separator
    ThousandsSeparator,
    /// Decimal Separator
    DecimalSeparator,
    /// Currency Unit
    CurrencyUnit,
    /// Currency Subunit
    CurrencySubunit,
    /// Keypad Open Parens
    OpenParens,
    /// Keypad Close Parens
    CloseParens,
    /// Keypad Open Brace
    OpenBrace,
    /// Keypad Close Brace
    CloseBrace,
    /// Keypad Tab
    KeypadTab,
    /// Keypad Backspace
    KeypadBackspace,
    /// Keypad A
    A,
    /// Keypad B
    B,
    /// Keypad C
    C,
    /// Keypad D
    D,
    /// Keypad E
    E,
    /// Keypad F
    F,
    /// Keypad Bitwise Xor
    BitwiseXor,
    /// Keypad Logical Xor
    LogicalXor,
    /// Keypad Modulo
    Modulo,
    /// Keypad Left Shift
    LShift,
    /// Keypad Right Shift
    RightShift,
    /// Keypad Bitwise And
    BitwiseAnd,
    /// Keypad Logical And
    LogicalAnd,
    /// Keypad Bitwise Or
    BitwiseOr,
    /// Keypad Logical Or
    LogicalOr,
    /// Keypad Colon
    Colon,
    /// Keypad Hash
    Hash,
    /// Keypad Space
    KeypadSpace,
    /// Keypad At
    At,
    /// Keypad Exclamation
    Exclamation,
    /// Keypad Memory Store
    MemoryStore,
    /// Keypad Memory Recall
    MemoryRecall,
    /// Keypad Memory Clear
    MemoryClear,
    /// Keypad Memory Add
    MemoryAdd,
    /// Keypad Memory Subtract
    MemorySubtract,
    /// Keypad Memory Multiply
    MemoryMultiply,
    /// Keypad Memory Divide
    MemoryDivide,
    /// Keypad Positive Negative
    PositiveNegative,
    /// Keypad Clear
    KeypadClear,
    /// Keypad Clear Entry
    ClearEntry,
    /// Keypad Binary
    Binary,
    /// Keypad Octal
    Octal,
    /// Keypad Decimal
    Decimal,
    /// Keypad Hexadecimal
    Hexadecimal,
    /// Keyboard Left Control
    LCtrl,
    /// Keyboard Left Shift
    LeftShift,
    /// Keyboard Left Alt
    LAlt,
    /// Keyboard Left GUI
    LGUI,
    /// Keyboard Right Control
    RCtrs,
    /// Keyboard Right Shift
    RShift,
    /// Keyboard Right Alt
    RAlt,
    /// Keyboard Right GUI
    RGUI,
    /// Reserved
    Reserved,
    /// Layer 1
    L1,
    /// Layer 2
    L2,
    /// Layer 3
    L3,
    /// Layer 4
    L4,
    /// Layer 5
    L5,
    /// Bootloader entry
    BTL,
}

impl KC {
    /// The usage code of the key: the byte that stands for it in a report.
    pub open spec fn usage(self) -> u8 {
        match self {
            KC::ERO => 0x01,
            KC::PF => 0x02,
            KC::EU => 0x03,
            KC::Aa => 0x04,
            KC::Bb => 0x05,
            KC::Cc => 0x06,
            KC::Dd => 0x07,
            KC::Ee => 0x08,
            KC::Ff => 0x09,
            KC::Gg => 0x0A,
            KC::Hh => 0x0B,
            KC::Ii => 0x0C,
            KC::Jj => 0x0D,
            KC::Kk => 0x0E,
            KC::Ll => 0x0F,
            KC::Mm => 0x10,
            KC::Nn => 0x11,
            KC::Oo => 0x12,
            KC::Pp => 0x13,
            KC::Qq => 0x14,
            KC::Rr => 0x15,
            KC::Ss => 0x16,
            KC::Tt => 0x17,
            KC::Uu => 0x18,
            KC::Vv => 0x19,
            KC::Ww => 0x1A,
            KC::Xx => 0x1B,
            KC::Yy => 0x1C,
            KC::Zz => 0x1D,
            KC::K1 => 0x1E,
            KC::K2 => 0x1F,
            KC::K3 => 0x20,
            KC::K4 => 0x21,
            KC::K5 => 0x22,
            KC::K6 => 0x23,
            KC::K7 => 0x24,
            KC::K8 => 0x25,
            KC::K9 => 0x26,
            KC::K0 => 0x27,
            KC::Enter => 0x28,
            KC::Escape => 0x29,
            KC::Backspace => 0x2A,
            KC::Tab => 0x2B,
            KC::Space => 0x2C,
            KC::Dash => 0x2D,
            KC::Equal => 0x2E,
            KC::OpenBracket => 0x2F,
            KC::CloseBracket => 0x30,
            KC::Bslash => 0x31,
            KC::NonUSHash => 0x32,
            KC::SemiColon => 0x33,
            KC::Quote => 0x34,
            KC::BacktickTilde => 0x35,
            KC::Comma => 0x36,
            KC::Period => 0x37,
            KC::Fslash => 0x38,
            KC::CapsLock => 0x39,
            KC::F1 => 0x3A,
            KC::F2 => 0x3B,
            KC::F3 => 0x3C,
            KC::F4 => 0x3D,
            KC::F5 => 0x3E,
            KC::F6 => 0x3F,
            KC::F7 => 0x40,
            KC::F8 => 0x41,
            KC::F9 => 0x42,
            KC::F10 => 0x43,
            KC::F11 => 0x44,
            KC::F12 => 0x45,
            KC::F13 => 0x68,
            KC::F14 => 0x69,
            KC::F15 => 0x6A,
            KC::F16 => 0x6B,
            KC::F17 => 0x6C,
            KC::F18 => 0x6D,
            KC::F19 => 0x6E,
            KC::F20 => 0x6F,
            KC::F21 => 0x70,
            KC::F22 => 0x71,
            KC::F23 => 0x72,
            KC::F24 => 0x73,
            KC::PrintS => 0x46,
            KC::ScrollLock => 0x47,
            KC::Pause => 0x48,
            KC::Insert => 0x49,
            KC::Home => 0x4A,
            KC::PageUp => 0x4B,
            KC::Delete => 0x4C,
            KC::End => 0x4D,
            KC::PageDown => 0x4E,
            KC::RightArr => 0x4F,
            KC::LeftArr => 0x50,
            KC::DownArr => 0x51,
            KC::UpArr => 0x52,
            KC::NumLock => 0x53,
            KC::KeypadDivide => 0x54,
            KC::KeypadMultiply => 0x55,
            KC::KMinus => 0x56,
            KC::KeypadPlus => 0x57,
            KC::KeypadEnter => 0x58,
            KC::Keypad1End => 0x59,
            KC::Keypad2DownArrow => 0x5A,
            KC::Keypad3PageDown => 0x5B,
            KC::Keypad4LeftArrow => 0x5C,
            KC::Keypad5 => 0x5D,
            KC::Keypad6RightArrow => 0x5E,
            KC::Keypad7Home => 0x5F,
            KC::Keypad8UpArrow => 0x60,
            KC::Keypad9PageUp => 0x61,
            KC::Keypad0Insert => 0x62,
            KC::KeypadPeriodDelete => 0x63,
            KC::USSlash => 0x64,
            KC::Application => 0x65,
            KC::Power => 0x66,
            KC::KeypadEqual => 0x67,
            KC::Execute => 0x74,
            KC::Help => 0x75,
            KC::Menu => 0x76,
            KC::Select => 0x77,
            KC::Stop => 0x78,
            KC::Again => 0x79,
            KC::Undo => 0x7A,
            KC::Cut => 0x7B,
            KC::Copy => 0x7C,
            KC::Paste => 0x7D,
            KC::Find => 0x7E,
            KC::Mute => 0x7F,
            KC::VolumeUp => 0x80,
            KC::VolumeDown => 0x81,
            KC::LockingCapsLock => 0x82,
            KC::LockingNumLock => 0x83,
            KC::LockingScrollLock => 0x84,
            KC::KeypadComma => 0x85,
            KC::KeypadEqualSign => 0x86,
            KC::International1 => 0x87,
            KC::International2 => 0x88,
            KC::International3 => 0x89,
            KC::International4 => 0x8A,
            KC::International5 => 0x8B,
            KC::International6 => 0x8C,
            KC::International7 => 0x8D,
            KC::International8 => 0x8E,
            KC::International9 => 0x8F,
            KC::LANG1 => 0x90,
            KC::LANG2 => 0x91,
            KC::LANG3 => 0x92,
            KC::LANG4 => 0x93,
            KC::LANG5 => 0x94,
            KC::LANG6 => 0x95,
            KC::LANG7 => 0x96,
            KC::LANG8 => 0x97,
            KC::LANG9 => 0x98,
            KC::AlternateErase => 0x99,
            KC::SysReqAttention => 0x9A,
            KC::Cancel => 0x9B,
            KC::Clear => 0x9C,
            KC::Prior => 0x9D,
            KC::Return => 0x9E,
            KC::Separator => 0x9F,
            KC::Out => 0xA0,
            KC::Oper => 0xA1,
            KC::ClearAgain => 0xA2,
            KC::CrSelProps => 0xA3,
            KC::ExSel => 0xA4,
            KC::Keypad00 => 0xB0,
            KC::Keypad000 => 0xB1,
            KC::ThousandsSeparator => 0xB2,
            KC::DecimalSeparator => 0xB3,
            KC::CurrencyUnit => 0xB4,
            KC::CurrencySubunit => 0xB5,
            KC::OpenParens => 0xB6,
            KC::CloseParens => 0xB7,
            KC::OpenBrace => 0xB8,
            KC::CloseBrace => 0xB9,
            KC::KeypadTab => 0xBA,
            KC::KeypadBackspace => 0xBB,
            KC::A => 0xBC,
            KC::B => 0xBD,
            KC::C => 0xBE,
            KC::D => 0xBF,
            KC::E => 0xC0,
            KC::F => 0xC1,
            KC::BitwiseXor => 0xC2,
            KC::LogicalXor => 0xC3,
            KC::Modulo => 0xC4,
            KC::LShift => 0xC5,
            KC::RightShift => 0xC6,
            KC::BitwiseAnd => 0xC7,
            KC::LogicalAnd => 0xC8,
            KC::BitwiseOr => 0xC9,
            KC::LogicalOr => 0xCA,
            KC::Colon => 0xCB,
            KC::Hash => 0xCC,
            KC::KeypadSpace => 0xCD,
            KC::At => 0xCE,
            KC::Exclamation => 0xCF,
            KC::MemoryStore => 0xD0,
            KC::MemoryRecall => 0xD1,
            KC::MemoryClear => 0xD2,
            KC::MemoryAdd => 0xD3,
            KC::MemorySubtract => 0xD4,
            KC::MemoryMultiply => 0xD5,
            KC::MemoryDivide => 0xD6,
            KC::PositiveNegative => 0xD7,
            KC::KeypadClear => 0xD8,
            KC::ClearEntry => 0xD9,
            KC::Binary => 0xDA,
            KC::Octal => 0xDB,
            KC::Decimal => 0xDC,
            KC::Hexadecimal => 0xDD,
            KC::LCtrl => 0xE0,
            KC::LeftShift => 0xE1,
            KC::LAlt => 0xE2,
            KC::LGUI => 0xE3,
            KC::RCtrs => 0xE4,
            KC::RShift => 0xE5,
            KC::RAlt => 0xE6,
            KC::RGUI => 0xE7,
            KC::Reserved => 0xE8,
            KC::L1 => 0xF0,
            KC::L2 => 0xF1,
            KC::L3 => 0xF2,
            KC::L4 => 0xF3,
            KC::L5 => 0xF4,
            KC::BTL => 0xF5,
        }
    }

    /// The code that means "no key": `EU`.
    pub open spec fn none() -> KC {
        KC::EU
    }

    /// The bit that the key sets in a report's modifier field, 0 for a key
    /// that sets none.
    pub open spec fn modifier_mask(self) -> u8 {
        match self {
            KC::LCtrl => 0x01,
            KC::LShift => 0x02,
            KC::LAlt => 0x04,
            KC::LGUI => 0x08,
            _ => 0x00,
        }
    }

    /// The layer that the key selects, 0 for a key that selects none.
    pub open spec fn layer_number(self) -> u8 {
        match self {
            KC::L1 => 1,
            KC::L2 => 2,
            KC::L3 => 3,
            KC::L4 => 4,
            KC::L5 => 5,
            _ => 0,
        }
    }

    /// Returns the usage code of the key.
    pub fn code(&self) -> (c: u8)
        ensures
            c == self.usage(),
    {
        match self {
            KC::ERO => 0x01,
            KC::PF => 0x02,
            KC::EU => 0x03,
            KC::Aa => 0x04,
            KC::Bb => 0x05,
            KC::Cc => 0x06,
            KC::Dd => 0x07,
            KC::Ee => 0x08,
            KC::Ff => 0x09,
            KC::Gg => 0x0A,
            KC::Hh => 0x0B,
            KC::Ii => 0x0C,
            KC::Jj => 0x0D,
            KC::Kk => 0x0E,
            KC::Ll => 0x0F,
            KC::Mm => 0x10,
            KC::Nn => 0x11,
            KC::Oo => 0x12,
            KC::Pp => 0x13,
            KC::Qq => 0x14,
            KC::Rr => 0x15,
            KC::Ss => 0x16,
            KC::Tt => 0x17,
            KC::Uu => 0x18,
            KC::Vv => 0x19,
            KC::Ww => 0x1A,
            KC::Xx => 0x1B,
            KC::Yy => 0x1C,
            KC::Zz => 0x1D,
            KC::K1 => 0x1E,
            KC::K2 => 0x1F,
            KC::K3 => 0x20,
            KC::K4 => 0x21,
            KC::K5 => 0x22,
            KC::K6 => 0x23,
            KC::K7 => 0x24,
            KC::K8 => 0x25,
            KC::K9 => 0x26,
            KC::K0 => 0x27,
            KC::Enter => 0x28,
            KC::Escape => 0x29,
            KC::Backspace => 0x2A,
            KC::Tab => 0x2B,
            KC::Space => 0x2C,
            KC::Dash => 0x2D,
            KC::Equal => 0x2E,
            KC::OpenBracket => 0x2F,
            KC::CloseBracket => 0x30,
            KC::Bslash => 0x31,
            KC::NonUSHash => 0x32,
            KC::SemiColon => 0x33,
            KC::Quote => 0x34,
            KC::BacktickTilde => 0x35,
            KC::Comma => 0x36,
            KC::Period => 0x37,
            KC::Fslash => 0x38,
            KC::CapsLock => 0x39,
            KC::F1 => 0x3A,
            KC::F2 => 0x3B,
            KC::F3 => 0x3C,
            KC::F4 => 0x3D,
            KC::F5 => 0x3E,
            KC::F6 => 0x3F,
            KC::F7 => 0x40,
            KC::F8 => 0x41,
            KC::F9 => 0x42,
            KC::F10 => 0x43,
            KC::F11 => 0x44,
            KC::F12 => 0x45,
            KC::F13 => 0x68,
            KC::F14 => 0x69,
            KC::F15 => 0x6A,
            KC::F16 => 0x6B,
            KC::F17 => 0x6C,
            KC::F18 => 0x6D,
            KC::F19 => 0x6E,
            KC::F20 => 0x6F,
            KC::F21 => 0x70,
            KC::F22 => 0x71,
            KC::F23 => 0x72,
            KC::F24 => 0x73,
            KC::PrintS => 0x46,
            KC::ScrollLock => 0x47,
            KC::Pause => 0x48,
            KC::Insert => 0x49,
            KC::Home => 0x4A,
            KC::PageUp => 0x4B,
            KC::Delete => 0x4C,
            KC::End => 0x4D,
            KC::PageDown => 0x4E,
            KC::RightArr => 0x4F,
            KC::LeftArr => 0x50,
            KC::DownArr => 0x51,
            KC::UpArr => 0x52,
            KC::NumLock => 0x53,
            KC::KeypadDivide => 0x54,
            KC::KeypadMultiply => 0x55,
            KC::KMinus => 0x56,
            KC::KeypadPlus => 0x57,
            KC::KeypadEnter => 0x58,
            KC::Keypad1End => 0x59,
            KC::Keypad2DownArrow => 0x5A,
            KC::Keypad3PageDown => 0x5B,
            KC::Keypad4LeftArrow => 0x5C,
            KC::Keypad5 => 0x5D,
            KC::Keypad6RightArrow => 0x5E,
            KC::Keypad7Home => 0x5F,
            KC::Keypad8UpArrow => 0x60,
            KC::Keypad9PageUp => 0x61,
            KC::Keypad0Insert => 0x62,
            KC::KeypadPeriodDelete => 0x63,
            KC::USSlash => 0x64,
            KC::Application => 0x65,
            KC::Power => 0x66,
            KC::KeypadEqual => 0x67,
            KC::Execute => 0x74,
            KC::Help => 0x75,
            KC::Menu => 0x76,
            KC::Select => 0x77,
            KC::Stop => 0x78,
            KC::Again => 0x79,
            KC::Undo => 0x7A,
            KC::Cut => 0x7B,
            KC::Copy => 0x7C,
            KC::Paste => 0x7D,
            KC::Find => 0x7E,
            KC::Mute => 0x7F,
            KC::VolumeUp => 0x80,
            KC::VolumeDown => 0x81,
            KC::LockingCapsLock => 0x82,
            KC::LockingNumLock => 0x83,
            KC::LockingScrollLock => 0x84,
            KC::KeypadComma => 0x85,
            KC::KeypadEqualSign => 0x86,
            KC::International1 => 0x87,
            KC::International2 => 0x88,
            KC::International3 => 0x89,
            KC::International4 => 0x8A,
            KC::International5 => 0x8B,
            KC::International6 => 0x8C,
            KC::International7 => 0x8D,
            KC::International8 => 0x8E,
            KC::International9 => 0x8F,
            KC::LANG1 => 0x90,
            KC::LANG2 => 0x91,
            KC::LANG3 => 0x92,
            KC::LANG4 => 0x93,
            KC::LANG5 => 0x94,
            KC::LANG6 => 0x95,
            KC::LANG7 => 0x96,
            KC::LANG8 => 0x97,
            KC::LANG9 => 0x98,
            KC::AlternateErase => 0x99,
            KC::SysReqAttention => 0x9A,
            KC::Cancel => 0x9B,
            KC::Clear => 0x9C,
            KC::Prior => 0x9D,
            KC::Return => 0x9E,
            KC::Separator => 0x9F,
            KC::Out => 0xA0,
            KC::Oper => 0xA1,
            KC::ClearAgain => 0xA2,
            KC::CrSelProps => 0xA3,
            KC::ExSel => 0xA4,
            KC::Keypad00 => 0xB0,
            KC::Keypad000 => 0xB1,
            KC::ThousandsSeparator => 0xB2,
            KC::DecimalSeparator => 0xB3,
            KC::CurrencyUnit => 0xB4,
            KC::CurrencySubunit => 0xB5,
            KC::OpenParens => 0xB6,
            KC::CloseParens => 0xB7,
            KC::OpenBrace => 0xB8,
            KC::CloseBrace => 0xB9,
            KC::KeypadTab => 0xBA,
            KC::KeypadBackspace => 0xBB,
            KC::A => 0xBC,
            KC::B => 0xBD,
            KC::C => 0xBE,
            KC::D => 0xBF,
            KC::E => 0xC0,
            KC::F => 0xC1,
            KC::BitwiseXor => 0xC2,
            KC::LogicalXor => 0xC3,
            KC::Modulo => 0xC4,
            KC::LShift => 0xC5,
            KC::RightShift => 0xC6,
            KC::BitwiseAnd => 0xC7,
            KC::LogicalAnd => 0xC8,
            KC::BitwiseOr => 0xC9,
            KC::LogicalOr => 0xCA,
            KC::Colon => 0xCB,
            KC::Hash => 0xCC,
            KC::KeypadSpace => 0xCD,
            KC::At => 0xCE,
            KC::Exclamation => 0xCF,
            KC::MemoryStore => 0xD0,
            KC::MemoryRecall => 0xD1,
            KC::MemoryClear => 0xD2,
            KC::MemoryAdd => 0xD3,
            KC::MemorySubtract => 0xD4,
            KC::MemoryMultiply => 0xD5,
            KC::MemoryDivide => 0xD6,
            KC::PositiveNegative => 0xD7,
            KC::KeypadClear => 0xD8,
            KC::ClearEntry => 0xD9,
            KC::Binary => 0xDA,
            KC::Octal => 0xDB,
            KC::Decimal => 0xDC,
            KC::Hexadecimal => 0xDD,
            KC::LCtrl => 0xE0,
            KC::LeftShift => 0xE1,
            KC::LAlt => 0xE2,
            KC::LGUI => 0xE3,
            KC::RCtrs => 0xE4,
            KC::RShift => 0xE5,
            KC::RAlt => 0xE6,
            KC::RGUI => 0xE7,
            KC::Reserved => 0xE8,
            KC::L1 => 0xF0,
            KC::L2 => 0xF1,
            KC::L3 => 0xF2,
            KC::L4 => 0xF3,
            KC::L5 => 0xF4,
            KC::BTL => 0xF5,
        }
    }

    /// Returns the modifier bit of the key, 0 where it has none.
    pub fn get_modifier(&self) -> (m: u8)
        ensures
            m == self.modifier_mask(),
    {
        match self {
            KC::LCtrl => 0x01,
            KC::LShift => 0x02,
            KC::LAlt => 0x04,
            KC::LGUI => 0x08,
            _ => 0x00,
        }
    }

    /// Returns the layer that the key selects, 0 where it selects none.
    pub fn get_layer(&self) -> (l: u8)
        ensures
            l == self.layer_number(),
            l <= 5,
    {
        match self {
            KC::L1 => 1,
            KC::L2 => 2,
            KC::L3 => 3,
            KC::L4 => 4,
            KC::L5 => 5,
            _ => 0,
        }
    }
}

impl Default for KC {
    /// The code that means "no key".
    fn default() -> (k: KC)
        ensures
            k == KC::none(),
    {
        KC::EU
    }
}

/// What a key code does when its key goes down or up.
#[derive(PartialEq, Eq, Structural, Debug, Clone, Copy)]
pub enum KeyType {
    Combo,
    Macro,
    Modifier,
    Mouse,
    Key,
    Layer,
}

impl KeyType {
    /// The class of a key code: the layer keys select a layer, the eight
    /// modifier keys act on the modifier field, every other code is an
    /// ordinary key.
    pub open spec fn of(key: KC) -> KeyType {
        match key {
            KC::L1 | KC::L2 | KC::L3 | KC::L4 | KC::L5 => KeyType::Layer,
            KC::LShift
            | KC::LCtrl
            | KC::LAlt
            | KC::LGUI
            | KC::RShift
            | KC::RCtrs
            | KC::RAlt
            | KC::RGUI => KeyType::Modifier,
            _ => KeyType::Key,
        }
    }

    /// Classifies a key code.
    pub fn check_type(key: &KC) -> (t: KeyType)
        ensures
            t == KeyType::of(*key),
    {
        match *key {
            KC::L1 | KC::L2 | KC::L3 | KC::L4 | KC::L5 => KeyType::Layer,
            KC::LShift
            | KC::LCtrl
            | KC::LAlt
            | KC::LGUI
            | KC::RShift
            | KC::RCtrs
            | KC::RAlt
            | KC::RGUI => KeyType::Modifier,
            _ => KeyType::Key,
        }
    }
}

/// No key code has the usage code 0, so 0 can mark a free slot of a report.
pub proof fn lemma_usage_is_not_zero(key: KC)
    ensures
        key.usage() != 0,
{
}

} // verus!
