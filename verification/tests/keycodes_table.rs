use nrf_rustboard::keycodes::KC;
use usbd_hid::descriptor::KeyboardUsage;

#[test]
fn every_code_is_its_hid_usage() {
    let table = [
        (KC::ERO, KeyboardUsage::KeyboardErrorRollOver as u8),
        (KC::PF, KeyboardUsage::KeyboardPOSTFail as u8),
        (KC::EU, KeyboardUsage::KeyboardErrorUndefined as u8),
        (KC::Aa, KeyboardUsage::KeyboardAa as u8),
        (KC::Bb, KeyboardUsage::KeyboardBb as u8),
        (KC::Cc, KeyboardUsage::KeyboardCc as u8),
        (KC::Dd, KeyboardUsage::KeyboardDd as u8),
        (KC::Ee, KeyboardUsage::KeyboardEe as u8),
        (KC::Ff, KeyboardUsage::KeyboardFf as u8),
        (KC::Gg, KeyboardUsage::KeyboardGg as u8),
        (KC::Hh, KeyboardUsage::KeyboardHh as u8),
        (KC::Ii, KeyboardUsage::KeyboardIi as u8),
        (KC::Jj, KeyboardUsage::KeyboardJj as u8),
        (KC::Kk, KeyboardUsage::KeyboardKk as u8),
        (KC::Ll, KeyboardUsage::KeyboardLl as u8),
        (KC::Mm, KeyboardUsage::KeyboardMm as u8),
        (KC::Nn, KeyboardUsage::KeyboardNn as u8),
        (KC::Oo, KeyboardUsage::KeyboardOo as u8),
        (KC::Pp, KeyboardUsage::KeyboardPp as u8),
        (KC::Qq, KeyboardUsage::KeyboardQq as u8),
        (KC::Rr, KeyboardUsage::KeyboardRr as u8),
        (KC::Ss, KeyboardUsage::KeyboardSs as u8),
        (KC::Tt, KeyboardUsage::KeyboardTt as u8),
        (KC::Uu, KeyboardUsage::KeyboardUu as u8),
        (KC::Vv, KeyboardUsage::KeyboardVv as u8),
        (KC::Ww, KeyboardUsage::KeyboardWw as u8),
        (KC::Xx, KeyboardUsage::KeyboardXx as u8),
        (KC::Yy, KeyboardUsage::KeyboardYy as u8),
        (KC::Zz, KeyboardUsage::KeyboardZz as u8),
        (KC::K1, KeyboardUsage::Keyboard1Exclamation as u8),
        (KC::K2, KeyboardUsage::Keyboard2At as u8),
        (KC::K3, KeyboardUsage::Keyboard3Hash as u8),
        (KC::K4, KeyboardUsage::Keyboard4Dollar as u8),
        (KC::K5, KeyboardUsage::Keyboard5Percent as u8),
        (KC::K6, KeyboardUsage::Keyboard6Caret as u8),
        (KC::K7, KeyboardUsage::Keyboard7Ampersand as u8),
        (KC::K8, KeyboardUsage::Keyboard8Asterisk as u8),
        (KC::K9, KeyboardUsage::Keyboard9OpenParens as u8),
        (KC::K0, KeyboardUsage::Keyboard0CloseParens as u8),
        (KC::Enter, KeyboardUsage::KeyboardEnter as u8),
        (KC::Escape, KeyboardUsage::KeyboardEscape as u8),
        (KC::Backspace, KeyboardUsage::KeyboardBackspace as u8),
        (KC::Tab, KeyboardUsage::KeyboardTab as u8),
        (KC::Space, KeyboardUsage::KeyboardSpacebar as u8),
        (KC::Dash, KeyboardUsage::KeyboardDashUnderscore as u8),
        (KC::Equal, KeyboardUsage::KeyboardEqualPlus as u8),
        (KC::OpenBracket, KeyboardUsage::KeyboardOpenBracketBrace as u8),
        (KC::CloseBracket, KeyboardUsage::KeyboardCloseBracketBrace as u8),
        (KC::Bslash, KeyboardUsage::KeyboardBackslashBar as u8),
        (KC::NonUSHash, KeyboardUsage::KeyboardNonUSHash as u8),
        (KC::SemiColon, KeyboardUsage::KeyboardSemiColon as u8),
        (KC::Quote, KeyboardUsage::KeyboardSingleDoubleQuote as u8),
        (KC::BacktickTilde, KeyboardUsage::KeyboardBacktickTilde as u8),
        (KC::Comma, KeyboardUsage::KeyboardCommaLess as u8),
        (KC::Period, KeyboardUsage::KeyboardPeriodGreater as u8),
        (KC::Fslash, KeyboardUsage::KeyboardSlashQuestion as u8),
        (KC::CapsLock, KeyboardUsage::KeyboardCapsLock as u8),
        (KC::F1, KeyboardUsage::KeyboardF1 as u8),
        (KC::F2, KeyboardUsage::KeyboardF2 as u8),
        (KC::F3, KeyboardUsage::KeyboardF3 as u8),
        (KC::F4, KeyboardUsage::KeyboardF4 as u8),
        (KC::F5, KeyboardUsage::KeyboardF5 as u8),
        (KC::F6, KeyboardUsage::KeyboardF6 as u8),
        (KC::F7, KeyboardUsage::KeyboardF7 as u8),
        (KC::F8, KeyboardUsage::KeyboardF8 as u8),
        (KC::F9, KeyboardUsage::KeyboardF9 as u8),
        (KC::F10, KeyboardUsage::KeyboardF10 as u8),
        (KC::F11, KeyboardUsage::KeyboardF11 as u8),
        (KC::F12, KeyboardUsage::KeyboardF12 as u8),
        (KC::F13, KeyboardUsage::KeyboardF13 as u8),
        (KC::F14, KeyboardUsage::KeyboardF14 as u8),
        (KC::F15, KeyboardUsage::KeyboardF15 as u8),
        (KC::F16, KeyboardUsage::KeyboardF16 as u8),
        (KC::F17, KeyboardUsage::KeyboardF17 as u8),
        (KC::F18, KeyboardUsage::KeyboardF18 as u8),
        (KC::F19, KeyboardUsage::KeyboardF19 as u8),
        (KC::F20, KeyboardUsage::KeyboardF20 as u8),
        (KC::F21, KeyboardUsage::KeyboardF21 as u8),
        (KC::F22, KeyboardUsage::KeyboardF22 as u8),
        (KC::F23, KeyboardUsage::KeyboardF23 as u8),
        (KC::F24, KeyboardUsage::KeyboardF24 as u8),
        (KC::PrintS, KeyboardUsage::KeyboardPrintScreen as u8),
        (KC::ScrollLock, KeyboardUsage::KeyboardScrollLock as u8),
        (KC::Pause, KeyboardUsage::KeyboardPause as u8),
        (KC::Insert, KeyboardUsage::KeyboardInsert as u8),
        (KC::Home, KeyboardUsage::KeyboardHome as u8),
        (KC::PageUp, KeyboardUsage::KeyboardPageUp as u8),
        (KC::Delete, KeyboardUsage::KeyboardDelete as u8),
        (KC::End, KeyboardUsage::KeyboardEnd as u8),
        (KC::PageDown, KeyboardUsage::KeyboardPageDown as u8),
        (KC::RightArr, KeyboardUsage::KeyboardRightArrow as u8),
        (KC::LeftArr, KeyboardUsage::KeyboardLeftArrow as u8),
        (KC::DownArr, KeyboardUsage::KeyboardDownArrow as u8),
        (KC::UpArr, KeyboardUsage::KeyboardUpArrow as u8),
        (KC::NumLock, KeyboardUsage::KeypadNumLock as u8),
        (KC::KeypadDivide, KeyboardUsage::KeypadDivide as u8),
        (KC::KeypadMultiply, KeyboardUsage::KeypadMultiply as u8),
        (KC::KMinus, KeyboardUsage::KeypadMinus as u8),
        (KC::KeypadPlus, KeyboardUsage::KeypadPlus as u8),
        (KC::KeypadEnter, KeyboardUsage::KeypadEnter as u8),
        (KC::Keypad1End, KeyboardUsage::Keypad1End as u8),
        (KC::Keypad2DownArrow, KeyboardUsage::Keypad2DownArrow as u8),
        (KC::Keypad3PageDown, KeyboardUsage::Keypad3PageDown as u8),
        (KC::Keypad4LeftArrow, KeyboardUsage::Keypad4LeftArrow as u8),
        (KC::Keypad5, KeyboardUsage::Keypad5 as u8),
        (KC::Keypad6RightArrow, KeyboardUsage::Keypad6RightArrow as u8),
        (KC::Keypad7Home, KeyboardUsage::Keypad7Home as u8),
        (KC::Keypad8UpArrow, KeyboardUsage::Keypad8UpArrow as u8),
        (KC::Keypad9PageUp, KeyboardUsage::Keypad9PageUp as u8),
        (KC::Keypad0Insert, KeyboardUsage::Keypad0Insert as u8),
        (KC::KeypadPeriodDelete, KeyboardUsage::KeypadPeriodDelete as u8),
        (KC::USSlash, KeyboardUsage::KeyboardNonUSSlash as u8),
        (KC::Application, KeyboardUsage::KeyboardApplication as u8),
        (KC::Power, KeyboardUsage::KeyboardPower as u8),
        (KC::KeypadEqual, KeyboardUsage::KeypadEqual as u8),
        (KC::Execute, KeyboardUsage::KeyboardExecute as u8),
        (KC::Help, KeyboardUsage::KeyboardHelp as u8),
        (KC::Menu, KeyboardUsage::KeyboardMenu as u8),
        (KC::Select, KeyboardUsage::KeyboardSelect as u8),
        (KC::Stop, KeyboardUsage::KeyboardStop as u8),
        (KC::Again, KeyboardUsage::KeyboardAgain as u8),
        (KC::Undo, KeyboardUsage::KeyboardUndo as u8),
        (KC::Cut, KeyboardUsage::KeyboardCut as u8),
        (KC::Copy, KeyboardUsage::KeyboardCopy as u8),
        (KC::Paste, KeyboardUsage::KeyboardPaste as u8),
        (KC::Find, KeyboardUsage::KeyboardFind as u8),
        (KC::Mute, KeyboardUsage::KeyboardMute as u8),
        (KC::VolumeUp, KeyboardUsage::KeyboardVolumeUp as u8),
        (KC::VolumeDown, KeyboardUsage::KeyboardVolumeDown as u8),
        (KC::LockingCapsLock, KeyboardUsage::KeyboardLockingCapsLock as u8),
        (KC::LockingNumLock, KeyboardUsage::KeyboardLockingNumLock as u8),
        (KC::LockingScrollLock, KeyboardUsage::KeyboardLockingScrollLock as u8),
        (KC::KeypadComma, KeyboardUsage::KeypadComma as u8),
        (KC::KeypadEqualSign, KeyboardUsage::KeypadEqualSign as u8),
        (KC::International1, KeyboardUsage::KeyboardInternational1 as u8),
        (KC::International2, KeyboardUsage::KeyboardInternational2 as u8),
        (KC::International3, KeyboardUsage::KeyboardInternational3 as u8),
        (KC::International4, KeyboardUsage::KeyboardInternational4 as u8),
        (KC::International5, KeyboardUsage::KeyboardInternational5 as u8),
        (KC::International6, KeyboardUsage::KeyboardInternational6 as u8),
        (KC::International7, KeyboardUsage::KeyboardInternational7 as u8),
        (KC::International8, KeyboardUsage::KeyboardInternational8 as u8),
        (KC::International9, KeyboardUsage::KeyboardInternational9 as u8),
        (KC::LANG1, KeyboardUsage::KeyboardLANG1 as u8),
        (KC::LANG2, KeyboardUsage::KeyboardLANG2 as u8),
        (KC::LANG3, KeyboardUsage::KeyboardLANG3 as u8),
        (KC::LANG4, KeyboardUsage::KeyboardLANG4 as u8),
        (KC::LANG5, KeyboardUsage::KeyboardLANG5 as u8),
        (KC::LANG6, KeyboardUsage::KeyboardLANG6 as u8),
        (KC::LANG7, KeyboardUsage::KeyboardLANG7 as u8),
        (KC::LANG8, KeyboardUsage::KeyboardLANG8 as u8),
        (KC::LANG9, KeyboardUsage::KeyboardLANG9 as u8),
        (KC::AlternateErase, KeyboardUsage::KeyboardAlternateErase as u8),
        (KC::SysReqAttention, KeyboardUsage::KeyboardSysReqAttention as u8),
        (KC::Cancel, KeyboardUsage::KeyboardCancel as u8),
        (KC::Clear, KeyboardUsage::KeyboardClear as u8),
        (KC::Prior, KeyboardUsage::KeyboardPrior as u8),
        (KC::Return, KeyboardUsage::KeyboardReturn as u8),
        (KC::Separator, KeyboardUsage::KeyboardSeparator as u8),
        (KC::Out, KeyboardUsage::KeyboardOut as u8),
        (KC::Oper, KeyboardUsage::KeyboardOper as u8),
        (KC::ClearAgain, KeyboardUsage::KeyboardClearAgain as u8),
        (KC::CrSelProps, KeyboardUsage::KeyboardCrSelProps as u8),
        (KC::ExSel, KeyboardUsage::KeyboardExSel as u8),
        (KC::Keypad00, KeyboardUsage::Keypad00 as u8),
        (KC::Keypad000, KeyboardUsage::Keypad000 as u8),
        (KC::ThousandsSeparator, KeyboardUsage::ThousandsSeparator as u8),
        (KC::DecimalSeparator, KeyboardUsage::DecimalSeparator as u8),
        (KC::CurrencyUnit, KeyboardUsage::CurrencyUnit as u8),
        (KC::CurrencySubunit, KeyboardUsage::CurrencySubunit as u8),
        (KC::OpenParens, KeyboardUsage::KeypadOpenParens as u8),
        (KC::CloseParens, KeyboardUsage::KeypadCloseParens as u8),
        (KC::OpenBrace, KeyboardUsage::KeypadOpenBrace as u8),
        (KC::CloseBrace, KeyboardUsage::KeypadCloseBrace as u8),
        (KC::KeypadTab, KeyboardUsage::KeypadTab as u8),
        (KC::KeypadBackspace, KeyboardUsage::KeypadBackspace as u8),
        (KC::A, KeyboardUsage::KeypadA as u8),
        (KC::B, KeyboardUsage::KeypadB as u8),
        (KC::C, KeyboardUsage::KeypadC as u8),
        (KC::D, KeyboardUsage::KeypadD as u8),
        (KC::E, KeyboardUsage::KeypadE as u8),
        (KC::F, KeyboardUsage::KeypadF as u8),
        (KC::BitwiseXor, KeyboardUsage::KeypadBitwiseXor as u8),
        (KC::LogicalXor, KeyboardUsage::KeypadLogicalXor as u8),
        (KC::Modulo, KeyboardUsage::KeypadModulo as u8),
        (KC::LShift, KeyboardUsage::KeypadLeftShift as u8),
        (KC::RightShift, KeyboardUsage::KeypadRightShift as u8),
        (KC::BitwiseAnd, KeyboardUsage::KeypadBitwiseAnd as u8),
        (KC::LogicalAnd, KeyboardUsage::KeypadLogicalAnd as u8),
        (KC::BitwiseOr, KeyboardUsage::KeypadBitwiseOr as u8),
        (KC::LogicalOr, KeyboardUsage::KeypadLogicalOr as u8),
        (KC::Colon, KeyboardUsage::KeypadColon as u8),
        (KC::Hash, KeyboardUsage::KeypadHash as u8),
        (KC::KeypadSpace, KeyboardUsage::KeypadSpace as u8),
        (KC::At, KeyboardUsage::KeypadAt as u8),
        (KC::Exclamation, KeyboardUsage::KeypadExclamation as u8),
        (KC::MemoryStore, KeyboardUsage::KeypadMemoryStore as u8),
        (KC::MemoryRecall, KeyboardUsage::KeypadMemoryRecall as u8),
        (KC::MemoryClear, KeyboardUsage::KeypadMemoryClear as u8),
        (KC::MemoryAdd, KeyboardUsage::KeypadMemoryAdd as u8),
        (KC::MemorySubtract, KeyboardUsage::KeypadMemorySubtract as u8),
        (KC::MemoryMultiply, KeyboardUsage::KeypadMemoryMultiply as u8),
        (KC::MemoryDivide, KeyboardUsage::KeypadMemoryDivide as u8),
        (KC::PositiveNegative, KeyboardUsage::KeypadPositiveNegative as u8),
        (KC::KeypadClear, KeyboardUsage::KeypadClear as u8),
        (KC::ClearEntry, KeyboardUsage::KeypadClearEntry as u8),
        (KC::Binary, KeyboardUsage::KeypadBinary as u8),
        (KC::Octal, KeyboardUsage::KeypadOctal as u8),
        (KC::Decimal, KeyboardUsage::KeypadDecimal as u8),
        (KC::Hexadecimal, KeyboardUsage::KeypadHexadecimal as u8),
        (KC::LCtrl, KeyboardUsage::KeyboardLeftControl as u8),
        (KC::LeftShift, KeyboardUsage::KeyboardLeftShift as u8),
        (KC::LAlt, KeyboardUsage::KeyboardLeftAlt as u8),
        (KC::LGUI, KeyboardUsage::KeyboardLeftGUI as u8),
        (KC::RCtrs, KeyboardUsage::KeyboardRightControl as u8),
        (KC::RShift, KeyboardUsage::KeyboardRightShift as u8),
        (KC::RAlt, KeyboardUsage::KeyboardRightAlt as u8),
        (KC::RGUI, KeyboardUsage::KeyboardRightGUI as u8),
        (KC::Reserved, KeyboardUsage::Reserved as u8),
    ];
    assert_eq!(table.len(), 219);
    for (key, usage) in table {
        assert_eq!(key.code(), usage);
    }
}

#[test]
fn no_two_codes_are_equal() {
    let all = [
        KC::ERO,
        KC::PF,
        KC::EU,
        KC::Aa,
        KC::Bb,
        KC::Cc,
        KC::Dd,
        KC::Ee,
        KC::Ff,
        KC::Gg,
        KC::Hh,
        KC::Ii,
        KC::Jj,
        KC::Kk,
        KC::Ll,
        KC::Mm,
        KC::Nn,
        KC::Oo,
        KC::Pp,
        KC::Qq,
        KC::Rr,
        KC::Ss,
        KC::Tt,
        KC::Uu,
        KC::Vv,
        KC::Ww,
        KC::Xx,
        KC::Yy,
        KC::Zz,
        KC::K1,
        KC::K2,
        KC::K3,
        KC::K4,
        KC::K5,
        KC::K6,
        KC::K7,
        KC::K8,
        KC::K9,
        KC::K0,
        KC::Enter,
        KC::Escape,
        KC::Backspace,
        KC::Tab,
        KC::Space,
        KC::Dash,
        KC::Equal,
        KC::OpenBracket,
        KC::CloseBracket,
        KC::Bslash,
        KC::NonUSHash,
        KC::SemiColon,
        KC::Quote,
        KC::BacktickTilde,
        KC::Comma,
        KC::Period,
        KC::Fslash,
        KC::CapsLock,
        KC::F1,
        KC::F2,
        KC::F3,
        KC::F4,
        KC::F5,
        KC::F6,
        KC::F7,
        KC::F8,
        KC::F9,
        KC::F10,
        KC::F11,
        KC::F12,
        KC::F13,
        KC::F14,
        KC::F15,
        KC::F16,
        KC::F17,
        KC::F18,
        KC::F19,
        KC::F20,
        KC::F21,
        KC::F22,
        KC::F23,
        KC::F24,
        KC::PrintS,
        KC::ScrollLock,
        KC::Pause,
        KC::Insert,
        KC::Home,
        KC::PageUp,
        KC::Delete,
        KC::End,
        KC::PageDown,
        KC::RightArr,
        KC::LeftArr,
        KC::DownArr,
        KC::UpArr,
        KC::NumLock,
        KC::KeypadDivide,
        KC::KeypadMultiply,
        KC::KMinus,
        KC::KeypadPlus,
        KC::KeypadEnter,
        KC::Keypad1End,
        KC::Keypad2DownArrow,
        KC::Keypad3PageDown,
        KC::Keypad4LeftArrow,
        KC::Keypad5,
        KC::Keypad6RightArrow,
        KC::Keypad7Home,
        KC::Keypad8UpArrow,
        KC::Keypad9PageUp,
        KC::Keypad0Insert,
        KC::KeypadPeriodDelete,
        KC::USSlash,
        KC::Application,
        KC::Power,
        KC::KeypadEqual,
        KC::Execute,
        KC::Help,
        KC::Menu,
        KC::Select,
        KC::Stop,
        KC::Again,
        KC::Undo,
        KC::Cut,
        KC::Copy,
        KC::Paste,
        KC::Find,
        KC::Mute,
        KC::VolumeUp,
        KC::VolumeDown,
        KC::LockingCapsLock,
        KC::LockingNumLock,
        KC::LockingScrollLock,
        KC::KeypadComma,
        KC::KeypadEqualSign,
        KC::International1,
        KC::International2,
        KC::International3,
        KC::International4,
        KC::International5,
        KC::International6,
        KC::International7,
        KC::International8,
        KC::International9,
        KC::LANG1,
        KC::LANG2,
        KC::LANG3,
        KC::LANG4,
        KC::LANG5,
        KC::LANG6,
        KC::LANG7,
        KC::LANG8,
        KC::LANG9,
        KC::AlternateErase,
        KC::SysReqAttention,
        KC::Cancel,
        KC::Clear,
        KC::Prior,
        KC::Return,
        KC::Separator,
        KC::Out,
        KC::Oper,
        KC::ClearAgain,
        KC::CrSelProps,
        KC::ExSel,
        KC::Keypad00,
        KC::Keypad000,
        KC::ThousandsSeparator,
        KC::DecimalSeparator,
        KC::CurrencyUnit,
        KC::CurrencySubunit,
        KC::OpenParens,
        KC::CloseParens,
        KC::OpenBrace,
        KC::CloseBrace,
        KC::KeypadTab,
        KC::KeypadBackspace,
        KC::A,
        KC::B,
        KC::C,
        KC::D,
        KC::E,
        KC::F,
        KC::BitwiseXor,
        KC::LogicalXor,
        KC::Modulo,
        KC::LShift,
        KC::RightShift,
        KC::BitwiseAnd,
        KC::LogicalAnd,
        KC::BitwiseOr,
        KC::LogicalOr,
        KC::Colon,
        KC::Hash,
        KC::KeypadSpace,
        KC::At,
        KC::Exclamation,
        KC::MemoryStore,
        KC::MemoryRecall,
        KC::MemoryClear,
        KC::MemoryAdd,
        KC::MemorySubtract,
        KC::MemoryMultiply,
        KC::MemoryDivide,
        KC::PositiveNegative,
        KC::KeypadClear,
        KC::ClearEntry,
        KC::Binary,
        KC::Octal,
        KC::Decimal,
        KC::Hexadecimal,
        KC::LCtrl,
        KC::LeftShift,
        KC::LAlt,
        KC::LGUI,
        KC::RCtrs,
        KC::RShift,
        KC::RAlt,
        KC::RGUI,
        KC::Reserved,
        KC::L1,
        KC::L2,
        KC::L3,
        KC::L4,
        KC::L5,
        KC::BTL,
    ];
    for (i, a) in all.iter().enumerate() {
        assert_ne!(a.code(), 0);
        for b in all.iter().skip(i + 1) {
            assert_ne!(a.code(), b.code());
        }
    }
}
