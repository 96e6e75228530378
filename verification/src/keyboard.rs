//! Back-end agnostic keyboard keys.

use vstd::prelude::*;
use crate::Device;
use crate::DeviceID;
use crate::ElementID;
use crate::Event;
use crate::Timestamp;
use crate::VALUE_ONE_BITS;
use crate::VALUE_ZERO_BITS;
use vstd::std_specs::cmp::PartialOrdSpec;
use crate::mouse::MouseEvent;
use crate::mouse::ToMouseEvent;

verus! {

/// Represents a keyboard key.
///
/// Each named key is bound to one fixed numeric code, following a
/// well-known scan-code convention; [`Key::code`] returns it and
/// [`code_to_key`] maps a raw code back to the key.  `Unknown` is the
/// fallback for codes outside the table and carries code zero.
///
/// The variants are declared in ascending code order, so the derived
/// ordering coincides with the ordering of the codes.
#[allow(missing_docs)]
#[derive(Clone, Copy, Debug, PartialEq, Eq, Structural, Hash, Ord)]
pub enum Key {
    Unknown,
    Backspace,
    Tab,
    Return,
    Escape,
    Space,
    Exclaim,
    Quotedbl,
    Hash,
    Dollar,
    Percent,
    Ampersand,
    Quote,
    LeftParen,
    RightParen,
    Asterisk,
    Plus,
    Comma,
    Minus,
    Period,
    Slash,
    D0,
    D1,
    D2,
    D3,
    D4,
    D5,
    D6,
    D7,
    D8,
    D9,
    Colon,
    Semicolon,
    Less,
    Equals,
    Greater,
    Question,
    At,
    LeftBracket,
    Backslash,
    RightBracket,
    Caret,
    Underscore,
    Backquote,
    A,
    B,
    C,
    D,
    E,
    F,
    G,
    H,
    I,
    J,
    K,
    L,
    M,
    N,
    O,
    P,
    Q,
    R,
    S,
    T,
    U,
    V,
    W,
    X,
    Y,
    Z,
    Delete,
    CapsLock,
    F1,
    F2,
    F3,
    F4,
    F5,
    F6,
    F7,
    F8,
    F9,
    F10,
    F11,
    F12,
    PrintScreen,
    ScrollLock,
    Pause,
    Insert,
    Home,
    PageUp,
    End,
    PageDown,
    Right,
    Left,
    Down,
    Up,
    NumLockClear,
    NumPadDivide,
    NumPadMultiply,
    NumPadMinus,
    NumPadPlus,
    NumPadEnter,
    NumPad1,
    NumPad2,
    NumPad3,
    NumPad4,
    NumPad5,
    NumPad6,
    NumPad7,
    NumPad8,
    NumPad9,
    NumPad0,
    NumPadPeriod,
    Application,
    Power,
    NumPadEquals,
    F13,
    F14,
    F15,
    F16,
    F17,
    F18,
    F19,
    F20,
    F21,
    F22,
    F23,
    F24,
    Execute,
    Help,
    Menu,
    Select,
    Stop,
    Again,
    Undo,
    Cut,
    Copy,
    Paste,
    Find,
    Mute,
    VolumeUp,
    VolumeDown,
    NumPadComma,
    NumPadEqualsAS400,
    AltErase,
    Sysreq,
    Cancel,
    Clear,
    Prior,
    Return2,
    Separator,
    Out,
    Oper,
    ClearAgain,
    CrSel,
    ExSel,
    NumPad00,
    NumPad000,
    ThousandsSeparator,
    DecimalSeparator,
    CurrencyUnit,
    CurrencySubUnit,
    NumPadLeftParen,
    NumPadRightParen,
    NumPadLeftBrace,
    NumPadRightBrace,
    NumPadTab,
    NumPadBackspace,
    NumPadA,
    NumPadB,
    NumPadC,
    NumPadD,
    NumPadE,
    NumPadF,
    NumPadXor,
    NumPadPower,
    NumPadPercent,
    NumPadLess,
    NumPadGreater,
    NumPadAmpersand,
    NumPadDblAmpersand,
    NumPadVerticalBar,
    NumPadDblVerticalBar,
    NumPadColon,
    NumPadHash,
    NumPadSpace,
    NumPadAt,
    NumPadExclam,
    NumPadMemStore,
    NumPadMemRecall,
    NumPadMemClear,
    NumPadMemAdd,
    NumPadMemSubtract,
    NumPadMemMultiply,
    NumPadMemDivide,
    NumPadPlusMinus,
    NumPadClear,
    NumPadClearEntry,
    NumPadBinary,
    NumPadOctal,
    NumPadDecimal,
    NumPadHexadecimal,
    LCtrl,
    LShift,
    LAlt,
    LGui,
    RCtrl,
    RShift,
    RAlt,
    RGui,
    Mode,
    AudioNext,
    AudioPrev,
    AudioStop,
    AudioPlay,
    AudioMute,
    MediaSelect,
    Www,
    Mail,
    Calculator,
    Computer,
    AcSearch,
    AcHome,
    AcBack,
    AcForward,
    AcStop,
    AcRefresh,
    AcBookmarks,
    BrightnessDown,
    BrightnessUp,
    DisplaySwitch,
    KbdIllumToggle,
    KbdIllumDown,
    KbdIllumUp,
    Eject,
    Sleep,
}

impl Key {
    /// The fixed numeric code of this key.
    pub open spec fn spec_code(self) -> i32 {
        match self {
            Key::Unknown => 0,
            Key::Backspace => 8,
            Key::Tab => 9,
            Key::Return => 13,
            Key::Escape => 27,
            Key::Space => 32,
            Key::Exclaim => 33,
            Key::Quotedbl => 34,
            Key::Hash => 35,
            Key::Dollar => 36,
            Key::Percent => 37,
            Key::Ampersand => 38,
            Key::Quote => 39,
            Key::LeftParen => 40,
            Key::RightParen => 41,
            Key::Asterisk => 42,
            Key::Plus => 43,
            Key::Comma => 44,
            Key::Minus => 45,
            Key::Period => 46,
            Key::Slash => 47,
            Key::D0 => 48,
            Key::D1 => 49,
            Key::D2 => 50,
            Key::D3 => 51,
            Key::D4 => 52,
            Key::D5 => 53,
            Key::D6 => 54,
            Key::D7 => 55,
            Key::D8 => 56,
            Key::D9 => 57,
            Key::Colon => 58,
            Key::Semicolon => 59,
            Key::Less => 60,
            Key::Equals => 61,
            Key::Greater => 62,
            Key::Question => 63,
            Key::At => 64,
            Key::LeftBracket => 91,
            Key::Backslash => 92,
            Key::RightBracket => 93,
            Key::Caret => 94,
            Key::Underscore => 95,
            Key::Backquote => 96,
            Key::A => 97,
            Key::B => 98,
            Key::C => 99,
            Key::D => 100,
            Key::E => 101,
            Key::F => 102,
            Key::G => 103,
            Key::H => 104,
            Key::I => 105,
            Key::J => 106,
            Key::K => 107,
            Key::L => 108,
            Key::M => 109,
            Key::N => 110,
            Key::O => 111,
            Key::P => 112,
            Key::Q => 113,
            Key::R => 114,
            Key::S => 115,
            Key::T => 116,
            Key::U => 117,
            Key::V => 118,
            Key::W => 119,
            Key::X => 120,
            Key::Y => 121,
            Key::Z => 122,
            Key::Delete => 127,
            Key::CapsLock => 1073741881,
            Key::F1 => 1073741882,
            Key::F2 => 1073741883,
            Key::F3 => 1073741884,
            Key::F4 => 1073741885,
            Key::F5 => 1073741886,
            Key::F6 => 1073741887,
            Key::F7 => 1073741888,
            Key::F8 => 1073741889,
            Key::F9 => 1073741890,
            Key::F10 => 1073741891,
            Key::F11 => 1073741892,
            Key::F12 => 1073741893,
            Key::PrintScreen => 1073741894,
            Key::ScrollLock => 1073741895,
            Key::Pause => 1073741896,
            Key::Insert => 1073741897,
            Key::Home => 1073741898,
            Key::PageUp => 1073741899,
            Key::End => 1073741901,
            Key::PageDown => 1073741902,
            Key::Right => 1073741903,
            Key::Left => 1073741904,
            Key::Down => 1073741905,
            Key::Up => 1073741906,
            Key::NumLockClear => 1073741907,
            Key::NumPadDivide => 1073741908,
            Key::NumPadMultiply => 1073741909,
            Key::NumPadMinus => 1073741910,
            Key::NumPadPlus => 1073741911,
            Key::NumPadEnter => 1073741912,
            Key::NumPad1 => 1073741913,
            Key::NumPad2 => 1073741914,
            Key::NumPad3 => 1073741915,
            Key::NumPad4 => 1073741916,
            Key::NumPad5 => 1073741917,
            Key::NumPad6 => 1073741918,
            Key::NumPad7 => 1073741919,
            Key::NumPad8 => 1073741920,
            Key::NumPad9 => 1073741921,
            Key::NumPad0 => 1073741922,
            Key::NumPadPeriod => 1073741923,
            Key::Application => 1073741925,
            Key::Power => 1073741926,
            Key::NumPadEquals => 1073741927,
            Key::F13 => 1073741928,
            Key::F14 => 1073741929,
            Key::F15 => 1073741930,
            Key::F16 => 1073741931,
            Key::F17 => 1073741932,
            Key::F18 => 1073741933,
            Key::F19 => 1073741934,
            Key::F20 => 1073741935,
            Key::F21 => 1073741936,
            Key::F22 => 1073741937,
            Key::F23 => 1073741938,
            Key::F24 => 1073741939,
            Key::Execute => 1073741940,
            Key::Help => 1073741941,
            Key::Menu => 1073741942,
            Key::Select => 1073741943,
            Key::Stop => 1073741944,
            Key::Again => 1073741945,
            Key::Undo => 1073741946,
            Key::Cut => 1073741947,
            Key::Copy => 1073741948,
            Key::Paste => 1073741949,
            Key::Find => 1073741950,
            Key::Mute => 1073741951,
            Key::VolumeUp => 1073741952,
            Key::VolumeDown => 1073741953,
            Key::NumPadComma => 1073741957,
            Key::NumPadEqualsAS400 => 1073741958,
            Key::AltErase => 1073741977,
            Key::Sysreq => 1073741978,
            Key::Cancel => 1073741979,
            Key::Clear => 1073741980,
            Key::Prior => 1073741981,
            Key::Return2 => 1073741982,
            Key::Separator => 1073741983,
            Key::Out => 1073741984,
            Key::Oper => 1073741985,
            Key::ClearAgain => 1073741986,
            Key::CrSel => 1073741987,
            Key::ExSel => 1073741988,
            Key::NumPad00 => 1073742000,
            Key::NumPad000 => 1073742001,
            Key::ThousandsSeparator => 1073742002,
            Key::DecimalSeparator => 1073742003,
            Key::CurrencyUnit => 1073742004,
            Key::CurrencySubUnit => 1073742005,
            Key::NumPadLeftParen => 1073742006,
            Key::NumPadRightParen => 1073742007,
            Key::NumPadLeftBrace => 1073742008,
            Key::NumPadRightBrace => 1073742009,
            Key::NumPadTab => 1073742010,
            Key::NumPadBackspace => 1073742011,
            Key::NumPadA => 1073742012,
            Key::NumPadB => 1073742013,
            Key::NumPadC => 1073742014,
            Key::NumPadD => 1073742015,
            Key::NumPadE => 1073742016,
            Key::NumPadF => 1073742017,
            Key::NumPadXor => 1073742018,
            Key::NumPadPower => 1073742019,
            Key::NumPadPercent => 1073742020,
            Key::NumPadLess => 1073742021,
            Key::NumPadGreater => 1073742022,
            Key::NumPadAmpersand => 1073742023,
            Key::NumPadDblAmpersand => 1073742024,
            Key::NumPadVerticalBar => 1073742025,
            Key::NumPadDblVerticalBar => 1073742026,
            Key::NumPadColon => 1073742027,
            Key::NumPadHash => 1073742028,
            Key::NumPadSpace => 1073742029,
            Key::NumPadAt => 1073742030,
            Key::NumPadExclam => 1073742031,
            Key::NumPadMemStore => 1073742032,
            Key::NumPadMemRecall => 1073742033,
            Key::NumPadMemClear => 1073742034,
            Key::NumPadMemAdd => 1073742035,
            Key::NumPadMemSubtract => 1073742036,
            Key::NumPadMemMultiply => 1073742037,
            Key::NumPadMemDivide => 1073742038,
            Key::NumPadPlusMinus => 1073742039,
            Key::NumPadClear => 1073742040,
            Key::NumPadClearEntry => 1073742041,
            Key::NumPadBinary => 1073742042,
            Key::NumPadOctal => 1073742043,
            Key::NumPadDecimal => 1073742044,
            Key::NumPadHexadecimal => 1073742045,
            Key::LCtrl => 1073742048,
            Key::LShift => 1073742049,
            Key::LAlt => 1073742050,
            Key::LGui => 1073742051,
            Key::RCtrl => 1073742052,
            Key::RShift => 1073742053,
            Key::RAlt => 1073742054,
            Key::RGui => 1073742055,
            Key::Mode => 1073742081,
            Key::AudioNext => 1073742082,
            Key::AudioPrev => 1073742083,
            Key::AudioStop => 1073742084,
            Key::AudioPlay => 1073742085,
            Key::AudioMute => 1073742086,
            Key::MediaSelect => 1073742087,
            Key::Www => 1073742088,
            Key::Mail => 1073742089,
            Key::Calculator => 1073742090,
            Key::Computer => 1073742091,
            Key::AcSearch => 1073742092,
            Key::AcHome => 1073742093,
            Key::AcBack => 1073742094,
            Key::AcForward => 1073742095,
            Key::AcStop => 1073742096,
            Key::AcRefresh => 1073742097,
            Key::AcBookmarks => 1073742098,
            Key::BrightnessDown => 1073742099,
            Key::BrightnessUp => 1073742100,
            Key::DisplaySwitch => 1073742101,
            Key::KbdIllumToggle => 1073742102,
            Key::KbdIllumDown => 1073742103,
            Key::KbdIllumUp => 1073742104,
            Key::Eject => 1073742105,
            Key::Sleep => 1073742106,
        }
    }

    /// Returns the fixed numeric code of this key.
    pub fn code(&self) -> (c: i32)
        ensures
            c == self.spec_code(),
    {
        match self {
            Key::Unknown => 0,
            Key::Backspace => 8,
            Key::Tab => 9,
            Key::Return => 13,
            Key::Escape => 27,
            Key::Space => 32,
            Key::Exclaim => 33,
            Key::Quotedbl => 34,
            Key::Hash => 35,
            Key::Dollar => 36,
            Key::Percent => 37,
            Key::Ampersand => 38,
            Key::Quote => 39,
            Key::LeftParen => 40,
            Key::RightParen => 41,
            Key::Asterisk => 42,
            Key::Plus => 43,
            Key::Comma => 44,
            Key::Minus => 45,
            Key::Period => 46,
            Key::Slash => 47,
            Key::D0 => 48,
            Key::D1 => 49,
            Key::D2 => 50,
            Key::D3 => 51,
            Key::D4 => 52,
            Key::D5 => 53,
            Key::D6 => 54,
            Key::D7 => 55,
            Key::D8 => 56,
            Key::D9 => 57,
            Key::Colon => 58,
            Key::Semicolon => 59,
            Key::Less => 60,
            Key::Equals => 61,
            Key::Greater => 62,
            Key::Question => 63,
            Key::At => 64,
            Key::LeftBracket => 91,
            Key::Backslash => 92,
            Key::RightBracket => 93,
            Key::Caret => 94,
            Key::Underscore => 95,
            Key::Backquote => 96,
            Key::A => 97,
            Key::B => 98,
            Key::C => 99,
            Key::D => 100,
            Key::E => 101,
            Key::F => 102,
            Key::G => 103,
            Key::H => 104,
            Key::I => 105,
            Key::J => 106,
            Key::K => 107,
            Key::L => 108,
            Key::M => 109,
            Key::N => 110,
            Key::O => 111,
            Key::P => 112,
            Key::Q => 113,
            Key::R => 114,
            Key::S => 115,
            Key::T => 116,
            Key::U => 117,
            Key::V => 118,
            Key::W => 119,
            Key::X => 120,
            Key::Y => 121,
            Key::Z => 122,
            Key::Delete => 127,
            Key::CapsLock => 1073741881,
            Key::F1 => 1073741882,
            Key::F2 => 1073741883,
            Key::F3 => 1073741884,
            Key::F4 => 1073741885,
            Key::F5 => 1073741886,
            Key::F6 => 1073741887,
            Key::F7 => 1073741888,
            Key::F8 => 1073741889,
            Key::F9 => 1073741890,
            Key::F10 => 1073741891,
            Key::F11 => 1073741892,
            Key::F12 => 1073741893,
            Key::PrintScreen => 1073741894,
            Key::ScrollLock => 1073741895,
            Key::Pause => 1073741896,
            Key::Insert => 1073741897,
            Key::Home => 1073741898,
            Key::PageUp => 1073741899,
            Key::End => 1073741901,
            Key::PageDown => 1073741902,
            Key::Right => 1073741903,
            Key::Left => 1073741904,
            Key::Down => 1073741905,
            Key::Up => 1073741906,
            Key::NumLockClear => 1073741907,
            Key::NumPadDivide => 1073741908,
            Key::NumPadMultiply => 1073741909,
            Key::NumPadMinus => 1073741910,
            Key::NumPadPlus => 1073741911,
            Key::NumPadEnter => 1073741912,
            Key::NumPad1 => 1073741913,
            Key::NumPad2 => 1073741914,
            Key::NumPad3 => 1073741915,
            Key::NumPad4 => 1073741916,
            Key::NumPad5 => 1073741917,
            Key::NumPad6 => 1073741918,
            Key::NumPad7 => 1073741919,
            Key::NumPad8 => 1073741920,
            Key::NumPad9 => 1073741921,
            Key::NumPad0 => 1073741922,
            Key::NumPadPeriod => 1073741923,
            Key::Application => 1073741925,
            Key::Power => 1073741926,
            Key::NumPadEquals => 1073741927,
            Key::F13 => 1073741928,
            Key::F14 => 1073741929,
            Key::F15 => 1073741930,
            Key::F16 => 1073741931,
            Key::F17 => 1073741932,
            Key::F18 => 1073741933,
            Key::F19 => 1073741934,
            Key::F20 => 1073741935,
            Key::F21 => 1073741936,
            Key::F22 => 1073741937,
            Key::F23 => 1073741938,
            Key::F24 => 1073741939,
            Key::Execute => 1073741940,
            Key::Help => 1073741941,
            Key::Menu => 1073741942,
            Key::Select => 1073741943,
            Key::Stop => 1073741944,
            Key::Again => 1073741945,
            Key::Undo => 1073741946,
            Key::Cut => 1073741947,
            Key::Copy => 1073741948,
            Key::Paste => 1073741949,
            Key::Find => 1073741950,
            Key::Mute => 1073741951,
            Key::VolumeUp => 1073741952,
            Key::VolumeDown => 1073741953,
            Key::NumPadComma => 1073741957,
            Key::NumPadEqualsAS400 => 1073741958,
            Key::AltErase => 1073741977,
            Key::Sysreq => 1073741978,
            Key::Cancel => 1073741979,
            Key::Clear => 1073741980,
            Key::Prior => 1073741981,
            Key::Return2 => 1073741982,
            Key::Separator => 1073741983,
            Key::Out => 1073741984,
            Key::Oper => 1073741985,
            Key::ClearAgain => 1073741986,
            Key::CrSel => 1073741987,
            Key::ExSel => 1073741988,
            Key::NumPad00 => 1073742000,
            Key::NumPad000 => 1073742001,
            Key::ThousandsSeparator => 1073742002,
            Key::DecimalSeparator => 1073742003,
            Key::CurrencyUnit => 1073742004,
            Key::CurrencySubUnit => 1073742005,
            Key::NumPadLeftParen => 1073742006,
            Key::NumPadRightParen => 1073742007,
            Key::NumPadLeftBrace => 1073742008,
            Key::NumPadRightBrace => 1073742009,
            Key::NumPadTab => 1073742010,
            Key::NumPadBackspace => 1073742011,
            Key::NumPadA => 1073742012,
            Key::NumPadB => 1073742013,
            Key::NumPadC => 1073742014,
            Key::NumPadD => 1073742015,
            Key::NumPadE => 1073742016,
            Key::NumPadF => 1073742017,
            Key::NumPadXor => 1073742018,
            Key::NumPadPower => 1073742019,
            Key::NumPadPercent => 1073742020,
            Key::NumPadLess => 1073742021,
            Key::NumPadGreater => 1073742022,
            Key::NumPadAmpersand => 1073742023,
            Key::NumPadDblAmpersand => 1073742024,
            Key::NumPadVerticalBar => 1073742025,
            Key::NumPadDblVerticalBar => 1073742026,
            Key::NumPadColon => 1073742027,
            Key::NumPadHash => 1073742028,
            Key::NumPadSpace => 1073742029,
            Key::NumPadAt => 1073742030,
            Key::NumPadExclam => 1073742031,
            Key::NumPadMemStore => 1073742032,
            Key::NumPadMemRecall => 1073742033,
            Key::NumPadMemClear => 1073742034,
            Key::NumPadMemAdd => 1073742035,
            Key::NumPadMemSubtract => 1073742036,
            Key::NumPadMemMultiply => 1073742037,
            Key::NumPadMemDivide => 1073742038,
            Key::NumPadPlusMinus => 1073742039,
            Key::NumPadClear => 1073742040,
            Key::NumPadClearEntry => 1073742041,
            Key::NumPadBinary => 1073742042,
            Key::NumPadOctal => 1073742043,
            Key::NumPadDecimal => 1073742044,
            Key::NumPadHexadecimal => 1073742045,
            Key::LCtrl => 1073742048,
            Key::LShift => 1073742049,
            Key::LAlt => 1073742050,
            Key::LGui => 1073742051,
            Key::RCtrl => 1073742052,
            Key::RShift => 1073742053,
            Key::RAlt => 1073742054,
            Key::RGui => 1073742055,
            Key::Mode => 1073742081,
            Key::AudioNext => 1073742082,
            Key::AudioPrev => 1073742083,
            Key::AudioStop => 1073742084,
            Key::AudioPlay => 1073742085,
            Key::AudioMute => 1073742086,
            Key::MediaSelect => 1073742087,
            Key::Www => 1073742088,
            Key::Mail => 1073742089,
            Key::Calculator => 1073742090,
            Key::Computer => 1073742091,
            Key::AcSearch => 1073742092,
            Key::AcHome => 1073742093,
            Key::AcBack => 1073742094,
            Key::AcForward => 1073742095,
            Key::AcStop => 1073742096,
            Key::AcRefresh => 1073742097,
            Key::AcBookmarks => 1073742098,
            Key::BrightnessDown => 1073742099,
            Key::BrightnessUp => 1073742100,
            Key::DisplaySwitch => 1073742101,
            Key::KbdIllumToggle => 1073742102,
            Key::KbdIllumDown => 1073742103,
            Key::KbdIllumUp => 1073742104,
            Key::Eject => 1073742105,
            Key::Sleep => 1073742106,
        }
    }
}

/// The key bound to the raw code `n`, or `Key::Unknown` when no key of
/// the table carries that code.
///
/// This mapping is total: every code yields some key.  It is written as
/// an explicit table, not a formula, because the codes are not
/// contiguous: the printable range is interleaved with a large disjoint
/// block for the non-printable keys, mirroring the scan-code convention
/// the codes come from.
pub open spec fn code_to_key(n: u64) -> Key {
    match n {
        0 => Key::Unknown,
        8 => Key::Backspace,
        9 => Key::Tab,
        13 => Key::Return,
        27 => Key::Escape,
        32 => Key::Space,
        33 => Key::Exclaim,
        34 => Key::Quotedbl,
        35 => Key::Hash,
        36 => Key::Dollar,
        37 => Key::Percent,
        38 => Key::Ampersand,
        39 => Key::Quote,
        40 => Key::LeftParen,
        41 => Key::RightParen,
        42 => Key::Asterisk,
        43 => Key::Plus,
        44 => Key::Comma,
        45 => Key::Minus,
        46 => Key::Period,
        47 => Key::Slash,
        48 => Key::D0,
        49 => Key::D1,
        50 => Key::D2,
        51 => Key::D3,
        52 => Key::D4,
        53 => Key::D5,
        54 => Key::D6,
        55 => Key::D7,
        56 => Key::D8,
        57 => Key::D9,
        58 => Key::Colon,
        59 => Key::Semicolon,
        60 => Key::Less,
        61 => Key::Equals,
        62 => Key::Greater,
        63 => Key::Question,
        64 => Key::At,
        91 => Key::LeftBracket,
        92 => Key::Backslash,
        93 => Key::RightBracket,
        94 => Key::Caret,
        95 => Key::Underscore,
        96 => Key::Backquote,
        97 => Key::A,
        98 => Key::B,
        99 => Key::C,
        100 => Key::D,
        101 => Key::E,
        102 => Key::F,
        103 => Key::G,
        104 => Key::H,
        105 => Key::I,
        106 => Key::J,
        107 => Key::K,
        108 => Key::L,
        109 => Key::M,
        110 => Key::N,
        111 => Key::O,
        112 => Key::P,
        113 => Key::Q,
        114 => Key::R,
        115 => Key::S,
        116 => Key::T,
        117 => Key::U,
        118 => Key::V,
        119 => Key::W,
        120 => Key::X,
        121 => Key::Y,
        122 => Key::Z,
        127 => Key::Delete,
        1073741881 => Key::CapsLock,
        1073741882 => Key::F1,
        1073741883 => Key::F2,
        1073741884 => Key::F3,
        1073741885 => Key::F4,
        1073741886 => Key::F5,
        1073741887 => Key::F6,
        1073741888 => Key::F7,
        1073741889 => Key::F8,
        1073741890 => Key::F9,
        1073741891 => Key::F10,
        1073741892 => Key::F11,
        1073741893 => Key::F12,
        1073741894 => Key::PrintScreen,
        1073741895 => Key::ScrollLock,
        1073741896 => Key::Pause,
        1073741897 => Key::Insert,
        1073741898 => Key::Home,
        1073741899 => Key::PageUp,
        1073741901 => Key::End,
        1073741902 => Key::PageDown,
        1073741903 => Key::Right,
        1073741904 => Key::Left,
        1073741905 => Key::Down,
        1073741906 => Key::Up,
        1073741907 => Key::NumLockClear,
        1073741908 => Key::NumPadDivide,
        1073741909 => Key::NumPadMultiply,
        1073741910 => Key::NumPadMinus,
        1073741911 => Key::NumPadPlus,
        1073741912 => Key::NumPadEnter,
        1073741913 => Key::NumPad1,
        1073741914 => Key::NumPad2,
        1073741915 => Key::NumPad3,
        1073741916 => Key::NumPad4,
        1073741917 => Key::NumPad5,
        1073741918 => Key::NumPad6,
        1073741919 => Key::NumPad7,
        1073741920 => Key::NumPad8,
        1073741921 => Key::NumPad9,
        1073741922 => Key::NumPad0,
        1073741923 => Key::NumPadPeriod,
        1073741925 => Key::Application,
        1073741926 => Key::Power,
        1073741927 => Key::NumPadEquals,
        1073741928 => Key::F13,
        1073741929 => Key::F14,
        1073741930 => Key::F15,
        1073741931 => Key::F16,
        1073741932 => Key::F17,
        1073741933 => Key::F18,
        1073741934 => Key::F19,
        1073741935 => Key::F20,
        1073741936 => Key::F21,
        1073741937 => Key::F22,
        1073741938 => Key::F23,
        1073741939 => Key::F24,
        1073741940 => Key::Execute,
        1073741941 => Key::Help,
        1073741942 => Key::Menu,
        1073741943 => Key::Select,
        1073741944 => Key::Stop,
        1073741945 => Key::Again,
        1073741946 => Key::Undo,
        1073741947 => Key::Cut,
        1073741948 => Key::Copy,
        1073741949 => Key::Paste,
        1073741950 => Key::Find,
        1073741951 => Key::Mute,
        1073741952 => Key::VolumeUp,
        1073741953 => Key::VolumeDown,
        1073741957 => Key::NumPadComma,
        1073741958 => Key::NumPadEqualsAS400,
        1073741977 => Key::AltErase,
        1073741978 => Key::Sysreq,
        1073741979 => Key::Cancel,
        1073741980 => Key::Clear,
        1073741981 => Key::Prior,
        1073741982 => Key::Return2,
        1073741983 => Key::Separator,
        1073741984 => Key::Out,
        1073741985 => Key::Oper,
        1073741986 => Key::ClearAgain,
        1073741987 => Key::CrSel,
        1073741988 => Key::ExSel,
        1073742000 => Key::NumPad00,
        1073742001 => Key::NumPad000,
        1073742002 => Key::ThousandsSeparator,
        1073742003 => Key::DecimalSeparator,
        1073742004 => Key::CurrencyUnit,
        1073742005 => Key::CurrencySubUnit,
        1073742006 => Key::NumPadLeftParen,
        1073742007 => Key::NumPadRightParen,
        1073742008 => Key::NumPadLeftBrace,
        1073742009 => Key::NumPadRightBrace,
        1073742010 => Key::NumPadTab,
        1073742011 => Key::NumPadBackspace,
        1073742012 => Key::NumPadA,
        1073742013 => Key::NumPadB,
        1073742014 => Key::NumPadC,
        1073742015 => Key::NumPadD,
        1073742016 => Key::NumPadE,
        1073742017 => Key::NumPadF,
        1073742018 => Key::NumPadXor,
        1073742019 => Key::NumPadPower,
        1073742020 => Key::NumPadPercent,
        1073742021 => Key::NumPadLess,
        1073742022 => Key::NumPadGreater,
        1073742023 => Key::NumPadAmpersand,
        1073742024 => Key::NumPadDblAmpersand,
        1073742025 => Key::NumPadVerticalBar,
        1073742026 => Key::NumPadDblVerticalBar,
        1073742027 => Key::NumPadColon,
        1073742028 => Key::NumPadHash,
        1073742029 => Key::NumPadSpace,
        1073742030 => Key::NumPadAt,
        1073742031 => Key::NumPadExclam,
        1073742032 => Key::NumPadMemStore,
        1073742033 => Key::NumPadMemRecall,
        1073742034 => Key::NumPadMemClear,
        1073742035 => Key::NumPadMemAdd,
        1073742036 => Key::NumPadMemSubtract,
        1073742037 => Key::NumPadMemMultiply,
        1073742038 => Key::NumPadMemDivide,
        1073742039 => Key::NumPadPlusMinus,
        1073742040 => Key::NumPadClear,
        1073742041 => Key::NumPadClearEntry,
        1073742042 => Key::NumPadBinary,
        1073742043 => Key::NumPadOctal,
        1073742044 => Key::NumPadDecimal,
        1073742045 => Key::NumPadHexadecimal,
        1073742048 => Key::LCtrl,
        1073742049 => Key::LShift,
        1073742050 => Key::LAlt,
        1073742051 => Key::LGui,
        1073742052 => Key::RCtrl,
        1073742053 => Key::RShift,
        1073742054 => Key::RAlt,
        1073742055 => Key::RGui,
        1073742081 => Key::Mode,
        1073742082 => Key::AudioNext,
        1073742083 => Key::AudioPrev,
        1073742084 => Key::AudioStop,
        1073742085 => Key::AudioPlay,
        1073742086 => Key::AudioMute,
        1073742087 => Key::MediaSelect,
        1073742088 => Key::Www,
        1073742089 => Key::Mail,
        1073742090 => Key::Calculator,
        1073742091 => Key::Computer,
        1073742092 => Key::AcSearch,
        1073742093 => Key::AcHome,
        1073742094 => Key::AcBack,
        1073742095 => Key::AcForward,
        1073742096 => Key::AcStop,
        1073742097 => Key::AcRefresh,
        1073742098 => Key::AcBookmarks,
        1073742099 => Key::BrightnessDown,
        1073742100 => Key::BrightnessUp,
        1073742101 => Key::DisplaySwitch,
        1073742102 => Key::KbdIllumToggle,
        1073742103 => Key::KbdIllumDown,
        1073742104 => Key::KbdIllumUp,
        1073742105 => Key::Eject,
        1073742106 => Key::Sleep,
        _ => Key::Unknown,
    }
}

impl Key {
    /// Returns the key bound to the raw code `n`, or `Key::Unknown` when
    /// the code is outside the table.
    ///
    /// The result is always `Some`: an unrecognized code is an absence
    /// of information, not an error.
    pub fn from_u64(n: u64) -> (r: Option<Key>)
        ensures
            r == Some(code_to_key(n)),
    {
        match n {
            0 => Some(Key::Unknown),
            8 => Some(Key::Backspace),
            9 => Some(Key::Tab),
            13 => Some(Key::Return),
            27 => Some(Key::Escape),
            32 => Some(Key::Space),
            33 => Some(Key::Exclaim),
            34 => Some(Key::Quotedbl),
            35 => Some(Key::Hash),
            36 => Some(Key::Dollar),
            37 => Some(Key::Percent),
            38 => Some(Key::Ampersand),
            39 => Some(Key::Quote),
            40 => Some(Key::LeftParen),
            41 => Some(Key::RightParen),
            42 => Some(Key::Asterisk),
            43 => Some(Key::Plus),
            44 => Some(Key::Comma),
            45 => Some(Key::Minus),
            46 => Some(Key::Period),
            47 => Some(Key::Slash),
            48 => Some(Key::D0),
            49 => Some(Key::D1),
            50 => Some(Key::D2),
            51 => Some(Key::D3),
            52 => Some(Key::D4),
            53 => Some(Key::D5),
            54 => Some(Key::D6),
            55 => Some(Key::D7),
            56 => Some(Key::D8),
            57 => Some(Key::D9),
            58 => Some(Key::Colon),
            59 => Some(Key::Semicolon),
            60 => Some(Key::Less),
            61 => Some(Key::Equals),
            62 => Some(Key::Greater),
            63 => Some(Key::Question),
            64 => Some(Key::At),
            91 => Some(Key::LeftBracket),
            92 => Some(Key::Backslash),
            93 => Some(Key::RightBracket),
            94 => Some(Key::Caret),
            95 => Some(Key::Underscore),
            96 => Some(Key::Backquote),
            97 => Some(Key::A),
            98 => Some(Key::B),
            99 => Some(Key::C),
            100 => Some(Key::D),
            101 => Some(Key::E),
            102 => Some(Key::F),
            103 => Some(Key::G),
            104 => Some(Key::H),
            105 => Some(Key::I),
            106 => Some(Key::J),
            107 => Some(Key::K),
            108 => Some(Key::L),
            109 => Some(Key::M),
            110 => Some(Key::N),
            111 => Some(Key::O),
            112 => Some(Key::P),
            113 => Some(Key::Q),
            114 => Some(Key::R),
            115 => Some(Key::S),
            116 => Some(Key::T),
            117 => Some(Key::U),
            118 => Some(Key::V),
            119 => Some(Key::W),
            120 => Some(Key::X),
            121 => Some(Key::Y),
            122 => Some(Key::Z),
            127 => Some(Key::Delete),
            1073741881 => Some(Key::CapsLock),
            1073741882 => Some(Key::F1),
            1073741883 => Some(Key::F2),
            1073741884 => Some(Key::F3),
            1073741885 => Some(Key::F4),
            1073741886 => Some(Key::F5),
            1073741887 => Some(Key::F6),
            1073741888 => Some(Key::F7),
            1073741889 => Some(Key::F8),
            1073741890 => Some(Key::F9),
            1073741891 => Some(Key::F10),
            1073741892 => Some(Key::F11),
            1073741893 => Some(Key::F12),
            1073741894 => Some(Key::PrintScreen),
            1073741895 => Some(Key::ScrollLock),
            1073741896 => Some(Key::Pause),
            1073741897 => Some(Key::Insert),
            1073741898 => Some(Key::Home),
            1073741899 => Some(Key::PageUp),
            1073741901 => Some(Key::End),
            1073741902 => Some(Key::PageDown),
            1073741903 => Some(Key::Right),
            1073741904 => Some(Key::Left),
            1073741905 => Some(Key::Down),
            1073741906 => Some(Key::Up),
            1073741907 => Some(Key::NumLockClear),
            1073741908 => Some(Key::NumPadDivide),
            1073741909 => Some(Key::NumPadMultiply),
            1073741910 => Some(Key::NumPadMinus),
            1073741911 => Some(Key::NumPadPlus),
            1073741912 => Some(Key::NumPadEnter),
            1073741913 => Some(Key::NumPad1),
            1073741914 => Some(Key::NumPad2),
            1073741915 => Some(Key::NumPad3),
            1073741916 => Some(Key::NumPad4),
            1073741917 => Some(Key::NumPad5),
            1073741918 => Some(Key::NumPad6),
            1073741919 => Some(Key::NumPad7),
            1073741920 => Some(Key::NumPad8),
            1073741921 => Some(Key::NumPad9),
            1073741922 => Some(Key::NumPad0),
            1073741923 => Some(Key::NumPadPeriod),
            1073741925 => Some(Key::Application),
            1073741926 => Some(Key::Power),
            1073741927 => Some(Key::NumPadEquals),
            1073741928 => Some(Key::F13),
            1073741929 => Some(Key::F14),
            1073741930 => Some(Key::F15),
            1073741931 => Some(Key::F16),
            1073741932 => Some(Key::F17),
            1073741933 => Some(Key::F18),
            1073741934 => Some(Key::F19),
            1073741935 => Some(Key::F20),
            1073741936 => Some(Key::F21),
            1073741937 => Some(Key::F22),
            1073741938 => Some(Key::F23),
            1073741939 => Some(Key::F24),
            1073741940 => Some(Key::Execute),
            1073741941 => Some(Key::Help),
            1073741942 => Some(Key::Menu),
            1073741943 => Some(Key::Select),
            1073741944 => Some(Key::Stop),
            1073741945 => Some(Key::Again),
            1073741946 => Some(Key::Undo),
            1073741947 => Some(Key::Cut),
            1073741948 => Some(Key::Copy),
            1073741949 => Some(Key::Paste),
            1073741950 => Some(Key::Find),
            1073741951 => Some(Key::Mute),
            1073741952 => Some(Key::VolumeUp),
            1073741953 => Some(Key::VolumeDown),
            1073741957 => Some(Key::NumPadComma),
            1073741958 => Some(Key::NumPadEqualsAS400),
            1073741977 => Some(Key::AltErase),
            1073741978 => Some(Key::Sysreq),
            1073741979 => Some(Key::Cancel),
            1073741980 => Some(Key::Clear),
            1073741981 => Some(Key::Prior),
            1073741982 => Some(Key::Return2),
            1073741983 => Some(Key::Separator),
            1073741984 => Some(Key::Out),
            1073741985 => Some(Key::Oper),
            1073741986 => Some(Key::ClearAgain),
            1073741987 => Some(Key::CrSel),
            1073741988 => Some(Key::ExSel),
            1073742000 => Some(Key::NumPad00),
            1073742001 => Some(Key::NumPad000),
            1073742002 => Some(Key::ThousandsSeparator),
            1073742003 => Some(Key::DecimalSeparator),
            1073742004 => Some(Key::CurrencyUnit),
            1073742005 => Some(Key::CurrencySubUnit),
            1073742006 => Some(Key::NumPadLeftParen),
            1073742007 => Some(Key::NumPadRightParen),
            1073742008 => Some(Key::NumPadLeftBrace),
            1073742009 => Some(Key::NumPadRightBrace),
            1073742010 => Some(Key::NumPadTab),
            1073742011 => Some(Key::NumPadBackspace),
            1073742012 => Some(Key::NumPadA),
            1073742013 => Some(Key::NumPadB),
            1073742014 => Some(Key::NumPadC),
            1073742015 => Some(Key::NumPadD),
            1073742016 => Some(Key::NumPadE),
            1073742017 => Some(Key::NumPadF),
            1073742018 => Some(Key::NumPadXor),
            1073742019 => Some(Key::NumPadPower),
            1073742020 => Some(Key::NumPadPercent),
            1073742021 => Some(Key::NumPadLess),
            1073742022 => Some(Key::NumPadGreater),
            1073742023 => Some(Key::NumPadAmpersand),
            1073742024 => Some(Key::NumPadDblAmpersand),
            1073742025 => Some(Key::NumPadVerticalBar),
            1073742026 => Some(Key::NumPadDblVerticalBar),
            1073742027 => Some(Key::NumPadColon),
            1073742028 => Some(Key::NumPadHash),
            1073742029 => Some(Key::NumPadSpace),
            1073742030 => Some(Key::NumPadAt),
            1073742031 => Some(Key::NumPadExclam),
            1073742032 => Some(Key::NumPadMemStore),
            1073742033 => Some(Key::NumPadMemRecall),
            1073742034 => Some(Key::NumPadMemClear),
            1073742035 => Some(Key::NumPadMemAdd),
            1073742036 => Some(Key::NumPadMemSubtract),
            1073742037 => Some(Key::NumPadMemMultiply),
            1073742038 => Some(Key::NumPadMemDivide),
            1073742039 => Some(Key::NumPadPlusMinus),
            1073742040 => Some(Key::NumPadClear),
            1073742041 => Some(Key::NumPadClearEntry),
            1073742042 => Some(Key::NumPadBinary),
            1073742043 => Some(Key::NumPadOctal),
            1073742044 => Some(Key::NumPadDecimal),
            1073742045 => Some(Key::NumPadHexadecimal),
            1073742048 => Some(Key::LCtrl),
            1073742049 => Some(Key::LShift),
            1073742050 => Some(Key::LAlt),
            1073742051 => Some(Key::LGui),
            1073742052 => Some(Key::RCtrl),
            1073742053 => Some(Key::RShift),
            1073742054 => Some(Key::RAlt),
            1073742055 => Some(Key::RGui),
            1073742081 => Some(Key::Mode),
            1073742082 => Some(Key::AudioNext),
            1073742083 => Some(Key::AudioPrev),
            1073742084 => Some(Key::AudioStop),
            1073742085 => Some(Key::AudioPlay),
            1073742086 => Some(Key::AudioMute),
            1073742087 => Some(Key::MediaSelect),
            1073742088 => Some(Key::Www),
            1073742089 => Some(Key::Mail),
            1073742090 => Some(Key::Calculator),
            1073742091 => Some(Key::Computer),
            1073742092 => Some(Key::AcSearch),
            1073742093 => Some(Key::AcHome),
            1073742094 => Some(Key::AcBack),
            1073742095 => Some(Key::AcForward),
            1073742096 => Some(Key::AcStop),
            1073742097 => Some(Key::AcRefresh),
            1073742098 => Some(Key::AcBookmarks),
            1073742099 => Some(Key::BrightnessDown),
            1073742100 => Some(Key::BrightnessUp),
            1073742101 => Some(Key::DisplaySwitch),
            1073742102 => Some(Key::KbdIllumToggle),
            1073742103 => Some(Key::KbdIllumDown),
            1073742104 => Some(Key::KbdIllumUp),
            1073742105 => Some(Key::Eject),
            1073742106 => Some(Key::Sleep),
            _ => Some(Key::Unknown),
        }
    }

    /// Returns the key bound to the raw code `n`, or `Key::Unknown` when
    /// the code is outside the table.  A negative code is never in the
    /// table.
    pub fn from_i64(n: i64) -> (r: Option<Key>)
        ensures
            n >= 0 ==> r == Some(code_to_key(n as u64)),
            n < 0 ==> r == Some(Key::Unknown),
    {
        if n < 0 {
            Some(Key::Unknown)
        } else {
            Key::from_u64(n as u64)
        }
    }

    /// Returns the fixed numeric code of this key, widened to `i64`.
    pub fn to_i64(&self) -> (r: Option<i64>)
        ensures
            r == Some(self.spec_code() as i64),
    {
        Some(self.code() as i64)
    }

    /// Returns the fixed numeric code of this key, widened to `u64`.
    pub fn to_u64(&self) -> (r: Option<u64>)
        ensures
            r == Some(self.spec_code() as u64),
    {
        proof {
            lemma_key_code_nonneg(*self);
        }
        Some(self.code() as u64)
    }
}

impl Default for Key {
    /// The fallback key is `Key::Unknown`.
    fn default() -> (r: Key)
        ensures
            r == Key::Unknown,
    {
        Key::Unknown
    }
}

/// Every code of the table is nonnegative.
pub proof fn lemma_key_code_nonneg(k: Key)
    ensures
        0 <= k.spec_code(),
{
}

/// Round-trip law: mapping any key to its code and the code back through
/// the table yields the same key.
///
/// The reverse round trip does not hold for arbitrary codes: every code
/// outside the table collapses to `Key::Unknown`.
pub proof fn lemma_key_round_trip(k: Key)
    ensures
        code_to_key(k.spec_code() as u64) == k,
{
}

/// The table is a partial inverse of the code assignment: a raw code
/// either falls outside the table, yielding `Key::Unknown`, or yields
/// the key that carries exactly that code.
#[verifier::rlimit(50)]
pub proof fn lemma_code_to_key_partial_inverse(n: u64)
    ensures
        code_to_key(n) == Key::Unknown || code_to_key(n).spec_code() as u64 == n,
{
}

/// A raw code that no key of the table carries maps to `Key::Unknown`.
pub proof fn lemma_unlisted_code_is_unknown(n: u64)
    requires
        forall|k: Key| #[trigger] k.spec_code() as u64 != n,
    ensures
        code_to_key(n) == Key::Unknown,
{
    lemma_code_to_key_partial_inverse(n);
    if code_to_key(n) != Key::Unknown {
        assert(code_to_key(n).spec_code() as u64 == n);
        assert(false);
    }
}

/// Two keys are equal exactly when their codes are equal: the code
/// assignment is injective.
pub proof fn lemma_key_eq_iff_code_eq(k1: Key, k2: Key)
    ensures
        (k1 == k2) <==> (k1.spec_code() == k2.spec_code()),
{
    lemma_key_round_trip(k1);
    lemma_key_round_trip(k2);
}

/// The ordering of keys is the ordering of their codes.
pub proof fn lemma_key_order_matches_code(k1: Key, k2: Key)
    ensures
        k1.partial_cmp_spec(&k2) == Some(core::cmp::Ordering::Less) <==> k1.spec_code()
            < k2.spec_code(),
        k1.partial_cmp_spec(&k2) == Some(core::cmp::Ordering::Equal) <==> k1.spec_code()
            == k2.spec_code(),
        k1.partial_cmp_spec(&k2) == Some(core::cmp::Ordering::Greater) <==> k1.spec_code()
            > k2.spec_code(),
{
}

impl PartialOrd for Key {
    /// Keys compare by their codes.
    fn partial_cmp(&self, other: &Key) -> (r: Option<core::cmp::Ordering>) {
        let a = self.code();
        let b = other.code();
        if a < b {
            Some(core::cmp::Ordering::Less)
        } else if a == b {
            Some(core::cmp::Ordering::Equal)
        } else {
            Some(core::cmp::Ordering::Greater)
        }
    }
}

impl vstd::std_specs::cmp::PartialOrdSpecImpl for Key {
    open spec fn obeys_partial_cmp_spec() -> bool {
        true
    }

    open spec fn partial_cmp_spec(&self, other: &Key) -> Option<core::cmp::Ordering> {
        if self.spec_code() < other.spec_code() {
            Some(core::cmp::Ordering::Less)
        } else if self.spec_code() == other.spec_code() {
            Some(core::cmp::Ordering::Equal)
        } else {
            Some(core::cmp::Ordering::Greater)
        }
    }
}

/// A device that acts as a keyboard.
pub trait KeyboardDevice: Device {
    /// The element-to-key mapping of this device, as a mathematical
    /// value.  It is fixed over the device's lifetime.
    spec fn spec_mapping(&self, id: ElementID) -> Option<Key>;

    /// Returns the key corresponding to the element.
    ///
    /// Returns `None` if the element doesn't match any `Key` in the
    /// enum.
    fn get_mapping(&self, id: &ElementID) -> (r: Option<Key>)
        ensures
            r == self.spec_mapping(*id),
    ;
}

/// An event triggered by a keyboard device.
#[derive(Debug, PartialEq, Eq)]
pub enum KeyboardEvent {
    /// Pressed a keyboard key.
    KeyPress {
        /// When the event happened.
        timestamp: Timestamp,
        /// Which device triggered this event.
        device: DeviceID,
        /// Which element triggered this event.
        element: ElementID,
        /// The key that was pressed, or none if unknown.
        key: Option<Key>,
    },
    /// Released a keyboard key.
    KeyRelease {
        /// When the event happened.
        timestamp: Timestamp,
        /// Which device triggered this event.
        device: DeviceID,
        /// Which element triggered this event.
        element: ElementID,
        /// The key that was released, or none if unknown.
        key: Option<Key>,
    },
}

impl Clone for KeyboardEvent {
    fn clone(&self) -> (r: Self)
        ensures
            r == *self,
    {
        match self {
            KeyboardEvent::KeyPress { timestamp, device, element, key } => KeyboardEvent::KeyPress {
                timestamp: *timestamp,
                device: device.clone(),
                element: *element,
                key: *key,
            },
            KeyboardEvent::KeyRelease { timestamp, device, element, key } => KeyboardEvent::KeyRelease {
                timestamp: *timestamp,
                device: device.clone(),
                element: *element,
                key: *key,
            },
        }
    }
}

impl Event for KeyboardEvent {
    open spec fn spec_timestamp(&self) -> Timestamp {
        match *self {
            KeyboardEvent::KeyPress { timestamp, .. } => timestamp,
            KeyboardEvent::KeyRelease { timestamp, .. } => timestamp,
        }
    }

    open spec fn spec_device_id(&self) -> Seq<char> {
        match self {
            KeyboardEvent::KeyPress { device, .. } => device@,
            KeyboardEvent::KeyRelease { device, .. } => device@,
        }
    }

    open spec fn spec_element_id(&self) -> ElementID {
        match *self {
            KeyboardEvent::KeyPress { element, .. } => element,
            KeyboardEvent::KeyRelease { element, .. } => element,
        }
    }

    /// A press reads as one, a release as zero.
    open spec fn spec_element_value(&self) -> u64 {
        match *self {
            KeyboardEvent::KeyPress { .. } => VALUE_ONE_BITS,
            KeyboardEvent::KeyRelease { .. } => VALUE_ZERO_BITS,
        }
    }

    fn get_timestamp(&self) -> (r: &Timestamp) {
        match self {
            KeyboardEvent::KeyPress { timestamp, .. } => timestamp,
            KeyboardEvent::KeyRelease { timestamp, .. } => timestamp,
        }
    }

    fn get_device_id(&self) -> (r: &DeviceID) {
        match self {
            KeyboardEvent::KeyPress { device, .. } => device,
            KeyboardEvent::KeyRelease { device, .. } => device,
        }
    }

    fn get_element_id(&self) -> (r: &ElementID) {
        match self {
            KeyboardEvent::KeyPress { element, .. } => element,
            KeyboardEvent::KeyRelease { element, .. } => element,
        }
    }

    fn get_element_value(&self) -> (v: u64) {
        match self {
            KeyboardEvent::KeyPress { .. } => VALUE_ONE_BITS,
            KeyboardEvent::KeyRelease { .. } => VALUE_ZERO_BITS,
        }
    }
}

/// Trait for events that can be turned into `KeyboardEvent`s.
///
/// Narrowing is fallible by design: an event that does not originate
/// from a keyboard yields `None`, which is an absence, not an error.
pub trait ToKeyboardEvent: Event {
    /// What this event narrows to, as a mathematical value: the
    /// keyboard event it is, or `None` when it does not originate from
    /// a keyboard.
    spec fn spec_to_keyboard_event(&self) -> Option<KeyboardEvent>;

    /// Turns the event into a keyboard event.
    fn to_keyboard_event(&self) -> (r: Option<KeyboardEvent>)
        ensures
            r == self.spec_to_keyboard_event(),
    ;
}

impl ToKeyboardEvent for KeyboardEvent {
    /// The identity narrowing always succeeds and is a value copy.
    open spec fn spec_to_keyboard_event(&self) -> Option<KeyboardEvent> {
        Some(*self)
    }

    fn to_keyboard_event(&self) -> (r: Option<KeyboardEvent>)
        ensures
            r == Some(*self),
    {
        Some(self.clone())
    }
}

impl ToMouseEvent for KeyboardEvent {
    /// A keyboard event never originates from a mouse, so this
    /// narrowing always yields `None`.
    open spec fn spec_to_mouse_event(&self) -> Option<MouseEvent> {
        None
    }

    fn to_mouse_event(&self) -> (r: Option<MouseEvent>)
        ensures
            r is None,
    {
        None
    }
}

} // verus!
