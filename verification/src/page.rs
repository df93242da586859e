//! HID usage pages.
//!
//! Only the keyboard/keypad page is needed by the devices in this crate. Usage codes
//! follow the HID Usage Tables: `0x00..=0xA4` are keys, `0xE0..=0xE7` are the eight
//! modifiers, and everything else on the page is reserved.

use vstd::prelude::*;

verus! {

/// A usage on the keyboard/keypad page (`0x07`).
#[derive(Clone, Copy, Debug, PartialEq, Eq, Structural)]
pub enum Keyboard {
    /// Usage `0x00`.
    NoEventIndicated,
    /// Usage `0x01`.
    ErrorRollOver,
    /// Usage `0x02`.
    POSTFail,
    /// Usage `0x03`.
    ErrorUndefine,
    /// Usage `0x04`.
    A,
    /// Usage `0x05`.
    B,
    /// Usage `0x06`.
    C,
    /// Usage `0x07`.
    D,
    /// Usage `0x08`.
    E,
    /// Usage `0x09`.
    F,
    /// Usage `0x0A`.
    G,
    /// Usage `0x0B`.
    H,
    /// Usage `0x0C`.
    I,
    /// Usage `0x0D`.
    J,
    /// Usage `0x0E`.
    K,
    /// Usage `0x0F`.
    L,
    /// Usage `0x10`.
    M,
    /// Usage `0x11`.
    N,
    /// Usage `0x12`.
    O,
    /// Usage `0x13`.
    P,
    /// Usage `0x14`.
    Q,
    /// Usage `0x15`.
    R,
    /// Usage `0x16`.
    S,
    /// Usage `0x17`.
    T,
    /// Usage `0x18`.
    U,
    /// Usage `0x19`.
    V,
    /// Usage `0x1A`.
    W,
    /// Usage `0x1B`.
    X,
    /// Usage `0x1C`.
    Y,
    /// Usage `0x1D`.
    Z,
    /// Usage `0x1E`.
    Keyboard1,
    /// Usage `0x1F`.
    Keyboard2,
    /// Usage `0x20`.
    Keyboard3,
    /// Usage `0x21`.
    Keyboard4,
    /// Usage `0x22`.
    Keyboard5,
    /// Usage `0x23`.
    Keyboard6,
    /// Usage `0x24`.
    Keyboard7,
    /// Usage `0x25`.
    Keyboard8,
    /// Usage `0x26`.
    Keyboard9,
    /// Usage `0x27`.
    Keyboard0,
    /// Usage `0x28`.
    ReturnEnter,
    /// Usage `0x29`.
    Escape,
    /// Usage `0x2A`.
    DeleteBackspace,
    /// Usage `0x2B`.
    Tab,
    /// Usage `0x2C`.
    Space,
    /// Usage `0x2D`.
    Minus,
    /// Usage `0x2E`.
    Equal,
    /// Usage `0x2F`.
    LeftBrace,
    /// Usage `0x30`.
    RightBrace,
    /// Usage `0x31`.
    Backslash,
    /// Usage `0x32`.
    NonUSHash,
    /// Usage `0x33`.
    Semicolon,
    /// Usage `0x34`.
    Apostrophe,
    /// Usage `0x35`.
    Grave,
    /// Usage `0x36`.
    Comma,
    /// Usage `0x37`.
    Dot,
    /// Usage `0x38`.
    ForwardSlash,
    /// Usage `0x39`.
    CapsLock,
    /// Usage `0x3A`.
    F1,
    /// Usage `0x3B`.
    F2,
    /// Usage `0x3C`.
    F3,
    /// Usage `0x3D`.
    F4,
    /// Usage `0x3E`.
    F5,
    /// Usage `0x3F`.
    F6,
    /// Usage `0x40`.
    F7,
    /// Usage `0x41`.
    F8,
    /// Usage `0x42`.
    F9,
    /// Usage `0x43`.
    F10,
    /// Usage `0x44`.
    F11,
    /// Usage `0x45`.
    F12,
    /// Usage `0x46`.
    PrintScreen,
    /// Usage `0x47`.
    ScrollLock,
    /// Usage `0x48`.
    Pause,
    /// Usage `0x49`.
    Insert,
    /// Usage `0x4A`.
    Home,
    /// Usage `0x4B`.
    PageUp,
    /// Usage `0x4C`.
    DeleteForward,
    /// Usage `0x4D`.
    End,
    /// Usage `0x4E`.
    PageDown,
    /// Usage `0x4F`.
    RightArrow,
    /// Usage `0x50`.
    LeftArrow,
    /// Usage `0x51`.
    DownArrow,
    /// Usage `0x52`.
    UpArrow,
    /// Usage `0x53`.
    KeypadNumLockAndClear,
    /// Usage `0x54`.
    KeypadDivide,
    /// Usage `0x55`.
    KeypadMultiply,
    /// Usage `0x56`.
    KeypadSubtract,
    /// Usage `0x57`.
    KeypadAdd,
    /// Usage `0x58`.
    KeypadEnter,
    /// Usage `0x59`.
    Keypad1,
    /// Usage `0x5A`.
    Keypad2,
    /// Usage `0x5B`.
    Keypad3,
    /// Usage `0x5C`.
    Keypad4,
    /// Usage `0x5D`.
    Keypad5,
    /// Usage `0x5E`.
    Keypad6,
    /// Usage `0x5F`.
    Keypad7,
    /// Usage `0x60`.
    Keypad8,
    /// Usage `0x61`.
    Keypad9,
    /// Usage `0x62`.
    Keypad0,
    /// Usage `0x63`.
    KeypadDot,
    /// Usage `0x64`.
    NonUSBackslash,
    /// Usage `0x65`.
    Application,
    /// Usage `0x66`.
    Power,
    /// Usage `0x67`.
    KeypadEqual,
    /// Usage `0x68`.
    F13,
    /// Usage `0x69`.
    F14,
    /// Usage `0x6A`.
    F15,
    /// Usage `0x6B`.
    F16,
    /// Usage `0x6C`.
    F17,
    /// Usage `0x6D`.
    F18,
    /// Usage `0x6E`.
    F19,
    /// Usage `0x6F`.
    F20,
    /// Usage `0x70`.
    F21,
    /// Usage `0x71`.
    F22,
    /// Usage `0x72`.
    F23,
    /// Usage `0x73`.
    F24,
    /// Usage `0x74`.
    Execute,
    /// Usage `0x75`.
    Help,
    /// Usage `0x76`.
    Menu,
    /// Usage `0x77`.
    Select,
    /// Usage `0x78`.
    Stop,
    /// Usage `0x79`.
    Again,
    /// Usage `0x7A`.
    Undo,
    /// Usage `0x7B`.
    Cut,
    /// Usage `0x7C`.
    Copy,
    /// Usage `0x7D`.
    Paste,
    /// Usage `0x7E`.
    Find,
    /// Usage `0x7F`.
    Mute,
    /// Usage `0x80`.
    VolumeUp,
    /// Usage `0x81`.
    VolumeDown,
    /// Usage `0x82`.
    LockingCapsLock,
    /// Usage `0x83`.
    LockingNumLock,
    /// Usage `0x84`.
    LockingScrollLock,
    /// Usage `0x85`.
    KeypadComma,
    /// Usage `0x86`.
    KeypadEqualSign,
    /// Usage `0x87`.
    Kanji1,
    /// Usage `0x88`.
    Kanji2,
    /// Usage `0x89`.
    Kanji3,
    /// Usage `0x8A`.
    Kanji4,
    /// Usage `0x8B`.
    Kanji5,
    /// Usage `0x8C`.
    Kanji6,
    /// Usage `0x8D`.
    Kanji7,
    /// Usage `0x8E`.
    Kanji8,
    /// Usage `0x8F`.
    Kanji9,
    /// Usage `0x90`.
    LANG1,
    /// Usage `0x91`.
    LANG2,
    /// Usage `0x92`.
    LANG3,
    /// Usage `0x93`.
    LANG4,
    /// Usage `0x94`.
    LANG5,
    /// Usage `0x95`.
    LANG6,
    /// Usage `0x96`.
    LANG7,
    /// Usage `0x97`.
    LANG8,
    /// Usage `0x98`.
    LANG9,
    /// Usage `0x99`.
    AlternateErase,
    /// Usage `0x9A`.
    SysReqAttention,
    /// Usage `0x9B`.
    Cancel,
    /// Usage `0x9C`.
    Clear,
    /// Usage `0x9D`.
    Prior,
    /// Usage `0x9E`.
    Return,
    /// Usage `0x9F`.
    Separator,
    /// Usage `0xA0`.
    Out,
    /// Usage `0xA1`.
    Oper,
    /// Usage `0xA2`.
    ClearAgain,
    /// Usage `0xA3`.
    CrSelProps,
    /// Usage `0xA4`.
    ExSel,
    /// Usage `0xE0`.
    LeftControl,
    /// Usage `0xE1`.
    LeftShift,
    /// Usage `0xE2`.
    LeftAlt,
    /// Usage `0xE3`.
    LeftGUI,
    /// Usage `0xE4`.
    RightControl,
    /// Usage `0xE5`.
    RightShift,
    /// Usage `0xE6`.
    RightAlt,
    /// Usage `0xE7`.
    RightGUI,
}

impl Keyboard {
    /// The usage code of this key, as it appears on the wire.
    #[verifier::opaque]
    pub open spec fn code(self) -> u8 {
        match self {
            Keyboard::NoEventIndicated => 0x00u8,
            Keyboard::ErrorRollOver => 0x01u8,
            Keyboard::POSTFail => 0x02u8,
            Keyboard::ErrorUndefine => 0x03u8,
            Keyboard::A => 0x04u8,
            Keyboard::B => 0x05u8,
            Keyboard::C => 0x06u8,
            Keyboard::D => 0x07u8,
            Keyboard::E => 0x08u8,
            Keyboard::F => 0x09u8,
            Keyboard::G => 0x0Au8,
            Keyboard::H => 0x0Bu8,
            Keyboard::I => 0x0Cu8,
            Keyboard::J => 0x0Du8,
            Keyboard::K => 0x0Eu8,
            Keyboard::L => 0x0Fu8,
            Keyboard::M => 0x10u8,
            Keyboard::N => 0x11u8,
            Keyboard::O => 0x12u8,
            Keyboard::P => 0x13u8,
            Keyboard::Q => 0x14u8,
            Keyboard::R => 0x15u8,
            Keyboard::S => 0x16u8,
            Keyboard::T => 0x17u8,
            Keyboard::U => 0x18u8,
            Keyboard::V => 0x19u8,
            Keyboard::W => 0x1Au8,
            Keyboard::X => 0x1Bu8,
            Keyboard::Y => 0x1Cu8,
            Keyboard::Z => 0x1Du8,
            Keyboard::Keyboard1 => 0x1Eu8,
            Keyboard::Keyboard2 => 0x1Fu8,
            Keyboard::Keyboard3 => 0x20u8,
            Keyboard::Keyboard4 => 0x21u8,
            Keyboard::Keyboard5 => 0x22u8,
            Keyboard::Keyboard6 => 0x23u8,
            Keyboard::Keyboard7 => 0x24u8,
            Keyboard::Keyboard8 => 0x25u8,
            Keyboard::Keyboard9 => 0x26u8,
            Keyboard::Keyboard0 => 0x27u8,
            Keyboard::ReturnEnter => 0x28u8,
            Keyboard::Escape => 0x29u8,
            Keyboard::DeleteBackspace => 0x2Au8,
            Keyboard::Tab => 0x2Bu8,
            Keyboard::Space => 0x2Cu8,
            Keyboard::Minus => 0x2Du8,
            Keyboard::Equal => 0x2Eu8,
            Keyboard::LeftBrace => 0x2Fu8,
            Keyboard::RightBrace => 0x30u8,
            Keyboard::Backslash => 0x31u8,
            Keyboard::NonUSHash => 0x32u8,
            Keyboard::Semicolon => 0x33u8,
            Keyboard::Apostrophe => 0x34u8,
            Keyboard::Grave => 0x35u8,
            Keyboard::Comma => 0x36u8,
            Keyboard::Dot => 0x37u8,
            Keyboard::ForwardSlash => 0x38u8,
            Keyboard::CapsLock => 0x39u8,
            Keyboard::F1 => 0x3Au8,
            Keyboard::F2 => 0x3Bu8,
            Keyboard::F3 => 0x3Cu8,
            Keyboard::F4 => 0x3Du8,
            Keyboard::F5 => 0x3Eu8,
            Keyboard::F6 => 0x3Fu8,
            Keyboard::F7 => 0x40u8,
            Keyboard::F8 => 0x41u8,
            Keyboard::F9 => 0x42u8,
            Keyboard::F10 => 0x43u8,
            Keyboard::F11 => 0x44u8,
            Keyboard::F12 => 0x45u8,
            Keyboard::PrintScreen => 0x46u8,
            Keyboard::ScrollLock => 0x47u8,
            Keyboard::Pause => 0x48u8,
            Keyboard::Insert => 0x49u8,
            Keyboard::Home => 0x4Au8,
            Keyboard::PageUp => 0x4Bu8,
            Keyboard::DeleteForward => 0x4Cu8,
            Keyboard::End => 0x4Du8,
            Keyboard::PageDown => 0x4Eu8,
            Keyboard::RightArrow => 0x4Fu8,
            Keyboard::LeftArrow => 0x50u8,
            Keyboard::DownArrow => 0x51u8,
            Keyboard::UpArrow => 0x52u8,
            Keyboard::KeypadNumLockAndClear => 0x53u8,
            Keyboard::KeypadDivide => 0x54u8,
            Keyboard::KeypadMultiply => 0x55u8,
            Keyboard::KeypadSubtract => 0x56u8,
            Keyboard::KeypadAdd => 0x57u8,
            Keyboard::KeypadEnter => 0x58u8,
            Keyboard::Keypad1 => 0x59u8,
            Keyboard::Keypad2 => 0x5Au8,
            Keyboard::Keypad3 => 0x5Bu8,
            Keyboard::Keypad4 => 0x5Cu8,
            Keyboard::Keypad5 => 0x5Du8,
            Keyboard::Keypad6 => 0x5Eu8,
            Keyboard::Keypad7 => 0x5Fu8,
            Keyboard::Keypad8 => 0x60u8,
            Keyboard::Keypad9 => 0x61u8,
            Keyboard::Keypad0 => 0x62u8,
            Keyboard::KeypadDot => 0x63u8,
            Keyboard::NonUSBackslash => 0x64u8,
            Keyboard::Application => 0x65u8,
            Keyboard::Power => 0x66u8,
            Keyboard::KeypadEqual => 0x67u8,
            Keyboard::F13 => 0x68u8,
            Keyboard::F14 => 0x69u8,
            Keyboard::F15 => 0x6Au8,
            Keyboard::F16 => 0x6Bu8,
            Keyboard::F17 => 0x6Cu8,
            Keyboard::F18 => 0x6Du8,
            Keyboard::F19 => 0x6Eu8,
            Keyboard::F20 => 0x6Fu8,
            Keyboard::F21 => 0x70u8,
            Keyboard::F22 => 0x71u8,
            Keyboard::F23 => 0x72u8,
            Keyboard::F24 => 0x73u8,
            Keyboard::Execute => 0x74u8,
            Keyboard::Help => 0x75u8,
            Keyboard::Menu => 0x76u8,
            Keyboard::Select => 0x77u8,
            Keyboard::Stop => 0x78u8,
            Keyboard::Again => 0x79u8,
            Keyboard::Undo => 0x7Au8,
            Keyboard::Cut => 0x7Bu8,
            Keyboard::Copy => 0x7Cu8,
            Keyboard::Paste => 0x7Du8,
            Keyboard::Find => 0x7Eu8,
            Keyboard::Mute => 0x7Fu8,
            Keyboard::VolumeUp => 0x80u8,
            Keyboard::VolumeDown => 0x81u8,
            Keyboard::LockingCapsLock => 0x82u8,
            Keyboard::LockingNumLock => 0x83u8,
            Keyboard::LockingScrollLock => 0x84u8,
            Keyboard::KeypadComma => 0x85u8,
            Keyboard::KeypadEqualSign => 0x86u8,
            Keyboard::Kanji1 => 0x87u8,
            Keyboard::Kanji2 => 0x88u8,
            Keyboard::Kanji3 => 0x89u8,
            Keyboard::Kanji4 => 0x8Au8,
            Keyboard::Kanji5 => 0x8Bu8,
            Keyboard::Kanji6 => 0x8Cu8,
            Keyboard::Kanji7 => 0x8Du8,
            Keyboard::Kanji8 => 0x8Eu8,
            Keyboard::Kanji9 => 0x8Fu8,
            Keyboard::LANG1 => 0x90u8,
            Keyboard::LANG2 => 0x91u8,
            Keyboard::LANG3 => 0x92u8,
            Keyboard::LANG4 => 0x93u8,
            Keyboard::LANG5 => 0x94u8,
            Keyboard::LANG6 => 0x95u8,
            Keyboard::LANG7 => 0x96u8,
            Keyboard::LANG8 => 0x97u8,
            Keyboard::LANG9 => 0x98u8,
            Keyboard::AlternateErase => 0x99u8,
            Keyboard::SysReqAttention => 0x9Au8,
            Keyboard::Cancel => 0x9Bu8,
            Keyboard::Clear => 0x9Cu8,
            Keyboard::Prior => 0x9Du8,
            Keyboard::Return => 0x9Eu8,
            Keyboard::Separator => 0x9Fu8,
            Keyboard::Out => 0xA0u8,
            Keyboard::Oper => 0xA1u8,
            Keyboard::ClearAgain => 0xA2u8,
            Keyboard::CrSelProps => 0xA3u8,
            Keyboard::ExSel => 0xA4u8,
            Keyboard::LeftControl => 0xE0u8,
            Keyboard::LeftShift => 0xE1u8,
            Keyboard::LeftAlt => 0xE2u8,
            Keyboard::LeftGUI => 0xE3u8,
            Keyboard::RightControl => 0xE4u8,
            Keyboard::RightShift => 0xE5u8,
            Keyboard::RightAlt => 0xE6u8,
            Keyboard::RightGUI => 0xE7u8,
        }
    }

    /// The key with usage code `code`, if the code is not reserved.
    #[verifier::opaque]
    pub open spec fn of_code(code: u8) -> Option<Keyboard> {
        match code {
            0x00u8 => Some(Keyboard::NoEventIndicated),
            0x01u8 => Some(Keyboard::ErrorRollOver),
            0x02u8 => Some(Keyboard::POSTFail),
            0x03u8 => Some(Keyboard::ErrorUndefine),
            0x04u8 => Some(Keyboard::A),
            0x05u8 => Some(Keyboard::B),
            0x06u8 => Some(Keyboard::C),
            0x07u8 => Some(Keyboard::D),
            0x08u8 => Some(Keyboard::E),
            0x09u8 => Some(Keyboard::F),
            0x0Au8 => Some(Keyboard::G),
            0x0Bu8 => Some(Keyboard::H),
            0x0Cu8 => Some(Keyboard::I),
            0x0Du8 => Some(Keyboard::J),
            0x0Eu8 => Some(Keyboard::K),
            0x0Fu8 => Some(Keyboard::L),
            0x10u8 => Some(Keyboard::M),
            0x11u8 => Some(Keyboard::N),
            0x12u8 => Some(Keyboard::O),
            0x13u8 => Some(Keyboard::P),
            0x14u8 => Some(Keyboard::Q),
            0x15u8 => Some(Keyboard::R),
            0x16u8 => Some(Keyboard::S),
            0x17u8 => Some(Keyboard::T),
            0x18u8 => Some(Keyboard::U),
            0x19u8 => Some(Keyboard::V),
            0x1Au8 => Some(Keyboard::W),
            0x1Bu8 => Some(Keyboard::X),
            0x1Cu8 => Some(Keyboard::Y),
            0x1Du8 => Some(Keyboard::Z),
            0x1Eu8 => Some(Keyboard::Keyboard1),
            0x1Fu8 => Some(Keyboard::Keyboard2),
            0x20u8 => Some(Keyboard::Keyboard3),
            0x21u8 => Some(Keyboard::Keyboard4),
            0x22u8 => Some(Keyboard::Keyboard5),
            0x23u8 => Some(Keyboard::Keyboard6),
            0x24u8 => Some(Keyboard::Keyboard7),
            0x25u8 => Some(Keyboard::Keyboard8),
            0x26u8 => Some(Keyboard::Keyboard9),
            0x27u8 => Some(Keyboard::Keyboard0),
            0x28u8 => Some(Keyboard::ReturnEnter),
            0x29u8 => Some(Keyboard::Escape),
            0x2Au8 => Some(Keyboard::DeleteBackspace),
            0x2Bu8 => Some(Keyboard::Tab),
            0x2Cu8 => Some(Keyboard::Space),
            0x2Du8 => Some(Keyboard::Minus),
            0x2Eu8 => Some(Keyboard::Equal),
            0x2Fu8 => Some(Keyboard::LeftBrace),
            0x30u8 => Some(Keyboard::RightBrace),
            0x31u8 => Some(Keyboard::Backslash),
            0x32u8 => Some(Keyboard::NonUSHash),
            0x33u8 => Some(Keyboard::Semicolon),
            0x34u8 => Some(Keyboard::Apostrophe),
            0x35u8 => Some(Keyboard::Grave),
            0x36u8 => Some(Keyboard::Comma),
            0x37u8 => Some(Keyboard::Dot),
            0x38u8 => Some(Keyboard::ForwardSlash),
            0x39u8 => Some(Keyboard::CapsLock),
            0x3Au8 => Some(Keyboard::F1),
            0x3Bu8 => Some(Keyboard::F2),
            0x3Cu8 => Some(Keyboard::F3),
            0x3Du8 => Some(Keyboard::F4),
            0x3Eu8 => Some(Keyboard::F5),
            0x3Fu8 => Some(Keyboard::F6),
            0x40u8 => Some(Keyboard::F7),
            0x41u8 => Some(Keyboard::F8),
            0x42u8 => Some(Keyboard::F9),
            0x43u8 => Some(Keyboard::F10),
            0x44u8 => Some(Keyboard::F11),
            0x45u8 => Some(Keyboard::F12),
            0x46u8 => Some(Keyboard::PrintScreen),
            0x47u8 => Some(Keyboard::ScrollLock),
            0x48u8 => Some(Keyboard::Pause),
            0x49u8 => Some(Keyboard::Insert),
            0x4Au8 => Some(Keyboard::Home),
            0x4Bu8 => Some(Keyboard::PageUp),
            0x4Cu8 => Some(Keyboard::DeleteForward),
            0x4Du8 => Some(Keyboard::End),
            0x4Eu8 => Some(Keyboard::PageDown),
            0x4Fu8 => Some(Keyboard::RightArrow),
            0x50u8 => Some(Keyboard::LeftArrow),
            0x51u8 => Some(Keyboard::DownArrow),
            0x52u8 => Some(Keyboard::UpArrow),
            0x53u8 => Some(Keyboard::KeypadNumLockAndClear),
            0x54u8 => Some(Keyboard::KeypadDivide),
            0x55u8 => Some(Keyboard::KeypadMultiply),
            0x56u8 => Some(Keyboard::KeypadSubtract),
            0x57u8 => Some(Keyboard::KeypadAdd),
            0x58u8 => Some(Keyboard::KeypadEnter),
            0x59u8 => Some(Keyboard::Keypad1),
            0x5Au8 => Some(Keyboard::Keypad2),
            0x5Bu8 => Some(Keyboard::Keypad3),
            0x5Cu8 => Some(Keyboard::Keypad4),
            0x5Du8 => Some(Keyboard::Keypad5),
            0x5Eu8 => Some(Keyboard::Keypad6),
            0x5Fu8 => Some(Keyboard::Keypad7),
            0x60u8 => Some(Keyboard::Keypad8),
            0x61u8 => Some(Keyboard::Keypad9),
            0x62u8 => Some(Keyboard::Keypad0),
            0x63u8 => Some(Keyboard::KeypadDot),
            0x64u8 => Some(Keyboard::NonUSBackslash),
            0x65u8 => Some(Keyboard::Application),
            0x66u8 => Some(Keyboard::Power),
            0x67u8 => Some(Keyboard::KeypadEqual),
            0x68u8 => Some(Keyboard::F13),
            0x69u8 => Some(Keyboard::F14),
            0x6Au8 => Some(Keyboard::F15),
            0x6Bu8 => Some(Keyboard::F16),
            0x6Cu8 => Some(Keyboard::F17),
            0x6Du8 => Some(Keyboard::F18),
            0x6Eu8 => Some(Keyboard::F19),
            0x6Fu8 => Some(Keyboard::F20),
            0x70u8 => Some(Keyboard::F21),
            0x71u8 => Some(Keyboard::F22),
            0x72u8 => Some(Keyboard::F23),
            0x73u8 => Some(Keyboard::F24),
            0x74u8 => Some(Keyboard::Execute),
            0x75u8 => Some(Keyboard::Help),
            0x76u8 => Some(Keyboard::Menu),
            0x77u8 => Some(Keyboard::Select),
            0x78u8 => Some(Keyboard::Stop),
            0x79u8 => Some(Keyboard::Again),
            0x7Au8 => Some(Keyboard::Undo),
            0x7Bu8 => Some(Keyboard::Cut),
            0x7Cu8 => Some(Keyboard::Copy),
            0x7Du8 => Some(Keyboard::Paste),
            0x7Eu8 => Some(Keyboard::Find),
            0x7Fu8 => Some(Keyboard::Mute),
            0x80u8 => Some(Keyboard::VolumeUp),
            0x81u8 => Some(Keyboard::VolumeDown),
            0x82u8 => Some(Keyboard::LockingCapsLock),
            0x83u8 => Some(Keyboard::LockingNumLock),
            0x84u8 => Some(Keyboard::LockingScrollLock),
            0x85u8 => Some(Keyboard::KeypadComma),
            0x86u8 => Some(Keyboard::KeypadEqualSign),
            0x87u8 => Some(Keyboard::Kanji1),
            0x88u8 => Some(Keyboard::Kanji2),
            0x89u8 => Some(Keyboard::Kanji3),
            0x8Au8 => Some(Keyboard::Kanji4),
            0x8Bu8 => Some(Keyboard::Kanji5),
            0x8Cu8 => Some(Keyboard::Kanji6),
            0x8Du8 => Some(Keyboard::Kanji7),
            0x8Eu8 => Some(Keyboard::Kanji8),
            0x8Fu8 => Some(Keyboard::Kanji9),
            0x90u8 => Some(Keyboard::LANG1),
            0x91u8 => Some(Keyboard::LANG2),
            0x92u8 => Some(Keyboard::LANG3),
            0x93u8 => Some(Keyboard::LANG4),
            0x94u8 => Some(Keyboard::LANG5),
            0x95u8 => Some(Keyboard::LANG6),
            0x96u8 => Some(Keyboard::LANG7),
            0x97u8 => Some(Keyboard::LANG8),
            0x98u8 => Some(Keyboard::LANG9),
            0x99u8 => Some(Keyboard::AlternateErase),
            0x9Au8 => Some(Keyboard::SysReqAttention),
            0x9Bu8 => Some(Keyboard::Cancel),
            0x9Cu8 => Some(Keyboard::Clear),
            0x9Du8 => Some(Keyboard::Prior),
            0x9Eu8 => Some(Keyboard::Return),
            0x9Fu8 => Some(Keyboard::Separator),
            0xA0u8 => Some(Keyboard::Out),
            0xA1u8 => Some(Keyboard::Oper),
            0xA2u8 => Some(Keyboard::ClearAgain),
            0xA3u8 => Some(Keyboard::CrSelProps),
            0xA4u8 => Some(Keyboard::ExSel),
            0xE0u8 => Some(Keyboard::LeftControl),
            0xE1u8 => Some(Keyboard::LeftShift),
            0xE2u8 => Some(Keyboard::LeftAlt),
            0xE3u8 => Some(Keyboard::LeftGUI),
            0xE4u8 => Some(Keyboard::RightControl),
            0xE5u8 => Some(Keyboard::RightShift),
            0xE6u8 => Some(Keyboard::RightAlt),
            0xE7u8 => Some(Keyboard::RightGUI),
            _ => None,
        }
    }

    /// Codes that name a key: everything outside the two reserved ranges.
    pub open spec fn is_assigned(code: u8) -> bool {
        code <= 0xA4 || (0xE0 <= code && code <= 0xE7)
    }

    /// One of the eight modifier keys, reported as a bit rather than in a slot.
    pub open spec fn is_modifier(self) -> bool {
        self.code() >= 0xE0
    }

    /// One of the three error indicators (`ErrorRollOver`, `POSTFail`, `ErrorUndefine`).
    pub open spec fn is_error_indicator(self) -> bool {
        1 <= self.code() <= 3
    }

    /// A key that takes up a slot of a boot report's key array: anything but a
    /// modifier or `NoEventIndicated`.
    pub open spec fn takes_slot(self) -> bool {
        self.code() != 0 && !self.is_modifier()
    }

    /// Returns the usage code of this key.
    pub fn as_u8(self) -> (code: u8)
        ensures
            code == self.code(),
    {
        proof {
            reveal(Keyboard::code);
        }
        match self {
            Keyboard::NoEventIndicated => 0x00,
            Keyboard::ErrorRollOver => 0x01,
            Keyboard::POSTFail => 0x02,
            Keyboard::ErrorUndefine => 0x03,
            Keyboard::A => 0x04,
            Keyboard::B => 0x05,
            Keyboard::C => 0x06,
            Keyboard::D => 0x07,
            Keyboard::E => 0x08,
            Keyboard::F => 0x09,
            Keyboard::G => 0x0A,
            Keyboard::H => 0x0B,
            Keyboard::I => 0x0C,
            Keyboard::J => 0x0D,
            Keyboard::K => 0x0E,
            Keyboard::L => 0x0F,
            Keyboard::M => 0x10,
            Keyboard::N => 0x11,
            Keyboard::O => 0x12,
            Keyboard::P => 0x13,
            Keyboard::Q => 0x14,
            Keyboard::R => 0x15,
            Keyboard::S => 0x16,
            Keyboard::T => 0x17,
            Keyboard::U => 0x18,
            Keyboard::V => 0x19,
            Keyboard::W => 0x1A,
            Keyboard::X => 0x1B,
            Keyboard::Y => 0x1C,
            Keyboard::Z => 0x1D,
            Keyboard::Keyboard1 => 0x1E,
            Keyboard::Keyboard2 => 0x1F,
            Keyboard::Keyboard3 => 0x20,
            Keyboard::Keyboard4 => 0x21,
            Keyboard::Keyboard5 => 0x22,
            Keyboard::Keyboard6 => 0x23,
            Keyboard::Keyboard7 => 0x24,
            Keyboard::Keyboard8 => 0x25,
            Keyboard::Keyboard9 => 0x26,
            Keyboard::Keyboard0 => 0x27,
            Keyboard::ReturnEnter => 0x28,
            Keyboard::Escape => 0x29,
            Keyboard::DeleteBackspace => 0x2A,
            Keyboard::Tab => 0x2B,
            Keyboard::Space => 0x2C,
            Keyboard::Minus => 0x2D,
            Keyboard::Equal => 0x2E,
            Keyboard::LeftBrace => 0x2F,
            Keyboard::RightBrace => 0x30,
            Keyboard::Backslash => 0x31,
            Keyboard::NonUSHash => 0x32,
            Keyboard::Semicolon => 0x33,
            Keyboard::Apostrophe => 0x34,
            Keyboard::Grave => 0x35,
            Keyboard::Comma => 0x36,
            Keyboard::Dot => 0x37,
            Keyboard::ForwardSlash => 0x38,
            Keyboard::CapsLock => 0x39,
            Keyboard::F1 => 0x3A,
            Keyboard::F2 => 0x3B,
            Keyboard::F3 => 0x3C,
            Keyboard::F4 => 0x3D,
            Keyboard::F5 => 0x3E,
            Keyboard::F6 => 0x3F,
            Keyboard::F7 => 0x40,
            Keyboard::F8 => 0x41,
            Keyboard::F9 => 0x42,
            Keyboard::F10 => 0x43,
            Keyboard::F11 => 0x44,
            Keyboard::F12 => 0x45,
            Keyboard::PrintScreen => 0x46,
            Keyboard::ScrollLock => 0x47,
            Keyboard::Pause => 0x48,
            Keyboard::Insert => 0x49,
            Keyboard::Home => 0x4A,
            Keyboard::PageUp => 0x4B,
            Keyboard::DeleteForward => 0x4C,
            Keyboard::End => 0x4D,
            Keyboard::PageDown => 0x4E,
            Keyboard::RightArrow => 0x4F,
            Keyboard::LeftArrow => 0x50,
            Keyboard::DownArrow => 0x51,
            Keyboard::UpArrow => 0x52,
            Keyboard::KeypadNumLockAndClear => 0x53,
            Keyboard::KeypadDivide => 0x54,
            Keyboard::KeypadMultiply => 0x55,
            Keyboard::KeypadSubtract => 0x56,
            Keyboard::KeypadAdd => 0x57,
            Keyboard::KeypadEnter => 0x58,
            Keyboard::Keypad1 => 0x59,
            Keyboard::Keypad2 => 0x5A,
            Keyboard::Keypad3 => 0x5B,
            Keyboard::Keypad4 => 0x5C,
            Keyboard::Keypad5 => 0x5D,
            Keyboard::Keypad6 => 0x5E,
            Keyboard::Keypad7 => 0x5F,
            Keyboard::Keypad8 => 0x60,
            Keyboard::Keypad9 => 0x61,
            Keyboard::Keypad0 => 0x62,
            Keyboard::KeypadDot => 0x63,
            Keyboard::NonUSBackslash => 0x64,
            Keyboard::Application => 0x65,
            Keyboard::Power => 0x66,
            Keyboard::KeypadEqual => 0x67,
            Keyboard::F13 => 0x68,
            Keyboard::F14 => 0x69,
            Keyboard::F15 => 0x6A,
            Keyboard::F16 => 0x6B,
            Keyboard::F17 => 0x6C,
            Keyboard::F18 => 0x6D,
            Keyboard::F19 => 0x6E,
            Keyboard::F20 => 0x6F,
            Keyboard::F21 => 0x70,
            Keyboard::F22 => 0x71,
            Keyboard::F23 => 0x72,
            Keyboard::F24 => 0x73,
            Keyboard::Execute => 0x74,
            Keyboard::Help => 0x75,
            Keyboard::Menu => 0x76,
            Keyboard::Select => 0x77,
            Keyboard::Stop => 0x78,
            Keyboard::Again => 0x79,
            Keyboard::Undo => 0x7A,
            Keyboard::Cut => 0x7B,
            Keyboard::Copy => 0x7C,
            Keyboard::Paste => 0x7D,
            Keyboard::Find => 0x7E,
            Keyboard::Mute => 0x7F,
            Keyboard::VolumeUp => 0x80,
            Keyboard::VolumeDown => 0x81,
            Keyboard::LockingCapsLock => 0x82,
            Keyboard::LockingNumLock => 0x83,
            Keyboard::LockingScrollLock => 0x84,
            Keyboard::KeypadComma => 0x85,
            Keyboard::KeypadEqualSign => 0x86,
            Keyboard::Kanji1 => 0x87,
            Keyboard::Kanji2 => 0x88,
            Keyboard::Kanji3 => 0x89,
            Keyboard::Kanji4 => 0x8A,
            Keyboard::Kanji5 => 0x8B,
            Keyboard::Kanji6 => 0x8C,
            Keyboard::Kanji7 => 0x8D,
            Keyboard::Kanji8 => 0x8E,
            Keyboard::Kanji9 => 0x8F,
            Keyboard::LANG1 => 0x90,
            Keyboard::LANG2 => 0x91,
            Keyboard::LANG3 => 0x92,
            Keyboard::LANG4 => 0x93,
            Keyboard::LANG5 => 0x94,
            Keyboard::LANG6 => 0x95,
            Keyboard::LANG7 => 0x96,
            Keyboard::LANG8 => 0x97,
            Keyboard::LANG9 => 0x98,
            Keyboard::AlternateErase => 0x99,
            Keyboard::SysReqAttention => 0x9A,
            Keyboard::Cancel => 0x9B,
            Keyboard::Clear => 0x9C,
            Keyboard::Prior => 0x9D,
            Keyboard::Return => 0x9E,
            Keyboard::Separator => 0x9F,
            Keyboard::Out => 0xA0,
            Keyboard::Oper => 0xA1,
            Keyboard::ClearAgain => 0xA2,
            Keyboard::CrSelProps => 0xA3,
            Keyboard::ExSel => 0xA4,
            Keyboard::LeftControl => 0xE0,
            Keyboard::LeftShift => 0xE1,
            Keyboard::LeftAlt => 0xE2,
            Keyboard::LeftGUI => 0xE3,
            Keyboard::RightControl => 0xE4,
            Keyboard::RightShift => 0xE5,
            Keyboard::RightAlt => 0xE6,
            Keyboard::RightGUI => 0xE7,
        }
    }

    /// Looks a usage code up; `None` for the reserved codes.
    pub fn from_code(code: u8) -> (key: Option<Keyboard>)
        ensures
            key == Keyboard::of_code(code),
    {
        proof {
            reveal(Keyboard::of_code);
        }
        match code {
            0x00 => Some(Keyboard::NoEventIndicated),
            0x01 => Some(Keyboard::ErrorRollOver),
            0x02 => Some(Keyboard::POSTFail),
            0x03 => Some(Keyboard::ErrorUndefine),
            0x04 => Some(Keyboard::A),
            0x05 => Some(Keyboard::B),
            0x06 => Some(Keyboard::C),
            0x07 => Some(Keyboard::D),
            0x08 => Some(Keyboard::E),
            0x09 => Some(Keyboard::F),
            0x0A => Some(Keyboard::G),
            0x0B => Some(Keyboard::H),
            0x0C => Some(Keyboard::I),
            0x0D => Some(Keyboard::J),
            0x0E => Some(Keyboard::K),
            0x0F => Some(Keyboard::L),
            0x10 => Some(Keyboard::M),
            0x11 => Some(Keyboard::N),
            0x12 => Some(Keyboard::O),
            0x13 => Some(Keyboard::P),
            0x14 => Some(Keyboard::Q),
            0x15 => Some(Keyboard::R),
            0x16 => Some(Keyboard::S),
            0x17 => Some(Keyboard::T),
            0x18 => Some(Keyboard::U),
            0x19 => Some(Keyboard::V),
            0x1A => Some(Keyboard::W),
            0x1B => Some(Keyboard::X),
            0x1C => Some(Keyboard::Y),
            0x1D => Some(Keyboard::Z),
            0x1E => Some(Keyboard::Keyboard1),
            0x1F => Some(Keyboard::Keyboard2),
            0x20 => Some(Keyboard::Keyboard3),
            0x21 => Some(Keyboard::Keyboard4),
            0x22 => Some(Keyboard::Keyboard5),
            0x23 => Some(Keyboard::Keyboard6),
            0x24 => Some(Keyboard::Keyboard7),
            0x25 => Some(Keyboard::Keyboard8),
            0x26 => Some(Keyboard::Keyboard9),
            0x27 => Some(Keyboard::Keyboard0),
            0x28 => Some(Keyboard::ReturnEnter),
            0x29 => Some(Keyboard::Escape),
            0x2A => Some(Keyboard::DeleteBackspace),
            0x2B => Some(Keyboard::Tab),
            0x2C => Some(Keyboard::Space),
            0x2D => Some(Keyboard::Minus),
            0x2E => Some(Keyboard::Equal),
            0x2F => Some(Keyboard::LeftBrace),
            0x30 => Some(Keyboard::RightBrace),
            0x31 => Some(Keyboard::Backslash),
            0x32 => Some(Keyboard::NonUSHash),
            0x33 => Some(Keyboard::Semicolon),
            0x34 => Some(Keyboard::Apostrophe),
            0x35 => Some(Keyboard::Grave),
            0x36 => Some(Keyboard::Comma),
            0x37 => Some(Keyboard::Dot),
            0x38 => Some(Keyboard::ForwardSlash),
            0x39 => Some(Keyboard::CapsLock),
            0x3A => Some(Keyboard::F1),
            0x3B => Some(Keyboard::F2),
            0x3C => Some(Keyboard::F3),
            0x3D => Some(Keyboard::F4),
            0x3E => Some(Keyboard::F5),
            0x3F => Some(Keyboard::F6),
            0x40 => Some(Keyboard::F7),
            0x41 => Some(Keyboard::F8),
            0x42 => Some(Keyboard::F9),
            0x43 => Some(Keyboard::F10),
            0x44 => Some(Keyboard::F11),
            0x45 => Some(Keyboard::F12),
            0x46 => Some(Keyboard::PrintScreen),
            0x47 => Some(Keyboard::ScrollLock),
            0x48 => Some(Keyboard::Pause),
            0x49 => Some(Keyboard::Insert),
            0x4A => Some(Keyboard::Home),
            0x4B => Some(Keyboard::PageUp),
            0x4C => Some(Keyboard::DeleteForward),
            0x4D => Some(Keyboard::End),
            0x4E => Some(Keyboard::PageDown),
            0x4F => Some(Keyboard::RightArrow),
            0x50 => Some(Keyboard::LeftArrow),
            0x51 => Some(Keyboard::DownArrow),
            0x52 => Some(Keyboard::UpArrow),
            0x53 => Some(Keyboard::KeypadNumLockAndClear),
            0x54 => Some(Keyboard::KeypadDivide),
            0x55 => Some(Keyboard::KeypadMultiply),
            0x56 => Some(Keyboard::KeypadSubtract),
            0x57 => Some(Keyboard::KeypadAdd),
            0x58 => Some(Keyboard::KeypadEnter),
            0x59 => Some(Keyboard::Keypad1),
            0x5A => Some(Keyboard::Keypad2),
            0x5B => Some(Keyboard::Keypad3),
            0x5C => Some(Keyboard::Keypad4),
            0x5D => Some(Keyboard::Keypad5),
            0x5E => Some(Keyboard::Keypad6),
            0x5F => Some(Keyboard::Keypad7),
            0x60 => Some(Keyboard::Keypad8),
            0x61 => Some(Keyboard::Keypad9),
            0x62 => Some(Keyboard::Keypad0),
            0x63 => Some(Keyboard::KeypadDot),
            0x64 => Some(Keyboard::NonUSBackslash),
            0x65 => Some(Keyboard::Application),
            0x66 => Some(Keyboard::Power),
            0x67 => Some(Keyboard::KeypadEqual),
            0x68 => Some(Keyboard::F13),
            0x69 => Some(Keyboard::F14),
            0x6A => Some(Keyboard::F15),
            0x6B => Some(Keyboard::F16),
            0x6C => Some(Keyboard::F17),
            0x6D => Some(Keyboard::F18),
            0x6E => Some(Keyboard::F19),
            0x6F => Some(Keyboard::F20),
            0x70 => Some(Keyboard::F21),
            0x71 => Some(Keyboard::F22),
            0x72 => Some(Keyboard::F23),
            0x73 => Some(Keyboard::F24),
            0x74 => Some(Keyboard::Execute),
            0x75 => Some(Keyboard::Help),
            0x76 => Some(Keyboard::Menu),
            0x77 => Some(Keyboard::Select),
            0x78 => Some(Keyboard::Stop),
            0x79 => Some(Keyboard::Again),
            0x7A => Some(Keyboard::Undo),
            0x7B => Some(Keyboard::Cut),
            0x7C => Some(Keyboard::Copy),
            0x7D => Some(Keyboard::Paste),
            0x7E => Some(Keyboard::Find),
            0x7F => Some(Keyboard::Mute),
            0x80 => Some(Keyboard::VolumeUp),
            0x81 => Some(Keyboard::VolumeDown),
            0x82 => Some(Keyboard::LockingCapsLock),
            0x83 => Some(Keyboard::LockingNumLock),
            0x84 => Some(Keyboard::LockingScrollLock),
            0x85 => Some(Keyboard::KeypadComma),
            0x86 => Some(Keyboard::KeypadEqualSign),
            0x87 => Some(Keyboard::Kanji1),
            0x88 => Some(Keyboard::Kanji2),
            0x89 => Some(Keyboard::Kanji3),
            0x8A => Some(Keyboard::Kanji4),
            0x8B => Some(Keyboard::Kanji5),
            0x8C => Some(Keyboard::Kanji6),
            0x8D => Some(Keyboard::Kanji7),
            0x8E => Some(Keyboard::Kanji8),
            0x8F => Some(Keyboard::Kanji9),
            0x90 => Some(Keyboard::LANG1),
            0x91 => Some(Keyboard::LANG2),
            0x92 => Some(Keyboard::LANG3),
            0x93 => Some(Keyboard::LANG4),
            0x94 => Some(Keyboard::LANG5),
            0x95 => Some(Keyboard::LANG6),
            0x96 => Some(Keyboard::LANG7),
            0x97 => Some(Keyboard::LANG8),
            0x98 => Some(Keyboard::LANG9),
            0x99 => Some(Keyboard::AlternateErase),
            0x9A => Some(Keyboard::SysReqAttention),
            0x9B => Some(Keyboard::Cancel),
            0x9C => Some(Keyboard::Clear),
            0x9D => Some(Keyboard::Prior),
            0x9E => Some(Keyboard::Return),
            0x9F => Some(Keyboard::Separator),
            0xA0 => Some(Keyboard::Out),
            0xA1 => Some(Keyboard::Oper),
            0xA2 => Some(Keyboard::ClearAgain),
            0xA3 => Some(Keyboard::CrSelProps),
            0xA4 => Some(Keyboard::ExSel),
            0xE0 => Some(Keyboard::LeftControl),
            0xE1 => Some(Keyboard::LeftShift),
            0xE2 => Some(Keyboard::LeftAlt),
            0xE3 => Some(Keyboard::LeftGUI),
            0xE4 => Some(Keyboard::RightControl),
            0xE5 => Some(Keyboard::RightShift),
            0xE6 => Some(Keyboard::RightAlt),
            0xE7 => Some(Keyboard::RightGUI),
            _ => None,
        }
    }

    /// Every key survives a trip through its usage code, and a code names at most one
    /// key.
    pub proof fn lemma_code_round_trip(key: Keyboard)
        ensures
            Keyboard::of_code(key.code()) == Some(key),
            Keyboard::is_assigned(key.code()),
    {
        reveal(Keyboard::code);
        reveal(Keyboard::of_code);
    }

    /// A code names a key exactly when it is assigned, and that key carries the code.
    pub proof fn lemma_of_code(code: u8)
        ensures
            Keyboard::of_code(code).is_some() <==> Keyboard::is_assigned(code),
            Keyboard::of_code(code) matches Some(key) ==> key.code() == code,
    {
        reveal(Keyboard::code);
        reveal(Keyboard::of_code);
    }
}

impl Default for Keyboard {
    fn default() -> (key: Keyboard)
        ensures
            key == Keyboard::NoEventIndicated,
    {
        Keyboard::NoEventIndicated
    }
}

impl From<Keyboard> for u8 {
    fn from(key: Keyboard) -> (code: u8) {
        key.as_u8()
    }
}

impl vstd::std_specs::convert::FromSpecImpl<Keyboard> for u8 {
    open spec fn obeys_from_spec() -> bool {
        true
    }

    open spec fn from_spec(key: Keyboard) -> u8 {
        key.code()
    }
}

} // verus!
