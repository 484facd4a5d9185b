use vstd::prelude::*;

verus! {

/// The type of mouse coordinates on the wire.
pub type MouseType = i64;

/// A pair of coordinates.
#[derive(Debug, Clone, Copy, PartialEq, Eq, Structural)]
pub struct Vec2<T> {
    pub x: T,
    pub y: T,
}

impl<T> Vec2<T> {
    /// Creates the pair `(x, y)`.
    pub fn new(x: T, y: T) -> (r: Self)
        ensures
            r.x == x,
            r.y == y,
    {
        Vec2 { x, y }
    }
}

/// The first byte of each packet of the direct TCP protocol names its kind.
pub struct PackageIds {}

impl PackageIds {
    pub const KEYBOARD: u8 = 0x1;
    pub const MOUSE: u8 = 0x2;
    pub const SWITCH: u8 = 0x3;
}

/// The port that the server listens on unless told otherwise.
pub const DEFAULT_PORT: u16 = 60067;

/// A USB HID keyboard usage code.
#[derive(Debug, Clone, Copy, PartialEq, Eq, Structural, Hash)]
pub enum HidKeyCode {
    NoEvent,
    ErrorRollOver,
    PostFail,
    ErrorUndefined,
    KeyA,
    KeyB,
    KeyC,
    KeyD,
    KeyE,
    KeyF,
    KeyG,
    KeyH,
    KeyI,
    KeyJ,
    KeyK,
    KeyL,
    KeyM,
    KeyN,
    KeyO,
    KeyP,
    KeyQ,
    KeyR,
    KeyS,
    KeyT,
    KeyU,
    KeyV,
    KeyW,
    KeyX,
    KeyY,
    KeyZ,
    Key1,
    Key2,
    Key3,
    Key4,
    Key5,
    Key6,
    Key7,
    Key8,
    Key9,
    Key0,
    Enter,
    Escape,
    Backspace,
    Tab,
    Space,
    Minus,
    Equal,
    LeftBrace,
    RightBrace,
    Backslash,
    HashTilde,
    Semicolon,
    Apostrophe,
    Grave,
    Comma,
    Dot,
    Slash,
    Capslock,
    F1,
    F2,
    F3,
    F4,
    F5,
    F6,
    F7,
    F8,
    F9,
    F10,
    F11,
    F12,
    PrintScreen,
    ScrollLock,
    Pause,
    Insert,
    Home,
    PageUp,
    Delete,
    End,
    PageDown,
    Right,
    Left,
    Down,
    Up,
    NumLock,
    KpSlash,
    KpAsterisk,
    KpMinus,
    KpPlus,
    KpEnter,
    Kp1,
    Kp2,
    Kp3,
    Kp4,
    Kp5,
    Kp6,
    Kp7,
    Kp8,
    Kp9,
    Kp0,
    KpDot,
    Key102ND,
    Compose,
    Power,
    KpEqual,
    F13,
    F14,
    F15,
    F16,
    F17,
    F18,
    F19,
    F20,
    F21,
    F22,
    F23,
    F24,
    Execute,
    Help,
    Menu,
    Select,
    Stop,
    Again,
    Undo,
    Cut,
    Copy,
    Paste,
    Find,
    Mute,
    VolumeUp,
    VolumeDown,
    LockingCapsLock,
    LockingNumLock,
    LockingScrollLock,
    KpComma,
    KpEqualSign,
    International1,
    International2,
    International3,
    International4,
    International5,
    International6,
    International7,
    International8,
    International9,
    Language1,
    Language2,
    Language3,
    Language4,
    Language5,
    Language6,
    Language7,
    Language8,
    Language9,
    AltErase,
    SysReq,
    Cancel,
    Clear,
    Prior,
    Return,
    Separator,
    Out,
    Oper,
    ClearAgain,
    CrSel,
    ExSel,
    LeftCtrl,
    LeftShift,
    LeftAlt,
    LeftMeta,
    RightCtrl,
    RightShift,
    RightAlt,
    RightMeta,
    MediaPlayPause,
    MediaStopCD,
    MediaPreviousSong,
    MediaNextSong,
    MediaEjectCD,
    MediaVolumeUp,
    MediaVolumeDown,
    MediaMute,
    MediaWWW,
    MediaBack,
    MediaForward,
    MediaStop,
    MediaFind,
    MediaScrollUp,
    MediaScrollDown,
    MediaEdit,
    MediaSleep,
    MediaCoffee,
    MediaRefresh,
    MediaCalc,
}

impl HidKeyCode {
    /// The numeric code of this value.
    pub open spec fn spec_to_u8(self) -> u8 {
        match self {
            HidKeyCode::NoEvent => 0x00,
            HidKeyCode::ErrorRollOver => 0x01,
            HidKeyCode::PostFail => 0x02,
            HidKeyCode::ErrorUndefined => 0x03,
            HidKeyCode::KeyA => 0x04,
            HidKeyCode::KeyB => 0x05,
            HidKeyCode::KeyC => 0x06,
            HidKeyCode::KeyD => 0x07,
            HidKeyCode::KeyE => 0x08,
            HidKeyCode::KeyF => 0x09,
            HidKeyCode::KeyG => 0x0a,
            HidKeyCode::KeyH => 0x0b,
            HidKeyCode::KeyI => 0x0c,
            HidKeyCode::KeyJ => 0x0d,
            HidKeyCode::KeyK => 0x0e,
            HidKeyCode::KeyL => 0x0f,
            HidKeyCode::KeyM => 0x10,
            HidKeyCode::KeyN => 0x11,
            HidKeyCode::KeyO => 0x12,
            HidKeyCode::KeyP => 0x13,
            HidKeyCode::KeyQ => 0x14,
            HidKeyCode::KeyR => 0x15,
            HidKeyCode::KeyS => 0x16,
            HidKeyCode::KeyT => 0x17,
            HidKeyCode::KeyU => 0x18,
            HidKeyCode::KeyV => 0x19,
            HidKeyCode::KeyW => 0x1a,
            HidKeyCode::KeyX => 0x1b,
            HidKeyCode::KeyY => 0x1c,
            HidKeyCode::KeyZ => 0x1d,
            HidKeyCode::Key1 => 0x1e,
            HidKeyCode::Key2 => 0x1f,
            HidKeyCode::Key3 => 0x20,
            HidKeyCode::Key4 => 0x21,
            HidKeyCode::Key5 => 0x22,
            HidKeyCode::Key6 => 0x23,
            HidKeyCode::Key7 => 0x24,
            HidKeyCode::Key8 => 0x25,
            HidKeyCode::Key9 => 0x26,
            HidKeyCode::Key0 => 0x27,
            HidKeyCode::Enter => 0x28,
            HidKeyCode::Escape => 0x29,
            HidKeyCode::Backspace => 0x2a,
            HidKeyCode::Tab => 0x2b,
            HidKeyCode::Space => 0x2c,
            HidKeyCode::Minus => 0x2d,
            HidKeyCode::Equal => 0x2e,
            HidKeyCode::LeftBrace => 0x2f,
            HidKeyCode::RightBrace => 0x30,
            HidKeyCode::Backslash => 0x31,
            HidKeyCode::HashTilde => 0x32,
            HidKeyCode::Semicolon => 0x33,
            HidKeyCode::Apostrophe => 0x34,
            HidKeyCode::Grave => 0x35,
            HidKeyCode::Comma => 0x36,
            HidKeyCode::Dot => 0x37,
            HidKeyCode::Slash => 0x38,
            HidKeyCode::Capslock => 0x39,
            HidKeyCode::F1 => 0x3a,
            HidKeyCode::F2 => 0x3b,
            HidKeyCode::F3 => 0x3c,
            HidKeyCode::F4 => 0x3d,
            HidKeyCode::F5 => 0x3e,
            HidKeyCode::F6 => 0x3f,
            HidKeyCode::F7 => 0x40,
            HidKeyCode::F8 => 0x41,
            HidKeyCode::F9 => 0x42,
            HidKeyCode::F10 => 0x43,
            HidKeyCode::F11 => 0x44,
            HidKeyCode::F12 => 0x45,
            HidKeyCode::PrintScreen => 0x46,
            HidKeyCode::ScrollLock => 0x47,
            HidKeyCode::Pause => 0x48,
            HidKeyCode::Insert => 0x49,
            HidKeyCode::Home => 0x4a,
            HidKeyCode::PageUp => 0x4b,
            HidKeyCode::Delete => 0x4c,
            HidKeyCode::End => 0x4d,
            HidKeyCode::PageDown => 0x4e,
            HidKeyCode::Right => 0x4f,
            HidKeyCode::Left => 0x50,
            HidKeyCode::Down => 0x51,
            HidKeyCode::Up => 0x52,
            HidKeyCode::NumLock => 0x53,
            HidKeyCode::KpSlash => 0x54,
            HidKeyCode::KpAsterisk => 0x55,
            HidKeyCode::KpMinus => 0x56,
            HidKeyCode::KpPlus => 0x57,
            HidKeyCode::KpEnter => 0x58,
            HidKeyCode::Kp1 => 0x59,
            HidKeyCode::Kp2 => 0x5a,
            HidKeyCode::Kp3 => 0x5b,
            HidKeyCode::Kp4 => 0x5c,
            HidKeyCode::Kp5 => 0x5d,
            HidKeyCode::Kp6 => 0x5e,
            HidKeyCode::Kp7 => 0x5f,
            HidKeyCode::Kp8 => 0x60,
            HidKeyCode::Kp9 => 0x61,
            HidKeyCode::Kp0 => 0x62,
            HidKeyCode::KpDot => 0x63,
            HidKeyCode::Key102ND => 0x64,
            HidKeyCode::Compose => 0x65,
            HidKeyCode::Power => 0x66,
            HidKeyCode::KpEqual => 0x67,
            HidKeyCode::F13 => 0x68,
            HidKeyCode::F14 => 0x69,
            HidKeyCode::F15 => 0x6a,
            HidKeyCode::F16 => 0x6b,
            HidKeyCode::F17 => 0x6c,
            HidKeyCode::F18 => 0x6d,
            HidKeyCode::F19 => 0x6e,
            HidKeyCode::F20 => 0x6f,
            HidKeyCode::F21 => 0x70,
            HidKeyCode::F22 => 0x71,
            HidKeyCode::F23 => 0x72,
            HidKeyCode::F24 => 0x73,
            HidKeyCode::Execute => 0x74,
            HidKeyCode::Help => 0x75,
            HidKeyCode::Menu => 0x76,
            HidKeyCode::Select => 0x77,
            HidKeyCode::Stop => 0x78,
            HidKeyCode::Again => 0x79,
            HidKeyCode::Undo => 0x7a,
            HidKeyCode::Cut => 0x7b,
            HidKeyCode::Copy => 0x7c,
            HidKeyCode::Paste => 0x7d,
            HidKeyCode::Find => 0x7e,
            HidKeyCode::Mute => 0x7f,
            HidKeyCode::VolumeUp => 0x80,
            HidKeyCode::VolumeDown => 0x81,
            HidKeyCode::LockingCapsLock => 0x82,
            HidKeyCode::LockingNumLock => 0x83,
            HidKeyCode::LockingScrollLock => 0x84,
            HidKeyCode::KpComma => 0x85,
            HidKeyCode::KpEqualSign => 0x86,
            HidKeyCode::International1 => 0x87,
            HidKeyCode::International2 => 0x88,
            HidKeyCode::International3 => 0x89,
            HidKeyCode::International4 => 0x8a,
            HidKeyCode::International5 => 0x8b,
            HidKeyCode::International6 => 0x8c,
            HidKeyCode::International7 => 0x8d,
            HidKeyCode::International8 => 0x8e,
            HidKeyCode::International9 => 0x8f,
            HidKeyCode::Language1 => 0x90,
            HidKeyCode::Language2 => 0x91,
            HidKeyCode::Language3 => 0x92,
            HidKeyCode::Language4 => 0x93,
            HidKeyCode::Language5 => 0x94,
            HidKeyCode::Language6 => 0x95,
            HidKeyCode::Language7 => 0x96,
            HidKeyCode::Language8 => 0x97,
            HidKeyCode::Language9 => 0x98,
            HidKeyCode::AltErase => 0x99,
            HidKeyCode::SysReq => 0x9a,
            HidKeyCode::Cancel => 0x9b,
            HidKeyCode::Clear => 0x9c,
            HidKeyCode::Prior => 0x9d,
            HidKeyCode::Return => 0x9e,
            HidKeyCode::Separator => 0x9f,
            HidKeyCode::Out => 0xa0,
            HidKeyCode::Oper => 0xa1,
            HidKeyCode::ClearAgain => 0xa2,
            HidKeyCode::CrSel => 0xa3,
            HidKeyCode::ExSel => 0xa4,
            HidKeyCode::LeftCtrl => 0xe0,
            HidKeyCode::LeftShift => 0xe1,
            HidKeyCode::LeftAlt => 0xe2,
            HidKeyCode::LeftMeta => 0xe3,
            HidKeyCode::RightCtrl => 0xe4,
            HidKeyCode::RightShift => 0xe5,
            HidKeyCode::RightAlt => 0xe6,
            HidKeyCode::RightMeta => 0xe7,
            HidKeyCode::MediaPlayPause => 0xe8,
            HidKeyCode::MediaStopCD => 0xe9,
            HidKeyCode::MediaPreviousSong => 0xea,
            HidKeyCode::MediaNextSong => 0xeb,
            HidKeyCode::MediaEjectCD => 0xec,
            HidKeyCode::MediaVolumeUp => 0xed,
            HidKeyCode::MediaVolumeDown => 0xee,
            HidKeyCode::MediaMute => 0xef,
            HidKeyCode::MediaWWW => 0xf0,
            HidKeyCode::MediaBack => 0xf1,
            HidKeyCode::MediaForward => 0xf2,
            HidKeyCode::MediaStop => 0xf3,
            HidKeyCode::MediaFind => 0xf4,
            HidKeyCode::MediaScrollUp => 0xf5,
            HidKeyCode::MediaScrollDown => 0xf6,
            HidKeyCode::MediaEdit => 0xf7,
            HidKeyCode::MediaSleep => 0xf8,
            HidKeyCode::MediaCoffee => 0xf9,
            HidKeyCode::MediaRefresh => 0xfa,
            HidKeyCode::MediaCalc => 0xfb,
        }
    }

    /// The value with the given numeric code; codes without a value map to `NoEvent`.
    pub open spec fn spec_from_u8(code: u8) -> HidKeyCode {
        match code {
            0x00 => HidKeyCode::NoEvent,
            0x01 => HidKeyCode::ErrorRollOver,
            0x02 => HidKeyCode::PostFail,
            0x03 => HidKeyCode::ErrorUndefined,
            0x04 => HidKeyCode::KeyA,
            0x05 => HidKeyCode::KeyB,
            0x06 => HidKeyCode::KeyC,
            0x07 => HidKeyCode::KeyD,
            0x08 => HidKeyCode::KeyE,
            0x09 => HidKeyCode::KeyF,
            0x0a => HidKeyCode::KeyG,
            0x0b => HidKeyCode::KeyH,
            0x0c => HidKeyCode::KeyI,
            0x0d => HidKeyCode::KeyJ,
            0x0e => HidKeyCode::KeyK,
            0x0f => HidKeyCode::KeyL,
            0x10 => HidKeyCode::KeyM,
            0x11 => HidKeyCode::KeyN,
            0x12 => HidKeyCode::KeyO,
            0x13 => HidKeyCode::KeyP,
            0x14 => HidKeyCode::KeyQ,
            0x15 => HidKeyCode::KeyR,
            0x16 => HidKeyCode::KeyS,
            0x17 => HidKeyCode::KeyT,
            0x18 => HidKeyCode::KeyU,
            0x19 => HidKeyCode::KeyV,
            0x1a => HidKeyCode::KeyW,
            0x1b => HidKeyCode::KeyX,
            0x1c => HidKeyCode::KeyY,
            0x1d => HidKeyCode::KeyZ,
            0x1e => HidKeyCode::Key1,
            0x1f => HidKeyCode::Key2,
            0x20 => HidKeyCode::Key3,
            0x21 => HidKeyCode::Key4,
            0x22 => HidKeyCode::Key5,
            0x23 => HidKeyCode::Key6,
            0x24 => HidKeyCode::Key7,
            0x25 => HidKeyCode::Key8,
            0x26 => HidKeyCode::Key9,
            0x27 => HidKeyCode::Key0,
            0x28 => HidKeyCode::Enter,
            0x29 => HidKeyCode::Escape,
            0x2a => HidKeyCode::Backspace,
            0x2b => HidKeyCode::Tab,
            0x2c => HidKeyCode::Space,
            0x2d => HidKeyCode::Minus,
            0x2e => HidKeyCode::Equal,
            0x2f => HidKeyCode::LeftBrace,
            0x30 => HidKeyCode::RightBrace,
            0x31 => HidKeyCode::Backslash,
            0x32 => HidKeyCode::HashTilde,
            0x33 => HidKeyCode::Semicolon,
            0x34 => HidKeyCode::Apostrophe,
            0x35 => HidKeyCode::Grave,
            0x36 => HidKeyCode::Comma,
            0x37 => HidKeyCode::Dot,
            0x38 => HidKeyCode::Slash,
            0x39 => HidKeyCode::Capslock,
            0x3a => HidKeyCode::F1,
            0x3b => HidKeyCode::F2,
            0x3c => HidKeyCode::F3,
            0x3d => HidKeyCode::F4,
            0x3e => HidKeyCode::F5,
            0x3f => HidKeyCode::F6,
            0x40 => HidKeyCode::F7,
            0x41 => HidKeyCode::F8,
            0x42 => HidKeyCode::F9,
            0x43 => HidKeyCode::F10,
            0x44 => HidKeyCode::F11,
            0x45 => HidKeyCode::F12,
            0x46 => HidKeyCode::PrintScreen,
            0x47 => HidKeyCode::ScrollLock,
            0x48 => HidKeyCode::Pause,
            0x49 => HidKeyCode::Insert,
            0x4a => HidKeyCode::Home,
            0x4b => HidKeyCode::PageUp,
            0x4c => HidKeyCode::Delete,
            0x4d => HidKeyCode::End,
            0x4e => HidKeyCode::PageDown,
            0x4f => HidKeyCode::Right,
            0x50 => HidKeyCode::Left,
            0x51 => HidKeyCode::Down,
            0x52 => HidKeyCode::Up,
            0x53 => HidKeyCode::NumLock,
            0x54 => HidKeyCode::KpSlash,
            0x55 => HidKeyCode::KpAsterisk,
            0x56 => HidKeyCode::KpMinus,
            0x57 => HidKeyCode::KpPlus,
            0x58 => HidKeyCode::KpEnter,
            0x59 => HidKeyCode::Kp1,
            0x5a => HidKeyCode::Kp2,
            0x5b => HidKeyCode::Kp3,
            0x5c => HidKeyCode::Kp4,
            0x5d => HidKeyCode::Kp5,
            0x5e => HidKeyCode::Kp6,
            0x5f => HidKeyCode::Kp7,
            0x60 => HidKeyCode::Kp8,
            0x61 => HidKeyCode::Kp9,
            0x62 => HidKeyCode::Kp0,
            0x63 => HidKeyCode::KpDot,
            0x64 => HidKeyCode::Key102ND,
            0x65 => HidKeyCode::Compose,
            0x66 => HidKeyCode::Power,
            0x67 => HidKeyCode::KpEqual,
            0x68 => HidKeyCode::F13,
            0x69 => HidKeyCode::F14,
            0x6a => HidKeyCode::F15,
            0x6b => HidKeyCode::F16,
            0x6c => HidKeyCode::F17,
            0x6d => HidKeyCode::F18,
            0x6e => HidKeyCode::F19,
            0x6f => HidKeyCode::F20,
            0x70 => HidKeyCode::F21,
            0x71 => HidKeyCode::F22,
            0x72 => HidKeyCode::F23,
            0x73 => HidKeyCode::F24,
            0x74 => HidKeyCode::Execute,
            0x75 => HidKeyCode::Help,
            0x76 => HidKeyCode::Menu,
            0x77 => HidKeyCode::Select,
            0x78 => HidKeyCode::Stop,
            0x79 => HidKeyCode::Again,
            0x7a => HidKeyCode::Undo,
            0x7b => HidKeyCode::Cut,
            0x7c => HidKeyCode::Copy,
            0x7d => HidKeyCode::Paste,
            0x7e => HidKeyCode::Find,
            0x7f => HidKeyCode::Mute,
            0x80 => HidKeyCode::VolumeUp,
            0x81 => HidKeyCode::VolumeDown,
            0x82 => HidKeyCode::LockingCapsLock,
            0x83 => HidKeyCode::LockingNumLock,
            0x84 => HidKeyCode::LockingScrollLock,
            0x85 => HidKeyCode::KpComma,
            0x86 => HidKeyCode::KpEqualSign,
            0x87 => HidKeyCode::International1,
            0x88 => HidKeyCode::International2,
            0x89 => HidKeyCode::International3,
            0x8a => HidKeyCode::International4,
            0x8b => HidKeyCode::International5,
            0x8c => HidKeyCode::International6,
            0x8d => HidKeyCode::International7,
            0x8e => HidKeyCode::International8,
            0x8f => HidKeyCode::International9,
            0x90 => HidKeyCode::Language1,
            0x91 => HidKeyCode::Language2,
            0x92 => HidKeyCode::Language3,
            0x93 => HidKeyCode::Language4,
            0x94 => HidKeyCode::Language5,
            0x95 => HidKeyCode::Language6,
            0x96 => HidKeyCode::Language7,
            0x97 => HidKeyCode::Language8,
            0x98 => HidKeyCode::Language9,
            0x99 => HidKeyCode::AltErase,
            0x9a => HidKeyCode::SysReq,
            0x9b => HidKeyCode::Cancel,
            0x9c => HidKeyCode::Clear,
            0x9d => HidKeyCode::Prior,
            0x9e => HidKeyCode::Return,
            0x9f => HidKeyCode::Separator,
            0xa0 => HidKeyCode::Out,
            0xa1 => HidKeyCode::Oper,
            0xa2 => HidKeyCode::ClearAgain,
            0xa3 => HidKeyCode::CrSel,
            0xa4 => HidKeyCode::ExSel,
            0xe0 => HidKeyCode::LeftCtrl,
            0xe1 => HidKeyCode::LeftShift,
            0xe2 => HidKeyCode::LeftAlt,
            0xe3 => HidKeyCode::LeftMeta,
            0xe4 => HidKeyCode::RightCtrl,
            0xe5 => HidKeyCode::RightShift,
            0xe6 => HidKeyCode::RightAlt,
            0xe7 => HidKeyCode::RightMeta,
            0xe8 => HidKeyCode::MediaPlayPause,
            0xe9 => HidKeyCode::MediaStopCD,
            0xea => HidKeyCode::MediaPreviousSong,
            0xeb => HidKeyCode::MediaNextSong,
            0xec => HidKeyCode::MediaEjectCD,
            0xed => HidKeyCode::MediaVolumeUp,
            0xee => HidKeyCode::MediaVolumeDown,
            0xef => HidKeyCode::MediaMute,
            0xf0 => HidKeyCode::MediaWWW,
            0xf1 => HidKeyCode::MediaBack,
            0xf2 => HidKeyCode::MediaForward,
            0xf3 => HidKeyCode::MediaStop,
            0xf4 => HidKeyCode::MediaFind,
            0xf5 => HidKeyCode::MediaScrollUp,
            0xf6 => HidKeyCode::MediaScrollDown,
            0xf7 => HidKeyCode::MediaEdit,
            0xf8 => HidKeyCode::MediaSleep,
            0xf9 => HidKeyCode::MediaCoffee,
            0xfa => HidKeyCode::MediaRefresh,
            0xfb => HidKeyCode::MediaCalc,
            _ => HidKeyCode::NoEvent,
        }
    }

    /// Returns the numeric code of this value.
    pub fn to_u8(self) -> (code: u8)
        ensures
            code == self.spec_to_u8(),
    {
        match self {
            HidKeyCode::NoEvent => 0x00,
            HidKeyCode::ErrorRollOver => 0x01,
            HidKeyCode::PostFail => 0x02,
            HidKeyCode::ErrorUndefined => 0x03,
            HidKeyCode::KeyA => 0x04,
            HidKeyCode::KeyB => 0x05,
            HidKeyCode::KeyC => 0x06,
            HidKeyCode::KeyD => 0x07,
            HidKeyCode::KeyE => 0x08,
            HidKeyCode::KeyF => 0x09,
            HidKeyCode::KeyG => 0x0a,
            HidKeyCode::KeyH => 0x0b,
            HidKeyCode::KeyI => 0x0c,
            HidKeyCode::KeyJ => 0x0d,
            HidKeyCode::KeyK => 0x0e,
            HidKeyCode::KeyL => 0x0f,
            HidKeyCode::KeyM => 0x10,
            HidKeyCode::KeyN => 0x11,
            HidKeyCode::KeyO => 0x12,
            HidKeyCode::KeyP => 0x13,
            HidKeyCode::KeyQ => 0x14,
            HidKeyCode::KeyR => 0x15,
            HidKeyCode::KeyS => 0x16,
            HidKeyCode::KeyT => 0x17,
            HidKeyCode::KeyU => 0x18,
            HidKeyCode::KeyV => 0x19,
            HidKeyCode::KeyW => 0x1a,
            HidKeyCode::KeyX => 0x1b,
            HidKeyCode::KeyY => 0x1c,
            HidKeyCode::KeyZ => 0x1d,
            HidKeyCode::Key1 => 0x1e,
            HidKeyCode::Key2 => 0x1f,
            HidKeyCode::Key3 => 0x20,
            HidKeyCode::Key4 => 0x21,
            HidKeyCode::Key5 => 0x22,
            HidKeyCode::Key6 => 0x23,
            HidKeyCode::Key7 => 0x24,
            HidKeyCode::Key8 => 0x25,
            HidKeyCode::Key9 => 0x26,
            HidKeyCode::Key0 => 0x27,
            HidKeyCode::Enter => 0x28,
            HidKeyCode::Escape => 0x29,
            HidKeyCode::Backspace => 0x2a,
            HidKeyCode::Tab => 0x2b,
            HidKeyCode::Space => 0x2c,
            HidKeyCode::Minus => 0x2d,
            HidKeyCode::Equal => 0x2e,
            HidKeyCode::LeftBrace => 0x2f,
            HidKeyCode::RightBrace => 0x30,
            HidKeyCode::Backslash => 0x31,
            HidKeyCode::HashTilde => 0x32,
            HidKeyCode::Semicolon => 0x33,
            HidKeyCode::Apostrophe => 0x34,
            HidKeyCode::Grave => 0x35,
            HidKeyCode::Comma => 0x36,
            HidKeyCode::Dot => 0x37,
            HidKeyCode::Slash => 0x38,
            HidKeyCode::Capslock => 0x39,
            HidKeyCode::F1 => 0x3a,
            HidKeyCode::F2 => 0x3b,
            HidKeyCode::F3 => 0x3c,
            HidKeyCode::F4 => 0x3d,
            HidKeyCode::F5 => 0x3e,
            HidKeyCode::F6 => 0x3f,
            HidKeyCode::F7 => 0x40,
            HidKeyCode::F8 => 0x41,
            HidKeyCode::F9 => 0x42,
            HidKeyCode::F10 => 0x43,
            HidKeyCode::F11 => 0x44,
            HidKeyCode::F12 => 0x45,
            HidKeyCode::PrintScreen => 0x46,
            HidKeyCode::ScrollLock => 0x47,
            HidKeyCode::Pause => 0x48,
            HidKeyCode::Insert => 0x49,
            HidKeyCode::Home => 0x4a,
            HidKeyCode::PageUp => 0x4b,
            HidKeyCode::Delete => 0x4c,
            HidKeyCode::End => 0x4d,
            HidKeyCode::PageDown => 0x4e,
            HidKeyCode::Right => 0x4f,
            HidKeyCode::Left => 0x50,
            HidKeyCode::Down => 0x51,
            HidKeyCode::Up => 0x52,
            HidKeyCode::NumLock => 0x53,
            HidKeyCode::KpSlash => 0x54,
            HidKeyCode::KpAsterisk => 0x55,
            HidKeyCode::KpMinus => 0x56,
            HidKeyCode::KpPlus => 0x57,
            HidKeyCode::KpEnter => 0x58,
            HidKeyCode::Kp1 => 0x59,
            HidKeyCode::Kp2 => 0x5a,
            HidKeyCode::Kp3 => 0x5b,
            HidKeyCode::Kp4 => 0x5c,
            HidKeyCode::Kp5 => 0x5d,
            HidKeyCode::Kp6 => 0x5e,
            HidKeyCode::Kp7 => 0x5f,
            HidKeyCode::Kp8 => 0x60,
            HidKeyCode::Kp9 => 0x61,
            HidKeyCode::Kp0 => 0x62,
            HidKeyCode::KpDot => 0x63,
            HidKeyCode::Key102ND => 0x64,
            HidKeyCode::Compose => 0x65,
            HidKeyCode::Power => 0x66,
            HidKeyCode::KpEqual => 0x67,
            HidKeyCode::F13 => 0x68,
            HidKeyCode::F14 => 0x69,
            HidKeyCode::F15 => 0x6a,
            HidKeyCode::F16 => 0x6b,
            HidKeyCode::F17 => 0x6c,
            HidKeyCode::F18 => 0x6d,
            HidKeyCode::F19 => 0x6e,
            HidKeyCode::F20 => 0x6f,
            HidKeyCode::F21 => 0x70,
            HidKeyCode::F22 => 0x71,
            HidKeyCode::F23 => 0x72,
            HidKeyCode::F24 => 0x73,
            HidKeyCode::Execute => 0x74,
            HidKeyCode::Help => 0x75,
            HidKeyCode::Menu => 0x76,
            HidKeyCode::Select => 0x77,
            HidKeyCode::Stop => 0x78,
            HidKeyCode::Again => 0x79,
            HidKeyCode::Undo => 0x7a,
            HidKeyCode::Cut => 0x7b,
            HidKeyCode::Copy => 0x7c,
            HidKeyCode::Paste => 0x7d,
            HidKeyCode::Find => 0x7e,
            HidKeyCode::Mute => 0x7f,
            HidKeyCode::VolumeUp => 0x80,
            HidKeyCode::VolumeDown => 0x81,
            HidKeyCode::LockingCapsLock => 0x82,
            HidKeyCode::LockingNumLock => 0x83,
            HidKeyCode::LockingScrollLock => 0x84,
            HidKeyCode::KpComma => 0x85,
            HidKeyCode::KpEqualSign => 0x86,
            HidKeyCode::International1 => 0x87,
            HidKeyCode::International2 => 0x88,
            HidKeyCode::International3 => 0x89,
            HidKeyCode::International4 => 0x8a,
            HidKeyCode::International5 => 0x8b,
            HidKeyCode::International6 => 0x8c,
            HidKeyCode::International7 => 0x8d,
            HidKeyCode::International8 => 0x8e,
            HidKeyCode::International9 => 0x8f,
            HidKeyCode::Language1 => 0x90,
            HidKeyCode::Language2 => 0x91,
            HidKeyCode::Language3 => 0x92,
            HidKeyCode::Language4 => 0x93,
            HidKeyCode::Language5 => 0x94,
            HidKeyCode::Language6 => 0x95,
            HidKeyCode::Language7 => 0x96,
            HidKeyCode::Language8 => 0x97,
            HidKeyCode::Language9 => 0x98,
            HidKeyCode::AltErase => 0x99,
            HidKeyCode::SysReq => 0x9a,
            HidKeyCode::Cancel => 0x9b,
            HidKeyCode::Clear => 0x9c,
            HidKeyCode::Prior => 0x9d,
            HidKeyCode::Return => 0x9e,
            HidKeyCode::Separator => 0x9f,
            HidKeyCode::Out => 0xa0,
            HidKeyCode::Oper => 0xa1,
            HidKeyCode::ClearAgain => 0xa2,
            HidKeyCode::CrSel => 0xa3,
            HidKeyCode::ExSel => 0xa4,
            HidKeyCode::LeftCtrl => 0xe0,
            HidKeyCode::LeftShift => 0xe1,
            HidKeyCode::LeftAlt => 0xe2,
            HidKeyCode::LeftMeta => 0xe3,
            HidKeyCode::RightCtrl => 0xe4,
            HidKeyCode::RightShift => 0xe5,
            HidKeyCode::RightAlt => 0xe6,
            HidKeyCode::RightMeta => 0xe7,
            HidKeyCode::MediaPlayPause => 0xe8,
            HidKeyCode::MediaStopCD => 0xe9,
            HidKeyCode::MediaPreviousSong => 0xea,
            HidKeyCode::MediaNextSong => 0xeb,
            HidKeyCode::MediaEjectCD => 0xec,
            HidKeyCode::MediaVolumeUp => 0xed,
            HidKeyCode::MediaVolumeDown => 0xee,
            HidKeyCode::MediaMute => 0xef,
            HidKeyCode::MediaWWW => 0xf0,
            HidKeyCode::MediaBack => 0xf1,
            HidKeyCode::MediaForward => 0xf2,
            HidKeyCode::MediaStop => 0xf3,
            HidKeyCode::MediaFind => 0xf4,
            HidKeyCode::MediaScrollUp => 0xf5,
            HidKeyCode::MediaScrollDown => 0xf6,
            HidKeyCode::MediaEdit => 0xf7,
            HidKeyCode::MediaSleep => 0xf8,
            HidKeyCode::MediaCoffee => 0xf9,
            HidKeyCode::MediaRefresh => 0xfa,
            HidKeyCode::MediaCalc => 0xfb,
        }
    }

    /// Returns the value with the given numeric code; codes without a value give `NoEvent`.
    pub fn from_u8(code: u8) -> (r: HidKeyCode)
        ensures
            r == Self::spec_from_u8(code),
    {
        match code {
            0x00 => HidKeyCode::NoEvent,
            0x01 => HidKeyCode::ErrorRollOver,
            0x02 => HidKeyCode::PostFail,
            0x03 => HidKeyCode::ErrorUndefined,
            0x04 => HidKeyCode::KeyA,
            0x05 => HidKeyCode::KeyB,
            0x06 => HidKeyCode::KeyC,
            0x07 => HidKeyCode::KeyD,
            0x08 => HidKeyCode::KeyE,
            0x09 => HidKeyCode::KeyF,
            0x0a => HidKeyCode::KeyG,
            0x0b => HidKeyCode::KeyH,
            0x0c => HidKeyCode::KeyI,
            0x0d => HidKeyCode::KeyJ,
            0x0e => HidKeyCode::KeyK,
            0x0f => HidKeyCode::KeyL,
            0x10 => HidKeyCode::KeyM,
            0x11 => HidKeyCode::KeyN,
            0x12 => HidKeyCode::KeyO,
            0x13 => HidKeyCode::KeyP,
            0x14 => HidKeyCode::KeyQ,
            0x15 => HidKeyCode::KeyR,
            0x16 => HidKeyCode::KeyS,
            0x17 => HidKeyCode::KeyT,
            0x18 => HidKeyCode::KeyU,
            0x19 => HidKeyCode::KeyV,
            0x1a => HidKeyCode::KeyW,
            0x1b => HidKeyCode::KeyX,
            0x1c => HidKeyCode::KeyY,
            0x1d => HidKeyCode::KeyZ,
            0x1e => HidKeyCode::Key1,
            0x1f => HidKeyCode::Key2,
            0x20 => HidKeyCode::Key3,
            0x21 => HidKeyCode::Key4,
            0x22 => HidKeyCode::Key5,
            0x23 => HidKeyCode::Key6,
            0x24 => HidKeyCode::Key7,
            0x25 => HidKeyCode::Key8,
            0x26 => HidKeyCode::Key9,
            0x27 => HidKeyCode::Key0,
            0x28 => HidKeyCode::Enter,
            0x29 => HidKeyCode::Escape,
            0x2a => HidKeyCode::Backspace,
            0x2b => HidKeyCode::Tab,
            0x2c => HidKeyCode::Space,
            0x2d => HidKeyCode::Minus,
            0x2e => HidKeyCode::Equal,
            0x2f => HidKeyCode::LeftBrace,
            0x30 => HidKeyCode::RightBrace,
            0x31 => HidKeyCode::Backslash,
            0x32 => HidKeyCode::HashTilde,
            0x33 => HidKeyCode::Semicolon,
            0x34 => HidKeyCode::Apostrophe,
            0x35 => HidKeyCode::Grave,
            0x36 => HidKeyCode::Comma,
            0x37 => HidKeyCode::Dot,
            0x38 => HidKeyCode::Slash,
            0x39 => HidKeyCode::Capslock,
            0x3a => HidKeyCode::F1,
            0x3b => HidKeyCode::F2,
            0x3c => HidKeyCode::F3,
            0x3d => HidKeyCode::F4,
            0x3e => HidKeyCode::F5,
            0x3f => HidKeyCode::F6,
            0x40 => HidKeyCode::F7,
            0x41 => HidKeyCode::F8,
            0x42 => HidKeyCode::F9,
            0x43 => HidKeyCode::F10,
            0x44 => HidKeyCode::F11,
            0x45 => HidKeyCode::F12,
            0x46 => HidKeyCode::PrintScreen,
            0x47 => HidKeyCode::ScrollLock,
            0x48 => HidKeyCode::Pause,
            0x49 => HidKeyCode::Insert,
            0x4a => HidKeyCode::Home,
            0x4b => HidKeyCode::PageUp,
            0x4c => HidKeyCode::Delete,
            0x4d => HidKeyCode::End,
            0x4e => HidKeyCode::PageDown,
            0x4f => HidKeyCode::Right,
            0x50 => HidKeyCode::Left,
            0x51 => HidKeyCode::Down,
            0x52 => HidKeyCode::Up,
            0x53 => HidKeyCode::NumLock,
            0x54 => HidKeyCode::KpSlash,
            0x55 => HidKeyCode::KpAsterisk,
            0x56 => HidKeyCode::KpMinus,
            0x57 => HidKeyCode::KpPlus,
            0x58 => HidKeyCode::KpEnter,
            0x59 => HidKeyCode::Kp1,
            0x5a => HidKeyCode::Kp2,
            0x5b => HidKeyCode::Kp3,
            0x5c => HidKeyCode::Kp4,
            0x5d => HidKeyCode::Kp5,
            0x5e => HidKeyCode::Kp6,
            0x5f => HidKeyCode::Kp7,
            0x60 => HidKeyCode::Kp8,
            0x61 => HidKeyCode::Kp9,
            0x62 => HidKeyCode::Kp0,
            0x63 => HidKeyCode::KpDot,
            0x64 => HidKeyCode::Key102ND,
            0x65 => HidKeyCode::Compose,
            0x66 => HidKeyCode::Power,
            0x67 => HidKeyCode::KpEqual,
            0x68 => HidKeyCode::F13,
            0x69 => HidKeyCode::F14,
            0x6a => HidKeyCode::F15,
            0x6b => HidKeyCode::F16,
            0x6c => HidKeyCode::F17,
            0x6d => HidKeyCode::F18,
            0x6e => HidKeyCode::F19,
            0x6f => HidKeyCode::F20,
            0x70 => HidKeyCode::F21,
            0x71 => HidKeyCode::F22,
            0x72 => HidKeyCode::F23,
            0x73 => HidKeyCode::F24,
            0x74 => HidKeyCode::Execute,
            0x75 => HidKeyCode::Help,
            0x76 => HidKeyCode::Menu,
            0x77 => HidKeyCode::Select,
            0x78 => HidKeyCode::Stop,
            0x79 => HidKeyCode::Again,
            0x7a => HidKeyCode::Undo,
            0x7b => HidKeyCode::Cut,
            0x7c => HidKeyCode::Copy,
            0x7d => HidKeyCode::Paste,
            0x7e => HidKeyCode::Find,
            0x7f => HidKeyCode::Mute,
            0x80 => HidKeyCode::VolumeUp,
            0x81 => HidKeyCode::VolumeDown,
            0x82 => HidKeyCode::LockingCapsLock,
            0x83 => HidKeyCode::LockingNumLock,
            0x84 => HidKeyCode::LockingScrollLock,
            0x85 => HidKeyCode::KpComma,
            0x86 => HidKeyCode::KpEqualSign,
            0x87 => HidKeyCode::International1,
            0x88 => HidKeyCode::International2,
            0x89 => HidKeyCode::International3,
            0x8a => HidKeyCode::International4,
            0x8b => HidKeyCode::International5,
            0x8c => HidKeyCode::International6,
            0x8d => HidKeyCode::International7,
            0x8e => HidKeyCode::International8,
            0x8f => HidKeyCode::International9,
            0x90 => HidKeyCode::Language1,
            0x91 => HidKeyCode::Language2,
            0x92 => HidKeyCode::Language3,
            0x93 => HidKeyCode::Language4,
            0x94 => HidKeyCode::Language5,
            0x95 => HidKeyCode::Language6,
            0x96 => HidKeyCode::Language7,
            0x97 => HidKeyCode::Language8,
            0x98 => HidKeyCode::Language9,
            0x99 => HidKeyCode::AltErase,
            0x9a => HidKeyCode::SysReq,
            0x9b => HidKeyCode::Cancel,
            0x9c => HidKeyCode::Clear,
            0x9d => HidKeyCode::Prior,
            0x9e => HidKeyCode::Return,
            0x9f => HidKeyCode::Separator,
            0xa0 => HidKeyCode::Out,
            0xa1 => HidKeyCode::Oper,
            0xa2 => HidKeyCode::ClearAgain,
            0xa3 => HidKeyCode::CrSel,
            0xa4 => HidKeyCode::ExSel,
            0xe0 => HidKeyCode::LeftCtrl,
            0xe1 => HidKeyCode::LeftShift,
            0xe2 => HidKeyCode::LeftAlt,
            0xe3 => HidKeyCode::LeftMeta,
            0xe4 => HidKeyCode::RightCtrl,
            0xe5 => HidKeyCode::RightShift,
            0xe6 => HidKeyCode::RightAlt,
            0xe7 => HidKeyCode::RightMeta,
            0xe8 => HidKeyCode::MediaPlayPause,
            0xe9 => HidKeyCode::MediaStopCD,
            0xea => HidKeyCode::MediaPreviousSong,
            0xeb => HidKeyCode::MediaNextSong,
            0xec => HidKeyCode::MediaEjectCD,
            0xed => HidKeyCode::MediaVolumeUp,
            0xee => HidKeyCode::MediaVolumeDown,
            0xef => HidKeyCode::MediaMute,
            0xf0 => HidKeyCode::MediaWWW,
            0xf1 => HidKeyCode::MediaBack,
            0xf2 => HidKeyCode::MediaForward,
            0xf3 => HidKeyCode::MediaStop,
            0xf4 => HidKeyCode::MediaFind,
            0xf5 => HidKeyCode::MediaScrollUp,
            0xf6 => HidKeyCode::MediaScrollDown,
            0xf7 => HidKeyCode::MediaEdit,
            0xf8 => HidKeyCode::MediaSleep,
            0xf9 => HidKeyCode::MediaCoffee,
            0xfa => HidKeyCode::MediaRefresh,
            0xfb => HidKeyCode::MediaCalc,
            _ => HidKeyCode::NoEvent,
        }
    }

    /// Reading back the code of a value gives the value.
    pub proof fn lemma_code_roundtrip(self)
        ensures
            Self::spec_from_u8(self.spec_to_u8()) == self,
    {
    }
}

/// A mouse button as the protocol names it.
#[derive(Debug, Clone, Copy, PartialEq, Eq, Structural, Hash)]
pub enum HidButtonCode {
    NoButton,
    LButton,
    RButton,
    MButton,
    Button4,
    Button5,
}

impl HidButtonCode {
    /// The numeric code of this value.
    pub open spec fn spec_to_u8(self) -> u8 {
        match self {
            HidButtonCode::NoButton => 0x00,
            HidButtonCode::LButton => 0x01,
            HidButtonCode::RButton => 0x02,
            HidButtonCode::MButton => 0x03,
            HidButtonCode::Button4 => 0x04,
            HidButtonCode::Button5 => 0x05,
        }
    }

    /// The value with the given numeric code; codes without a value map to `NoButton`.
    pub open spec fn spec_from_u8(code: u8) -> HidButtonCode {
        match code {
            0x00 => HidButtonCode::NoButton,
            0x01 => HidButtonCode::LButton,
            0x02 => HidButtonCode::RButton,
            0x03 => HidButtonCode::MButton,
            0x04 => HidButtonCode::Button4,
            0x05 => HidButtonCode::Button5,
            _ => HidButtonCode::NoButton,
        }
    }

    /// Returns the numeric code of this value.
    pub fn to_u8(self) -> (code: u8)
        ensures
            code == self.spec_to_u8(),
    {
        match self {
            HidButtonCode::NoButton => 0x00,
            HidButtonCode::LButton => 0x01,
            HidButtonCode::RButton => 0x02,
            HidButtonCode::MButton => 0x03,
            HidButtonCode::Button4 => 0x04,
            HidButtonCode::Button5 => 0x05,
        }
    }

    /// Returns the value with the given numeric code; codes without a value give `NoButton`.
    pub fn from_u8(code: u8) -> (r: HidButtonCode)
        ensures
            r == Self::spec_from_u8(code),
    {
        match code {
            0x00 => HidButtonCode::NoButton,
            0x01 => HidButtonCode::LButton,
            0x02 => HidButtonCode::RButton,
            0x03 => HidButtonCode::MButton,
            0x04 => HidButtonCode::Button4,
            0x05 => HidButtonCode::Button5,
            _ => HidButtonCode::NoButton,
        }
    }

    /// Reading back the code of a value gives the value.
    pub proof fn lemma_code_roundtrip(self)
        ensures
            Self::spec_from_u8(self.spec_to_u8()) == self,
    {
    }
}

/// A media or application key of the consumer control device.
#[derive(Debug, Clone, Copy, PartialEq, Eq, Structural, Hash)]
pub enum ConsumerDeviceCode {
    NoKey,
    NextTrack,
    PreviousTrack,
    Stop,
    PlayPause,
    Mute,
    VolumeUp,
    VolumeDown,
    BrowserHome,
    MyComputer,
    Calculator,
    BrowserFavorites,
    BrowserSearch,
    BrowserStop,
    BrowserBack,
    MediaSelect,
    Mail,
}

impl ConsumerDeviceCode {
    /// The numeric code of this value.
    pub open spec fn spec_to_u8(self) -> u8 {
        match self {
            ConsumerDeviceCode::NoKey => 0x00,
            ConsumerDeviceCode::NextTrack => 0x01,
            ConsumerDeviceCode::PreviousTrack => 0x02,
            ConsumerDeviceCode::Stop => 0x03,
            ConsumerDeviceCode::PlayPause => 0x04,
            ConsumerDeviceCode::Mute => 0x05,
            ConsumerDeviceCode::VolumeUp => 0x06,
            ConsumerDeviceCode::VolumeDown => 0x07,
            ConsumerDeviceCode::BrowserHome => 0x08,
            ConsumerDeviceCode::MyComputer => 0x09,
            ConsumerDeviceCode::Calculator => 0x0a,
            ConsumerDeviceCode::BrowserFavorites => 0x0b,
            ConsumerDeviceCode::BrowserSearch => 0x0c,
            ConsumerDeviceCode::BrowserStop => 0x0d,
            ConsumerDeviceCode::BrowserBack => 0x0e,
            ConsumerDeviceCode::MediaSelect => 0x0f,
            ConsumerDeviceCode::Mail => 0x10,
        }
    }

    /// The value with the given numeric code; codes without a value map to `NoKey`.
    pub open spec fn spec_from_u8(code: u8) -> ConsumerDeviceCode {
        match code {
            0x00 => ConsumerDeviceCode::NoKey,
            0x01 => ConsumerDeviceCode::NextTrack,
            0x02 => ConsumerDeviceCode::PreviousTrack,
            0x03 => ConsumerDeviceCode::Stop,
            0x04 => ConsumerDeviceCode::PlayPause,
            0x05 => ConsumerDeviceCode::Mute,
            0x06 => ConsumerDeviceCode::VolumeUp,
            0x07 => ConsumerDeviceCode::VolumeDown,
            0x08 => ConsumerDeviceCode::BrowserHome,
            0x09 => ConsumerDeviceCode::MyComputer,
            0x0a => ConsumerDeviceCode::Calculator,
            0x0b => ConsumerDeviceCode::BrowserFavorites,
            0x0c => ConsumerDeviceCode::BrowserSearch,
            0x0d => ConsumerDeviceCode::BrowserStop,
            0x0e => ConsumerDeviceCode::BrowserBack,
            0x0f => ConsumerDeviceCode::MediaSelect,
            0x10 => ConsumerDeviceCode::Mail,
            _ => ConsumerDeviceCode::NoKey,
        }
    }

    /// Returns the numeric code of this value.
    pub fn to_u8(self) -> (code: u8)
        ensures
            code == self.spec_to_u8(),
    {
        match self {
            ConsumerDeviceCode::NoKey => 0x00,
            ConsumerDeviceCode::NextTrack => 0x01,
            ConsumerDeviceCode::PreviousTrack => 0x02,
            ConsumerDeviceCode::Stop => 0x03,
            ConsumerDeviceCode::PlayPause => 0x04,
            ConsumerDeviceCode::Mute => 0x05,
            ConsumerDeviceCode::VolumeUp => 0x06,
            ConsumerDeviceCode::VolumeDown => 0x07,
            ConsumerDeviceCode::BrowserHome => 0x08,
            ConsumerDeviceCode::MyComputer => 0x09,
            ConsumerDeviceCode::Calculator => 0x0a,
            ConsumerDeviceCode::BrowserFavorites => 0x0b,
            ConsumerDeviceCode::BrowserSearch => 0x0c,
            ConsumerDeviceCode::BrowserStop => 0x0d,
            ConsumerDeviceCode::BrowserBack => 0x0e,
            ConsumerDeviceCode::MediaSelect => 0x0f,
            ConsumerDeviceCode::Mail => 0x10,
        }
    }

    /// Returns the value with the given numeric code; codes without a value give `NoKey`.
    pub fn from_u8(code: u8) -> (r: ConsumerDeviceCode)
        ensures
            r == Self::spec_from_u8(code),
    {
        match code {
            0x00 => ConsumerDeviceCode::NoKey,
            0x01 => ConsumerDeviceCode::NextTrack,
            0x02 => ConsumerDeviceCode::PreviousTrack,
            0x03 => ConsumerDeviceCode::Stop,
            0x04 => ConsumerDeviceCode::PlayPause,
            0x05 => ConsumerDeviceCode::Mute,
            0x06 => ConsumerDeviceCode::VolumeUp,
            0x07 => ConsumerDeviceCode::VolumeDown,
            0x08 => ConsumerDeviceCode::BrowserHome,
            0x09 => ConsumerDeviceCode::MyComputer,
            0x0a => ConsumerDeviceCode::Calculator,
            0x0b => ConsumerDeviceCode::BrowserFavorites,
            0x0c => ConsumerDeviceCode::BrowserSearch,
            0x0d => ConsumerDeviceCode::BrowserStop,
            0x0e => ConsumerDeviceCode::BrowserBack,
            0x0f => ConsumerDeviceCode::MediaSelect,
            0x10 => ConsumerDeviceCode::Mail,
            _ => ConsumerDeviceCode::NoKey,
        }
    }

    /// Reading back the code of a value gives the value.
    pub proof fn lemma_code_roundtrip(self)
        ensures
            Self::spec_from_u8(self.spec_to_u8()) == self,
    {
    }
}

/// The kind of a message that the client queues for the server.
#[derive(Debug, Clone, Copy, PartialEq, Eq, Structural, Hash)]
pub enum MessageType {
    KeyPress,
    KeyRelease,
    MouseButtonPress,
    MouseButtonRelease,
    HorizontalScrolling,
    VerticalScrolling,
    Reset,
    ConsumerDevicePress,
    ConsumerDeviceRelease,
    Shutdown,
}

impl MessageType {
    /// The numeric code of this value.
    pub open spec fn spec_to_u8(self) -> u8 {
        match self {
            MessageType::KeyPress => 0x00,
            MessageType::KeyRelease => 0x01,
            MessageType::MouseButtonPress => 0x02,
            MessageType::MouseButtonRelease => 0x03,
            MessageType::HorizontalScrolling => 0x04,
            MessageType::VerticalScrolling => 0x05,
            MessageType::Reset => 0x06,
            MessageType::ConsumerDevicePress => 0x07,
            MessageType::ConsumerDeviceRelease => 0x08,
            MessageType::Shutdown => 0x09,
        }
    }

    /// The value with the given numeric code, if there is one.
    pub open spec fn spec_try_from_u8(code: u8) -> Option<MessageType> {
        match code {
            0x00 => Some(MessageType::KeyPress),
            0x01 => Some(MessageType::KeyRelease),
            0x02 => Some(MessageType::MouseButtonPress),
            0x03 => Some(MessageType::MouseButtonRelease),
            0x04 => Some(MessageType::HorizontalScrolling),
            0x05 => Some(MessageType::VerticalScrolling),
            0x06 => Some(MessageType::Reset),
            0x07 => Some(MessageType::ConsumerDevicePress),
            0x08 => Some(MessageType::ConsumerDeviceRelease),
            0x09 => Some(MessageType::Shutdown),
            _ => None,
        }
    }

    /// Returns the numeric code of this value.
    pub fn to_u8(self) -> (code: u8)
        ensures
            code == self.spec_to_u8(),
    {
        match self {
            MessageType::KeyPress => 0x00,
            MessageType::KeyRelease => 0x01,
            MessageType::MouseButtonPress => 0x02,
            MessageType::MouseButtonRelease => 0x03,
            MessageType::HorizontalScrolling => 0x04,
            MessageType::VerticalScrolling => 0x05,
            MessageType::Reset => 0x06,
            MessageType::ConsumerDevicePress => 0x07,
            MessageType::ConsumerDeviceRelease => 0x08,
            MessageType::Shutdown => 0x09,
        }
    }

    /// Returns the value with the given numeric code, or `None` where no value has it.
    pub fn try_from_u8(code: u8) -> (r: Option<MessageType>)
        ensures
            r == Self::spec_try_from_u8(code),
    {
        match code {
            0x00 => Some(MessageType::KeyPress),
            0x01 => Some(MessageType::KeyRelease),
            0x02 => Some(MessageType::MouseButtonPress),
            0x03 => Some(MessageType::MouseButtonRelease),
            0x04 => Some(MessageType::HorizontalScrolling),
            0x05 => Some(MessageType::VerticalScrolling),
            0x06 => Some(MessageType::Reset),
            0x07 => Some(MessageType::ConsumerDevicePress),
            0x08 => Some(MessageType::ConsumerDeviceRelease),
            0x09 => Some(MessageType::Shutdown),
            _ => None,
        }
    }

    /// Reading back the code of a value gives the value.
    pub proof fn lemma_code_roundtrip(self)
        ensures
            Self::spec_try_from_u8(self.spec_to_u8()) == Some(self),
    {
    }

    /// A code that names a value is that value's code.
    pub proof fn lemma_code_unique(code: u8)
        ensures
            Self::spec_try_from_u8(code) matches Some(k) ==> k.spec_to_u8() == code,
    {
    }
}

} // verus!
