use vstd::prelude::*;

verus! {

/// A Windows virtual key code.
#[derive(Debug, Clone, Copy, PartialEq, Eq, Structural, Hash)]
pub enum VirtualKey {
    LButton,
    RButton,
    Cancel,
    MButton,
    XButton1,
    XButton2,
    Back,
    Tab,
    Clear,
    Return,
    Shift,
    Control,
    Menu,
    Pause,
    Capital,
    KanaHangeulHangul,
    ImeOn,
    Junja,
    Final,
    HanjaKanji,
    ImeOff,
    Escape,
    Convert,
    NonConvert,
    Accept,
    ModeChange,
    Space,
    Prior,
    Next,
    End,
    Home,
    Left,
    Up,
    Right,
    Down,
    Select,
    Print,
    Execute,
    Snapshot,
    Insert,
    Delete,
    Help,
    Key0,
    Key1,
    Key2,
    Key3,
    Key4,
    Key5,
    Key6,
    Key7,
    Key8,
    Key9,
    KeyA,
    KeyB,
    KeyC,
    KeyD,
    KeyE,
    KeyF,
    KeyG,
    KeyH,
    KeyI,
    KeyJ,
    KeyK,
    KeyL,
    KeyM,
    KeyN,
    KeyO,
    KeyP,
    KeyQ,
    KeyR,
    KeyS,
    KeyT,
    KeyU,
    KeyV,
    KeyW,
    KeyX,
    KeyY,
    KeyZ,
    LWin,
    RWin,
    Apps,
    Sleep,
    Numpad0,
    Numpad1,
    Numpad2,
    Numpad3,
    Numpad4,
    Numpad5,
    Numpad6,
    Numpad7,
    Numpad8,
    Numpad9,
    Multiply,
    Add,
    Separator,
    Subtract,
    Decimal,
    Divide,
    F1,
    F2,
    F3,
    F4,
    F5,
    F6,
    F7,
    F8,
    F9,
    F10,
    F11,
    F12,
    F13,
    F14,
    F15,
    F16,
    F17,
    F18,
    F19,
    F20,
    F21,
    F22,
    F23,
    F24,
    NavigationView,
    NavigationMenu,
    NavigationUp,
    NavigationDown,
    NavigationLeft,
    NavigationRight,
    NavigationAccept,
    NavigationCancel,
    Numlock,
    Scroll,
    OemNecEqualFjJisho,
    OemFjMasshou,
    OemFjTouroku,
    OemFjLoya,
    OemFjRoya,
    LShift,
    RShift,
    LControl,
    RControl,
    LMenu,
    RMenu,
    BrowserBack,
    BrowserForward,
    BrowserRefresh,
    BrowserStop,
    BrowserSearch,
    BrowserFavorites,
    BrowserHome,
    VolumeMute,
    VolumeDown,
    VolumeUp,
    MediaNextTrack,
    MediaPrevTrack,
    MediaStop,
    MediaPlayPause,
    LaunchMail,
    LaunchMediaSelect,
    LaunchApp1,
    LaunchApp2,
    Oem1,
    OemPlus,
    OemComma,
    OemMinus,
    OemPeriod,
    Oem2,
    Oem3,
    GamepadA,
    GamepadB,
    GamepadX,
    GamepadY,
    GamepadRightShoulder,
    GamepadLeftShoulder,
    GamepadLeftTrigger,
    GamepadRightTrigger,
    GamepadDPadUp,
    GamepadDPadDown,
    GamepadDPadLeft,
    GamepadDPadRight,
    GamepadMenu,
    GamepadView,
    GamepadLeftThumbStickButton,
    GamepadRightThumbStickButton,
    GamepadLeftThumbStickUp,
    GamepadLeftThumbStickDown,
    GamepadLeftThumbStickRight,
    GamepadLeftThumbStickLeft,
    GamepadRightThumbStickUp,
    GamepadRightThumbStickDown,
    GamepadRightThumbStickRight,
    GamepadRightThumbStickLeft,
    Oem4,
    Oem5,
    Oem6,
    Oem7,
    Oem8,
    OemAx,
    Oem102,
    IcoHelp,
    Ico00,
    ProcessKey,
    IcoClear,
    Packet,
    OemReset,
    OemJump,
    OemPa1,
    OemPa2,
    OemPa3,
    OemWsCtrl,
    OemCusel,
    OemAttn,
    OemFinish,
    OemCopy,
    OemAuto,
    OemEnlw,
    OemBackTab,
    Attn,
    Crsel,
    Exsel,
    Ereof,
    Play,
    Zoom,
    Noname,
    Pa1,
    OemClear,
}

impl VirtualKey {
    /// The numeric code of this value.
    pub open spec fn spec_to_u8(self) -> u8 {
        match self {
            VirtualKey::LButton => 0x01,
            VirtualKey::RButton => 0x02,
            VirtualKey::Cancel => 0x03,
            VirtualKey::MButton => 0x04,
            VirtualKey::XButton1 => 0x05,
            VirtualKey::XButton2 => 0x06,
            VirtualKey::Back => 0x08,
            VirtualKey::Tab => 0x09,
            VirtualKey::Clear => 0x0c,
            VirtualKey::Return => 0x0d,
            VirtualKey::Shift => 0x10,
            VirtualKey::Control => 0x11,
            VirtualKey::Menu => 0x12,
            VirtualKey::Pause => 0x13,
            VirtualKey::Capital => 0x14,
            VirtualKey::KanaHangeulHangul => 0x15,
            VirtualKey::ImeOn => 0x16,
            VirtualKey::Junja => 0x17,
            VirtualKey::Final => 0x18,
            VirtualKey::HanjaKanji => 0x19,
            VirtualKey::ImeOff => 0x1a,
            VirtualKey::Escape => 0x1b,
            VirtualKey::Convert => 0x1c,
            VirtualKey::NonConvert => 0x1d,
            VirtualKey::Accept => 0x1e,
            VirtualKey::ModeChange => 0x1f,
            VirtualKey::Space => 0x20,
            VirtualKey::Prior => 0x21,
            VirtualKey::Next => 0x22,
            VirtualKey::End => 0x23,
            VirtualKey::Home => 0x24,
            VirtualKey::Left => 0x25,
            VirtualKey::Up => 0x26,
            VirtualKey::Right => 0x27,
            VirtualKey::Down => 0x28,
            VirtualKey::Select => 0x29,
            VirtualKey::Print => 0x2a,
            VirtualKey::Execute => 0x2b,
            VirtualKey::Snapshot => 0x2c,
            VirtualKey::Insert => 0x2d,
            VirtualKey::Delete => 0x2e,
            VirtualKey::Help => 0x2f,
            VirtualKey::Key0 => 0x30,
            VirtualKey::Key1 => 0x31,
            VirtualKey::Key2 => 0x32,
            VirtualKey::Key3 => 0x33,
            VirtualKey::Key4 => 0x34,
            VirtualKey::Key5 => 0x35,
            VirtualKey::Key6 => 0x36,
            VirtualKey::Key7 => 0x37,
            VirtualKey::Key8 => 0x38,
            VirtualKey::Key9 => 0x39,
            VirtualKey::KeyA => 0x41,
            VirtualKey::KeyB => 0x42,
            VirtualKey::KeyC => 0x43,
            VirtualKey::KeyD => 0x44,
            VirtualKey::KeyE => 0x45,
            VirtualKey::KeyF => 0x46,
            VirtualKey::KeyG => 0x47,
            VirtualKey::KeyH => 0x48,
            VirtualKey::KeyI => 0x49,
            VirtualKey::KeyJ => 0x4a,
            VirtualKey::KeyK => 0x4b,
            VirtualKey::KeyL => 0x4c,
            VirtualKey::KeyM => 0x4d,
            VirtualKey::KeyN => 0x4e,
            VirtualKey::KeyO => 0x4f,
            VirtualKey::KeyP => 0x50,
            VirtualKey::KeyQ => 0x51,
            VirtualKey::KeyR => 0x52,
            VirtualKey::KeyS => 0x53,
            VirtualKey::KeyT => 0x54,
            VirtualKey::KeyU => 0x55,
            VirtualKey::KeyV => 0x56,
            VirtualKey::KeyW => 0x57,
            VirtualKey::KeyX => 0x58,
            VirtualKey::KeyY => 0x59,
            VirtualKey::KeyZ => 0x5a,
            VirtualKey::LWin => 0x5b,
            VirtualKey::RWin => 0x5c,
            VirtualKey::Apps => 0x5d,
            VirtualKey::Sleep => 0x5f,
            VirtualKey::Numpad0 => 0x60,
            VirtualKey::Numpad1 => 0x61,
            VirtualKey::Numpad2 => 0x62,
            VirtualKey::Numpad3 => 0x63,
            VirtualKey::Numpad4 => 0x64,
            VirtualKey::Numpad5 => 0x65,
            VirtualKey::Numpad6 => 0x66,
            VirtualKey::Numpad7 => 0x67,
            VirtualKey::Numpad8 => 0x68,
            VirtualKey::Numpad9 => 0x69,
            VirtualKey::Multiply => 0x6a,
            VirtualKey::Add => 0x6b,
            VirtualKey::Separator => 0x6c,
            VirtualKey::Subtract => 0x6d,
            VirtualKey::Decimal => 0x6e,
            VirtualKey::Divide => 0x6f,
            VirtualKey::F1 => 0x70,
            VirtualKey::F2 => 0x71,
            VirtualKey::F3 => 0x72,
            VirtualKey::F4 => 0x73,
            VirtualKey::F5 => 0x74,
            VirtualKey::F6 => 0x75,
            VirtualKey::F7 => 0x76,
            VirtualKey::F8 => 0x77,
            VirtualKey::F9 => 0x78,
            VirtualKey::F10 => 0x79,
            VirtualKey::F11 => 0x7a,
            VirtualKey::F12 => 0x7b,
            VirtualKey::F13 => 0x7c,
            VirtualKey::F14 => 0x7d,
            VirtualKey::F15 => 0x7e,
            VirtualKey::F16 => 0x7f,
            VirtualKey::F17 => 0x80,
            VirtualKey::F18 => 0x81,
            VirtualKey::F19 => 0x82,
            VirtualKey::F20 => 0x83,
            VirtualKey::F21 => 0x84,
            VirtualKey::F22 => 0x85,
            VirtualKey::F23 => 0x86,
            VirtualKey::F24 => 0x87,
            VirtualKey::NavigationView => 0x88,
            VirtualKey::NavigationMenu => 0x89,
            VirtualKey::NavigationUp => 0x8a,
            VirtualKey::NavigationDown => 0x8b,
            VirtualKey::NavigationLeft => 0x8c,
            VirtualKey::NavigationRight => 0x8d,
            VirtualKey::NavigationAccept => 0x8e,
            VirtualKey::NavigationCancel => 0x8f,
            VirtualKey::Numlock => 0x90,
            VirtualKey::Scroll => 0x91,
            VirtualKey::OemNecEqualFjJisho => 0x92,
            VirtualKey::OemFjMasshou => 0x93,
            VirtualKey::OemFjTouroku => 0x94,
            VirtualKey::OemFjLoya => 0x95,
            VirtualKey::OemFjRoya => 0x96,
            VirtualKey::LShift => 0xa0,
            VirtualKey::RShift => 0xa1,
            VirtualKey::LControl => 0xa2,
            VirtualKey::RControl => 0xa3,
            VirtualKey::LMenu => 0xa4,
            VirtualKey::RMenu => 0xa5,
            VirtualKey::BrowserBack => 0xa6,
            VirtualKey::BrowserForward => 0xa7,
            VirtualKey::BrowserRefresh => 0xa8,
            VirtualKey::BrowserStop => 0xa9,
            VirtualKey::BrowserSearch => 0xaa,
            VirtualKey::BrowserFavorites => 0xab,
            VirtualKey::BrowserHome => 0xac,
            VirtualKey::VolumeMute => 0xad,
            VirtualKey::VolumeDown => 0xae,
            VirtualKey::VolumeUp => 0xaf,
            VirtualKey::MediaNextTrack => 0xb0,
            VirtualKey::MediaPrevTrack => 0xb1,
            VirtualKey::MediaStop => 0xb2,
            VirtualKey::MediaPlayPause => 0xb3,
            VirtualKey::LaunchMail => 0xb4,
            VirtualKey::LaunchMediaSelect => 0xb5,
            VirtualKey::LaunchApp1 => 0xb6,
            VirtualKey::LaunchApp2 => 0xb7,
            VirtualKey::Oem1 => 0xba,
            VirtualKey::OemPlus => 0xbb,
            VirtualKey::OemComma => 0xbc,
            VirtualKey::OemMinus => 0xbd,
            VirtualKey::OemPeriod => 0xbe,
            VirtualKey::Oem2 => 0xbf,
            VirtualKey::Oem3 => 0xc0,
            VirtualKey::GamepadA => 0xc3,
            VirtualKey::GamepadB => 0xc4,
            VirtualKey::GamepadX => 0xc5,
            VirtualKey::GamepadY => 0xc6,
            VirtualKey::GamepadRightShoulder => 0xc7,
            VirtualKey::GamepadLeftShoulder => 0xc8,
            VirtualKey::GamepadLeftTrigger => 0xc9,
            VirtualKey::GamepadRightTrigger => 0xca,
            VirtualKey::GamepadDPadUp => 0xcb,
            VirtualKey::GamepadDPadDown => 0xcc,
            VirtualKey::GamepadDPadLeft => 0xcd,
            VirtualKey::GamepadDPadRight => 0xce,
            VirtualKey::GamepadMenu => 0xcf,
            VirtualKey::GamepadView => 0xd0,
            VirtualKey::GamepadLeftThumbStickButton => 0xd1,
            VirtualKey::GamepadRightThumbStickButton => 0xd2,
            VirtualKey::GamepadLeftThumbStickUp => 0xd3,
            VirtualKey::GamepadLeftThumbStickDown => 0xd4,
            VirtualKey::GamepadLeftThumbStickRight => 0xd5,
            VirtualKey::GamepadLeftThumbStickLeft => 0xd6,
            VirtualKey::GamepadRightThumbStickUp => 0xd7,
            VirtualKey::GamepadRightThumbStickDown => 0xd8,
            VirtualKey::GamepadRightThumbStickRight => 0xd9,
            VirtualKey::GamepadRightThumbStickLeft => 0xda,
            VirtualKey::Oem4 => 0xdb,
            VirtualKey::Oem5 => 0xdc,
            VirtualKey::Oem6 => 0xdd,
            VirtualKey::Oem7 => 0xde,
            VirtualKey::Oem8 => 0xdf,
            VirtualKey::OemAx => 0xe1,
            VirtualKey::Oem102 => 0xe2,
            VirtualKey::IcoHelp => 0xe3,
            VirtualKey::Ico00 => 0xe4,
            VirtualKey::ProcessKey => 0xe5,
            VirtualKey::IcoClear => 0xe6,
            VirtualKey::Packet => 0xe7,
            VirtualKey::OemReset => 0xe9,
            VirtualKey::OemJump => 0xea,
            VirtualKey::OemPa1 => 0xeb,
            VirtualKey::OemPa2 => 0xec,
            VirtualKey::OemPa3 => 0xed,
            VirtualKey::OemWsCtrl => 0xee,
            VirtualKey::OemCusel => 0xef,
            VirtualKey::OemAttn => 0xf0,
            VirtualKey::OemFinish => 0xf1,
            VirtualKey::OemCopy => 0xf2,
            VirtualKey::OemAuto => 0xf3,
            VirtualKey::OemEnlw => 0xf4,
            VirtualKey::OemBackTab => 0xf5,
            VirtualKey::Attn => 0xf6,
            VirtualKey::Crsel => 0xf7,
            VirtualKey::Exsel => 0xf8,
            VirtualKey::Ereof => 0xf9,
            VirtualKey::Play => 0xfa,
            VirtualKey::Zoom => 0xfb,
            VirtualKey::Noname => 0xfc,
            VirtualKey::Pa1 => 0xfd,
            VirtualKey::OemClear => 0xfe,
        }
    }

    /// The value with the given numeric code, if there is one.
    pub open spec fn spec_try_from_u8(code: u8) -> Option<VirtualKey> {
        match code {
            0x01 => Some(VirtualKey::LButton),
            0x02 => Some(VirtualKey::RButton),
            0x03 => Some(VirtualKey::Cancel),
            0x04 => Some(VirtualKey::MButton),
            0x05 => Some(VirtualKey::XButton1),
            0x06 => Some(VirtualKey::XButton2),
            0x08 => Some(VirtualKey::Back),
            0x09 => Some(VirtualKey::Tab),
            0x0c => Some(VirtualKey::Clear),
            0x0d => Some(VirtualKey::Return),
            0x10 => Some(VirtualKey::Shift),
            0x11 => Some(VirtualKey::Control),
            0x12 => Some(VirtualKey::Menu),
            0x13 => Some(VirtualKey::Pause),
            0x14 => Some(VirtualKey::Capital),
            0x15 => Some(VirtualKey::KanaHangeulHangul),
            0x16 => Some(VirtualKey::ImeOn),
            0x17 => Some(VirtualKey::Junja),
            0x18 => Some(VirtualKey::Final),
            0x19 => Some(VirtualKey::HanjaKanji),
            0x1a => Some(VirtualKey::ImeOff),
            0x1b => Some(VirtualKey::Escape),
            0x1c => Some(VirtualKey::Convert),
            0x1d => Some(VirtualKey::NonConvert),
            0x1e => Some(VirtualKey::Accept),
            0x1f => Some(VirtualKey::ModeChange),
            0x20 => Some(VirtualKey::Space),
            0x21 => Some(VirtualKey::Prior),
            0x22 => Some(VirtualKey::Next),
            0x23 => Some(VirtualKey::End),
            0x24 => Some(VirtualKey::Home),
            0x25 => Some(VirtualKey::Left),
            0x26 => Some(VirtualKey::Up),
            0x27 => Some(VirtualKey::Right),
            0x28 => Some(VirtualKey::Down),
            0x29 => Some(VirtualKey::Select),
            0x2a => Some(VirtualKey::Print),
            0x2b => Some(VirtualKey::Execute),
            0x2c => Some(VirtualKey::Snapshot),
            0x2d => Some(VirtualKey::Insert),
            0x2e => Some(VirtualKey::Delete),
            0x2f => Some(VirtualKey::Help),
            0x30 => Some(VirtualKey::Key0),
            0x31 => Some(VirtualKey::Key1),
            0x32 => Some(VirtualKey::Key2),
            0x33 => Some(VirtualKey::Key3),
            0x34 => Some(VirtualKey::Key4),
            0x35 => Some(VirtualKey::Key5),
            0x36 => Some(VirtualKey::Key6),
            0x37 => Some(VirtualKey::Key7),
            0x38 => Some(VirtualKey::Key8),
            0x39 => Some(VirtualKey::Key9),
            0x41 => Some(VirtualKey::KeyA),
            0x42 => Some(VirtualKey::KeyB),
            0x43 => Some(VirtualKey::KeyC),
            0x44 => Some(VirtualKey::KeyD),
            0x45 => Some(VirtualKey::KeyE),
            0x46 => Some(VirtualKey::KeyF),
            0x47 => Some(VirtualKey::KeyG),
            0x48 => Some(VirtualKey::KeyH),
            0x49 => Some(VirtualKey::KeyI),
            0x4a => Some(VirtualKey::KeyJ),
            0x4b => Some(VirtualKey::KeyK),
            0x4c => Some(VirtualKey::KeyL),
            0x4d => Some(VirtualKey::KeyM),
            0x4e => Some(VirtualKey::KeyN),
            0x4f => Some(VirtualKey::KeyO),
            0x50 => Some(VirtualKey::KeyP),
            0x51 => Some(VirtualKey::KeyQ),
            0x52 => Some(VirtualKey::KeyR),
            0x53 => Some(VirtualKey::KeyS),
            0x54 => Some(VirtualKey::KeyT),
            0x55 => Some(VirtualKey::KeyU),
            0x56 => Some(VirtualKey::KeyV),
            0x57 => Some(VirtualKey::KeyW),
            0x58 => Some(VirtualKey::KeyX),
            0x59 => Some(VirtualKey::KeyY),
            0x5a => Some(VirtualKey::KeyZ),
            0x5b => Some(VirtualKey::LWin),
            0x5c => Some(VirtualKey::RWin),
            0x5d => Some(VirtualKey::Apps),
            0x5f => Some(VirtualKey::Sleep),
            0x60 => Some(VirtualKey::Numpad0),
            0x61 => Some(VirtualKey::Numpad1),
            0x62 => Some(VirtualKey::Numpad2),
            0x63 => Some(VirtualKey::Numpad3),
            0x64 => Some(VirtualKey::Numpad4),
            0x65 => Some(VirtualKey::Numpad5),
            0x66 => Some(VirtualKey::Numpad6),
            0x67 => Some(VirtualKey::Numpad7),
            0x68 => Some(VirtualKey::Numpad8),
            0x69 => Some(VirtualKey::Numpad9),
            0x6a => Some(VirtualKey::Multiply),
            0x6b => Some(VirtualKey::Add),
            0x6c => Some(VirtualKey::Separator),
            0x6d => Some(VirtualKey::Subtract),
            0x6e => Some(VirtualKey::Decimal),
            0x6f => Some(VirtualKey::Divide),
            0x70 => Some(VirtualKey::F1),
            0x71 => Some(VirtualKey::F2),
            0x72 => Some(VirtualKey::F3),
            0x73 => Some(VirtualKey::F4),
            0x74 => Some(VirtualKey::F5),
            0x75 => Some(VirtualKey::F6),
            0x76 => Some(VirtualKey::F7),
            0x77 => Some(VirtualKey::F8),
            0x78 => Some(VirtualKey::F9),
            0x79 => Some(VirtualKey::F10),
            0x7a => Some(VirtualKey::F11),
            0x7b => Some(VirtualKey::F12),
            0x7c => Some(VirtualKey::F13),
            0x7d => Some(VirtualKey::F14),
            0x7e => Some(VirtualKey::F15),
            0x7f => Some(VirtualKey::F16),
            0x80 => Some(VirtualKey::F17),
            0x81 => Some(VirtualKey::F18),
            0x82 => Some(VirtualKey::F19),
            0x83 => Some(VirtualKey::F20),
            0x84 => Some(VirtualKey::F21),
            0x85 => Some(VirtualKey::F22),
            0x86 => Some(VirtualKey::F23),
            0x87 => Some(VirtualKey::F24),
            0x88 => Some(VirtualKey::NavigationView),
            0x89 => Some(VirtualKey::NavigationMenu),
            0x8a => Some(VirtualKey::NavigationUp),
            0x8b => Some(VirtualKey::NavigationDown),
            0x8c => Some(VirtualKey::NavigationLeft),
            0x8d => Some(VirtualKey::NavigationRight),
            0x8e => Some(VirtualKey::NavigationAccept),
            0x8f => Some(VirtualKey::NavigationCancel),
            0x90 => Some(VirtualKey::Numlock),
            0x91 => Some(VirtualKey::Scroll),
            0x92 => Some(VirtualKey::OemNecEqualFjJisho),
            0x93 => Some(VirtualKey::OemFjMasshou),
            0x94 => Some(VirtualKey::OemFjTouroku),
            0x95 => Some(VirtualKey::OemFjLoya),
            0x96 => Some(VirtualKey::OemFjRoya),
            0xa0 => Some(VirtualKey::LShift),
            0xa1 => Some(VirtualKey::RShift),
            0xa2 => Some(VirtualKey::LControl),
            0xa3 => Some(VirtualKey::RControl),
            0xa4 => Some(VirtualKey::LMenu),
            0xa5 => Some(VirtualKey::RMenu),
            0xa6 => Some(VirtualKey::BrowserBack),
            0xa7 => Some(VirtualKey::BrowserForward),
            0xa8 => Some(VirtualKey::BrowserRefresh),
            0xa9 => Some(VirtualKey::BrowserStop),
            0xaa => Some(VirtualKey::BrowserSearch),
            0xab => Some(VirtualKey::BrowserFavorites),
            0xac => Some(VirtualKey::BrowserHome),
            0xad => Some(VirtualKey::VolumeMute),
            0xae => Some(VirtualKey::VolumeDown),
            0xaf => Some(VirtualKey::VolumeUp),
            0xb0 => Some(VirtualKey::MediaNextTrack),
            0xb1 => Some(VirtualKey::MediaPrevTrack),
            0xb2 => Some(VirtualKey::MediaStop),
            0xb3 => Some(VirtualKey::MediaPlayPause),
            0xb4 => Some(VirtualKey::LaunchMail),
            0xb5 => Some(VirtualKey::LaunchMediaSelect),
            0xb6 => Some(VirtualKey::LaunchApp1),
            0xb7 => Some(VirtualKey::LaunchApp2),
            0xba => Some(VirtualKey::Oem1),
            0xbb => Some(VirtualKey::OemPlus),
            0xbc => Some(VirtualKey::OemComma),
            0xbd => Some(VirtualKey::OemMinus),
            0xbe => Some(VirtualKey::OemPeriod),
            0xbf => Some(VirtualKey::Oem2),
            0xc0 => Some(VirtualKey::Oem3),
            0xc3 => Some(VirtualKey::GamepadA),
            0xc4 => Some(VirtualKey::GamepadB),
            0xc5 => Some(VirtualKey::GamepadX),
            0xc6 => Some(VirtualKey::GamepadY),
            0xc7 => Some(VirtualKey::GamepadRightShoulder),
            0xc8 => Some(VirtualKey::GamepadLeftShoulder),
            0xc9 => Some(VirtualKey::GamepadLeftTrigger),
            0xca => Some(VirtualKey::GamepadRightTrigger),
            0xcb => Some(VirtualKey::GamepadDPadUp),
            0xcc => Some(VirtualKey::GamepadDPadDown),
            0xcd => Some(VirtualKey::GamepadDPadLeft),
            0xce => Some(VirtualKey::GamepadDPadRight),
            0xcf => Some(VirtualKey::GamepadMenu),
            0xd0 => Some(VirtualKey::GamepadView),
            0xd1 => Some(VirtualKey::GamepadLeftThumbStickButton),
            0xd2 => Some(VirtualKey::GamepadRightThumbStickButton),
            0xd3 => Some(VirtualKey::GamepadLeftThumbStickUp),
            0xd4 => Some(VirtualKey::GamepadLeftThumbStickDown),
            0xd5 => Some(VirtualKey::GamepadLeftThumbStickRight),
            0xd6 => Some(VirtualKey::GamepadLeftThumbStickLeft),
            0xd7 => Some(VirtualKey::GamepadRightThumbStickUp),
            0xd8 => Some(VirtualKey::GamepadRightThumbStickDown),
            0xd9 => Some(VirtualKey::GamepadRightThumbStickRight),
            0xda => Some(VirtualKey::GamepadRightThumbStickLeft),
            0xdb => Some(VirtualKey::Oem4),
            0xdc => Some(VirtualKey::Oem5),
            0xdd => Some(VirtualKey::Oem6),
            0xde => Some(VirtualKey::Oem7),
            0xdf => Some(VirtualKey::Oem8),
            0xe1 => Some(VirtualKey::OemAx),
            0xe2 => Some(VirtualKey::Oem102),
            0xe3 => Some(VirtualKey::IcoHelp),
            0xe4 => Some(VirtualKey::Ico00),
            0xe5 => Some(VirtualKey::ProcessKey),
            0xe6 => Some(VirtualKey::IcoClear),
            0xe7 => Some(VirtualKey::Packet),
            0xe9 => Some(VirtualKey::OemReset),
            0xea => Some(VirtualKey::OemJump),
            0xeb => Some(VirtualKey::OemPa1),
            0xec => Some(VirtualKey::OemPa2),
            0xed => Some(VirtualKey::OemPa3),
            0xee => Some(VirtualKey::OemWsCtrl),
            0xef => Some(VirtualKey::OemCusel),
            0xf0 => Some(VirtualKey::OemAttn),
            0xf1 => Some(VirtualKey::OemFinish),
            0xf2 => Some(VirtualKey::OemCopy),
            0xf3 => Some(VirtualKey::OemAuto),
            0xf4 => Some(VirtualKey::OemEnlw),
            0xf5 => Some(VirtualKey::OemBackTab),
            0xf6 => Some(VirtualKey::Attn),
            0xf7 => Some(VirtualKey::Crsel),
            0xf8 => Some(VirtualKey::Exsel),
            0xf9 => Some(VirtualKey::Ereof),
            0xfa => Some(VirtualKey::Play),
            0xfb => Some(VirtualKey::Zoom),
            0xfc => Some(VirtualKey::Noname),
            0xfd => Some(VirtualKey::Pa1),
            0xfe => Some(VirtualKey::OemClear),
            _ => None,
        }
    }

    /// Returns the numeric code of this value.
    pub fn to_u8(self) -> (code: u8)
        ensures
            code == self.spec_to_u8(),
    {
        match self {
            VirtualKey::LButton => 0x01,
            VirtualKey::RButton => 0x02,
            VirtualKey::Cancel => 0x03,
            VirtualKey::MButton => 0x04,
            VirtualKey::XButton1 => 0x05,
            VirtualKey::XButton2 => 0x06,
            VirtualKey::Back => 0x08,
            VirtualKey::Tab => 0x09,
            VirtualKey::Clear => 0x0c,
            VirtualKey::Return => 0x0d,
            VirtualKey::Shift => 0x10,
            VirtualKey::Control => 0x11,
            VirtualKey::Menu => 0x12,
            VirtualKey::Pause => 0x13,
            VirtualKey::Capital => 0x14,
            VirtualKey::KanaHangeulHangul => 0x15,
            VirtualKey::ImeOn => 0x16,
            VirtualKey::Junja => 0x17,
            VirtualKey::Final => 0x18,
            VirtualKey::HanjaKanji => 0x19,
            VirtualKey::ImeOff => 0x1a,
            VirtualKey::Escape => 0x1b,
            VirtualKey::Convert => 0x1c,
            VirtualKey::NonConvert => 0x1d,
            VirtualKey::Accept => 0x1e,
            VirtualKey::ModeChange => 0x1f,
            VirtualKey::Space => 0x20,
            VirtualKey::Prior => 0x21,
            VirtualKey::Next => 0x22,
            VirtualKey::End => 0x23,
            VirtualKey::Home => 0x24,
            VirtualKey::Left => 0x25,
            VirtualKey::Up => 0x26,
            VirtualKey::Right => 0x27,
            VirtualKey::Down => 0x28,
            VirtualKey::Select => 0x29,
            VirtualKey::Print => 0x2a,
            VirtualKey::Execute => 0x2b,
            VirtualKey::Snapshot => 0x2c,
            VirtualKey::Insert => 0x2d,
            VirtualKey::Delete => 0x2e,
            VirtualKey::Help => 0x2f,
            VirtualKey::Key0 => 0x30,
            VirtualKey::Key1 => 0x31,
            VirtualKey::Key2 => 0x32,
            VirtualKey::Key3 => 0x33,
            VirtualKey::Key4 => 0x34,
            VirtualKey::Key5 => 0x35,
            VirtualKey::Key6 => 0x36,
            VirtualKey::Key7 => 0x37,
            VirtualKey::Key8 => 0x38,
            VirtualKey::Key9 => 0x39,
            VirtualKey::KeyA => 0x41,
            VirtualKey::KeyB => 0x42,
            VirtualKey::KeyC => 0x43,
            VirtualKey::KeyD => 0x44,
            VirtualKey::KeyE => 0x45,
            VirtualKey::KeyF => 0x46,
            VirtualKey::KeyG => 0x47,
            VirtualKey::KeyH => 0x48,
            VirtualKey::KeyI => 0x49,
            VirtualKey::KeyJ => 0x4a,
            VirtualKey::KeyK => 0x4b,
            VirtualKey::KeyL => 0x4c,
            VirtualKey::KeyM => 0x4d,
            VirtualKey::KeyN => 0x4e,
            VirtualKey::KeyO => 0x4f,
            VirtualKey::KeyP => 0x50,
            VirtualKey::KeyQ => 0x51,
            VirtualKey::KeyR => 0x52,
            VirtualKey::KeyS => 0x53,
            VirtualKey::KeyT => 0x54,
            VirtualKey::KeyU => 0x55,
            VirtualKey::KeyV => 0x56,
            VirtualKey::KeyW => 0x57,
            VirtualKey::KeyX => 0x58,
            VirtualKey::KeyY => 0x59,
            VirtualKey::KeyZ => 0x5a,
            VirtualKey::LWin => 0x5b,
            VirtualKey::RWin => 0x5c,
            VirtualKey::Apps => 0x5d,
            VirtualKey::Sleep => 0x5f,
            VirtualKey::Numpad0 => 0x60,
            VirtualKey::Numpad1 => 0x61,
            VirtualKey::Numpad2 => 0x62,
            VirtualKey::Numpad3 => 0x63,
            VirtualKey::Numpad4 => 0x64,
            VirtualKey::Numpad5 => 0x65,
            VirtualKey::Numpad6 => 0x66,
            VirtualKey::Numpad7 => 0x67,
            VirtualKey::Numpad8 => 0x68,
            VirtualKey::Numpad9 => 0x69,
            VirtualKey::Multiply => 0x6a,
            VirtualKey::Add => 0x6b,
            VirtualKey::Separator => 0x6c,
            VirtualKey::Subtract => 0x6d,
            VirtualKey::Decimal => 0x6e,
            VirtualKey::Divide => 0x6f,
            VirtualKey::F1 => 0x70,
            VirtualKey::F2 => 0x71,
            VirtualKey::F3 => 0x72,
            VirtualKey::F4 => 0x73,
            VirtualKey::F5 => 0x74,
            VirtualKey::F6 => 0x75,
            VirtualKey::F7 => 0x76,
            VirtualKey::F8 => 0x77,
            VirtualKey::F9 => 0x78,
            VirtualKey::F10 => 0x79,
            VirtualKey::F11 => 0x7a,
            VirtualKey::F12 => 0x7b,
            VirtualKey::F13 => 0x7c,
            VirtualKey::F14 => 0x7d,
            VirtualKey::F15 => 0x7e,
            VirtualKey::F16 => 0x7f,
            VirtualKey::F17 => 0x80,
            VirtualKey::F18 => 0x81,
            VirtualKey::F19 => 0x82,
            VirtualKey::F20 => 0x83,
            VirtualKey::F21 => 0x84,
            VirtualKey::F22 => 0x85,
            VirtualKey::F23 => 0x86,
            VirtualKey::F24 => 0x87,
            VirtualKey::NavigationView => 0x88,
            VirtualKey::NavigationMenu => 0x89,
            VirtualKey::NavigationUp => 0x8a,
            VirtualKey::NavigationDown => 0x8b,
            VirtualKey::NavigationLeft => 0x8c,
            VirtualKey::NavigationRight => 0x8d,
            VirtualKey::NavigationAccept => 0x8e,
            VirtualKey::NavigationCancel => 0x8f,
            VirtualKey::Numlock => 0x90,
            VirtualKey::Scroll => 0x91,
            VirtualKey::OemNecEqualFjJisho => 0x92,
            VirtualKey::OemFjMasshou => 0x93,
            VirtualKey::OemFjTouroku => 0x94,
            VirtualKey::OemFjLoya => 0x95,
            VirtualKey::OemFjRoya => 0x96,
            VirtualKey::LShift => 0xa0,
            VirtualKey::RShift => 0xa1,
            VirtualKey::LControl => 0xa2,
            VirtualKey::RControl => 0xa3,
            VirtualKey::LMenu => 0xa4,
            VirtualKey::RMenu => 0xa5,
            VirtualKey::BrowserBack => 0xa6,
            VirtualKey::BrowserForward => 0xa7,
            VirtualKey::BrowserRefresh => 0xa8,
            VirtualKey::BrowserStop => 0xa9,
            VirtualKey::BrowserSearch => 0xaa,
            VirtualKey::BrowserFavorites => 0xab,
            VirtualKey::BrowserHome => 0xac,
            VirtualKey::VolumeMute => 0xad,
            VirtualKey::VolumeDown => 0xae,
            VirtualKey::VolumeUp => 0xaf,
            VirtualKey::MediaNextTrack => 0xb0,
            VirtualKey::MediaPrevTrack => 0xb1,
            VirtualKey::MediaStop => 0xb2,
            VirtualKey::MediaPlayPause => 0xb3,
            VirtualKey::LaunchMail => 0xb4,
            VirtualKey::LaunchMediaSelect => 0xb5,
            VirtualKey::LaunchApp1 => 0xb6,
            VirtualKey::LaunchApp2 => 0xb7,
            VirtualKey::Oem1 => 0xba,
            VirtualKey::OemPlus => 0xbb,
            VirtualKey::OemComma => 0xbc,
            VirtualKey::OemMinus => 0xbd,
            VirtualKey::OemPeriod => 0xbe,
            VirtualKey::Oem2 => 0xbf,
            VirtualKey::Oem3 => 0xc0,
            VirtualKey::GamepadA => 0xc3,
            VirtualKey::GamepadB => 0xc4,
            VirtualKey::GamepadX => 0xc5,
            VirtualKey::GamepadY => 0xc6,
            VirtualKey::GamepadRightShoulder => 0xc7,
            VirtualKey::GamepadLeftShoulder => 0xc8,
            VirtualKey::GamepadLeftTrigger => 0xc9,
            VirtualKey::GamepadRightTrigger => 0xca,
            VirtualKey::GamepadDPadUp => 0xcb,
            VirtualKey::GamepadDPadDown => 0xcc,
            VirtualKey::GamepadDPadLeft => 0xcd,
            VirtualKey::GamepadDPadRight => 0xce,
            VirtualKey::GamepadMenu => 0xcf,
            VirtualKey::GamepadView => 0xd0,
            VirtualKey::GamepadLeftThumbStickButton => 0xd1,
            VirtualKey::GamepadRightThumbStickButton => 0xd2,
            VirtualKey::GamepadLeftThumbStickUp => 0xd3,
            VirtualKey::GamepadLeftThumbStickDown => 0xd4,
            VirtualKey::GamepadLeftThumbStickRight => 0xd5,
            VirtualKey::GamepadLeftThumbStickLeft => 0xd6,
            VirtualKey::GamepadRightThumbStickUp => 0xd7,
            VirtualKey::GamepadRightThumbStickDown => 0xd8,
            VirtualKey::GamepadRightThumbStickRight => 0xd9,
            VirtualKey::GamepadRightThumbStickLeft => 0xda,
            VirtualKey::Oem4 => 0xdb,
            VirtualKey::Oem5 => 0xdc,
            VirtualKey::Oem6 => 0xdd,
            VirtualKey::Oem7 => 0xde,
            VirtualKey::Oem8 => 0xdf,
            VirtualKey::OemAx => 0xe1,
            VirtualKey::Oem102 => 0xe2,
            VirtualKey::IcoHelp => 0xe3,
            VirtualKey::Ico00 => 0xe4,
            VirtualKey::ProcessKey => 0xe5,
            VirtualKey::IcoClear => 0xe6,
            VirtualKey::Packet => 0xe7,
            VirtualKey::OemReset => 0xe9,
            VirtualKey::OemJump => 0xea,
            VirtualKey::OemPa1 => 0xeb,
            VirtualKey::OemPa2 => 0xec,
            VirtualKey::OemPa3 => 0xed,
            VirtualKey::OemWsCtrl => 0xee,
            VirtualKey::OemCusel => 0xef,
            VirtualKey::OemAttn => 0xf0,
            VirtualKey::OemFinish => 0xf1,
            VirtualKey::OemCopy => 0xf2,
            VirtualKey::OemAuto => 0xf3,
            VirtualKey::OemEnlw => 0xf4,
            VirtualKey::OemBackTab => 0xf5,
            VirtualKey::Attn => 0xf6,
            VirtualKey::Crsel => 0xf7,
            VirtualKey::Exsel => 0xf8,
            VirtualKey::Ereof => 0xf9,
            VirtualKey::Play => 0xfa,
            VirtualKey::Zoom => 0xfb,
            VirtualKey::Noname => 0xfc,
            VirtualKey::Pa1 => 0xfd,
            VirtualKey::OemClear => 0xfe,
        }
    }

    /// Returns the value with the given numeric code, or `None` where no value has it.
    pub fn try_from_u8(code: u8) -> (r: Option<VirtualKey>)
        ensures
            r == Self::spec_try_from_u8(code),
    {
        match code {
            0x01 => Some(VirtualKey::LButton),
            0x02 => Some(VirtualKey::RButton),
            0x03 => Some(VirtualKey::Cancel),
            0x04 => Some(VirtualKey::MButton),
            0x05 => Some(VirtualKey::XButton1),
            0x06 => Some(VirtualKey::XButton2),
            0x08 => Some(VirtualKey::Back),
            0x09 => Some(VirtualKey::Tab),
            0x0c => Some(VirtualKey::Clear),
            0x0d => Some(VirtualKey::Return),
            0x10 => Some(VirtualKey::Shift),
            0x11 => Some(VirtualKey::Control),
            0x12 => Some(VirtualKey::Menu),
            0x13 => Some(VirtualKey::Pause),
            0x14 => Some(VirtualKey::Capital),
            0x15 => Some(VirtualKey::KanaHangeulHangul),
            0x16 => Some(VirtualKey::ImeOn),
            0x17 => Some(VirtualKey::Junja),
            0x18 => Some(VirtualKey::Final),
            0x19 => Some(VirtualKey::HanjaKanji),
            0x1a => Some(VirtualKey::ImeOff),
            0x1b => Some(VirtualKey::Escape),
            0x1c => Some(VirtualKey::Convert),
            0x1d => Some(VirtualKey::NonConvert),
            0x1e => Some(VirtualKey::Accept),
            0x1f => Some(VirtualKey::ModeChange),
            0x20 => Some(VirtualKey::Space),
            0x21 => Some(VirtualKey::Prior),
            0x22 => Some(VirtualKey::Next),
            0x23 => Some(VirtualKey::End),
            0x24 => Some(VirtualKey::Home),
            0x25 => Some(VirtualKey::Left),
            0x26 => Some(VirtualKey::Up),
            0x27 => Some(VirtualKey::Right),
            0x28 => Some(VirtualKey::Down),
            0x29 => Some(VirtualKey::Select),
            0x2a => Some(VirtualKey::Print),
            0x2b => Some(VirtualKey::Execute),
            0x2c => Some(VirtualKey::Snapshot),
            0x2d => Some(VirtualKey::Insert),
            0x2e => Some(VirtualKey::Delete),
            0x2f => Some(VirtualKey::Help),
            0x30 => Some(VirtualKey::Key0),
            0x31 => Some(VirtualKey::Key1),
            0x32 => Some(VirtualKey::Key2),
            0x33 => Some(VirtualKey::Key3),
            0x34 => Some(VirtualKey::Key4),
            0x35 => Some(VirtualKey::Key5),
            0x36 => Some(VirtualKey::Key6),
            0x37 => Some(VirtualKey::Key7),
            0x38 => Some(VirtualKey::Key8),
            0x39 => Some(VirtualKey::Key9),
            0x41 => Some(VirtualKey::KeyA),
            0x42 => Some(VirtualKey::KeyB),
            0x43 => Some(VirtualKey::KeyC),
            0x44 => Some(VirtualKey::KeyD),
            0x45 => Some(VirtualKey::KeyE),
            0x46 => Some(VirtualKey::KeyF),
            0x47 => Some(VirtualKey::KeyG),
            0x48 => Some(VirtualKey::KeyH),
            0x49 => Some(VirtualKey::KeyI),
            0x4a => Some(VirtualKey::KeyJ),
            0x4b => Some(VirtualKey::KeyK),
            0x4c => Some(VirtualKey::KeyL),
            0x4d => Some(VirtualKey::KeyM),
            0x4e => Some(VirtualKey::KeyN),
            0x4f => Some(VirtualKey::KeyO),
            0x50 => Some(VirtualKey::KeyP),
            0x51 => Some(VirtualKey::KeyQ),
            0x52 => Some(VirtualKey::KeyR),
            0x53 => Some(VirtualKey::KeyS),
            0x54 => Some(VirtualKey::KeyT),
            0x55 => Some(VirtualKey::KeyU),
            0x56 => Some(VirtualKey::KeyV),
            0x57 => Some(VirtualKey::KeyW),
            0x58 => Some(VirtualKey::KeyX),
            0x59 => Some(VirtualKey::KeyY),
            0x5a => Some(VirtualKey::KeyZ),
            0x5b => Some(VirtualKey::LWin),
            0x5c => Some(VirtualKey::RWin),
            0x5d => Some(VirtualKey::Apps),
            0x5f => Some(VirtualKey::Sleep),
            0x60 => Some(VirtualKey::Numpad0),
            0x61 => Some(VirtualKey::Numpad1),
            0x62 => Some(VirtualKey::Numpad2),
            0x63 => Some(VirtualKey::Numpad3),
            0x64 => Some(VirtualKey::Numpad4),
            0x65 => Some(VirtualKey::Numpad5),
            0x66 => Some(VirtualKey::Numpad6),
            0x67 => Some(VirtualKey::Numpad7),
            0x68 => Some(VirtualKey::Numpad8),
            0x69 => Some(VirtualKey::Numpad9),
            0x6a => Some(VirtualKey::Multiply),
            0x6b => Some(VirtualKey::Add),
            0x6c => Some(VirtualKey::Separator),
            0x6d => Some(VirtualKey::Subtract),
            0x6e => Some(VirtualKey::Decimal),
            0x6f => Some(VirtualKey::Divide),
            0x70 => Some(VirtualKey::F1),
            0x71 => Some(VirtualKey::F2),
            0x72 => Some(VirtualKey::F3),
            0x73 => Some(VirtualKey::F4),
            0x74 => Some(VirtualKey::F5),
            0x75 => Some(VirtualKey::F6),
            0x76 => Some(VirtualKey::F7),
            0x77 => Some(VirtualKey::F8),
            0x78 => Some(VirtualKey::F9),
            0x79 => Some(VirtualKey::F10),
            0x7a => Some(VirtualKey::F11),
            0x7b => Some(VirtualKey::F12),
            0x7c => Some(VirtualKey::F13),
            0x7d => Some(VirtualKey::F14),
            0x7e => Some(VirtualKey::F15),
            0x7f => Some(VirtualKey::F16),
            0x80 => Some(VirtualKey::F17),
            0x81 => Some(VirtualKey::F18),
            0x82 => Some(VirtualKey::F19),
            0x83 => Some(VirtualKey::F20),
            0x84 => Some(VirtualKey::F21),
            0x85 => Some(VirtualKey::F22),
            0x86 => Some(VirtualKey::F23),
            0x87 => Some(VirtualKey::F24),
            0x88 => Some(VirtualKey::NavigationView),
            0x89 => Some(VirtualKey::NavigationMenu),
            0x8a => Some(VirtualKey::NavigationUp),
            0x8b => Some(VirtualKey::NavigationDown),
            0x8c => Some(VirtualKey::NavigationLeft),
            0x8d => Some(VirtualKey::NavigationRight),
            0x8e => Some(VirtualKey::NavigationAccept),
            0x8f => Some(VirtualKey::NavigationCancel),
            0x90 => Some(VirtualKey::Numlock),
            0x91 => Some(VirtualKey::Scroll),
            0x92 => Some(VirtualKey::OemNecEqualFjJisho),
            0x93 => Some(VirtualKey::OemFjMasshou),
            0x94 => Some(VirtualKey::OemFjTouroku),
            0x95 => Some(VirtualKey::OemFjLoya),
            0x96 => Some(VirtualKey::OemFjRoya),
            0xa0 => Some(VirtualKey::LShift),
            0xa1 => Some(VirtualKey::RShift),
            0xa2 => Some(VirtualKey::LControl),
            0xa3 => Some(VirtualKey::RControl),
            0xa4 => Some(VirtualKey::LMenu),
            0xa5 => Some(VirtualKey::RMenu),
            0xa6 => Some(VirtualKey::BrowserBack),
            0xa7 => Some(VirtualKey::BrowserForward),
            0xa8 => Some(VirtualKey::BrowserRefresh),
            0xa9 => Some(VirtualKey::BrowserStop),
            0xaa => Some(VirtualKey::BrowserSearch),
            0xab => Some(VirtualKey::BrowserFavorites),
            0xac => Some(VirtualKey::BrowserHome),
            0xad => Some(VirtualKey::VolumeMute),
            0xae => Some(VirtualKey::VolumeDown),
            0xaf => Some(VirtualKey::VolumeUp),
            0xb0 => Some(VirtualKey::MediaNextTrack),
            0xb1 => Some(VirtualKey::MediaPrevTrack),
            0xb2 => Some(VirtualKey::MediaStop),
            0xb3 => Some(VirtualKey::MediaPlayPause),
            0xb4 => Some(VirtualKey::LaunchMail),
            0xb5 => Some(VirtualKey::LaunchMediaSelect),
            0xb6 => Some(VirtualKey::LaunchApp1),
            0xb7 => Some(VirtualKey::LaunchApp2),
            0xba => Some(VirtualKey::Oem1),
            0xbb => Some(VirtualKey::OemPlus),
            0xbc => Some(VirtualKey::OemComma),
            0xbd => Some(VirtualKey::OemMinus),
            0xbe => Some(VirtualKey::OemPeriod),
            0xbf => Some(VirtualKey::Oem2),
            0xc0 => Some(VirtualKey::Oem3),
            0xc3 => Some(VirtualKey::GamepadA),
            0xc4 => Some(VirtualKey::GamepadB),
            0xc5 => Some(VirtualKey::GamepadX),
            0xc6 => Some(VirtualKey::GamepadY),
            0xc7 => Some(VirtualKey::GamepadRightShoulder),
            0xc8 => Some(VirtualKey::GamepadLeftShoulder),
            0xc9 => Some(VirtualKey::GamepadLeftTrigger),
            0xca => Some(VirtualKey::GamepadRightTrigger),
            0xcb => Some(VirtualKey::GamepadDPadUp),
            0xcc => Some(VirtualKey::GamepadDPadDown),
            0xcd => Some(VirtualKey::GamepadDPadLeft),
            0xce => Some(VirtualKey::GamepadDPadRight),
            0xcf => Some(VirtualKey::GamepadMenu),
            0xd0 => Some(VirtualKey::GamepadView),
            0xd1 => Some(VirtualKey::GamepadLeftThumbStickButton),
            0xd2 => Some(VirtualKey::GamepadRightThumbStickButton),
            0xd3 => Some(VirtualKey::GamepadLeftThumbStickUp),
            0xd4 => Some(VirtualKey::GamepadLeftThumbStickDown),
            0xd5 => Some(VirtualKey::GamepadLeftThumbStickRight),
            0xd6 => Some(VirtualKey::GamepadLeftThumbStickLeft),
            0xd7 => Some(VirtualKey::GamepadRightThumbStickUp),
            0xd8 => Some(VirtualKey::GamepadRightThumbStickDown),
            0xd9 => Some(VirtualKey::GamepadRightThumbStickRight),
            0xda => Some(VirtualKey::GamepadRightThumbStickLeft),
            0xdb => Some(VirtualKey::Oem4),
            0xdc => Some(VirtualKey::Oem5),
            0xdd => Some(VirtualKey::Oem6),
            0xde => Some(VirtualKey::Oem7),
            0xdf => Some(VirtualKey::Oem8),
            0xe1 => Some(VirtualKey::OemAx),
            0xe2 => Some(VirtualKey::Oem102),
            0xe3 => Some(VirtualKey::IcoHelp),
            0xe4 => Some(VirtualKey::Ico00),
            0xe5 => Some(VirtualKey::ProcessKey),
            0xe6 => Some(VirtualKey::IcoClear),
            0xe7 => Some(VirtualKey::Packet),
            0xe9 => Some(VirtualKey::OemReset),
            0xea => Some(VirtualKey::OemJump),
            0xeb => Some(VirtualKey::OemPa1),
            0xec => Some(VirtualKey::OemPa2),
            0xed => Some(VirtualKey::OemPa3),
            0xee => Some(VirtualKey::OemWsCtrl),
            0xef => Some(VirtualKey::OemCusel),
            0xf0 => Some(VirtualKey::OemAttn),
            0xf1 => Some(VirtualKey::OemFinish),
            0xf2 => Some(VirtualKey::OemCopy),
            0xf3 => Some(VirtualKey::OemAuto),
            0xf4 => Some(VirtualKey::OemEnlw),
            0xf5 => Some(VirtualKey::OemBackTab),
            0xf6 => Some(VirtualKey::Attn),
            0xf7 => Some(VirtualKey::Crsel),
            0xf8 => Some(VirtualKey::Exsel),
            0xf9 => Some(VirtualKey::Ereof),
            0xfa => Some(VirtualKey::Play),
            0xfb => Some(VirtualKey::Zoom),
            0xfc => Some(VirtualKey::Noname),
            0xfd => Some(VirtualKey::Pa1),
            0xfe => Some(VirtualKey::OemClear),
            _ => None,
        }
    }

    /// Reading back the code of a value gives the value.
    pub proof fn lemma_code_roundtrip(self)
        ensures
            Self::spec_try_from_u8(self.spec_to_u8()) == Some(self),
    {
    }

    /// A code that names a value is that value's code.
    pub proof fn lemma_code_unique(code: u8)
        ensures
            Self::spec_try_from_u8(code) matches Some(k) ==> k.spec_to_u8() == code,
    {
    }
}

impl VirtualKey {
    /// Whether this key is one of the five mouse buttons.
    pub open spec fn spec_is_mouse_button(self) -> bool {
        ||| self == VirtualKey::LButton
        ||| self == VirtualKey::MButton
        ||| self == VirtualKey::RButton
        ||| self == VirtualKey::XButton1
        ||| self == VirtualKey::XButton2
    }

    /// Returns whether this key is one of the five mouse buttons.
    pub fn is_mouse_button(self) -> (r: bool)
        ensures
            r == self.spec_is_mouse_button(),
    {
        match self {
            VirtualKey::LButton | VirtualKey::MButton | VirtualKey::RButton | VirtualKey::XButton1
            | VirtualKey::XButton2 => true,
            _ => false,
        }
    }
}

} // verus!
