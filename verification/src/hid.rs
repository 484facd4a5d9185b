use vstd::prelude::*;

use crate::common::{ConsumerDeviceCode, HidButtonCode, HidKeyCode};
use crate::events::WindowsScanCode;
use crate::virtual_key::VirtualKey;

verus! {

/// A USB HID keyboard usage code as a raw byte.
pub type HidScanCode = u8;

/// The modifier byte of a keyboard report.
#[derive(Debug, Clone, Copy, PartialEq, Eq, Structural, Hash)]
pub struct HidModifierKeys {
    pub bits: u8,
}

impl HidModifierKeys {
    /// The flag LCtrl.
    #[allow(non_snake_case)]
    pub fn LCtrl() -> (r: HidModifierKeys)
        ensures
            r.bits == 0x01,
    {
        HidModifierKeys { bits: 0x01 }
    }
    /// The flag LShift.
    #[allow(non_snake_case)]
    pub fn LShift() -> (r: HidModifierKeys)
        ensures
            r.bits == 0x02,
    {
        HidModifierKeys { bits: 0x02 }
    }
    /// The flag LAlt.
    #[allow(non_snake_case)]
    pub fn LAlt() -> (r: HidModifierKeys)
        ensures
            r.bits == 0x04,
    {
        HidModifierKeys { bits: 0x04 }
    }
    /// The flag LMeta.
    #[allow(non_snake_case)]
    pub fn LMeta() -> (r: HidModifierKeys)
        ensures
            r.bits == 0x08,
    {
        HidModifierKeys { bits: 0x08 }
    }
    /// The flag RCtrl.
    #[allow(non_snake_case)]
    pub fn RCtrl() -> (r: HidModifierKeys)
        ensures
            r.bits == 0x10,
    {
        HidModifierKeys { bits: 0x10 }
    }
    /// The flag RShift.
    #[allow(non_snake_case)]
    pub fn RShift() -> (r: HidModifierKeys)
        ensures
            r.bits == 0x20,
    {
        HidModifierKeys { bits: 0x20 }
    }
    /// The flag RAlt.
    #[allow(non_snake_case)]
    pub fn RAlt() -> (r: HidModifierKeys)
        ensures
            r.bits == 0x40,
    {
        HidModifierKeys { bits: 0x40 }
    }
    /// The flag RMeta.
    #[allow(non_snake_case)]
    pub fn RMeta() -> (r: HidModifierKeys)
        ensures
            r.bits == 0x80,
    {
        HidModifierKeys { bits: 0x80 }
    }

    /// Whether every flag of `other` is set here.
    pub open spec fn spec_contains(self, other: Self) -> bool {
        self.bits & other.bits == other.bits
    }

    /// The set without any flag.
    pub fn empty() -> (r: Self)
        ensures
            r.bits == 0,
    {
        HidModifierKeys { bits: 0 }
    }

    /// Returns the raw bits.
    pub fn bits(&self) -> (r: u8)
        ensures
            r == self.bits,
    {
        self.bits
    }

    /// Returns whether no flag is set.
    pub fn is_empty(&self) -> (r: bool)
        ensures
            r == (self.bits == 0),
    {
        self.bits == 0
    }

    /// Returns whether every flag of `other` is set here.
    pub fn contains(&self, other: Self) -> (r: bool)
        ensures
            r == self.spec_contains(other),
    {
        self.bits & other.bits == other.bits
    }

    /// Sets the flags of `other`.
    pub fn insert(&mut self, other: Self)
        ensures
            final(self).bits == old(self).bits | other.bits,
    {
        self.bits = self.bits | other.bits;
    }

    /// Clears the flags of `other`.
    pub fn remove(&mut self, other: Self)
        ensures
            final(self).bits == old(self).bits & !other.bits,
    {
        self.bits = self.bits & !other.bits;
    }
}

/// The button byte of a mouse report.
#[derive(Debug, Clone, Copy, PartialEq, Eq, Structural, Hash)]
pub struct HidMouseButtons {
    pub bits: u8,
}

impl HidMouseButtons {
    /// The flag LButton.
    #[allow(non_snake_case)]
    pub fn LButton() -> (r: HidMouseButtons)
        ensures
            r.bits == 0x01,
    {
        HidMouseButtons { bits: 0x01 }
    }
    /// The flag RButton.
    #[allow(non_snake_case)]
    pub fn RButton() -> (r: HidMouseButtons)
        ensures
            r.bits == 0x02,
    {
        HidMouseButtons { bits: 0x02 }
    }
    /// The flag MButton.
    #[allow(non_snake_case)]
    pub fn MButton() -> (r: HidMouseButtons)
        ensures
            r.bits == 0x04,
    {
        HidMouseButtons { bits: 0x04 }
    }
    /// The flag Button4.
    #[allow(non_snake_case)]
    pub fn Button4() -> (r: HidMouseButtons)
        ensures
            r.bits == 0x08,
    {
        HidMouseButtons { bits: 0x08 }
    }
    /// The flag Button5.
    #[allow(non_snake_case)]
    pub fn Button5() -> (r: HidMouseButtons)
        ensures
            r.bits == 0x10,
    {
        HidMouseButtons { bits: 0x10 }
    }

    /// Whether every flag of `other` is set here.
    pub open spec fn spec_contains(self, other: Self) -> bool {
        self.bits & other.bits == other.bits
    }

    /// The set without any flag.
    pub fn empty() -> (r: Self)
        ensures
            r.bits == 0,
    {
        HidMouseButtons { bits: 0 }
    }

    /// Returns the raw bits.
    pub fn bits(&self) -> (r: u8)
        ensures
            r == self.bits,
    {
        self.bits
    }

    /// Returns whether no flag is set.
    pub fn is_empty(&self) -> (r: bool)
        ensures
            r == (self.bits == 0),
    {
        self.bits == 0
    }

    /// Returns whether every flag of `other` is set here.
    pub fn contains(&self, other: Self) -> (r: bool)
        ensures
            r == self.spec_contains(other),
    {
        self.bits & other.bits == other.bits
    }

    /// Sets the flags of `other`.
    pub fn insert(&mut self, other: Self)
        ensures
            final(self).bits == old(self).bits | other.bits,
    {
        self.bits = self.bits | other.bits;
    }

    /// Clears the flags of `other`.
    pub fn remove(&mut self, other: Self)
        ensures
            final(self).bits == old(self).bits & !other.bits,
    {
        self.bits = self.bits & !other.bits;
    }
}

/// The button word of a consumer control report.
#[derive(Debug, Clone, Copy, PartialEq, Eq, Structural, Hash)]
pub struct ConsumerDeviceButtons {
    pub bits: u16,
}

impl ConsumerDeviceButtons {
    /// The flag NextTrack.
    #[allow(non_snake_case)]
    pub fn NextTrack() -> (r: ConsumerDeviceButtons)
        ensures
            r.bits == 0x01,
    {
        ConsumerDeviceButtons { bits: 0x01 }
    }
    /// The flag PreviousTrack.
    #[allow(non_snake_case)]
    pub fn PreviousTrack() -> (r: ConsumerDeviceButtons)
        ensures
            r.bits == 0x02,
    {
        ConsumerDeviceButtons { bits: 0x02 }
    }
    /// The flag Stop.
    #[allow(non_snake_case)]
    pub fn Stop() -> (r: ConsumerDeviceButtons)
        ensures
            r.bits == 0x04,
    {
        ConsumerDeviceButtons { bits: 0x04 }
    }
    /// The flag PlayPause.
    #[allow(non_snake_case)]
    pub fn PlayPause() -> (r: ConsumerDeviceButtons)
        ensures
            r.bits == 0x08,
    {
        ConsumerDeviceButtons { bits: 0x08 }
    }
    /// The flag Mute.
    #[allow(non_snake_case)]
    pub fn Mute() -> (r: ConsumerDeviceButtons)
        ensures
            r.bits == 0x10,
    {
        ConsumerDeviceButtons { bits: 0x10 }
    }
    /// The flag VolumeUp.
    #[allow(non_snake_case)]
    pub fn VolumeUp() -> (r: ConsumerDeviceButtons)
        ensures
            r.bits == 0x20,
    {
        ConsumerDeviceButtons { bits: 0x20 }
    }
    /// The flag VolumeDown.
    #[allow(non_snake_case)]
    pub fn VolumeDown() -> (r: ConsumerDeviceButtons)
        ensures
            r.bits == 0x40,
    {
        ConsumerDeviceButtons { bits: 0x40 }
    }
    /// The flag BrowserHome.
    #[allow(non_snake_case)]
    pub fn BrowserHome() -> (r: ConsumerDeviceButtons)
        ensures
            r.bits == 0x80,
    {
        ConsumerDeviceButtons { bits: 0x80 }
    }
    /// The flag MyComputer.
    #[allow(non_snake_case)]
    pub fn MyComputer() -> (r: ConsumerDeviceButtons)
        ensures
            r.bits == 0x100,
    {
        ConsumerDeviceButtons { bits: 0x100 }
    }
    /// The flag Calculator.
    #[allow(non_snake_case)]
    pub fn Calculator() -> (r: ConsumerDeviceButtons)
        ensures
            r.bits == 0x200,
    {
        ConsumerDeviceButtons { bits: 0x200 }
    }
    /// The flag BrowserFavorites.
    #[allow(non_snake_case)]
    pub fn BrowserFavorites() -> (r: ConsumerDeviceButtons)
        ensures
            r.bits == 0x400,
    {
        ConsumerDeviceButtons { bits: 0x400 }
    }
    /// The flag BrowserSearch.
    #[allow(non_snake_case)]
    pub fn BrowserSearch() -> (r: ConsumerDeviceButtons)
        ensures
            r.bits == 0x800,
    {
        ConsumerDeviceButtons { bits: 0x800 }
    }
    /// The flag BrowserStop.
    #[allow(non_snake_case)]
    pub fn BrowserStop() -> (r: ConsumerDeviceButtons)
        ensures
            r.bits == 0x1000,
    {
        ConsumerDeviceButtons { bits: 0x1000 }
    }
    /// The flag BrowserBack.
    #[allow(non_snake_case)]
    pub fn BrowserBack() -> (r: ConsumerDeviceButtons)
        ensures
            r.bits == 0x2000,
    {
        ConsumerDeviceButtons { bits: 0x2000 }
    }
    /// The flag MediaSelect.
    #[allow(non_snake_case)]
    pub fn MediaSelect() -> (r: ConsumerDeviceButtons)
        ensures
            r.bits == 0x4000,
    {
        ConsumerDeviceButtons { bits: 0x4000 }
    }
    /// The flag Mail.
    #[allow(non_snake_case)]
    pub fn Mail() -> (r: ConsumerDeviceButtons)
        ensures
            r.bits == 0x8000,
    {
        ConsumerDeviceButtons { bits: 0x8000 }
    }

    /// Whether every flag of `other` is set here.
    pub open spec fn spec_contains(self, other: Self) -> bool {
        self.bits & other.bits == other.bits
    }

    /// The set without any flag.
    pub fn empty() -> (r: Self)
        ensures
            r.bits == 0,
    {
        ConsumerDeviceButtons { bits: 0 }
    }

    /// Returns the raw bits.
    pub fn bits(&self) -> (r: u16)
        ensures
            r == self.bits,
    {
        self.bits
    }

    /// Returns whether no flag is set.
    pub fn is_empty(&self) -> (r: bool)
        ensures
            r == (self.bits == 0),
    {
        self.bits == 0
    }

    /// Returns whether every flag of `other` is set here.
    pub fn contains(&self, other: Self) -> (r: bool)
        ensures
            r == self.spec_contains(other),
    {
        self.bits & other.bits == other.bits
    }

    /// Sets the flags of `other`.
    pub fn insert(&mut self, other: Self)
        ensures
            final(self).bits == old(self).bits | other.bits,
    {
        self.bits = self.bits | other.bits;
    }

    /// Clears the flags of `other`.
    pub fn remove(&mut self, other: Self)
        ensures
            final(self).bits == old(self).bits & !other.bits,
    {
        self.bits = self.bits & !other.bits;
    }
}

/// The modifier keys in the order in which `HidModifierKeys::to_virtual_keys` lists them.
pub open spec fn modifier_key_order() -> Seq<VirtualKey> {
    seq![
        VirtualKey::LShift,
        VirtualKey::LControl,
        VirtualKey::LWin,
        VirtualKey::LMenu,
        VirtualKey::RShift,
        VirtualKey::RControl,
        VirtualKey::RWin,
        VirtualKey::RMenu,
    ]
}

/// The mouse buttons in the order in which `HidMouseButtons::to_virtual_keys` lists them.
pub open spec fn mouse_button_order() -> Seq<VirtualKey> {
    seq![
        VirtualKey::LButton,
        VirtualKey::RButton,
        VirtualKey::MButton,
        VirtualKey::XButton1,
        VirtualKey::XButton2,
    ]
}

impl HidModifierKeys {
    /// The modifier flag of a virtual key, if the key is a modifier.
    pub open spec fn spec_from_virtual_key(key: VirtualKey) -> Option<Self> {
        match key {
            VirtualKey::LShift => Some(HidModifierKeys { bits: 0x02 }),
            VirtualKey::LControl => Some(HidModifierKeys { bits: 0x01 }),
            VirtualKey::LWin => Some(HidModifierKeys { bits: 0x08 }),
            VirtualKey::LMenu => Some(HidModifierKeys { bits: 0x04 }),
            VirtualKey::RShift => Some(HidModifierKeys { bits: 0x20 }),
            VirtualKey::RControl => Some(HidModifierKeys { bits: 0x10 }),
            VirtualKey::RWin => Some(HidModifierKeys { bits: 0x80 }),
            VirtualKey::RMenu => Some(HidModifierKeys { bits: 0x40 }),
            _ => None,
        }
    }

    /// Whether the flag of modifier key `key` is set here.
    pub open spec fn holds_key(self, key: VirtualKey) -> bool {
        Self::spec_from_virtual_key(key) matches Some(m) && self.spec_contains(m)
    }

    /// Returns the modifier flag of a virtual key, or `None` if the key is no modifier.
    pub fn from_virtual_key(key: &VirtualKey) -> (r: Option<Self>)
        ensures
            r == Self::spec_from_virtual_key(*key),
    {
        match key {
            VirtualKey::LShift => Some(HidModifierKeys::LShift()),
            VirtualKey::LControl => Some(HidModifierKeys::LCtrl()),
            VirtualKey::LWin => Some(HidModifierKeys::LMeta()),
            VirtualKey::LMenu => Some(HidModifierKeys::LAlt()),
            VirtualKey::RShift => Some(HidModifierKeys::RShift()),
            VirtualKey::RControl => Some(HidModifierKeys::RCtrl()),
            VirtualKey::RWin => Some(HidModifierKeys::RMeta()),
            VirtualKey::RMenu => Some(HidModifierKeys::RAlt()),
            _ => None,
        }
    }

    /// Returns the keys whose flags are set, in the order of `modifier_key_order`.
    pub fn to_virtual_keys(&self) -> (r: Vec<VirtualKey>)
        ensures
            r@ == modifier_key_order().filter(|k: VirtualKey| self.holds_key(k)),
    {
        let order = [
            VirtualKey::LShift,
            VirtualKey::LControl,
            VirtualKey::LWin,
            VirtualKey::LMenu,
            VirtualKey::RShift,
            VirtualKey::RControl,
            VirtualKey::RWin,
            VirtualKey::RMenu,
        ];
        let ghost pred = |k: VirtualKey| self.holds_key(k);
        assert(order@ == modifier_key_order());
        let mut v: Vec<VirtualKey> = Vec::new();
        let mut i: usize = 0;
        while i < 8
            invariant
                i <= 8,
                order@ == modifier_key_order(),
                pred == (|k: VirtualKey| self.holds_key(k)),
                v@ == order@.take(i as int).filter(pred),
            decreases 8 - i,
        {
            let key = order[i];
            proof {
                assert(order@.take(i + 1) == order@.take(i as int).push(key));
                order@.take(i as int).lemma_filter_push(key, pred);
            }
            match HidModifierKeys::from_virtual_key(&key) {
                Some(m) => {
                    if self.contains(m) {
                        v.push(key);
                    }
                },
                None => {},
            }
            i += 1;
        }
        assert(order@.take(8) == order@);
        v
    }

    /// Returns the report byte.
    pub fn to_byte(&self) -> (r: u8)
        ensures
            r == self.bits,
    {
        self.bits
    }

    /// The modifier flag of a HID key code, if the key is a modifier.
    pub open spec fn spec_try_from_key_code(key: HidKeyCode) -> Option<Self> {
        match key {
            HidKeyCode::LeftCtrl => Some(HidModifierKeys { bits: 0x01 }),
            HidKeyCode::LeftShift => Some(HidModifierKeys { bits: 0x02 }),
            HidKeyCode::LeftAlt => Some(HidModifierKeys { bits: 0x04 }),
            HidKeyCode::LeftMeta => Some(HidModifierKeys { bits: 0x08 }),
            HidKeyCode::RightCtrl => Some(HidModifierKeys { bits: 0x10 }),
            HidKeyCode::RightShift => Some(HidModifierKeys { bits: 0x20 }),
            HidKeyCode::RightAlt => Some(HidModifierKeys { bits: 0x40 }),
            HidKeyCode::RightMeta => Some(HidModifierKeys { bits: 0x80 }),
            _ => None,
        }
    }

    /// Returns the modifier flag of a HID key code, or `None` if the key is no modifier.
    pub fn try_from_key_code(key: HidKeyCode) -> (r: Option<Self>)
        ensures
            r == Self::spec_try_from_key_code(key),
    {
        match key {
            HidKeyCode::LeftCtrl => Some(HidModifierKeys::LCtrl()),
            HidKeyCode::LeftShift => Some(HidModifierKeys::LShift()),
            HidKeyCode::LeftAlt => Some(HidModifierKeys::LAlt()),
            HidKeyCode::LeftMeta => Some(HidModifierKeys::LMeta()),
            HidKeyCode::RightCtrl => Some(HidModifierKeys::RCtrl()),
            HidKeyCode::RightShift => Some(HidModifierKeys::RShift()),
            HidKeyCode::RightAlt => Some(HidModifierKeys::RAlt()),
            HidKeyCode::RightMeta => Some(HidModifierKeys::RMeta()),
            _ => None,
        }
    }
}

impl HidMouseButtons {
    /// The button flag of a virtual key, if the key is a mouse button.
    pub open spec fn spec_from_virtual_key(key: VirtualKey) -> Option<Self> {
        match key {
            VirtualKey::LButton => Some(HidMouseButtons { bits: 0x01 }),
            VirtualKey::RButton => Some(HidMouseButtons { bits: 0x02 }),
            VirtualKey::MButton => Some(HidMouseButtons { bits: 0x04 }),
            VirtualKey::XButton1 => Some(HidMouseButtons { bits: 0x08 }),
            VirtualKey::XButton2 => Some(HidMouseButtons { bits: 0x10 }),
            _ => None,
        }
    }

    /// Whether the flag of mouse button `key` is set here.
    pub open spec fn holds_key(self, key: VirtualKey) -> bool {
        Self::spec_from_virtual_key(key) matches Some(m) && self.spec_contains(m)
    }

    /// Returns the button flag of a virtual key, or `None` if the key is no mouse button.
    pub fn from_virtual_key(key: &VirtualKey) -> (r: Option<Self>)
        ensures
            r == Self::spec_from_virtual_key(*key),
    {
        match key {
            VirtualKey::LButton => Some(HidMouseButtons::LButton()),
            VirtualKey::RButton => Some(HidMouseButtons::RButton()),
            VirtualKey::MButton => Some(HidMouseButtons::MButton()),
            VirtualKey::XButton1 => Some(HidMouseButtons::Button4()),
            VirtualKey::XButton2 => Some(HidMouseButtons::Button5()),
            _ => None,
        }
    }

    /// Returns the buttons whose flags are set, in the order of `mouse_button_order`.
    pub fn to_virtual_keys(&self) -> (r: Vec<VirtualKey>)
        ensures
            r@ == mouse_button_order().filter(|k: VirtualKey| self.holds_key(k)),
    {
        let order = [
            VirtualKey::LButton,
            VirtualKey::RButton,
            VirtualKey::MButton,
            VirtualKey::XButton1,
            VirtualKey::XButton2,
        ];
        let ghost pred = |k: VirtualKey| self.holds_key(k);
        assert(order@ == mouse_button_order());
        let mut v: Vec<VirtualKey> = Vec::new();
        let mut i: usize = 0;
        while i < 5
            invariant
                i <= 5,
                order@ == mouse_button_order(),
                pred == (|k: VirtualKey| self.holds_key(k)),
                v@ == order@.take(i as int).filter(pred),
            decreases 5 - i,
        {
            let key = order[i];
            proof {
                assert(order@.take(i + 1) == order@.take(i as int).push(key));
                order@.take(i as int).lemma_filter_push(key, pred);
            }
            match HidMouseButtons::from_virtual_key(&key) {
                Some(m) => {
                    if self.contains(m) {
                        v.push(key);
                    }
                },
                None => {},
            }
            i += 1;
        }
        assert(order@.take(5) == order@);
        v
    }

    /// Returns the report byte.
    pub fn to_byte(&self) -> (r: u8)
        ensures
            r == self.bits,
    {
        self.bits
    }

    /// The button flag of a protocol button code; `NoButton` has none.
    pub open spec fn spec_try_from_button_code(button: HidButtonCode) -> Option<Self> {
        match button {
            HidButtonCode::NoButton => None,
            HidButtonCode::LButton => Some(HidMouseButtons { bits: 0x01 }),
            HidButtonCode::RButton => Some(HidMouseButtons { bits: 0x02 }),
            HidButtonCode::MButton => Some(HidMouseButtons { bits: 0x04 }),
            HidButtonCode::Button4 => Some(HidMouseButtons { bits: 0x08 }),
            HidButtonCode::Button5 => Some(HidMouseButtons { bits: 0x10 }),
        }
    }

    /// Returns the button flag of a protocol button code, or `None` for `NoButton`.
    pub fn try_from_button_code(button: HidButtonCode) -> (r: Option<Self>)
        ensures
            r == Self::spec_try_from_button_code(button),
    {
        match button {
            HidButtonCode::NoButton => None,
            HidButtonCode::LButton => Some(HidMouseButtons::LButton()),
            HidButtonCode::RButton => Some(HidMouseButtons::RButton()),
            HidButtonCode::MButton => Some(HidMouseButtons::MButton()),
            HidButtonCode::Button4 => Some(HidMouseButtons::Button4()),
            HidButtonCode::Button5 => Some(HidMouseButtons::Button5()),
        }
    }
}

impl ConsumerDeviceButtons {
    /// The button flag of a consumer device code; `NoKey` has none.
    pub open spec fn spec_try_from_device_code(code: ConsumerDeviceCode) -> Option<Self> {
        match code {
            ConsumerDeviceCode::NextTrack => Some(ConsumerDeviceButtons { bits: 0x0001 }),
            ConsumerDeviceCode::PreviousTrack => Some(ConsumerDeviceButtons { bits: 0x0002 }),
            ConsumerDeviceCode::Stop => Some(ConsumerDeviceButtons { bits: 0x0004 }),
            ConsumerDeviceCode::PlayPause => Some(ConsumerDeviceButtons { bits: 0x0008 }),
            ConsumerDeviceCode::Mute => Some(ConsumerDeviceButtons { bits: 0x0010 }),
            ConsumerDeviceCode::VolumeUp => Some(ConsumerDeviceButtons { bits: 0x0020 }),
            ConsumerDeviceCode::VolumeDown => Some(ConsumerDeviceButtons { bits: 0x0040 }),
            ConsumerDeviceCode::MediaSelect => Some(ConsumerDeviceButtons { bits: 0x4000 }),
            ConsumerDeviceCode::Mail => Some(ConsumerDeviceButtons { bits: 0x8000 }),
            ConsumerDeviceCode::Calculator => Some(ConsumerDeviceButtons { bits: 0x0200 }),
            ConsumerDeviceCode::MyComputer => Some(ConsumerDeviceButtons { bits: 0x0100 }),
            ConsumerDeviceCode::BrowserSearch => Some(ConsumerDeviceButtons { bits: 0x0800 }),
            ConsumerDeviceCode::BrowserHome => Some(ConsumerDeviceButtons { bits: 0x0080 }),
            ConsumerDeviceCode::BrowserBack => Some(ConsumerDeviceButtons { bits: 0x2000 }),
            ConsumerDeviceCode::BrowserStop => Some(ConsumerDeviceButtons { bits: 0x1000 }),
            ConsumerDeviceCode::BrowserFavorites => Some(ConsumerDeviceButtons { bits: 0x0400 }),
            _ => None,
        }
    }

    /// Returns the button flag of a consumer device code, or `None` for `NoKey`.
    pub fn try_from_device_code(code: ConsumerDeviceCode) -> (r: Option<Self>)
        ensures
            r == Self::spec_try_from_device_code(code),
    {
        match code {
            ConsumerDeviceCode::NextTrack => Some(ConsumerDeviceButtons::NextTrack()),
            ConsumerDeviceCode::PreviousTrack => Some(ConsumerDeviceButtons::PreviousTrack()),
            ConsumerDeviceCode::Stop => Some(ConsumerDeviceButtons::Stop()),
            ConsumerDeviceCode::PlayPause => Some(ConsumerDeviceButtons::PlayPause()),
            ConsumerDeviceCode::Mute => Some(ConsumerDeviceButtons::Mute()),
            ConsumerDeviceCode::VolumeUp => Some(ConsumerDeviceButtons::VolumeUp()),
            ConsumerDeviceCode::VolumeDown => Some(ConsumerDeviceButtons::VolumeDown()),
            ConsumerDeviceCode::MediaSelect => Some(ConsumerDeviceButtons::MediaSelect()),
            ConsumerDeviceCode::Mail => Some(ConsumerDeviceButtons::Mail()),
            ConsumerDeviceCode::Calculator => Some(ConsumerDeviceButtons::Calculator()),
            ConsumerDeviceCode::MyComputer => Some(ConsumerDeviceButtons::MyComputer()),
            ConsumerDeviceCode::BrowserSearch => Some(ConsumerDeviceButtons::BrowserSearch()),
            ConsumerDeviceCode::BrowserHome => Some(ConsumerDeviceButtons::BrowserHome()),
            ConsumerDeviceCode::BrowserBack => Some(ConsumerDeviceButtons::BrowserBack()),
            ConsumerDeviceCode::BrowserStop => Some(ConsumerDeviceButtons::BrowserStop()),
            ConsumerDeviceCode::BrowserFavorites => Some(ConsumerDeviceButtons::BrowserFavorites()),
            _ => None,
        }
    }
}

/// The HID usage code of a Windows scan code, where the keyboard report has one.
pub open spec fn spec_convert_win2hid(scancode: WindowsScanCode) -> Option<HidScanCode> {
    match scancode {
        0x1 => Some(0x29),
        0x2 => Some(0x1e),
        0x3 => Some(0x1f),
        0x4 => Some(0x20),
        0x5 => Some(0x21),
        0x6 => Some(0x22),
        0x7 => Some(0x23),
        0x8 => Some(0x24),
        0x9 => Some(0x25),
        0xa => Some(0x26),
        0xb => Some(0x27),
        0xc => Some(0x2d),
        0xd => Some(0x2e),
        0xe => Some(0x2a),
        0xf => Some(0x2b),
        0x10 => Some(0x14),
        0x11 => Some(0x1a),
        0x12 => Some(0x8),
        0x13 => Some(0x15),
        0x14 => Some(0x17),
        0x15 => Some(0x1c),
        0x16 => Some(0x18),
        0x17 => Some(0xc),
        0x18 => Some(0x12),
        0x19 => Some(0x13),
        0x1a => Some(0x2f),
        0x1b => Some(0x30),
        0x1c => Some(0x28),
        0x1d => Some(0xe0),
        0x1e => Some(0x4),
        0x1f => Some(0x16),
        0x20 => Some(0x7),
        0x21 => Some(0x9),
        0x22 => Some(0xa),
        0x23 => Some(0xb),
        0x24 => Some(0xd),
        0x25 => Some(0xe),
        0x26 => Some(0xf),
        0x27 => Some(0x33),
        0x28 => Some(0x34),
        0x29 => Some(0x35),
        0x2a => Some(0xe1),
        0x2b => Some(0x31),
        0x2c => Some(0x1d),
        0x2d => Some(0x1b),
        0x2e => Some(0x6),
        0x2f => Some(0x19),
        0x30 => Some(0x5),
        0x31 => Some(0x11),
        0x32 => Some(0x10),
        0x33 => Some(0x36),
        0x34 => Some(0x37),
        0x35 => Some(0x38),
        0x36 => Some(0xe5),
        0x37 => Some(0x55),
        0x38 => Some(0xe2),
        0x39 => Some(0x2c),
        0x3a => Some(0x39),
        0x3b => Some(0x3a),
        0x3c => Some(0x3b),
        0x3d => Some(0x3c),
        0x3e => Some(0x3d),
        0x3f => Some(0x3e),
        0x40 => Some(0x3f),
        0x41 => Some(0x40),
        0x42 => Some(0x41),
        0x43 => Some(0x42),
        0x44 => Some(0x43),
        0x45 => Some(0x53),
        0x46 => Some(0x47),
        0x47 => Some(0x5f),
        0x48 => Some(0x60),
        0x49 => Some(0x61),
        0x4a => Some(0x56),
        0x4b => Some(0x5c),
        0x4c => Some(0x5d),
        0x4d => Some(0x5e),
        0x4e => Some(0x57),
        0x4f => Some(0x59),
        0x50 => Some(0x5a),
        0x51 => Some(0x5b),
        0x52 => Some(0x62),
        0x53 => Some(0x63),
        0x54 => Some(0x46),
        0x56 => Some(0x64),
        0x57 => Some(0x44),
        0x58 => Some(0x45),
        0x59 => Some(0x67),
        0x5c => Some(0x8c),
        0x64 => Some(0x68),
        0x65 => Some(0x69),
        0x66 => Some(0x6a),
        0x67 => Some(0x6b),
        0x68 => Some(0x6c),
        0x69 => Some(0x6d),
        0x6a => Some(0x6e),
        0x6b => Some(0x6f),
        0x6c => Some(0x70),
        0x6d => Some(0x71),
        0x6e => Some(0x72),
        0x70 => Some(0x88),
        0x73 => Some(0x87),
        0x76 => Some(0x73),
        0x77 => Some(0x93),
        0x78 => Some(0x92),
        0x79 => Some(0x8a),
        0x7b => Some(0x8b),
        0x7d => Some(0x89),
        0x7e => Some(0x85),
        0xf1 => Some(0x91),
        0xf2 => Some(0x90),
        0xfc => Some(0x2),
        0xff => Some(0x1),
        0xe010 => Some(0xea),
        0xe019 => Some(0xeb),
        0xe01c => Some(0x58),
        0xe01d => Some(0xe4),
        0xe020 => Some(0xef),
        0xe021 => Some(0xfb),
        0xe022 => Some(0xe8),
        0xe024 => Some(0xe9),
        0xe02e => Some(0xee),
        0xe030 => Some(0xed),
        0xe032 => Some(0xf0),
        0xe035 => Some(0x54),
        0xe038 => Some(0xe6),
        0xe047 => Some(0x4a),
        0xe048 => Some(0x52),
        0xe049 => Some(0x4b),
        0xe04b => Some(0x50),
        0xe04d => Some(0x4f),
        0xe04f => Some(0x4d),
        0xe050 => Some(0x51),
        0xe051 => Some(0x4e),
        0xe052 => Some(0x49),
        0xe053 => Some(0x4c),
        0xe05b => Some(0xe3),
        0xe05c => Some(0xe7),
        0xe05d => Some(0x65),
        0xe05e => Some(0x66),
        0xe05f => Some(0x82),
        0xe063 => Some(0x83),
        0xe065 => Some(0xf4),
        0xe067 => Some(0xfa),
        0xe068 => Some(0xf3),
        0xe069 => Some(0xf2),
        0xe06a => Some(0xf1),
        0xe06d => Some(0xec),
        0xe11d => Some(0x48),
        _ => None,
    }
}

/// Returns the HID usage code of a Windows scan code, or `None` where the keyboard report has none.
pub fn convert_win2hid(scancode: &WindowsScanCode) -> (r: Option<HidScanCode>)
    ensures
        r == spec_convert_win2hid(*scancode),
{
    match *scancode {
        0x1 => Some(0x29),
        0x2 => Some(0x1e),
        0x3 => Some(0x1f),
        0x4 => Some(0x20),
        0x5 => Some(0x21),
        0x6 => Some(0x22),
        0x7 => Some(0x23),
        0x8 => Some(0x24),
        0x9 => Some(0x25),
        0xa => Some(0x26),
        0xb => Some(0x27),
        0xc => Some(0x2d),
        0xd => Some(0x2e),
        0xe => Some(0x2a),
        0xf => Some(0x2b),
        0x10 => Some(0x14),
        0x11 => Some(0x1a),
        0x12 => Some(0x8),
        0x13 => Some(0x15),
        0x14 => Some(0x17),
        0x15 => Some(0x1c),
        0x16 => Some(0x18),
        0x17 => Some(0xc),
        0x18 => Some(0x12),
        0x19 => Some(0x13),
        0x1a => Some(0x2f),
        0x1b => Some(0x30),
        0x1c => Some(0x28),
        0x1d => Some(0xe0),
        0x1e => Some(0x4),
        0x1f => Some(0x16),
        0x20 => Some(0x7),
        0x21 => Some(0x9),
        0x22 => Some(0xa),
        0x23 => Some(0xb),
        0x24 => Some(0xd),
        0x25 => Some(0xe),
        0x26 => Some(0xf),
        0x27 => Some(0x33),
        0x28 => Some(0x34),
        0x29 => Some(0x35),
        0x2a => Some(0xe1),
        0x2b => Some(0x31),
        0x2c => Some(0x1d),
        0x2d => Some(0x1b),
        0x2e => Some(0x6),
        0x2f => Some(0x19),
        0x30 => Some(0x5),
        0x31 => Some(0x11),
        0x32 => Some(0x10),
        0x33 => Some(0x36),
        0x34 => Some(0x37),
        0x35 => Some(0x38),
        0x36 => Some(0xe5),
        0x37 => Some(0x55),
        0x38 => Some(0xe2),
        0x39 => Some(0x2c),
        0x3a => Some(0x39),
        0x3b => Some(0x3a),
        0x3c => Some(0x3b),
        0x3d => Some(0x3c),
        0x3e => Some(0x3d),
        0x3f => Some(0x3e),
        0x40 => Some(0x3f),
        0x41 => Some(0x40),
        0x42 => Some(0x41),
        0x43 => Some(0x42),
        0x44 => Some(0x43),
        0x45 => Some(0x53),
        0x46 => Some(0x47),
        0x47 => Some(0x5f),
        0x48 => Some(0x60),
        0x49 => Some(0x61),
        0x4a => Some(0x56),
        0x4b => Some(0x5c),
        0x4c => Some(0x5d),
        0x4d => Some(0x5e),
        0x4e => Some(0x57),
        0x4f => Some(0x59),
        0x50 => Some(0x5a),
        0x51 => Some(0x5b),
        0x52 => Some(0x62),
        0x53 => Some(0x63),
        0x54 => Some(0x46),
        0x56 => Some(0x64),
        0x57 => Some(0x44),
        0x58 => Some(0x45),
        0x59 => Some(0x67),
        0x5c => Some(0x8c),
        0x64 => Some(0x68),
        0x65 => Some(0x69),
        0x66 => Some(0x6a),
        0x67 => Some(0x6b),
        0x68 => Some(0x6c),
        0x69 => Some(0x6d),
        0x6a => Some(0x6e),
        0x6b => Some(0x6f),
        0x6c => Some(0x70),
        0x6d => Some(0x71),
        0x6e => Some(0x72),
        0x70 => Some(0x88),
        0x73 => Some(0x87),
        0x76 => Some(0x73),
        0x77 => Some(0x93),
        0x78 => Some(0x92),
        0x79 => Some(0x8a),
        0x7b => Some(0x8b),
        0x7d => Some(0x89),
        0x7e => Some(0x85),
        0xf1 => Some(0x91),
        0xf2 => Some(0x90),
        0xfc => Some(0x2),
        0xff => Some(0x1),
        0xe010 => Some(0xea),
        0xe019 => Some(0xeb),
        0xe01c => Some(0x58),
        0xe01d => Some(0xe4),
        0xe020 => Some(0xef),
        0xe021 => Some(0xfb),
        0xe022 => Some(0xe8),
        0xe024 => Some(0xe9),
        0xe02e => Some(0xee),
        0xe030 => Some(0xed),
        0xe032 => Some(0xf0),
        0xe035 => Some(0x54),
        0xe038 => Some(0xe6),
        0xe047 => Some(0x4a),
        0xe048 => Some(0x52),
        0xe049 => Some(0x4b),
        0xe04b => Some(0x50),
        0xe04d => Some(0x4f),
        0xe04f => Some(0x4d),
        0xe050 => Some(0x51),
        0xe051 => Some(0x4e),
        0xe052 => Some(0x49),
        0xe053 => Some(0x4c),
        0xe05b => Some(0xe3),
        0xe05c => Some(0xe7),
        0xe05d => Some(0x65),
        0xe05e => Some(0x66),
        0xe05f => Some(0x82),
        0xe063 => Some(0x83),
        0xe065 => Some(0xf4),
        0xe067 => Some(0xfa),
        0xe068 => Some(0xf3),
        0xe069 => Some(0xf2),
        0xe06a => Some(0xf1),
        0xe06d => Some(0xec),
        0xe11d => Some(0x48),
        _ => None,
    }
}

/// The flag of a modifier key lists exactly that key.
pub proof fn lemma_modifier_flag_roundtrip(key: VirtualKey)
    requires
        HidModifierKeys::spec_from_virtual_key(key) is Some,
    ensures
        ({
            let f = HidModifierKeys::spec_from_virtual_key(key)->0;
            modifier_key_order().filter(|k: VirtualKey| f.holds_key(k)) == seq![key]
        }),
{
    let f = HidModifierKeys::spec_from_virtual_key(key)->0;
    let b = f.bits;
    assert(b == 0x01 || b == 0x02 || b == 0x04 || b == 0x08 || b == 0x10 || b == 0x20 || b == 0x40
        || b == 0x80);
    assert(forall|c: u8|
        (c == 0x01 || c == 0x02 || c == 0x04 || c == 0x08 || c == 0x10 || c == 0x20 || c == 0x40
            || c == 0x80) ==> ((b & c == c) <==> c == b)) by (bit_vector)
        requires
            b == 0x01 || b == 0x02 || b == 0x04 || b == 0x08 || b == 0x10 || b == 0x20 || b == 0x40
                || b == 0x80,
    ;
    reveal_with_fuel(Seq::<_>::filter, 9);
    assert(modifier_key_order().filter(|k: VirtualKey| f.holds_key(k)) =~= seq![key]);
}

/// The flag of a mouse button lists exactly that button.
pub proof fn lemma_button_flag_roundtrip(key: VirtualKey)
    requires
        HidMouseButtons::spec_from_virtual_key(key) is Some,
    ensures
        ({
            let f = HidMouseButtons::spec_from_virtual_key(key)->0;
            mouse_button_order().filter(|k: VirtualKey| f.holds_key(k)) == seq![key]
        }),
{
    let f = HidMouseButtons::spec_from_virtual_key(key)->0;
    let b = f.bits;
    assert(forall|c: u8|
        (c == 0x01 || c == 0x02 || c == 0x04 || c == 0x08 || c == 0x10) ==> ((b & c == c) <==> c
            == b)) by (bit_vector)
        requires
            b == 0x01 || b == 0x02 || b == 0x04 || b == 0x08 || b == 0x10,
    ;
    reveal_with_fuel(Seq::<_>::filter, 6);
    assert(mouse_button_order().filter(|k: VirtualKey| f.holds_key(k)) =~= seq![key]);
}

/// The modifier flag of a key, or none.
pub open spec fn modifier_flag(k: VirtualKey) -> u8 {
    match HidModifierKeys::spec_from_virtual_key(k) {
        Some(m) => m.bits,
        None => 0,
    }
}

/// The modifier flags of `keys`, combined.
pub open spec fn modifier_bits_of(keys: Seq<VirtualKey>) -> u8
    decreases keys.len(),
{
    if keys.len() == 0 {
        0
    } else {
        modifier_bits_of(keys.drop_last()) | modifier_flag(keys.last())
    }
}

/// The button flag of a key, or none.
pub open spec fn button_flag(k: VirtualKey) -> u8 {
    match HidMouseButtons::spec_from_virtual_key(k) {
        Some(b) => b.bits,
        None => 0,
    }
}

/// The button flags of `keys`, combined.
pub open spec fn button_bits_of(keys: Seq<VirtualKey>) -> u8
    decreases keys.len(),
{
    if keys.len() == 0 {
        0
    } else {
        button_bits_of(keys.drop_last()) | button_flag(keys.last())
    }
}

/// The number of set bits of `b`.
pub open spec fn count_ones(b: u8) -> int {
    ((b >> 0u8) & 1) as int + ((b >> 1u8) & 1) as int + ((b >> 2u8) & 1) as int + ((b >> 3u8) & 1) as int
        + ((b >> 4u8) & 1) as int + ((b >> 5u8) & 1) as int + ((b >> 6u8) & 1) as int + ((b >> 7u8)
        & 1) as int
}

/// One more key of the order, through the filter of the held modifiers.
proof fn lemma_modifier_filter_step(prefix: Seq<VirtualKey>, k: VirtualKey, m: HidModifierKeys)
    requires
        !prefix.contains(k),
        prefix.filter(|x: VirtualKey| m.holds_key(x)).no_duplicates(),
    ensures
        ({
            let g = prefix.filter(|x: VirtualKey| m.holds_key(x));
            let f = prefix.push(k).filter(|x: VirtualKey| m.holds_key(x));
            &&& f.len() == g.len() + (if m.holds_key(k) {
                1int
            } else {
                0
            })
            &&& modifier_bits_of(f) == (if m.holds_key(k) {
                modifier_bits_of(g) | modifier_flag(k)
            } else {
                modifier_bits_of(g)
            })
            &&& f.no_duplicates()
        }),
{
    let pred = |x: VirtualKey| m.holds_key(x);
    let g = prefix.filter(pred);
    prefix.lemma_filter_push(k, pred);
    if m.holds_key(k) {
        let f = g.push(k);
        assert(f.drop_last() =~= g);
        assert(!g.contains(k)) by {
            if g.contains(k) {
                prefix.lemma_filter_contains_rev(pred, k);
            }
        }
        assert forall|i: int, j: int| 0 <= i < j < f.len() implies f[i] != f[j] by {
            if j == f.len() - 1 {
                assert(g[i] == f[i]);
            } else {
                assert(g[i] == f[i] && g[j] == f[j]);
            }
        }
    }
}

/// One more key of the order, through the filter of the held buttons.
proof fn lemma_button_filter_step(prefix: Seq<VirtualKey>, k: VirtualKey, m: HidMouseButtons)
    requires
        !prefix.contains(k),
        prefix.filter(|x: VirtualKey| m.holds_key(x)).no_duplicates(),
    ensures
        ({
            let g = prefix.filter(|x: VirtualKey| m.holds_key(x));
            let f = prefix.push(k).filter(|x: VirtualKey| m.holds_key(x));
            &&& f.len() == g.len() + (if m.holds_key(k) {
                1int
            } else {
                0
            })
            &&& button_bits_of(f) == (if m.holds_key(k) {
                button_bits_of(g) | button_flag(k)
            } else {
                button_bits_of(g)
            })
            &&& f.no_duplicates()
        }),
{
    let pred = |x: VirtualKey| m.holds_key(x);
    let g = prefix.filter(pred);
    prefix.lemma_filter_push(k, pred);
    if m.holds_key(k) {
        let f = g.push(k);
        assert(f.drop_last() =~= g);
        assert(!g.contains(k)) by {
            if g.contains(k) {
                prefix.lemma_filter_contains_rev(pred, k);
            }
        }
        assert forall|i: int, j: int| 0 <= i < j < f.len() implies f[i] != f[j] by {
            if j == f.len() - 1 {
                assert(g[i] == f[i]);
            } else {
                assert(g[i] == f[i] && g[j] == f[j]);
            }
        }
    }
}

/// How many keys of `o.take(k)` have their modifier flag set in `m`.
pub open spec fn held_modifier_count(m: HidModifierKeys, o: Seq<VirtualKey>, k: int) -> int
    decreases k,
{
    if k <= 0 {
        0
    } else {
        held_modifier_count(m, o, k - 1) + if m.holds_key(o[k - 1]) {
            1int
        } else {
            0
        }
    }
}

/// The flags of the keys of `o.take(k)` that are set in `m`, combined.
pub open spec fn held_modifier_bits(m: HidModifierKeys, o: Seq<VirtualKey>, k: int) -> u8
    decreases k,
{
    if k <= 0 {
        0
    } else {
        held_modifier_bits(m, o, k - 1) | if m.holds_key(o[k - 1]) {
            modifier_flag(o[k - 1])
        } else {
            0u8
        }
    }
}

proof fn lemma_modifier_prefix(m: HidModifierKeys, k: int)
    requires
        0 <= k <= 8,
    ensures
        ({
            let f = modifier_key_order().take(k).filter(|x: VirtualKey| m.holds_key(x));
            &&& f.no_duplicates()
            &&& f.len() == held_modifier_count(m, modifier_key_order(), k)
            &&& modifier_bits_of(f) == held_modifier_bits(m, modifier_key_order(), k)
        }),
    decreases k,
{
    let o = modifier_key_order();
    let pred = |x: VirtualKey| m.holds_key(x);
    if k == 0 {
        assert(o.take(0) =~= Seq::<VirtualKey>::empty());
        reveal_with_fuel(Seq::<_>::filter, 1);
        assert(o.take(0).filter(pred) =~= Seq::<VirtualKey>::empty());
    } else {
        lemma_modifier_prefix(m, k - 1);
        assert(o.take(k) =~= o.take(k - 1).push(o[k - 1]));
        let p = o.take(k - 1);
        assert(!p.contains(o[k - 1])) by {
            if p.contains(o[k - 1]) {
                let j = choose|j: int| 0 <= j < p.len() && #[trigger] p[j] == o[k - 1];
                assert(o[j] == o[k - 1]);
            }
        }
        lemma_modifier_filter_step(o.take(k - 1), o[k - 1], m);
        let b = held_modifier_bits(m, o, k - 1);
        assert((b | 0u8) == b) by (bit_vector);
    }
}

/// The keys that a modifier byte lists are one per set bit, none twice, each
/// a modifier key, and their flags combined give the byte back.
#[verifier::spinoff_prover]
#[verifier::rlimit(60)]
pub proof fn lemma_modifier_keys_roundtrip(m: HidModifierKeys)
    ensures
        ({
            let v = modifier_key_order().filter(|k: VirtualKey| m.holds_key(k));
            &&& v.len() == count_ones(m.bits)
            &&& v.no_duplicates()
            &&& forall|i: int| 0 <= i < v.len() ==> HidModifierKeys::spec_from_virtual_key(#[trigger] v[i]) is Some
            &&& modifier_bits_of(v) == m.bits
        }),
{
    let o = modifier_key_order();
    let pred = |k: VirtualKey| m.holds_key(k);
    lemma_modifier_prefix(m, 8);
    assert(o.take(8) =~= o);
    let v = o.filter(pred);
    assert forall|i: int| 0 <= i < v.len() implies HidModifierKeys::spec_from_virtual_key(#[trigger] v[i]) is Some by {
        o.lemma_filter_pred(pred, i);
    }
    reveal_with_fuel(held_modifier_count, 9);
    reveal_with_fuel(held_modifier_bits, 9);
    let b = m.bits;
    assert(((((((((0u8 | (if b & 0x02 == 0x02 { 0x02u8 } else { 0u8 })) | (if b & 0x01 == 0x01 { 0x01u8 } else { 0u8 }))
        | (if b & 0x08 == 0x08 { 0x08u8 } else { 0u8 })) | (if b & 0x04 == 0x04 { 0x04u8 } else { 0u8 }))
        | (if b & 0x20 == 0x20 { 0x20u8 } else { 0u8 })) | (if b & 0x10 == 0x10 { 0x10u8 } else { 0u8 }))
        | (if b & 0x80 == 0x80 { 0x80u8 } else { 0u8 })) | (if b & 0x40 == 0x40 { 0x40u8 } else { 0u8 })) == b)
        by (bit_vector);
    assert((if b & 0x02 == 0x02 { 1int } else { 0 }) + (if b & 0x01 == 0x01 { 1int } else { 0 })
        + (if b & 0x08 == 0x08 { 1int } else { 0 }) + (if b & 0x04 == 0x04 { 1int } else { 0 })
        + (if b & 0x20 == 0x20 { 1int } else { 0 }) + (if b & 0x10 == 0x10 { 1int } else { 0 })
        + (if b & 0x80 == 0x80 { 1int } else { 0 }) + (if b & 0x40 == 0x40 { 1int } else { 0 })
        == count_ones(b)) by (bit_vector);
}

/// How many keys of `o.take(k)` have their button flag set in `m`.
pub open spec fn held_button_count(m: HidMouseButtons, o: Seq<VirtualKey>, k: int) -> int
    decreases k,
{
    if k <= 0 {
        0
    } else {
        held_button_count(m, o, k - 1) + if m.holds_key(o[k - 1]) {
            1int
        } else {
            0
        }
    }
}

/// The flags of the keys of `o.take(k)` that are set in `m`, combined.
pub open spec fn held_button_bits(m: HidMouseButtons, o: Seq<VirtualKey>, k: int) -> u8
    decreases k,
{
    if k <= 0 {
        0
    } else {
        held_button_bits(m, o, k - 1) | if m.holds_key(o[k - 1]) {
            button_flag(o[k - 1])
        } else {
            0u8
        }
    }
}

proof fn lemma_button_prefix(m: HidMouseButtons, k: int)
    requires
        0 <= k <= 5,
    ensures
        ({
            let f = mouse_button_order().take(k).filter(|x: VirtualKey| m.holds_key(x));
            &&& f.no_duplicates()
            &&& f.len() == held_button_count(m, mouse_button_order(), k)
            &&& button_bits_of(f) == held_button_bits(m, mouse_button_order(), k)
        }),
    decreases k,
{
    let o = mouse_button_order();
    let pred = |x: VirtualKey| m.holds_key(x);
    if k == 0 {
        assert(o.take(0) =~= Seq::<VirtualKey>::empty());
        reveal_with_fuel(Seq::<_>::filter, 1);
        assert(o.take(0).filter(pred) =~= Seq::<VirtualKey>::empty());
    } else {
        lemma_button_prefix(m, k - 1);
        assert(o.take(k) =~= o.take(k - 1).push(o[k - 1]));
        let p = o.take(k - 1);
        assert(!p.contains(o[k - 1])) by {
            if p.contains(o[k - 1]) {
                let j = choose|j: int| 0 <= j < p.len() && #[trigger] p[j] == o[k - 1];
                assert(o[j] == o[k - 1]);
            }
        }
        lemma_button_filter_step(o.take(k - 1), o[k - 1], m);
        let b = held_button_bits(m, o, k - 1);
        assert((b | 0u8) == b) by (bit_vector);
    }
}

/// The buttons that a button byte without undefined bits lists are one per
/// set bit, none twice, each a mouse button, and their flags combined give
/// the byte back.
#[verifier::spinoff_prover]
#[verifier::rlimit(60)]
pub proof fn lemma_button_keys_roundtrip(m: HidMouseButtons)
    requires
        m.bits & !0x1fu8 == 0,
    ensures
        ({
            let v = mouse_button_order().filter(|k: VirtualKey| m.holds_key(k));
            &&& v.len() == count_ones(m.bits)
            &&& v.no_duplicates()
            &&& forall|i: int| 0 <= i < v.len() ==> HidMouseButtons::spec_from_virtual_key(#[trigger] v[i]) is Some
            &&& button_bits_of(v) == m.bits
        }),
{
    let o = mouse_button_order();
    let pred = |k: VirtualKey| m.holds_key(k);
    lemma_button_prefix(m, 5);
    assert(o.take(5) =~= o);
    let v = o.filter(pred);
    assert forall|i: int| 0 <= i < v.len() implies HidMouseButtons::spec_from_virtual_key(#[trigger] v[i]) is Some by {
        o.lemma_filter_pred(pred, i);
    }
    reveal_with_fuel(held_button_count, 6);
    reveal_with_fuel(held_button_bits, 6);
    let b = m.bits;
    assert(b & !0x1fu8 == 0 ==> ((((((0u8 | (if b & 0x01 == 0x01 { 0x01u8 } else { 0u8 }))
        | (if b & 0x02 == 0x02 { 0x02u8 } else { 0u8 })) | (if b & 0x04 == 0x04 { 0x04u8 } else { 0u8 }))
        | (if b & 0x08 == 0x08 { 0x08u8 } else { 0u8 })) | (if b & 0x10 == 0x10 { 0x10u8 } else { 0u8 })) == b))
        by (bit_vector);
    assert(b & !0x1fu8 == 0 ==> (if b & 0x01 == 0x01 { 1int } else { 0 }) + (if b & 0x02 == 0x02 { 1int } else { 0 })
        + (if b & 0x04 == 0x04 { 1int } else { 0 }) + (if b & 0x08 == 0x08 { 1int } else { 0 })
        + (if b & 0x10 == 0x10 { 1int } else { 0 }) == count_ones(b)) by (bit_vector);
}

/// The scan code at position `i` of the scan codes that have a HID usage, in
/// ascending order.
pub open spec fn mapped_scancode_at(i: int) -> u16 {
    if 0 <= i < 149 {
        mapped_scancode_table(i as u8)
    } else {
        0
    }
}

/// The scan codes that have a HID usage, by position.
pub open spec fn mapped_scancode_table(i: u8) -> u16 {
    match i {
        0 => 0x1,
        1 => 0x2,
        2 => 0x3,
        3 => 0x4,
        4 => 0x5,
        5 => 0x6,
        6 => 0x7,
        7 => 0x8,
        8 => 0x9,
        9 => 0xa,
        10 => 0xb,
        11 => 0xc,
        12 => 0xd,
        13 => 0xe,
        14 => 0xf,
        15 => 0x10,
        16 => 0x11,
        17 => 0x12,
        18 => 0x13,
        19 => 0x14,
        20 => 0x15,
        21 => 0x16,
        22 => 0x17,
        23 => 0x18,
        24 => 0x19,
        25 => 0x1a,
        26 => 0x1b,
        27 => 0x1c,
        28 => 0x1d,
        29 => 0x1e,
        30 => 0x1f,
        31 => 0x20,
        32 => 0x21,
        33 => 0x22,
        34 => 0x23,
        35 => 0x24,
        36 => 0x25,
        37 => 0x26,
        38 => 0x27,
        39 => 0x28,
        40 => 0x29,
        41 => 0x2a,
        42 => 0x2b,
        43 => 0x2c,
        44 => 0x2d,
        45 => 0x2e,
        46 => 0x2f,
        47 => 0x30,
        48 => 0x31,
        49 => 0x32,
        50 => 0x33,
        51 => 0x34,
        52 => 0x35,
        53 => 0x36,
        54 => 0x37,
        55 => 0x38,
        56 => 0x39,
        57 => 0x3a,
        58 => 0x3b,
        59 => 0x3c,
        60 => 0x3d,
        61 => 0x3e,
        62 => 0x3f,
        63 => 0x40,
        64 => 0x41,
        65 => 0x42,
        66 => 0x43,
        67 => 0x44,
        68 => 0x45,
        69 => 0x46,
        70 => 0x47,
        71 => 0x48,
        72 => 0x49,
        73 => 0x4a,
        74 => 0x4b,
        75 => 0x4c,
        76 => 0x4d,
        77 => 0x4e,
        78 => 0x4f,
        79 => 0x50,
        80 => 0x51,
        81 => 0x52,
        82 => 0x53,
        83 => 0x54,
        84 => 0x56,
        85 => 0x57,
        86 => 0x58,
        87 => 0x59,
        88 => 0x5c,
        89 => 0x64,
        90 => 0x65,
        91 => 0x66,
        92 => 0x67,
        93 => 0x68,
        94 => 0x69,
        95 => 0x6a,
        96 => 0x6b,
        97 => 0x6c,
        98 => 0x6d,
        99 => 0x6e,
        100 => 0x70,
        101 => 0x73,
        102 => 0x76,
        103 => 0x77,
        104 => 0x78,
        105 => 0x79,
        106 => 0x7b,
        107 => 0x7d,
        108 => 0x7e,
        109 => 0xf1,
        110 => 0xf2,
        111 => 0xfc,
        112 => 0xff,
        113 => 0xe010,
        114 => 0xe019,
        115 => 0xe01c,
        116 => 0xe01d,
        117 => 0xe020,
        118 => 0xe021,
        119 => 0xe022,
        120 => 0xe024,
        121 => 0xe02e,
        122 => 0xe030,
        123 => 0xe032,
        124 => 0xe035,
        125 => 0xe038,
        126 => 0xe047,
        127 => 0xe048,
        128 => 0xe049,
        129 => 0xe04b,
        130 => 0xe04d,
        131 => 0xe04f,
        132 => 0xe050,
        133 => 0xe051,
        134 => 0xe052,
        135 => 0xe053,
        136 => 0xe05b,
        137 => 0xe05c,
        138 => 0xe05d,
        139 => 0xe05e,
        140 => 0xe05f,
        141 => 0xe063,
        142 => 0xe065,
        143 => 0xe067,
        144 => 0xe068,
        145 => 0xe069,
        146 => 0xe06a,
        147 => 0xe06d,
        148 => 0xe11d,
        _ => 0,
    }
}

/// The scan codes that have a HID usage, in ascending order.
pub open spec fn mapped_scancodes() -> Seq<u16> {
    Seq::new(149, |i: int| mapped_scancode_at(i))
}

/// The position of a scan code among `mapped_scancodes`.
spec fn mapped_scancode_index(s: u16) -> int {
    match s {
        0x1 => 0,
        0x2 => 1,
        0x3 => 2,
        0x4 => 3,
        0x5 => 4,
        0x6 => 5,
        0x7 => 6,
        0x8 => 7,
        0x9 => 8,
        0xa => 9,
        0xb => 10,
        0xc => 11,
        0xd => 12,
        0xe => 13,
        0xf => 14,
        0x10 => 15,
        0x11 => 16,
        0x12 => 17,
        0x13 => 18,
        0x14 => 19,
        0x15 => 20,
        0x16 => 21,
        0x17 => 22,
        0x18 => 23,
        0x19 => 24,
        0x1a => 25,
        0x1b => 26,
        0x1c => 27,
        0x1d => 28,
        0x1e => 29,
        0x1f => 30,
        0x20 => 31,
        0x21 => 32,
        0x22 => 33,
        0x23 => 34,
        0x24 => 35,
        0x25 => 36,
        0x26 => 37,
        0x27 => 38,
        0x28 => 39,
        0x29 => 40,
        0x2a => 41,
        0x2b => 42,
        0x2c => 43,
        0x2d => 44,
        0x2e => 45,
        0x2f => 46,
        0x30 => 47,
        0x31 => 48,
        0x32 => 49,
        0x33 => 50,
        0x34 => 51,
        0x35 => 52,
        0x36 => 53,
        0x37 => 54,
        0x38 => 55,
        0x39 => 56,
        0x3a => 57,
        0x3b => 58,
        0x3c => 59,
        0x3d => 60,
        0x3e => 61,
        0x3f => 62,
        0x40 => 63,
        0x41 => 64,
        0x42 => 65,
        0x43 => 66,
        0x44 => 67,
        0x45 => 68,
        0x46 => 69,
        0x47 => 70,
        0x48 => 71,
        0x49 => 72,
        0x4a => 73,
        0x4b => 74,
        0x4c => 75,
        0x4d => 76,
        0x4e => 77,
        0x4f => 78,
        0x50 => 79,
        0x51 => 80,
        0x52 => 81,
        0x53 => 82,
        0x54 => 83,
        0x56 => 84,
        0x57 => 85,
        0x58 => 86,
        0x59 => 87,
        0x5c => 88,
        0x64 => 89,
        0x65 => 90,
        0x66 => 91,
        0x67 => 92,
        0x68 => 93,
        0x69 => 94,
        0x6a => 95,
        0x6b => 96,
        0x6c => 97,
        0x6d => 98,
        0x6e => 99,
        0x70 => 100,
        0x73 => 101,
        0x76 => 102,
        0x77 => 103,
        0x78 => 104,
        0x79 => 105,
        0x7b => 106,
        0x7d => 107,
        0x7e => 108,
        0xf1 => 109,
        0xf2 => 110,
        0xfc => 111,
        0xff => 112,
        0xe010 => 113,
        0xe019 => 114,
        0xe01c => 115,
        0xe01d => 116,
        0xe020 => 117,
        0xe021 => 118,
        0xe022 => 119,
        0xe024 => 120,
        0xe02e => 121,
        0xe030 => 122,
        0xe032 => 123,
        0xe035 => 124,
        0xe038 => 125,
        0xe047 => 126,
        0xe048 => 127,
        0xe049 => 128,
        0xe04b => 129,
        0xe04d => 130,
        0xe04f => 131,
        0xe050 => 132,
        0xe051 => 133,
        0xe052 => 134,
        0xe053 => 135,
        0xe05b => 136,
        0xe05c => 137,
        0xe05d => 138,
        0xe05e => 139,
        0xe05f => 140,
        0xe063 => 141,
        0xe065 => 142,
        0xe067 => 143,
        0xe068 => 144,
        0xe069 => 145,
        0xe06a => 146,
        0xe06d => 147,
        0xe11d => 148,
        _ => -1,
    }
}

/// The scan code whose HID usage is `h`.
spec fn scancode_of_usage(h: u8) -> u16 {
    match h {
        0x29 => 0x1,
        0x1e => 0x2,
        0x1f => 0x3,
        0x20 => 0x4,
        0x21 => 0x5,
        0x22 => 0x6,
        0x23 => 0x7,
        0x24 => 0x8,
        0x25 => 0x9,
        0x26 => 0xa,
        0x27 => 0xb,
        0x2d => 0xc,
        0x2e => 0xd,
        0x2a => 0xe,
        0x2b => 0xf,
        0x14 => 0x10,
        0x1a => 0x11,
        0x8 => 0x12,
        0x15 => 0x13,
        0x17 => 0x14,
        0x1c => 0x15,
        0x18 => 0x16,
        0xc => 0x17,
        0x12 => 0x18,
        0x13 => 0x19,
        0x2f => 0x1a,
        0x30 => 0x1b,
        0x28 => 0x1c,
        0xe0 => 0x1d,
        0x4 => 0x1e,
        0x16 => 0x1f,
        0x7 => 0x20,
        0x9 => 0x21,
        0xa => 0x22,
        0xb => 0x23,
        0xd => 0x24,
        0xe => 0x25,
        0xf => 0x26,
        0x33 => 0x27,
        0x34 => 0x28,
        0x35 => 0x29,
        0xe1 => 0x2a,
        0x31 => 0x2b,
        0x1d => 0x2c,
        0x1b => 0x2d,
        0x6 => 0x2e,
        0x19 => 0x2f,
        0x5 => 0x30,
        0x11 => 0x31,
        0x10 => 0x32,
        0x36 => 0x33,
        0x37 => 0x34,
        0x38 => 0x35,
        0xe5 => 0x36,
        0x55 => 0x37,
        0xe2 => 0x38,
        0x2c => 0x39,
        0x39 => 0x3a,
        0x3a => 0x3b,
        0x3b => 0x3c,
        0x3c => 0x3d,
        0x3d => 0x3e,
        0x3e => 0x3f,
        0x3f => 0x40,
        0x40 => 0x41,
        0x41 => 0x42,
        0x42 => 0x43,
        0x43 => 0x44,
        0x53 => 0x45,
        0x47 => 0x46,
        0x5f => 0x47,
        0x60 => 0x48,
        0x61 => 0x49,
        0x56 => 0x4a,
        0x5c => 0x4b,
        0x5d => 0x4c,
        0x5e => 0x4d,
        0x57 => 0x4e,
        0x59 => 0x4f,
        0x5a => 0x50,
        0x5b => 0x51,
        0x62 => 0x52,
        0x63 => 0x53,
        0x46 => 0x54,
        0x64 => 0x56,
        0x44 => 0x57,
        0x45 => 0x58,
        0x67 => 0x59,
        0x8c => 0x5c,
        0x68 => 0x64,
        0x69 => 0x65,
        0x6a => 0x66,
        0x6b => 0x67,
        0x6c => 0x68,
        0x6d => 0x69,
        0x6e => 0x6a,
        0x6f => 0x6b,
        0x70 => 0x6c,
        0x71 => 0x6d,
        0x72 => 0x6e,
        0x88 => 0x70,
        0x87 => 0x73,
        0x73 => 0x76,
        0x93 => 0x77,
        0x92 => 0x78,
        0x8a => 0x79,
        0x8b => 0x7b,
        0x89 => 0x7d,
        0x85 => 0x7e,
        0x91 => 0xf1,
        0x90 => 0xf2,
        0x2 => 0xfc,
        0x1 => 0xff,
        0xea => 0xe010,
        0xeb => 0xe019,
        0x58 => 0xe01c,
        0xe4 => 0xe01d,
        0xef => 0xe020,
        0xfb => 0xe021,
        0xe8 => 0xe022,
        0xe9 => 0xe024,
        0xee => 0xe02e,
        0xed => 0xe030,
        0xf0 => 0xe032,
        0x54 => 0xe035,
        0xe6 => 0xe038,
        0x4a => 0xe047,
        0x52 => 0xe048,
        0x4b => 0xe049,
        0x50 => 0xe04b,
        0x4f => 0xe04d,
        0x4d => 0xe04f,
        0x51 => 0xe050,
        0x4e => 0xe051,
        0x49 => 0xe052,
        0x4c => 0xe053,
        0xe3 => 0xe05b,
        0xe7 => 0xe05c,
        0x65 => 0xe05d,
        0x66 => 0xe05e,
        0x82 => 0xe05f,
        0x83 => 0xe063,
        0xf4 => 0xe065,
        0xfa => 0xe067,
        0xf3 => 0xe068,
        0xf2 => 0xe069,
        0xf1 => 0xe06a,
        0xec => 0xe06d,
        0x48 => 0xe11d,
        _ => 0,
    }
}

#[verifier::spinoff_prover]
#[verifier::rlimit(100)]
proof fn lemma_usage_inverse(s: u16)
    ensures
        spec_convert_win2hid(s) matches Some(h) ==> scancode_of_usage(h) == s,
{
}

#[verifier::spinoff_prover]
#[verifier::rlimit(100)]
proof fn lemma_index_inverse(s: u16)
    ensures
        spec_convert_win2hid(s) is Some ==> 0 <= mapped_scancode_index(s) < 149
            && mapped_scancode_at(mapped_scancode_index(s)) == s,
{
}

#[verifier::spinoff_prover]
#[verifier::rlimit(100)]
proof fn lemma_mapped_at(i: int)
    requires
        0 <= i < 149,
    ensures
        spec_convert_win2hid(mapped_scancode_at(i)) is Some,
        i + 1 < 149 ==> mapped_scancode_at(i) < mapped_scancode_at(i + 1),
{
}

proof fn lemma_mapped_ascending(i: int, j: int)
    requires
        0 <= i < j < 149,
    ensures
        mapped_scancode_at(i) < mapped_scancode_at(j),
    decreases j - i,
{
    lemma_mapped_at(i);
    if j > i + 1 {
        lemma_mapped_ascending(i + 1, j);
    }
}

/// The table from Windows scan codes to HID usages never gives usage 0, gives
/// each usage to at most one scan code, and maps exactly 149 scan codes: those
/// of `mapped_scancodes`.
pub proof fn lemma_win2hid_table()
    ensures
        forall|s: u16| spec_convert_win2hid(s) != Some(0u8),
        forall|a: u16, b: u16|
            #[trigger] spec_convert_win2hid(a) is Some && spec_convert_win2hid(a)
                == #[trigger] spec_convert_win2hid(b) ==> a == b,
        forall|s: u16| (#[trigger] spec_convert_win2hid(s) is Some) <==> mapped_scancodes().contains(s),
        mapped_scancodes().len() == 149,
        mapped_scancodes().no_duplicates(),
        Set::new(|s: u16| spec_convert_win2hid(s) is Some).len() == 149,
        Set::new(|s: u16| spec_convert_win2hid(s) is Some).finite(),
{
    assert forall|s: u16| spec_convert_win2hid(s) != Some(0u8) by {
        lemma_usage_inverse(s);
    }
    assert forall|a: u16, b: u16|
        #[trigger] spec_convert_win2hid(a) is Some && spec_convert_win2hid(a)
            == #[trigger] spec_convert_win2hid(b) implies a == b by {
        lemma_usage_inverse(a);
        lemma_usage_inverse(b);
    }
    let keys = mapped_scancodes();
    assert forall|s: u16| (#[trigger] spec_convert_win2hid(s) is Some) <==> keys.contains(s) by {
        lemma_index_inverse(s);
        if spec_convert_win2hid(s) is Some {
            assert(keys[mapped_scancode_index(s)] == s);
        }
        if keys.contains(s) {
            let i = choose|i: int| 0 <= i < keys.len() && keys[i] == s;
            lemma_mapped_at(i);
        }
    }
    assert forall|i: int, j: int| 0 <= i < keys.len() && 0 <= j < keys.len() && i != j implies keys[i]
        != keys[j] by {
        if i < j {
            lemma_mapped_ascending(i, j);
        } else {
            lemma_mapped_ascending(j, i);
        }
    }
    keys.unique_seq_to_set();
    assert(Set::new(|s: u16| spec_convert_win2hid(s) is Some) =~= keys.to_set());
}

} // verus!
