use inputshare::common::{ConsumerDeviceCode, HidButtonCode, HidKeyCode};
use inputshare::hid::{convert_win2hid, ConsumerDeviceButtons, HidModifierKeys, HidMouseButtons};
use inputshare::virtual_key::VirtualKey;

#[test]
fn modifier_flags_of_virtual_keys() {
    assert_eq!(HidModifierKeys::from_virtual_key(&VirtualKey::LControl), Some(HidModifierKeys::LCtrl()));
    assert_eq!(HidModifierKeys::from_virtual_key(&VirtualKey::RWin), Some(HidModifierKeys::RMeta()));
    assert_eq!(HidModifierKeys::from_virtual_key(&VirtualKey::KeyA), None);
    assert_eq!(HidModifierKeys::LShift().to_byte(), 0x02);
}

#[test]
fn modifier_flags_list_their_keys() {
    let mut m = HidModifierKeys::empty();
    assert!(m.is_empty());
    m.insert(HidModifierKeys::RAlt());
    m.insert(HidModifierKeys::LShift());
    assert_eq!(m.bits(), 0x42);
    assert_eq!(m.to_virtual_keys(), vec![VirtualKey::LShift, VirtualKey::RMenu]);
    m.remove(HidModifierKeys::LShift());
    assert_eq!(m.to_virtual_keys(), vec![VirtualKey::RMenu]);
    assert!(m.contains(HidModifierKeys::RAlt()));
    assert!(!m.contains(HidModifierKeys::LShift()));
}

#[test]
fn modifier_flag_round_trip() {
    for key in [VirtualKey::LShift, VirtualKey::LControl, VirtualKey::LWin, VirtualKey::LMenu,
                VirtualKey::RShift, VirtualKey::RControl, VirtualKey::RWin, VirtualKey::RMenu] {
        let flag = HidModifierKeys::from_virtual_key(&key).unwrap();
        assert_eq!(flag.to_virtual_keys(), vec![key]);
    }
}

#[test]
fn button_flag_round_trip() {
    for key in [VirtualKey::LButton, VirtualKey::RButton, VirtualKey::MButton, VirtualKey::XButton1,
                VirtualKey::XButton2] {
        let flag = HidMouseButtons::from_virtual_key(&key).unwrap();
        assert_eq!(flag.to_virtual_keys(), vec![key]);
    }
    assert_eq!(HidMouseButtons::from_virtual_key(&VirtualKey::Space), None);
}

#[test]
fn mouse_button_flags() {
    let mut b = HidMouseButtons::empty();
    b.insert(HidMouseButtons::RButton());
    b.insert(HidMouseButtons::Button5());
    assert_eq!(b.to_byte(), 0x12);
    assert_eq!(b.to_virtual_keys(), vec![VirtualKey::RButton, VirtualKey::XButton2]);
}

#[test]
fn flags_of_key_codes() {
    assert_eq!(HidModifierKeys::try_from_key_code(HidKeyCode::LeftShift), Some(HidModifierKeys::LShift()));
    assert_eq!(HidModifierKeys::try_from_key_code(HidKeyCode::RightMeta), Some(HidModifierKeys::RMeta()));
    assert_eq!(HidModifierKeys::try_from_key_code(HidKeyCode::KeyA), None);
    assert_eq!(HidMouseButtons::try_from_button_code(HidButtonCode::MButton), Some(HidMouseButtons::MButton()));
    assert_eq!(HidMouseButtons::try_from_button_code(HidButtonCode::NoButton), None);
    assert_eq!(
        ConsumerDeviceButtons::try_from_device_code(ConsumerDeviceCode::VolumeUp).map(|b| b.bits()),
        Some(0x0020)
    );
    assert_eq!(
        ConsumerDeviceButtons::try_from_device_code(ConsumerDeviceCode::Mail).map(|b| b.bits()),
        Some(0x8000)
    );
    assert_eq!(ConsumerDeviceButtons::try_from_device_code(ConsumerDeviceCode::NoKey).map(|b| b.bits()), None);
}

#[test]
fn windows_scan_codes_to_hid() {
    assert_eq!(convert_win2hid(&0x1e), Some(0x04));
    assert_eq!(convert_win2hid(&0x1c), Some(0x28));
    assert_eq!(convert_win2hid(&0x39), Some(0x2c));
    assert_eq!(convert_win2hid(&0x2a), Some(0xe1));
    assert_eq!(convert_win2hid(&0xe01c), Some(0x58));
    assert_eq!(convert_win2hid(&0xe05b), Some(0xe3));
    assert_eq!(convert_win2hid(&0x0000), None);
}

#[test]
fn key_codes_round_trip() {
    assert_eq!(HidKeyCode::KeyA.to_u8(), 0x04);
    assert_eq!(HidKeyCode::from_u8(0x04), HidKeyCode::KeyA);
    assert_eq!(HidKeyCode::from_u8(0xe0), HidKeyCode::LeftCtrl);
    assert_eq!(HidButtonCode::from_u8(HidButtonCode::Button4.to_u8()), HidButtonCode::Button4);
    assert_eq!(ConsumerDeviceCode::from_u8(ConsumerDeviceCode::Calculator.to_u8()), ConsumerDeviceCode::Calculator);
}

#[test]
fn scan_code_table_is_injective_and_counts_149() {
    let mut seen = std::collections::HashMap::new();
    let mut count = 0;
    for s in 0u16..=u16::MAX {
        if let Some(h) = convert_win2hid(&s) {
            assert_ne!(h, 0);
            assert!(seen.insert(h, s).is_none());
            count += 1;
        }
    }
    assert_eq!(count, 149);
}

#[test]
fn modifier_bytes_round_trip() {
    for bits in 0u8..=255 {
        let m = HidModifierKeys { bits };
        let keys = m.to_virtual_keys();
        assert_eq!(keys.len() as u32, bits.count_ones());
        let mut back = HidModifierKeys::empty();
        for k in &keys {
            back.insert(HidModifierKeys::from_virtual_key(k).unwrap());
        }
        assert_eq!(back, m);
    }
}

#[test]
fn button_bytes_round_trip() {
    for bits in 0u8..0x20 {
        let b = HidMouseButtons { bits };
        let keys = b.to_virtual_keys();
        assert_eq!(keys.len() as u32, bits.count_ones());
        let mut back = HidMouseButtons::empty();
        for k in &keys {
            back.insert(HidMouseButtons::from_virtual_key(k).unwrap());
        }
        assert_eq!(back, b);
    }
    assert_eq!(
        HidMouseButtons { bits: 0x1f }.to_virtual_keys(),
        vec![VirtualKey::LButton, VirtualKey::RButton, VirtualKey::MButton, VirtualKey::XButton1, VirtualKey::XButton2]
    );
}
