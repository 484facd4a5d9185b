use inputshare::common::DEFAULT_PORT;
use inputshare::hid::{HidModifierKeys, HidMouseButtons};
use inputshare::misc::{
    check_handshake, has_movement, make_kb_packet, make_ms_packet, merged_address, strip_color, trim_text,
    BackendType, ClientSettings, ConfigFsRefCount, ConnectionState, Error, Hotkey, Side,
};
use inputshare::virtual_key::VirtualKey;

#[test]
fn error_success() {
    assert!(Error::success().is_success());
    assert!(!Error(5).is_success());
    assert!(Error::default().is_success());
}

#[test]
fn backend_names() {
    assert_eq!(BackendType::from_str("hardware"), Ok(BackendType::Hardware));
    assert_eq!(BackendType::from_str("console"), Ok(BackendType::Console));
    let err = BackendType::from_str("serial").unwrap_err();
    assert_eq!(err.name, "serial");
    assert!(BackendType::from_str("Hardware").is_err());
}

#[test]
fn strip_color_removes_escapes() {
    assert_eq!(strip_color("\u{1b}[31mred\u{1b}[0m text"), "red text");
    assert_eq!(strip_color("plain"), "plain");
    assert_eq!(strip_color("\u{1b}[1;32"), "");
    assert_eq!(strip_color(""), "");
}

#[test]
fn movement_bytes() {
    assert!(!has_movement(&[1, 0, 0, 0, 9]));
    assert!(has_movement(&[0, 0, 3, 0]));
    assert!(has_movement(&[0, 0, 0, 0xff]));
}

#[test]
fn refcount_enables_first_and_disables_last() {
    let mut c = ConfigFsRefCount::new();
    assert!(c.acquire());
    assert!(!c.acquire());
    assert!(!c.release());
    assert!(c.release());
    assert_eq!(c.count, 0);
}

#[test]
fn direct_packets() {
    let keys = vec![(VirtualKey::KeyA, 4u8), (VirtualKey::KeyB, 5u8)];
    assert_eq!(make_kb_packet(HidModifierKeys::RCtrl(), Some(&keys)), [1, 0x10, 0, 4, 5, 0, 0, 0, 0]);
    assert_eq!(make_kb_packet(HidModifierKeys::empty(), None), [1, 0, 0, 0, 0, 0, 0, 0, 0]);
    let many: Vec<(VirtualKey, u8)> = (1u8..=8).map(|i| (VirtualKey::KeyA, i)).collect();
    assert_eq!(make_kb_packet(HidModifierKeys::empty(), Some(&many)), [1, 0, 0, 3, 4, 5, 6, 7, 8]);
    assert_eq!(make_ms_packet(HidMouseButtons::LButton(), 0, 0, 1, 0), [2, 1, 1, 0, 0, 0, 0, 1, 0]);
    assert_eq!(make_ms_packet(HidMouseButtons::empty(), -2, 1, 0, -1), [2, 2, 0, 0xfe, 0xff, 1, 0, 0, 0xff]);
}

#[test]
fn hotkey_keys() {
    let h = Hotkey::new(&vec![VirtualKey::LControl, VirtualKey::LMenu], VirtualKey::Apps);
    assert_eq!(h.trigger, VirtualKey::Apps);
    assert!(h.modifiers.contains(VirtualKey::LMenu));
    assert_eq!(h.modifiers.len(), 2);
    assert_eq!(DEFAULT_PORT, 60067);
}

#[test]
fn connection_state_texts() {
    assert_eq!(ConnectionState::default(), ConnectionState::Disconnected);
    assert_eq!(ConnectionState::Disconnected.status_text(), "Disconnected");
    assert_eq!(ConnectionState::Connecting.button_label(), "Cancel");
    assert_eq!(ConnectionState::Connected(Side::Remote).button_label(), "Disconnect");
    assert_eq!(ConnectionState::Connected(Side::Local).status_text(), "Connected");
    assert_eq!(ConnectionState::Connected(Side::Remote).side(), Some(Side::Remote));
    assert_eq!(ConnectionState::Connecting.side(), None);
}

#[test]
fn address_override_wins() {
    assert_eq!(merged_address("pi.local:60067", None), "pi.local:60067");
    assert_eq!(merged_address("pi.local:60067", Some("10.0.0.2:60067")), "10.0.0.2:60067");
}

#[test]
fn trimming() {
    assert_eq!(trim_text("  Ok\n"), "Ok");
    assert_eq!(trim_text("\u{3000}a b\t"), "a b");
    assert_eq!(trim_text("   "), "");
    assert_eq!(trim_text(""), "");
}

#[test]
fn handshake_replies() {
    assert_eq!(check_handshake(b"Ok\n"), Ok(()));
    assert_eq!(check_handshake(b"  Ok"), Ok(()));
    assert_eq!(check_handshake(b"Wrong password\r\n"), Err(String::from("Wrong password")));
    assert_eq!(check_handshake(b"ok"), Err(String::from("ok")));
    assert_eq!(check_handshake(b""), Err(String::new()));
}

#[test]
fn client_settings_defaults() {
    let c = ClientSettings::default();
    assert_eq!(c.host_address, "localhost:12345");
    assert_eq!(c.hotkey.trigger, VirtualKey::Apps);
    assert!(c.hotkey.modifiers.iter().is_empty());
    assert_eq!(c.blacklist.len(), 7);
    assert!(c.blacklist.contains(VirtualKey::MediaPlayPause));
    assert!(!c.show_network_info);
    assert_eq!(c.network_send_rate, 100);
}

#[test]
fn strip_color_laws_on_examples() {
    let s = "a\u{1b}[1mb\u{1b}\u{1b}mc\u{1b}[0";
    let once = strip_color(s);
    assert_eq!(once, "abc");
    assert!(!once.contains('\u{1b}'));
    assert_eq!(strip_color(&once), once);
    assert_eq!(strip_color("no escapes here [m"), "no escapes here [m");
}

#[test]
fn refcount_counts_live_users() {
    let mut c = ConfigFsRefCount::new();
    let mut setups = 0i32;
    for _ in 0..3 {
        if c.acquire() {
            setups += 1;
        }
    }
    assert_eq!(c.count, 3);
    assert_eq!(setups, 1);
    for _ in 0..3 {
        if c.release() {
            setups -= 1;
        }
    }
    assert_eq!(c.count, 0);
    assert_eq!(setups, 0);
    assert!(c.acquire());
    assert_eq!(c.count, 1);
}
