use inputshare::events::{Input, InputEvent, KeyState, ScrollDirection};
use inputshare::hid::{HidModifierKeys, HidMouseButtons};
use inputshare::tcp_client::{
    packet_to_bytes, to_wheel_notches, ChangeType, DirectClient, HotKey, KeyButtonState, Packet, Side,
};
use inputshare::virtual_key::VirtualKey;

fn key(k: VirtualKey, sc: u16, state: KeyState) -> InputEvent {
    InputEvent::KeyboardKeyEvent(k, sc, state)
}

#[test]
fn packet_bytes() {
    assert_eq!(packet_to_bytes(&Packet::reset_mouse()), vec![2, 0, 0, 0, 0, 0, 0, 0]);
    assert_eq!(packet_to_bytes(&Packet::reset_keyboard()), vec![1, 0, 0, 0, 0, 0, 0, 0, 0]);
    assert_eq!(packet_to_bytes(&Packet::SwitchDevice(Side::Remote)), vec![3, 255]);
    assert_eq!(packet_to_bytes(&Packet::SwitchDevice(Side::Local)), vec![3, 0]);
    assert_eq!(
        packet_to_bytes(&Packet::Mouse(HidMouseButtons::LButton(), -1, 258, 1, -1)),
        vec![2, 1, 0xff, 0xff, 0x02, 0x01, 1, 0xff]
    );
    assert_eq!(
        packet_to_bytes(&Packet::Keyboard(HidModifierKeys::LShift(), [Some(4), None, None, None, None, None])),
        vec![1, 2, 0, 4, 0, 0, 0, 0, 0]
    );
}

#[test]
fn key_state_tracks_keys_and_modifiers() {
    let mut s = KeyButtonState::new();
    assert!(s.handle_event(&key(VirtualKey::KeyA, 0x1e, KeyState::Pressed)));
    assert!(!s.handle_event(&key(VirtualKey::KeyA, 0x1e, KeyState::Pressed)));
    assert!(s.handle_event(&key(VirtualKey::LShift, 0x2a, KeyState::Pressed)));
    assert_eq!(
        s.create_keyboard_packet(),
        Packet::Keyboard(HidModifierKeys::LShift(), [Some(4), None, None, None, None, None])
    );
    assert!(s.handle_event(&key(VirtualKey::KeyA, 0x1e, KeyState::Released)));
    assert!(!s.handle_event(&key(VirtualKey::KeyA, 0x1e, KeyState::Released)));
    assert!(!s.handle_event(&key(VirtualKey::KeyA, 0x0000, KeyState::Pressed)));
    assert!(s.handle_event(&InputEvent::MouseButtonEvent(VirtualKey::RButton, KeyState::Pressed)));
    assert_eq!(s.create_mouse_packet(1, 2, 3, 4), Packet::Mouse(HidMouseButtons::RButton(), 1, 2, 3, 4));
    assert!(s.handle_event(&InputEvent::MouseMoveEvent(1, 1)));
}

#[test]
fn keyboard_packet_holds_last_six_keys() {
    let mut s = KeyButtonState::new();
    for sc in 0x10u16..0x17 {
        s.handle_event(&key(VirtualKey::KeyQ, sc, KeyState::Pressed));
    }
    match s.create_keyboard_packet() {
        Packet::Keyboard(_, keys) => assert_eq!(
            keys,
            [Some(0x1a), Some(0x08), Some(0x15), Some(0x17), Some(0x1c), Some(0x18)]
        ),
        _ => panic!("not a keyboard packet"),
    }
}

#[test]
fn local_state_inputs_release_then_restore() {
    let mut s = KeyButtonState::new();
    s.handle_event(&key(VirtualKey::LControl, 0x1d, KeyState::Pressed));
    s.handle_event(&key(VirtualKey::KeyC, 0x2e, KeyState::Pressed));
    s.handle_event(&InputEvent::MouseButtonEvent(VirtualKey::LButton, KeyState::Pressed));
    assert_eq!(
        s.change_local_state(ChangeType::Wipe),
        vec![
            Input::KeyboardKeyInput(VirtualKey::LControl, KeyState::Released),
            Input::KeyboardKeyInput(VirtualKey::KeyC, KeyState::Released),
            Input::MouseButtonInput(VirtualKey::LButton, KeyState::Released),
        ]
    );
    assert_eq!(
        s.change_local_state(ChangeType::Restore),
        vec![
            Input::KeyboardKeyInput(VirtualKey::LControl, KeyState::Pressed),
            Input::KeyboardKeyInput(VirtualKey::KeyC, KeyState::Pressed),
            Input::MouseButtonInput(VirtualKey::LButton, KeyState::Pressed),
        ]
    );
}

#[test]
fn hotkey_triggers_once_per_press() {
    let mut h = HotKey::new(VirtualKey::Apps);
    assert_eq!(h.triggered(&key(VirtualKey::Apps, 0, KeyState::Pressed)), Some(true));
    assert_eq!(h.triggered(&key(VirtualKey::Apps, 0, KeyState::Pressed)), Some(false));
    assert_eq!(h.triggered(&key(VirtualKey::Apps, 0, KeyState::Released)), Some(false));
    assert_eq!(h.triggered(&key(VirtualKey::KeyA, 0, KeyState::Pressed)), None);
    assert_eq!(h.triggered(&InputEvent::MouseMoveEvent(0, 0)), None);
    assert_eq!(h.triggered(&key(VirtualKey::Apps, 0, KeyState::Pressed)), Some(true));
}

#[test]
fn wheel_notches_round_toward_zero() {
    assert_eq!(to_wheel_notches(120), 1);
    assert_eq!(to_wheel_notches(-240), -2);
    assert_eq!(to_wheel_notches(119), 0);
    assert_eq!(to_wheel_notches(-119), 0);
    assert_eq!(to_wheel_notches(i16::MAX), 127);
    assert_eq!(to_wheel_notches(i16::MIN), -128);
}

#[test]
fn direct_client_capture_cycle() {
    let mut c = DirectClient::new(VirtualKey::Apps, &vec![VirtualKey::VolumeUp]);
    let r = c.handle(InputEvent::MouseMoveEvent(10, 10));
    assert!(r.pass && r.packets.is_empty());
    let r = c.handle(key(VirtualKey::KeyA, 0x1e, KeyState::Pressed));
    assert!(r.pass && r.packets.is_empty());

    let r = c.handle(key(VirtualKey::Apps, 0, KeyState::Pressed));
    assert!(!r.pass);
    assert_eq!(r.local_inputs, vec![Input::KeyboardKeyInput(VirtualKey::KeyA, KeyState::Released)]);
    assert_eq!(
        r.packets,
        vec![
            Packet::SwitchDevice(Side::Remote),
            Packet::Keyboard(HidModifierKeys::empty(), [Some(4), None, None, None, None, None]),
            Packet::Mouse(HidMouseButtons::empty(), 0, 0, 0, 0),
        ]
    );
    let r = c.handle(key(VirtualKey::Apps, 0, KeyState::Released));
    assert!(!r.pass && r.packets.is_empty());

    let r = c.handle(InputEvent::MouseMoveEvent(13, 8));
    assert!(!r.pass);
    assert_eq!(r.packets, vec![Packet::Mouse(HidMouseButtons::empty(), 3, -2, 0, 0)]);
    let r = c.handle(InputEvent::MouseMoveEvent(10, 10));
    assert!(r.packets.is_empty());
    let r = c.handle(InputEvent::MouseWheelEvent(ScrollDirection::Vertical(-240)));
    assert_eq!(r.packets, vec![Packet::Mouse(HidMouseButtons::empty(), 0, 0, -2, 0)]);
    let r = c.handle(key(VirtualKey::VolumeUp, 0xe030, KeyState::Pressed));
    assert!(r.pass && r.packets.is_empty());
    let r = c.handle(key(VirtualKey::KeyA, 0x1e, KeyState::Released));
    assert!(!r.pass);
    assert_eq!(r.packets, vec![Packet::reset_keyboard()]);

    let r = c.handle(key(VirtualKey::Apps, 0, KeyState::Pressed));
    assert!(!r.pass);
    assert!(r.local_inputs.is_empty());
    assert_eq!(
        r.packets,
        vec![Packet::reset_mouse(), Packet::reset_keyboard(), Packet::SwitchDevice(Side::Local)]
    );
    let r = c.handle(InputEvent::MouseMoveEvent(20, 20));
    assert!(r.pass && r.packets.is_empty());
}

#[test]
fn held_key_codes_stay_distinct() {
    let mut s = KeyButtonState::new();
    // Two virtual keys with the same scan code share one HID code.
    assert!(s.handle_event(&key(VirtualKey::KeyA, 0x1e, KeyState::Pressed)));
    assert!(!s.handle_event(&key(VirtualKey::KeyB, 0x1e, KeyState::Pressed)));
    assert!(s.handle_event(&key(VirtualKey::KeyC, 0x2e, KeyState::Pressed)));
    assert_eq!(s.pressed_keys.len(), 2);
    assert_ne!(s.pressed_keys[0].1, s.pressed_keys[1].1);
    assert_eq!(
        packet_to_bytes(&s.create_keyboard_packet()),
        vec![1, 0, 0, s.pressed_keys[0].1, s.pressed_keys[1].1, 0, 0, 0, 0]
    );
}
