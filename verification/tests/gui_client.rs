use inputshare::events::{Input, InputEvent, KeyState, ScrollDirection};
use inputshare::gui_client::{is_gui_blacklisted, GuiClient};
use inputshare::virtual_key::VirtualKey;

fn key(k: VirtualKey, sc: u16, state: KeyState) -> InputEvent {
    InputEvent::KeyboardKeyEvent(k, sc, state)
}

#[test]
fn media_keys_stay_local() {
    assert!(is_gui_blacklisted(VirtualKey::VolumeMute));
    assert!(is_gui_blacklisted(VirtualKey::MediaNextTrack));
    assert!(!is_gui_blacklisted(VirtualKey::KeyA));
}

#[test]
fn gui_client_capture_cycle() {
    let mut c = GuiClient::new();
    let r = c.handle(InputEvent::MouseMoveEvent(5, 5));
    assert!(r.pass && r.packets.is_empty());
    let r = c.handle(key(VirtualKey::LShift, 0x2a, KeyState::Pressed));
    assert!(r.pass && r.packets.is_empty());

    let r = c.handle(key(VirtualKey::Apps, 0xe05d, KeyState::Pressed));
    assert!(!r.pass);
    assert!(r.inputs_first);
    assert_eq!(r.local_inputs, vec![Input::KeyboardKeyInput(VirtualKey::LShift, KeyState::Released)]);
    assert_eq!(
        r.packets,
        vec![[1, 0x02, 0, 0, 0, 0, 0, 0, 0], [2, 1, 0, 0, 0, 0, 0, 0, 0]]
    );
    let r = c.handle(key(VirtualKey::Apps, 0xe05d, KeyState::Released));
    assert!(!r.pass && r.packets.is_empty());

    let r = c.handle(key(VirtualKey::KeyA, 0x1e, KeyState::Pressed));
    assert!(!r.pass);
    assert_eq!(r.packets, vec![[1, 0x02, 0, 4, 0, 0, 0, 0, 0]]);
    let r = c.handle(key(VirtualKey::KeyA, 0x1e, KeyState::Pressed));
    assert!(!r.pass && r.packets.is_empty());
    let r = c.handle(InputEvent::MouseButtonEvent(VirtualKey::MButton, KeyState::Pressed));
    assert_eq!(r.packets, vec![[2, 1, 4, 0, 0, 0, 0, 0, 0]]);
    let r = c.handle(InputEvent::MouseMoveEvent(4, 7));
    assert_eq!(r.packets, vec![[2, 2, 4, 0xff, 0xff, 2, 0, 0, 0]]);
    let r = c.handle(InputEvent::MouseWheelEvent(ScrollDirection::Horizontal(360)));
    assert_eq!(r.packets, vec![[2, 1, 4, 0, 0, 0, 0, 0, 3]]);
    let r = c.handle(key(VirtualKey::VolumeDown, 0xe02e, KeyState::Pressed));
    assert!(r.pass && r.packets.is_empty());

    let r = c.handle(key(VirtualKey::Apps, 0xe05d, KeyState::Pressed));
    assert!(!r.pass);
    assert!(!r.inputs_first);
    assert_eq!(
        r.packets,
        vec![[1, 0, 0, 0, 0, 0, 0, 0, 0], [2, 1, 0, 0, 0, 0, 0, 0, 0]]
    );
    assert_eq!(
        r.local_inputs,
        vec![
            Input::KeyboardKeyInput(VirtualKey::LShift, KeyState::Pressed),
            Input::KeyboardKeyInput(VirtualKey::KeyA, KeyState::Pressed),
            Input::MouseButtonInput(VirtualKey::MButton, KeyState::Pressed),
        ]
    );
    let r = c.handle(InputEvent::MouseMoveEvent(9, 9));
    assert!(r.pass && r.packets.is_empty());
}

use inputshare::gui_client::{parse_port_field, GuiConfig, GuiScreen, ScreenAction};
use inputshare::misc::Message;

#[test]
fn port_fields() {
    assert_eq!(parse_port_field(""), Some(0));
    assert_eq!(parse_port_field("12351"), Some(12351));
    assert_eq!(parse_port_field("0065535"), Some(65535));
    assert_eq!(parse_port_field("65536"), None);
    assert_eq!(parse_port_field("99999999999"), None);
    assert_eq!(parse_port_field("12a"), None);
    assert_eq!(parse_port_field("+5"), None);
}

#[test]
fn settings_page_edits_and_saves() {
    let config = GuiConfig::default();
    assert_eq!(config.host, "raspberrypi.local");
    assert_eq!(config.port, 12351);

    let mut screen = GuiScreen::Default;
    assert!(matches!(screen.update(Message::SaveSettings), ScreenAction::Nothing));
    assert!(matches!(screen.update(Message::OpenSettings), ScreenAction::OpenSettings));
    assert!(matches!(screen, GuiScreen::Default));

    let mut screen = GuiScreen::Settings(config);
    assert!(matches!(screen.update(Message::ChangePortNumber(String::from("4000"))), ScreenAction::Nothing));
    assert!(matches!(screen.update(Message::ChangePortNumber(String::from("x"))), ScreenAction::Nothing));
    assert!(matches!(screen.update(Message::ChangeHostAddress(String::from("pi"))), ScreenAction::Nothing));
    match screen.update(Message::SaveSettings) {
        ScreenAction::SaveSettings(c) => {
            assert_eq!(c.host, "pi");
            assert_eq!(c.port, 4000);
        }
        other => panic!("unexpected {:?}", other),
    }
    assert!(matches!(screen, GuiScreen::Default));

    let mut screen = GuiScreen::Settings(GuiConfig::default());
    assert!(matches!(screen.update(Message::DiscardSettings), ScreenAction::OpenDefault));
    assert!(matches!(screen, GuiScreen::Default));
}
