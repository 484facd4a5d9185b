use inputshare::events::{InputEvent, KeyState, ScrollDirection};
use inputshare::virtual_key::VirtualKey;
use inputshare::winput::{
    keyboard_event, mouse_event, parse_injected, parse_key_state, parse_scancode, parse_virtual_key, parse_xbutton,
    wheel_delta, LLKHF_EXTENDED, LLKHF_INJECTED, LLMHF_INJECTED, WM_KEYDOWN, WM_KEYUP, WM_LBUTTONDOWN,
    WM_MOUSEHWHEEL, WM_MOUSEMOVE, WM_MOUSEWHEEL, WM_SYSKEYDOWN, WM_XBUTTONUP,
};

#[test]
fn key_state_of_messages() {
    assert_eq!(parse_key_state(WM_KEYDOWN), Some(KeyState::Pressed));
    assert_eq!(parse_key_state(WM_SYSKEYDOWN), Some(KeyState::Pressed));
    assert_eq!(parse_key_state(WM_KEYUP), Some(KeyState::Released));
    assert_eq!(parse_key_state(WM_MOUSEMOVE), None);
}

#[test]
fn virtual_key_of_codes() {
    assert_eq!(parse_virtual_key(0x41), Some(VirtualKey::KeyA));
    assert_eq!(parse_virtual_key(0x141), None);
    assert_eq!(parse_virtual_key(0xff), None);
}

#[test]
fn injected_flag() {
    assert!(parse_injected(LLKHF_INJECTED));
    assert!(!parse_injected(LLKHF_INJECTED | LLKHF_EXTENDED));
    assert!(!parse_injected(0));
}

#[test]
fn scan_codes() {
    assert_eq!(parse_scancode(0x1e, 0x41, 0, 0x99), 0x1e);
    assert_eq!(parse_scancode(0x1c, 0x0d, LLKHF_EXTENDED, 0x99), 0xe01c);
    assert_eq!(parse_scancode(0, 0x41, 0, 0xe037), 0xe037);
    assert_eq!(parse_scancode(0x45, 0x13, 0, 0xe11d), 0xe11d);
}

#[test]
fn extra_buttons_and_wheel() {
    assert_eq!(parse_xbutton(0x0001_0000), Some(VirtualKey::XButton1));
    assert_eq!(parse_xbutton(0x0002_0000), Some(VirtualKey::XButton2));
    assert_eq!(parse_xbutton(0x0003_0000), None);
    assert_eq!(wheel_delta(0x0078_0000), 120);
    assert_eq!(wheel_delta(0xff88_0000), -120);
}

#[test]
fn keyboard_hook_events() {
    assert_eq!(
        keyboard_event(0, WM_KEYDOWN, 0x41, 0x1e, 0, 0),
        Some(InputEvent::KeyboardKeyEvent(VirtualKey::KeyA, 0x1e, KeyState::Pressed))
    );
    assert_eq!(keyboard_event(1, WM_KEYDOWN, 0x41, 0x1e, 0, 0), None);
    assert_eq!(keyboard_event(0, WM_KEYDOWN, 0x41, 0x1e, LLKHF_INJECTED, 0), None);
    assert_eq!(keyboard_event(0, WM_MOUSEMOVE, 0x41, 0x1e, 0, 0), None);
}

#[test]
fn mouse_hook_events() {
    assert_eq!(
        mouse_event(0, WM_LBUTTONDOWN, 0, 0, 1, 2),
        Some(InputEvent::MouseButtonEvent(VirtualKey::LButton, KeyState::Pressed))
    );
    assert_eq!(mouse_event(0, WM_MOUSEMOVE, 0, 0, 640, 480), Some(InputEvent::MouseMoveEvent(640, 480)));
    assert_eq!(
        mouse_event(0, WM_MOUSEWHEEL, 0xff88_0000, 0, 0, 0),
        Some(InputEvent::MouseWheelEvent(ScrollDirection::Vertical(-120)))
    );
    assert_eq!(
        mouse_event(0, WM_MOUSEHWHEEL, 0x00f0_0000, 0, 0, 0),
        Some(InputEvent::MouseWheelEvent(ScrollDirection::Horizontal(240)))
    );
    assert_eq!(
        mouse_event(0, WM_XBUTTONUP, 0x0002_0000, 0, 0, 0),
        Some(InputEvent::MouseButtonEvent(VirtualKey::XButton2, KeyState::Released))
    );
    assert_eq!(mouse_event(0, WM_MOUSEMOVE, 0, LLMHF_INJECTED, 1, 1), None);
    assert_eq!(mouse_event(0, 0x0000, 0, 0, 1, 1), None);
}
