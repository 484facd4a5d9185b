use inputshare::events::{Input, KeyState, ScrollDirection};
use inputshare::send::{
    add_to_vec, encode_char_utf16, raw_inputs, RawInput, KEYEVENTF_KEYUP, KEYEVENTF_UNICODE,
    MOUSEEVENTF_ABSOLUTE, MOUSEEVENTF_HWHEEL, MOUSEEVENTF_MOVE, MOUSEEVENTF_WHEEL, MOUSEEVENTF_XDOWN,
};
use inputshare::virtual_key::VirtualKey;

#[test]
fn utf16_units() {
    assert_eq!(encode_char_utf16('a'), vec![0x61]);
    assert_eq!(encode_char_utf16('é'), vec![0xe9]);
    assert_eq!(encode_char_utf16('😀'), vec![0xd83d, 0xde00]);
    let mut buf = [0u16; 2];
    assert_eq!(encode_char_utf16('𝄞'), '𝄞'.encode_utf16(&mut buf).to_vec());
}

#[test]
fn key_and_string_inputs() {
    let mut v = Vec::new();
    add_to_vec(&mut v, Input::KeyboardKeyInput(VirtualKey::KeyA, KeyState::Released), 1920, 1080);
    assert_eq!(v, vec![RawInput::Keyboard { vk: 0x41, scan: 0, flags: KEYEVENTF_KEYUP }]);
    let mut v = Vec::new();
    add_to_vec(&mut v, Input::StringInput("h😀"), 1920, 1080);
    assert_eq!(
        v,
        vec![
            RawInput::Keyboard { vk: 0, scan: 0x68, flags: KEYEVENTF_UNICODE },
            RawInput::Keyboard { vk: 0, scan: 0x68, flags: KEYEVENTF_UNICODE | KEYEVENTF_KEYUP },
            RawInput::Keyboard { vk: 0, scan: 0xd83d, flags: KEYEVENTF_UNICODE },
            RawInput::Keyboard { vk: 0, scan: 0xd83d, flags: KEYEVENTF_UNICODE | KEYEVENTF_KEYUP },
            RawInput::Keyboard { vk: 0, scan: 0xde00, flags: KEYEVENTF_UNICODE },
            RawInput::Keyboard { vk: 0, scan: 0xde00, flags: KEYEVENTF_UNICODE | KEYEVENTF_KEYUP },
        ]
    );
}

#[test]
fn mouse_inputs() {
    let inputs = vec![
        Input::MouseButtonInput(VirtualKey::XButton1, KeyState::Pressed),
        Input::MouseButtonInput(VirtualKey::KeyA, KeyState::Pressed),
        Input::MouseScrollInput(ScrollDirection::Vertical(-120)),
        Input::MouseScrollInput(ScrollDirection::Horizontal(240)),
        Input::RelativeMouseMoveInput(-5, 7),
        Input::AbsoluteMouseMoveInput(960, -100),
    ];
    assert_eq!(
        raw_inputs(&inputs, 1920, 1080),
        vec![
            RawInput::Mouse { dx: 0, dy: 0, mouse_data: 1, flags: MOUSEEVENTF_XDOWN },
            RawInput::Mouse { dx: 0, dy: 0, mouse_data: 0, flags: MOUSEEVENTF_WHEEL },
            RawInput::Mouse { dx: 0, dy: 0, mouse_data: -120, flags: MOUSEEVENTF_WHEEL },
            RawInput::Mouse { dx: 0, dy: 0, mouse_data: 240, flags: MOUSEEVENTF_HWHEEL },
            RawInput::Mouse { dx: -5, dy: 7, mouse_data: 0, flags: MOUSEEVENTF_MOVE },
            RawInput::Mouse { dx: 32768, dy: -6068, mouse_data: 0, flags: MOUSEEVENTF_MOVE | MOUSEEVENTF_ABSOLUTE },
        ]
    );
    assert!(raw_inputs(&vec![], 1, 1).is_empty());
}
