use vstd::prelude::*;

use crate::events::{Input, InputEvent, KeyState, ScrollDirection, WindowsScanCode};
use crate::virtual_key::VirtualKey;

verus! {

/// The hook message of a key press.
pub const WM_KEYDOWN: u32 = 0x0100;
/// The hook message of a key release.
pub const WM_KEYUP: u32 = 0x0101;
/// The hook message of a key press with Alt held.
pub const WM_SYSKEYDOWN: u32 = 0x0104;
/// The hook message of a key release with Alt held.
pub const WM_SYSKEYUP: u32 = 0x0105;
pub const WM_MOUSEMOVE: u32 = 0x0200;
pub const WM_LBUTTONDOWN: u32 = 0x0201;
pub const WM_LBUTTONUP: u32 = 0x0202;
pub const WM_RBUTTONDOWN: u32 = 0x0204;
pub const WM_RBUTTONUP: u32 = 0x0205;
pub const WM_MBUTTONDOWN: u32 = 0x0207;
pub const WM_MBUTTONUP: u32 = 0x0208;
pub const WM_MOUSEWHEEL: u32 = 0x020A;
pub const WM_XBUTTONDOWN: u32 = 0x020B;
pub const WM_XBUTTONUP: u32 = 0x020C;
pub const WM_MOUSEHWHEEL: u32 = 0x020E;
pub const WM_NCXBUTTONDOWN: u32 = 0x00AB;
pub const WM_NCXBUTTONUP: u32 = 0x00AC;
/// The keyboard hook flag of an extended key.
pub const LLKHF_EXTENDED: u32 = 0x01;
/// The keyboard hook flag of a simulated key.
pub const LLKHF_INJECTED: u32 = 0x10;
/// The mouse hook flag of a simulated event.
pub const LLMHF_INJECTED: u32 = 0x01;
/// The hook code of an event that the hook should process.
pub const HC_ACTION: i32 = 0;

/// The key state of a keyboard hook message.
pub open spec fn spec_parse_key_state(wparam: u32) -> Option<KeyState> {
    if wparam == WM_KEYDOWN || wparam == WM_SYSKEYDOWN {
        Some(KeyState::Pressed)
    } else if wparam == WM_KEYUP || wparam == WM_SYSKEYUP {
        Some(KeyState::Released)
    } else {
        None
    }
}

/// Returns the key state of a keyboard hook message, or `None` for other messages.
pub fn parse_key_state(wparam: u32) -> (r: Option<KeyState>)
    ensures
        r == spec_parse_key_state(wparam),
{
    if wparam == WM_KEYDOWN {
        Some(KeyState::Pressed)
    } else if wparam == WM_SYSKEYDOWN {
        Some(KeyState::Pressed)
    } else if wparam == WM_KEYUP {
        Some(KeyState::Released)
    } else if wparam == WM_SYSKEYUP {
        Some(KeyState::Released)
    } else {
        None
    }
}

/// The virtual key of a hook's key code, where the code names one.
pub open spec fn spec_parse_virtual_key(vk_code: u32) -> Option<VirtualKey> {
    if vk_code < 256 {
        VirtualKey::spec_try_from_u8(vk_code as u8)
    } else {
        None
    }
}

/// Returns the virtual key of a hook's key code, or `None` where the code names none.
pub fn parse_virtual_key(vk_code: u32) -> (r: Option<VirtualKey>)
    ensures
        r == spec_parse_virtual_key(vk_code),
{
    if vk_code < 256 {
        VirtualKey::try_from_u8(vk_code as u8)
    } else {
        None
    }
}

/// Returns whether a keyboard event was simulated: it carries the injected
/// flag and not the extended flag (some real media keys carry the injected
/// flag, but those are extended).
pub fn parse_injected(flags: u32) -> (r: bool)
    ensures
        r == (flags & LLKHF_INJECTED != 0 && flags & LLKHF_EXTENDED == 0),
{
    flags & LLKHF_INJECTED != 0 && flags & LLKHF_EXTENDED == 0
}

/// The scan code of a keyboard hook event. For keys without a scan code and
/// for Print Screen, Scroll Lock, Pause and Num Lock the system's mapping of
/// the virtual key is used (`mapped`); extended keys get the `0xe0` prefix.
pub open spec fn spec_parse_scancode(scan_code: u32, vk_code: u32, flags: u32, mapped: u32) -> WindowsScanCode {
    let scancode = scan_code as u16;
    let vk = vk_code as u16;
    if scancode == 0 || vk == 0x2C || vk == 0x91 || vk == 0x13 || vk == 0x90 {
        mapped as u16
    } else if flags & LLKHF_EXTENDED == LLKHF_EXTENDED {
        scancode | 0xe000u16
    } else {
        scancode
    }
}

/// Returns the scan code of a keyboard hook event; see `spec_parse_scancode`.
pub fn parse_scancode(scan_code: u32, vk_code: u32, flags: u32, mapped: u32) -> (r: WindowsScanCode)
    ensures
        r == spec_parse_scancode(scan_code, vk_code, flags, mapped),
{
    let scancode = scan_code as u16;
    let vk = vk_code as u16;
    if scancode == 0 || vk == 0x2C || vk == 0x91 || vk == 0x13 || vk == 0x90 {
        mapped as u16
    } else if flags & LLKHF_EXTENDED == LLKHF_EXTENDED {
        scancode | 0xe000u16
    } else {
        scancode
    }
}

/// The extra button of a mouse hook event.
pub open spec fn spec_parse_xbutton(mouse_data: u32) -> Option<VirtualKey> {
    let b = (mouse_data >> 16u32) as u16;
    if b == 1 {
        Some(VirtualKey::XButton1)
    } else if b == 2 {
        Some(VirtualKey::XButton2)
    } else {
        None
    }
}

/// Returns the extra button of a mouse hook event, or `None` where it names none.
pub fn parse_xbutton(mouse_data: u32) -> (r: Option<VirtualKey>)
    ensures
        r == spec_parse_xbutton(mouse_data),
{
    let b = (mouse_data >> 16u32) as u16;
    if b == 1 {
        Some(VirtualKey::XButton1)
    } else if b == 2 {
        Some(VirtualKey::XButton2)
    } else {
        None
    }
}

/// Returns the wheel movement of a mouse hook event, in wheel units.
pub fn wheel_delta(mouse_data: u32) -> (r: i16)
    ensures
        r == (mouse_data >> 16u32) as i16,
{
    (mouse_data >> 16u32) as i16
}

/// The event of a keyboard hook call, if it is one to report: the call must
/// be an action, the key not simulated, and both key and message known.
pub open spec fn spec_keyboard_event(code: i32, wparam: u32, vk_code: u32, scan_code: u32, flags: u32, mapped: u32) -> Option<InputEvent> {
    if code == HC_ACTION && !(flags & LLKHF_INJECTED != 0 && flags & LLKHF_EXTENDED == 0) {
        match spec_parse_virtual_key(vk_code) {
            Some(key) => match spec_parse_key_state(wparam) {
                Some(state) => Some(InputEvent::KeyboardKeyEvent(key, spec_parse_scancode(scan_code, vk_code, flags, mapped), state)),
                None => None,
            },
            None => None,
        }
    } else {
        None
    }
}

/// Returns the event of a keyboard hook call; see `spec_keyboard_event`.
pub fn keyboard_event(code: i32, wparam: u32, vk_code: u32, scan_code: u32, flags: u32, mapped: u32) -> (r: Option<InputEvent>)
    ensures
        r == spec_keyboard_event(code, wparam, vk_code, scan_code, flags, mapped),
{
    if code == HC_ACTION && !parse_injected(flags) {
        match parse_virtual_key(vk_code) {
            Some(key) => match parse_key_state(wparam) {
                Some(state) => Some(InputEvent::KeyboardKeyEvent(key, parse_scancode(scan_code, vk_code, flags, mapped), state)),
                None => None,
            },
            None => None,
        }
    } else {
        None
    }
}

/// The event of a mouse hook call, if it is one to report.
pub open spec fn spec_mouse_event(code: i32, wparam: u32, mouse_data: u32, flags: u32, x: i32, y: i32) -> Option<InputEvent> {
    if code == HC_ACTION && flags & LLMHF_INJECTED == 0 {
        if wparam == WM_LBUTTONDOWN {
            Some(InputEvent::MouseButtonEvent(VirtualKey::LButton, KeyState::Pressed))
        } else if wparam == WM_LBUTTONUP {
            Some(InputEvent::MouseButtonEvent(VirtualKey::LButton, KeyState::Released))
        } else if wparam == WM_RBUTTONDOWN {
            Some(InputEvent::MouseButtonEvent(VirtualKey::RButton, KeyState::Pressed))
        } else if wparam == WM_RBUTTONUP {
            Some(InputEvent::MouseButtonEvent(VirtualKey::RButton, KeyState::Released))
        } else if wparam == WM_MBUTTONDOWN {
            Some(InputEvent::MouseButtonEvent(VirtualKey::MButton, KeyState::Pressed))
        } else if wparam == WM_MBUTTONUP {
            Some(InputEvent::MouseButtonEvent(VirtualKey::MButton, KeyState::Released))
        } else if wparam == WM_XBUTTONDOWN || wparam == WM_NCXBUTTONDOWN {
            match spec_parse_xbutton(mouse_data) {
                Some(k) => Some(InputEvent::MouseButtonEvent(k, KeyState::Pressed)),
                None => None,
            }
        } else if wparam == WM_XBUTTONUP || wparam == WM_NCXBUTTONUP {
            match spec_parse_xbutton(mouse_data) {
                Some(k) => Some(InputEvent::MouseButtonEvent(k, KeyState::Released)),
                None => None,
            }
        } else if wparam == WM_MOUSEMOVE {
            Some(InputEvent::MouseMoveEvent(x, y))
        } else if wparam == WM_MOUSEWHEEL {
            Some(InputEvent::MouseWheelEvent(ScrollDirection::Vertical((mouse_data >> 16u32) as i16)))
        } else if wparam == WM_MOUSEHWHEEL {
            Some(InputEvent::MouseWheelEvent(ScrollDirection::Horizontal((mouse_data >> 16u32) as i16)))
        } else {
            None
        }
    } else {
        None
    }
}

/// Whether a mouse hook message is a button release.
pub open spec fn is_button_up_message(wparam: u32) -> bool {
    wparam == WM_LBUTTONUP || wparam == WM_RBUTTONUP || wparam == WM_MBUTTONUP || wparam == WM_XBUTTONUP
        || wparam == WM_NCXBUTTONUP
}

/// Whether a mouse hook message is a button press.
pub open spec fn is_button_down_message(wparam: u32) -> bool {
    wparam == WM_LBUTTONDOWN || wparam == WM_RBUTTONDOWN || wparam == WM_MBUTTONDOWN || wparam
        == WM_XBUTTONDOWN || wparam == WM_NCXBUTTONDOWN
}

/// The button that a button message names: left, right and middle by the
/// message, an extra button by the high word of the mouse data.
pub open spec fn message_button(wparam: u32, mouse_data: u32) -> Option<VirtualKey> {
    if wparam == WM_LBUTTONDOWN || wparam == WM_LBUTTONUP {
        Some(VirtualKey::LButton)
    } else if wparam == WM_RBUTTONDOWN || wparam == WM_RBUTTONUP {
        Some(VirtualKey::RButton)
    } else if wparam == WM_MBUTTONDOWN || wparam == WM_MBUTTONUP {
        Some(VirtualKey::MButton)
    } else {
        spec_parse_xbutton(mouse_data)
    }
}

/// A button message of a real (not simulated) action reports the button it
/// names as released for an up message and as pressed for a down message;
/// every button event comes from such a message, with the matching state.
pub proof fn lemma_mouse_button_messages(code: i32, wparam: u32, mouse_data: u32, flags: u32, x: i32, y: i32)
    ensures
        code == HC_ACTION && flags & LLMHF_INJECTED == 0 && is_button_up_message(wparam) ==> spec_mouse_event(
            code,
            wparam,
            mouse_data,
            flags,
            x,
            y,
        ) == match message_button(wparam, mouse_data) {
            Some(b) => Some(InputEvent::MouseButtonEvent(b, KeyState::Released)),
            None => None,
        },
        code == HC_ACTION && flags & LLMHF_INJECTED == 0 && is_button_down_message(wparam) ==> spec_mouse_event(
            code,
            wparam,
            mouse_data,
            flags,
            x,
            y,
        ) == match message_button(wparam, mouse_data) {
            Some(b) => Some(InputEvent::MouseButtonEvent(b, KeyState::Pressed)),
            None => None,
        },
        spec_mouse_event(code, wparam, mouse_data, flags, x, y) matches Some(
            InputEvent::MouseButtonEvent(b, state),
        ) ==> {
            &&& message_button(wparam, mouse_data) == Some(b)
            &&& (state == KeyState::Released <==> is_button_up_message(wparam))
            &&& (state == KeyState::Pressed <==> is_button_down_message(wparam))
        },
{
}

/// A simulated mouse event, or a call that is no action, is not reported.
pub proof fn lemma_mouse_event_skips_injected(code: i32, wparam: u32, mouse_data: u32, flags: u32, x: i32, y: i32)
    requires
        code != HC_ACTION || flags & LLMHF_INJECTED != 0,
    ensures
        spec_mouse_event(code, wparam, mouse_data, flags, x, y) is None,
{
}

/// A key message of a real action reports a release for the up messages and
/// a press for the down messages.
pub proof fn lemma_key_messages(code: i32, wparam: u32, vk_code: u32, scan_code: u32, flags: u32, mapped: u32)
    ensures
        spec_keyboard_event(code, wparam, vk_code, scan_code, flags, mapped) matches Some(
            InputEvent::KeyboardKeyEvent(k, _, state),
        ) ==> {
            &&& spec_parse_virtual_key(vk_code) == Some(k)
            &&& (state == KeyState::Released <==> (wparam == WM_KEYUP || wparam == WM_SYSKEYUP))
            &&& (state == KeyState::Pressed <==> (wparam == WM_KEYDOWN || wparam == WM_SYSKEYDOWN))
        },
{
}

/// Returns the event of a mouse hook call; see `spec_mouse_event`.
pub fn mouse_event(code: i32, wparam: u32, mouse_data: u32, flags: u32, x: i32, y: i32) -> (r: Option<InputEvent>)
    ensures
        r == spec_mouse_event(code, wparam, mouse_data, flags, x, y),
{
    if code == HC_ACTION && flags & LLMHF_INJECTED == 0 {
        if wparam == WM_LBUTTONDOWN {
            Some(InputEvent::MouseButtonEvent(VirtualKey::LButton, KeyState::Pressed))
        } else if wparam == WM_LBUTTONUP {
            Some(InputEvent::MouseButtonEvent(VirtualKey::LButton, KeyState::Released))
        } else if wparam == WM_RBUTTONDOWN {
            Some(InputEvent::MouseButtonEvent(VirtualKey::RButton, KeyState::Pressed))
        } else if wparam == WM_RBUTTONUP {
            Some(InputEvent::MouseButtonEvent(VirtualKey::RButton, KeyState::Released))
        } else if wparam == WM_MBUTTONDOWN {
            Some(InputEvent::MouseButtonEvent(VirtualKey::MButton, KeyState::Pressed))
        } else if wparam == WM_MBUTTONUP {
            Some(InputEvent::MouseButtonEvent(VirtualKey::MButton, KeyState::Released))
        } else if wparam == WM_XBUTTONDOWN || wparam == WM_NCXBUTTONDOWN {
            match parse_xbutton(mouse_data) {
                Some(k) => Some(InputEvent::MouseButtonEvent(k, KeyState::Pressed)),
                None => None,
            }
        } else if wparam == WM_XBUTTONUP || wparam == WM_NCXBUTTONUP {
            match parse_xbutton(mouse_data) {
                Some(k) => Some(InputEvent::MouseButtonEvent(k, KeyState::Released)),
                None => None,
            }
        } else if wparam == WM_MOUSEMOVE {
            Some(InputEvent::MouseMoveEvent(x, y))
        } else if wparam == WM_MOUSEWHEEL {
            Some(InputEvent::MouseWheelEvent(ScrollDirection::Vertical(wheel_delta(mouse_data))))
        } else if wparam == WM_MOUSEHWHEEL {
            Some(InputEvent::MouseWheelEvent(ScrollDirection::Horizontal(wheel_delta(mouse_data))))
        } else {
            None
        }
    } else {
        None
    }
}

} // verus!
