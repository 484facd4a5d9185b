use inputshare::events::{HookAction, Input, InputEvent, KeyState, ScrollDirection};
use inputshare::hook::{HookEvent, HookState};
use inputshare::keyset::VirtualKeySet;
use inputshare::virtual_key::VirtualKey;

fn key(k: VirtualKey, state: KeyState) -> InputEvent {
    InputEvent::KeyboardKeyEvent(k, 0, state)
}

fn hook() -> HookState {
    let blacklist = VirtualKeySet::from_keys(&vec![VirtualKey::VolumeUp]);
    let modifiers = VirtualKeySet::from_keys(&vec![VirtualKey::LControl]);
    HookState::new(blacklist, modifiers, VirtualKey::Apps, (100, 100))
}

#[test]
fn hotkey_with_modifiers_captures() {
    let mut h = hook();
    let r = h.handle(key(VirtualKey::LControl, KeyState::Pressed), true);
    assert_eq!(r.action, HookAction::Continue);
    assert_eq!(r.event, None);
    let r = h.handle(key(VirtualKey::Apps, KeyState::Pressed), true);
    assert_eq!(r.action, HookAction::Block);
    assert_eq!(r.event, Some(HookEvent::Captured(true)));
    assert!(r.swapped);
    assert_eq!(r.release, vec![Input::KeyboardKeyInput(VirtualKey::LControl, KeyState::Released)]);
    assert!(h.captured());
}

#[test]
fn trigger_without_modifiers_does_nothing() {
    let mut h = hook();
    let r = h.handle(key(VirtualKey::Apps, KeyState::Pressed), true);
    assert_eq!(r.action, HookAction::Continue);
    assert_eq!(r.event, None);
    assert!(!h.captured());
}

#[test]
fn swap_waits_for_the_timer() {
    let mut h = hook();
    h.handle(key(VirtualKey::LControl, KeyState::Pressed), true);
    let r = h.handle(key(VirtualKey::Apps, KeyState::Pressed), false);
    assert_eq!(r.action, HookAction::Block);
    assert_eq!(r.event, None);
    assert!(!r.swapped);
    assert!(!h.captured());
}

#[test]
fn captured_input_is_blocked_and_forwarded() {
    let mut h = hook();
    h.handle(key(VirtualKey::LControl, KeyState::Pressed), true);
    h.handle(key(VirtualKey::Apps, KeyState::Pressed), true);
    let r = h.handle(key(VirtualKey::Apps, KeyState::Released), true);
    assert_eq!(r.action, HookAction::Block);
    assert_eq!(r.event, None);
    let r = h.handle(key(VirtualKey::KeyA, KeyState::Pressed), true);
    assert_eq!(r.action, HookAction::Block);
    assert_eq!(r.event, Some(HookEvent::Input(key(VirtualKey::KeyA, KeyState::Pressed))));
    let r = h.handle(InputEvent::MouseMoveEvent(103, 98), true);
    assert_eq!(r.action, HookAction::Block);
    assert_eq!(r.event, Some(HookEvent::Input(InputEvent::MouseMoveEvent(3, -2))));
    let r = h.handle(InputEvent::MouseMoveEvent(100, 100), true);
    assert_eq!(r.event, None);
    let wheel = InputEvent::MouseWheelEvent(ScrollDirection::Vertical(120));
    let r = h.handle(wheel, true);
    assert_eq!(r.event, Some(HookEvent::Input(wheel)));
}

#[test]
fn blacklisted_key_passes() {
    let mut h = hook();
    h.handle(key(VirtualKey::LControl, KeyState::Pressed), true);
    h.handle(key(VirtualKey::Apps, KeyState::Pressed), true);
    let r = h.handle(key(VirtualKey::VolumeUp, KeyState::Pressed), true);
    assert_eq!(r.action, HookAction::Continue);
    assert_eq!(r.event, None);
    assert!(h.captured());
}

#[test]
fn key_repeat_is_not_forwarded() {
    let mut h = hook();
    h.handle(key(VirtualKey::LControl, KeyState::Pressed), true);
    h.handle(key(VirtualKey::Apps, KeyState::Pressed), true);
    let r = h.handle(key(VirtualKey::KeyB, KeyState::Pressed), true);
    assert!(r.event.is_some());
    let r = h.handle(key(VirtualKey::KeyB, KeyState::Pressed), true);
    assert_eq!(r.event, None);
    assert_eq!(r.action, HookAction::Block);
}

#[test]
fn second_hotkey_press_releases() {
    let mut h = hook();
    h.handle(key(VirtualKey::LControl, KeyState::Pressed), true);
    h.handle(key(VirtualKey::Apps, KeyState::Pressed), true);
    h.handle(key(VirtualKey::Apps, KeyState::Released), true);
    let r = h.handle(key(VirtualKey::Apps, KeyState::Pressed), true);
    assert_eq!(r.event, Some(HookEvent::Captured(false)));
    assert!(r.swapped);
    assert!(r.release.is_empty());
    assert!(!h.captured());
    let r = h.handle(InputEvent::MouseMoveEvent(50, 60), true);
    assert_eq!(r.action, HookAction::Continue);
    assert_eq!(r.event, None);
}

use inputshare::hook::KeyPicker;

#[test]
fn key_picker_takes_first_key_once() {
    let mut p = KeyPicker::new();
    assert_eq!(p.handle(InputEvent::MouseMoveEvent(1, 1)), (HookAction::Continue, None));
    assert_eq!(p.handle(key(VirtualKey::KeyQ, KeyState::Pressed)), (HookAction::Block, None));
    assert_eq!(p.handle(key(VirtualKey::KeyW, KeyState::Pressed)), (HookAction::Continue, None));
    assert_eq!(p.handle(key(VirtualKey::KeyQ, KeyState::Pressed)), (HookAction::Block, None));
    assert_eq!(p.handle(key(VirtualKey::KeyW, KeyState::Released)), (HookAction::Continue, None));
    assert_eq!(p.handle(key(VirtualKey::KeyQ, KeyState::Released)), (HookAction::Block, Some(VirtualKey::KeyQ)));
    assert_eq!(p.handle(key(VirtualKey::KeyQ, KeyState::Pressed)), (HookAction::Block, None));
    assert_eq!(p.handle(key(VirtualKey::KeyQ, KeyState::Released)), (HookAction::Block, None));
}

#[test]
fn new_hook_reports_released() {
    let h = hook();
    assert_eq!(h.initial_report(), HookEvent::Captured(false));
}
