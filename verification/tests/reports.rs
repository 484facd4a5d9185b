use inputshare::common::{ConsumerDeviceCode, HidButtonCode, HidKeyCode};
use inputshare::protocol::InputEvent;
use inputshare::reports::{abs_max, abs_min, IdleMovement, ConsumerState, HidDevice, HidDevices, KeyboardState, MouseState};

#[test]
fn keyboard_report_lists_keys_and_modifiers() {
    let mut kb = KeyboardState::new();
    kb.press_key(HidKeyCode::LeftShift);
    kb.press_key(HidKeyCode::KeyA);
    kb.press_key(HidKeyCode::KeyB);
    assert_eq!(kb.report(), [0x02, 0, 0x04, 0x05, 0, 0, 0, 0]);
    kb.release_key(HidKeyCode::KeyA);
    assert_eq!(kb.report(), [0x02, 0, 0x05, 0, 0, 0, 0, 0]);
    kb.release_key(HidKeyCode::LeftShift);
    assert_eq!(kb.report(), [0, 0, 0x05, 0, 0, 0, 0, 0]);
    kb.reset();
    assert_eq!(kb.report(), [0; 8]);
}

#[test]
fn keyboard_report_holds_first_six_keys() {
    let mut kb = KeyboardState::new();
    for code in 0x04..0x0bu8 {
        kb.press_key(HidKeyCode::from_u8(code));
    }
    assert_eq!(kb.report(), [0, 0, 0x04, 0x05, 0x06, 0x07, 0x08, 0x09]);
}

#[test]
fn release_undoes_press() {
    let mut kb = KeyboardState::new();
    kb.press_key(HidKeyCode::KeyC);
    kb.press_key(HidKeyCode::RightAlt);
    let before = kb.report();
    kb.press_key(HidKeyCode::KeyX);
    kb.release_key(HidKeyCode::KeyX);
    kb.press_key(HidKeyCode::LeftCtrl);
    kb.release_key(HidKeyCode::LeftCtrl);
    assert_eq!(kb.report(), before);
}

#[test]
fn release_removes_every_copy() {
    let mut kb = KeyboardState::new();
    kb.press_key(HidKeyCode::KeyA);
    kb.press_key(HidKeyCode::KeyA);
    kb.release_key(HidKeyCode::KeyA);
    assert_eq!(kb.report(), [0; 8]);
}

#[test]
fn consumer_report_bits() {
    let mut c = ConsumerState::new();
    assert!(c.press_key(ConsumerDeviceCode::VolumeUp));
    assert!(c.press_key(ConsumerDeviceCode::Mail));
    assert_eq!(c.report(), [0x20, 0x80]);
    assert!(c.release_key(ConsumerDeviceCode::VolumeUp));
    assert_eq!(c.report(), [0x00, 0x80]);
    assert!(!c.press_key(ConsumerDeviceCode::NoKey));
    c.reset();
    assert_eq!(c.report(), [0, 0]);
}

#[test]
fn mouse_report_layout() {
    let mut m = MouseState::new(1);
    assert!(m.press_button(HidButtonCode::RButton));
    assert_eq!(m.report(-2, 300, -1, 1), [0x02, 0xfe, 0xff, 0x2c, 0x01, 0xff, 0x01]);
    assert!(m.release_button(HidButtonCode::RButton));
    assert!(!m.press_button(HidButtonCode::NoButton));
    assert_eq!(m.report(0, 0, 0, 0), [0; 7]);
}

#[test]
fn movement_is_split_into_steps() {
    let m = MouseState::new(2);
    assert_eq!(m.move_steps(5, 0), vec![(3, 0), (2, 0)]);
    assert_eq!(m.move_steps(-4, 2), vec![(-2, 1), (-2, 1)]);
    assert_eq!(m.move_steps(0, 0), vec![]);
    let one = MouseState::new(1);
    assert_eq!(one.move_steps(7, -3), vec![(7, -3)]);
}

#[test]
fn nine_at_factor_five_takes_five_reports() {
    let m = MouseState::new(5);
    assert_eq!(m.move_steps(9, 0), vec![(2, 0), (2, 0), (2, 0), (2, 0), (1, 0)]);
}

#[test]
fn every_movement_takes_at_most_factor_reports() {
    for t in 1u8..=12 {
        let m = MouseState::new(t);
        for d in -300i16..=300 {
            let steps = m.move_steps(d, d / 3);
            assert!(steps.len() <= t as usize);
            let sx: i32 = steps.iter().map(|s| s.0 as i32).sum();
            let sy: i32 = steps.iter().map(|s| s.1 as i32).sum();
            assert_eq!((sx, sy), (d as i32, (d / 3) as i32));
        }
    }
}

#[test]
fn steps_sum_to_the_movement() {
    let m = MouseState::new(3);
    let steps = m.move_steps(100, -37);
    let sx: i32 = steps.iter().map(|s| s.0 as i32).sum();
    let sy: i32 = steps.iter().map(|s| s.1 as i32).sum();
    assert_eq!((sx, sy), (100, -37));
}

#[test]
fn magnitude_helpers() {
    assert_eq!(abs_max(-5, 3), -5);
    assert_eq!(abs_max(2, -2), 2);
    assert_eq!(abs_min(-5, 3), 3);
    assert_eq!(abs_min(2, -2), 2);
}

#[test]
fn devices_report_key_changes() {
    let mut d = HidDevices::new(1);
    let a = d.apply(InputEvent::KeyPress(HidKeyCode::KeyA));
    assert!(!a.shutdown);
    assert_eq!(a.reports.len(), 1);
    assert_eq!(a.reports[0].device, HidDevice::Keyboard);
    assert_eq!(a.reports[0].bytes, vec![0, 0, 0x04, 0, 0, 0, 0, 0]);
    let a = d.apply(InputEvent::KeyRelease(HidKeyCode::KeyA));
    assert_eq!(a.reports[0].bytes, vec![0; 8]);
}

#[test]
fn devices_report_buttons_scroll_and_moves() {
    let mut d = HidDevices::new(2);
    let a = d.apply(InputEvent::MouseButtonPress(HidButtonCode::LButton));
    assert_eq!(a.reports[0].device, HidDevice::Mouse);
    assert_eq!(a.reports[0].bytes, vec![1, 0, 0, 0, 0, 0, 0]);
    let a = d.apply(InputEvent::VerticalScrolling(-1));
    assert_eq!(a.reports[0].bytes, vec![1, 0, 0, 0, 0, 0xff, 0]);
    let a = d.apply(InputEvent::HorizontalScrolling(3));
    assert_eq!(a.reports[0].bytes, vec![1, 0, 0, 0, 0, 0, 3]);
    let a = d.apply(InputEvent::MouseMove(4, 0));
    assert_eq!(a.reports.len(), 2);
    assert_eq!(a.reports[0].bytes, vec![1, 2, 0, 0, 0, 0, 0]);
    assert_eq!(a.reports[1].bytes, vec![1, 2, 0, 0, 0, 0, 0]);
    let a = d.apply(InputEvent::MouseButtonPress(HidButtonCode::NoButton));
    assert!(a.reports.is_empty());
}

#[test]
fn devices_reset_and_shutdown() {
    let mut d = HidDevices::new(1);
    d.apply(InputEvent::KeyPress(HidKeyCode::KeyZ));
    d.apply(InputEvent::ConsumerDevicePress(ConsumerDeviceCode::PlayPause));
    let a = d.apply(InputEvent::Reset);
    assert_eq!(a.reports.len(), 3);
    assert_eq!(a.reports[0].device, HidDevice::Keyboard);
    assert_eq!(a.reports[0].bytes, vec![0; 8]);
    assert_eq!(a.reports[1].device, HidDevice::Mouse);
    assert_eq!(a.reports[1].bytes, vec![0; 7]);
    assert_eq!(a.reports[2].device, HidDevice::ConsumerDevice);
    assert_eq!(a.reports[2].bytes, vec![0, 0]);
    let a = d.apply(InputEvent::Shutdown);
    assert!(a.shutdown);
    assert!(a.reports.is_empty());
}

#[test]
fn step_count_is_the_larger_axis() {
    let m = MouseState::new(5);
    assert_eq!(m.move_steps(11, 0).len(), 4);
    assert_eq!(m.move_steps(10, 3).len(), 5);
    assert_eq!(m.move_steps(-25, 40).len(), 5);
    assert_eq!(m.move_steps(4, -2).len(), 4);
}

#[test]
fn idle_movement_alternates() {
    let mut idle = IdleMovement::new();
    assert_eq!(idle.step(), -10);
    assert_eq!(idle.step(), 10);
    assert_eq!(idle.step(), -10);
}

#[test]
fn idle_moves_cancel_in_pairs() {
    let mut idle = IdleMovement::new();
    let mut x: i32 = 0;
    for k in 0..10 {
        x += idle.step() as i32;
        if k % 2 == 1 {
            assert_eq!(x, 0);
        } else {
            assert_eq!(x, -10);
        }
    }
}
