use inputshare::common::{ConsumerDeviceCode, HidButtonCode, HidKeyCode, Vec2};
use inputshare::protocol::{InputEvent, WireError};
use inputshare::receiver::InputReceiver;
use inputshare::sender::{InputSender, SendSchedule};

fn le(n: u64) -> Vec<u8> {
    n.to_le_bytes().to_vec()
}

#[test]
fn client_packet_layout() {
    let mut sender = InputSender::new();
    sender.move_mouse(5, -3);
    sender.press_key(HidKeyCode::KeyA);
    sender.scroll_vertical(-1);
    let packet = sender.write_packet().to_vec();
    let mut expected = Vec::new();
    expected.extend(le(1));
    expected.extend(le(5));
    expected.extend((-3i64).to_le_bytes());
    expected.extend(le(0));
    expected.push(2);
    expected.extend([0x00, 0x04, 0x05, 0xff]);
    assert_eq!(packet, expected);
}

#[test]
fn one_exchange_delivers_the_messages() {
    let mut sender = InputSender::new();
    let mut receiver = InputReceiver::new();
    sender.move_mouse(10, 20);
    sender.press_key(HidKeyCode::KeyB);
    sender.release_key(HidKeyCode::KeyB);
    sender.press_mouse_button(HidButtonCode::LButton);
    sender.press_consumer_device(ConsumerDeviceCode::Mute);
    sender.scroll_horizontal(2);
    sender.reset();
    sender.shutdown_remote();
    assert!(!sender.in_sync());

    let packet = sender.write_packet().to_vec();
    assert!(receiver.accepts(&packet));
    let reply = receiver.process_packet(&packet).unwrap().unwrap().to_vec();

    assert_eq!(receiver.get_event(), Some(InputEvent::MouseMove(10, 20)));
    assert_eq!(receiver.get_event(), Some(InputEvent::KeyPress(HidKeyCode::KeyB)));
    assert_eq!(receiver.get_event(), Some(InputEvent::KeyRelease(HidKeyCode::KeyB)));
    assert_eq!(receiver.get_event(), Some(InputEvent::MouseButtonPress(HidButtonCode::LButton)));
    assert_eq!(receiver.get_event(), Some(InputEvent::ConsumerDevicePress(ConsumerDeviceCode::Mute)));
    assert_eq!(receiver.get_event(), Some(InputEvent::HorizontalScrolling(2)));
    assert_eq!(receiver.get_event(), Some(InputEvent::Reset));
    assert_eq!(receiver.get_event(), Some(InputEvent::Shutdown));
    assert_eq!(receiver.get_event(), None);

    let mut expected = Vec::new();
    expected.extend(le(1));
    expected.extend(le(10));
    expected.extend(le(20));
    expected.extend(le(7));
    assert_eq!(reply, expected);

    assert!(sender.accepts(&reply));
    assert_eq!(sender.read_packet(&reply), Ok(()));
    assert!(sender.in_sync());
}

#[test]
fn repeated_packet_is_ignored() {
    let mut sender = InputSender::new();
    let mut receiver = InputReceiver::new();
    sender.press_key(HidKeyCode::KeyC);
    let packet = sender.write_packet().to_vec();
    assert!(receiver.process_packet(&packet).unwrap().is_some());
    assert_eq!(receiver.process_packet(&packet), Ok(None));
    assert_eq!(receiver.get_event(), Some(InputEvent::KeyPress(HidKeyCode::KeyC)));
    assert_eq!(receiver.get_event(), None);
}

#[test]
fn lost_reply_resends_without_duplicates() {
    let mut sender = InputSender::new();
    let mut receiver = InputReceiver::new();
    sender.press_key(HidKeyCode::KeyD);
    let first = sender.write_packet().to_vec();
    receiver.process_packet(&first).unwrap();
    sender.release_key(HidKeyCode::KeyD);
    let second = sender.write_packet().to_vec();
    let reply = receiver.process_packet(&second).unwrap().unwrap().to_vec();
    assert_eq!(receiver.get_event(), Some(InputEvent::KeyPress(HidKeyCode::KeyD)));
    assert_eq!(receiver.get_event(), Some(InputEvent::KeyRelease(HidKeyCode::KeyD)));
    assert_eq!(receiver.get_event(), None);
    sender.read_packet(&reply).unwrap();
    assert!(sender.in_sync());
}

#[test]
fn truncated_packets() {
    let mut receiver = InputReceiver::new();
    assert_eq!(receiver.process_packet(&[1, 0, 0]), Err(WireError::Truncated));
    let mut short = le(1);
    short.extend(le(4));
    assert_eq!(receiver.process_packet(&short), Err(WireError::Truncated));
    let mut sender = InputSender::new();
    assert_eq!(sender.read_packet(&[9]), Err(WireError::Truncated));
    let mut reply = le(3);
    reply.extend(le(1));
    assert_eq!(sender.read_packet(&reply), Err(WireError::Truncated));
}

#[test]
fn unknown_message_kind_is_skipped() {
    let mut receiver = InputReceiver::new();
    let mut packet = Vec::new();
    packet.extend(le(1));
    packet.extend(le(0));
    packet.extend(le(0));
    packet.extend(le(0));
    packet.push(2);
    packet.extend([0xee, 0x01, 0x00, 0x04]);
    let reply = receiver.process_packet(&packet).unwrap().unwrap().to_vec();
    assert_eq!(receiver.get_event(), Some(InputEvent::KeyPress(HidKeyCode::KeyA)));
    assert_eq!(receiver.get_event(), None);
    assert_eq!(&reply[24..32], &le(2)[..]);
}

#[test]
fn receiver_refuses_acknowledged_messages_beyond_the_packet() {
    let mut sender = InputSender::new();
    let mut receiver = InputReceiver::new();
    for _ in 0..3 {
        sender.press_key(HidKeyCode::KeyE);
    }
    let packet = sender.write_packet().to_vec();
    receiver.process_packet(&packet).unwrap();
    let mut stale = Vec::new();
    stale.extend(le(9));
    stale.extend(le(0));
    stale.extend(le(0));
    stale.extend(le(0));
    stale.push(0);
    assert!(!receiver.accepts(&stale));
}

#[test]
fn sender_refuses_acknowledgement_of_unsent_messages() {
    let sender = InputSender::new();
    let mut reply = Vec::new();
    reply.extend(le(5));
    reply.extend(le(0));
    reply.extend(le(0));
    reply.extend(le(3));
    assert!(!sender.accepts(&reply));
}

#[test]
fn raw_mouse_accumulates() {
    let mut sender = InputSender::new();
    assert_eq!(sender.accumulate_raw_mouse(3, 4), Vec2::new(3, 4));
    assert_eq!(sender.accumulate_raw_mouse(-1, 1), Vec2::new(2, 5));
    sender.set_scaled_mouse_pos(Vec2::new(4, 10));
    let packet = sender.write_packet().to_vec();
    assert_eq!(&packet[8..16], &le(4)[..]);
    assert_eq!(&packet[16..24], &le(10)[..]);
}

#[test]
fn send_schedule_follows_the_rate() {
    let mut schedule = SendSchedule::new(100);
    assert_eq!(schedule.interval, 10_000);
    assert_eq!(schedule.deadline, None);
    schedule.settle(false, 5);
    assert_eq!(schedule.deadline, Some(5));
    schedule.settle(false, 9);
    assert_eq!(schedule.deadline, Some(5));
    schedule.sent(5);
    assert_eq!(schedule.deadline, Some(10_005));
    schedule.settle(true, 20);
    assert_eq!(schedule.deadline, None);
    assert_eq!(SendSchedule::new(3).interval, 333_333);
}
