use vstd::prelude::*;

use crate::common::{ConsumerDeviceCode, HidButtonCode, HidKeyCode, MessageType, Vec2};
use crate::wire::{field_at, le_bytes, lemma_le_roundtrip, lemma_le_roundtrip_signed};

verus! {

/// A queued message: the kind byte (a `MessageType` code) and its argument.
pub type Message = (u8, u8);

/// Why a packet could not be read to its end.
#[derive(Debug, Clone, Copy, PartialEq, Eq, Structural)]
pub enum WireError {
    /// The packet ended before a field that it announced.
    Truncated,
}

/// An input event that the server decodes from the client's messages.
#[derive(Debug, Clone, Copy, PartialEq, Eq, Structural)]
pub enum InputEvent {
    MouseMove(i64, i64),
    KeyPress(HidKeyCode),
    KeyRelease(HidKeyCode),
    MouseButtonPress(HidButtonCode),
    MouseButtonRelease(HidButtonCode),
    ConsumerDevicePress(ConsumerDeviceCode),
    ConsumerDeviceRelease(ConsumerDeviceCode),
    HorizontalScrolling(i8),
    VerticalScrolling(i8),
    Reset,
    Shutdown,
}

/// The bytes of a list of messages, two per message.
pub open spec fn message_bytes(msgs: Seq<Message>) -> Seq<u8>
    decreases msgs.len(),
{
    if msgs.len() == 0 {
        Seq::empty()
    } else {
        message_bytes(msgs.drop_last()) + seq![msgs.last().0, msgs.last().1]
    }
}

/// The whole messages in `bytes`, two bytes each; a trailing odd byte is no message.
pub open spec fn message_pairs(bytes: Seq<u8>) -> Seq<Message> {
    Seq::new((bytes.len() / 2) as nat, |i: int| (bytes[2 * i], bytes[2 * i + 1]))
}

/// The event that a message stands for; a kind byte that names no message type gives none.
pub open spec fn decode_message(m: Message) -> Option<InputEvent> {
    match MessageType::spec_try_from_u8(m.0) {
        Some(MessageType::KeyPress) => Some(InputEvent::KeyPress(HidKeyCode::spec_from_u8(m.1))),
        Some(MessageType::KeyRelease) => Some(InputEvent::KeyRelease(HidKeyCode::spec_from_u8(m.1))),
        Some(MessageType::MouseButtonPress) => Some(
            InputEvent::MouseButtonPress(HidButtonCode::spec_from_u8(m.1)),
        ),
        Some(MessageType::MouseButtonRelease) => Some(
            InputEvent::MouseButtonRelease(HidButtonCode::spec_from_u8(m.1)),
        ),
        Some(MessageType::ConsumerDevicePress) => Some(
            InputEvent::ConsumerDevicePress(ConsumerDeviceCode::spec_from_u8(m.1)),
        ),
        Some(MessageType::ConsumerDeviceRelease) => Some(
            InputEvent::ConsumerDeviceRelease(ConsumerDeviceCode::spec_from_u8(m.1)),
        ),
        Some(MessageType::HorizontalScrolling) => Some(InputEvent::HorizontalScrolling(m.1 as i8)),
        Some(MessageType::VerticalScrolling) => Some(InputEvent::VerticalScrolling(m.1 as i8)),
        Some(MessageType::Reset) => Some(InputEvent::Reset),
        Some(MessageType::Shutdown) => Some(InputEvent::Shutdown),
        None => None,
    }
}

/// The events of a list of messages, in order, skipping messages of no known type.
pub open spec fn events_of(msgs: Seq<Message>) -> Seq<InputEvent>
    decreases msgs.len(),
{
    if msgs.len() == 0 {
        Seq::empty()
    } else {
        events_of(msgs.drop_last()) + match decode_message(msgs.last()) {
            Some(e) => seq![e],
            None => Seq::empty(),
        }
    }
}

/// The datagram that the client sends: its sequence number, its mouse
/// position, how many messages the server has acknowledged, and the messages
/// that follow them.
pub open spec fn encode_client_packet(sequence: u64, pos: Vec2<i64>, acked: u64, msgs: Seq<Message>) -> Seq<u8> {
    le_bytes(sequence) + le_bytes(pos.x as u64) + le_bytes(pos.y as u64) + le_bytes(acked) + seq![
        msgs.len() as u8,
    ] + message_bytes(msgs)
}

/// The datagram that the server answers with: its sequence number, the mouse
/// position it has reached, and how many messages it has processed.
pub open spec fn encode_server_packet(sequence: u64, pos: Vec2<i64>, processed: u64) -> Seq<u8> {
    le_bytes(sequence) + le_bytes(pos.x as u64) + le_bytes(pos.y as u64) + le_bytes(processed)
}

/// `a - b`, or 0 where that is negative.
pub open spec fn saturating_sub(a: u64, b: u64) -> u64 {
    if a >= b {
        (a - b) as u64
    } else {
        0
    }
}

/// The message type that an event is sent as; a mouse movement travels in
/// the datagram's header, not as a message.
pub open spec fn event_message_type(e: InputEvent) -> Option<MessageType> {
    match e {
        InputEvent::MouseMove(_, _) => None,
        InputEvent::KeyPress(_) => Some(MessageType::KeyPress),
        InputEvent::KeyRelease(_) => Some(MessageType::KeyRelease),
        InputEvent::MouseButtonPress(_) => Some(MessageType::MouseButtonPress),
        InputEvent::MouseButtonRelease(_) => Some(MessageType::MouseButtonRelease),
        InputEvent::ConsumerDevicePress(_) => Some(MessageType::ConsumerDevicePress),
        InputEvent::ConsumerDeviceRelease(_) => Some(MessageType::ConsumerDeviceRelease),
        InputEvent::HorizontalScrolling(_) => Some(MessageType::HorizontalScrolling),
        InputEvent::VerticalScrolling(_) => Some(MessageType::VerticalScrolling),
        InputEvent::Reset => Some(MessageType::Reset),
        InputEvent::Shutdown => Some(MessageType::Shutdown),
    }
}

/// A message decodes to an event exactly when its kind byte names a message
/// type, and the event is of that type.
pub proof fn lemma_decode_keeps_kind(m: Message)
    ensures
        decode_message(m) is Some <==> MessageType::spec_try_from_u8(m.0) is Some,
        decode_message(m) matches Some(e) ==> event_message_type(e) == MessageType::spec_try_from_u8(m.0),
{
}

/// Decoding undoes the sender's encoding: each message that the sender
/// queues for a key, button, consumer key, scroll, reset or shutdown reads
/// back as that very event.
pub proof fn lemma_decode_inverts_encode(
    key: HidKeyCode,
    button: HidButtonCode,
    consumer: ConsumerDeviceCode,
    amount: i8,
)
    ensures
        decode_message((MessageType::KeyPress.spec_to_u8(), key.spec_to_u8())) == Some(InputEvent::KeyPress(key)),
        decode_message((MessageType::KeyRelease.spec_to_u8(), key.spec_to_u8())) == Some(InputEvent::KeyRelease(key)),
        decode_message((MessageType::MouseButtonPress.spec_to_u8(), button.spec_to_u8())) == Some(
            InputEvent::MouseButtonPress(button),
        ),
        decode_message((MessageType::MouseButtonRelease.spec_to_u8(), button.spec_to_u8())) == Some(
            InputEvent::MouseButtonRelease(button),
        ),
        decode_message((MessageType::ConsumerDevicePress.spec_to_u8(), consumer.spec_to_u8())) == Some(
            InputEvent::ConsumerDevicePress(consumer),
        ),
        decode_message((MessageType::ConsumerDeviceRelease.spec_to_u8(), consumer.spec_to_u8())) == Some(
            InputEvent::ConsumerDeviceRelease(consumer),
        ),
        decode_message((MessageType::HorizontalScrolling.spec_to_u8(), amount as u8)) == Some(
            InputEvent::HorizontalScrolling(amount),
        ),
        decode_message((MessageType::VerticalScrolling.spec_to_u8(), amount as u8)) == Some(
            InputEvent::VerticalScrolling(amount),
        ),
        decode_message((MessageType::Reset.spec_to_u8(), 0u8)) == Some(InputEvent::Reset),
        decode_message((MessageType::Shutdown.spec_to_u8(), 0u8)) == Some(InputEvent::Shutdown),
{
    key.lemma_code_roundtrip();
    button.lemma_code_roundtrip();
    consumer.lemma_code_roundtrip();
    assert((amount as u8) as i8 == amount) by (bit_vector);
}

/// Two messages of different kinds that decode never decode to the same
/// event: a press never reads as a release, nor the other way round.
pub proof fn lemma_decode_distinguishes_kinds(a: Message, b: Message)
    requires
        decode_message(a) is Some,
        decode_message(b) is Some,
        a.0 != b.0,
    ensures
        decode_message(a) != decode_message(b),
{
    lemma_decode_keeps_kind(a);
    lemma_decode_keeps_kind(b);
    MessageType::lemma_code_unique(a.0);
    MessageType::lemma_code_unique(b.0);
}

pub proof fn lemma_message_bytes(msgs: Seq<Message>)
    ensures
        message_bytes(msgs).len() == 2 * msgs.len(),
        message_pairs(message_bytes(msgs)) == msgs,
    decreases msgs.len(),
{
    if msgs.len() > 0 {
        lemma_message_bytes(msgs.drop_last());
        let b = message_bytes(msgs);
        let pb = message_bytes(msgs.drop_last());
        assert forall|i: int| 0 <= i < msgs.len() implies message_pairs(b)[i] == msgs[i] by {
            if i < msgs.len() - 1 {
                assert(message_pairs(pb)[i] == msgs.drop_last()[i]);
                assert(b[2 * i] == pb[2 * i]);
                assert(b[2 * i + 1] == pb[2 * i + 1]);
            } else {
                assert(b[2 * i] == msgs.last().0);
                assert(b[2 * i + 1] == msgs.last().1);
            }
        }
        assert(message_pairs(b) =~= msgs);
    }
}

pub proof fn lemma_events_of_push(msgs: Seq<Message>, m: Message)
    ensures
        events_of(msgs.push(m)) == events_of(msgs) + match decode_message(m) {
            Some(e) => seq![e],
            None => Seq::<InputEvent>::empty(),
        },
{
    assert(msgs.push(m).drop_last() == msgs);
}

/// The events of two runs of messages are those of the first run, then
/// those of the second: no message is lost, added or moved.
pub proof fn lemma_events_of_concat(a: Seq<Message>, b: Seq<Message>)
    ensures
        events_of(a + b) == events_of(a) + events_of(b),
    decreases b.len(),
{
    if b.len() == 0 {
        assert(a + b =~= a);
        assert(events_of(a) + events_of(b) =~= events_of(a));
    } else {
        lemma_events_of_concat(a, b.drop_last());
        assert((a + b).drop_last() =~= a + b.drop_last());
        assert((a + b).last() == b.last());
        assert(events_of(a + b) =~= events_of(a) + events_of(b));
    }
}

/// A single message gives its decoded event, or none where its kind byte
/// names no message type.
pub proof fn lemma_events_of_single(m: Message)
    ensures
        events_of(seq![m]) == match decode_message(m) {
            Some(e) => seq![e],
            None => Seq::<InputEvent>::empty(),
        },
{
    assert(seq![m].drop_last() =~= Seq::<Message>::empty());
    assert(seq![m].last() == m);
    assert(events_of(Seq::<Message>::empty()) + match decode_message(m) {
        Some(e) => seq![e],
        None => Seq::<InputEvent>::empty(),
    } =~= match decode_message(m) {
        Some(e) => seq![e],
        None => Seq::<InputEvent>::empty(),
    });
}

/// The fields of a client datagram read back as they were written.
pub proof fn lemma_client_packet_fields(sequence: u64, pos: Vec2<i64>, acked: u64, msgs: Seq<Message>)
    requires
        msgs.len() <= 255,
    ensures
        ({
            let b = encode_client_packet(sequence, pos, acked, msgs);
            &&& b.len() == 33 + 2 * msgs.len()
            &&& field_at(b, 0) == sequence
            &&& field_at(b, 8) as i64 == pos.x
            &&& field_at(b, 16) as i64 == pos.y
            &&& field_at(b, 24) == acked
            &&& b[32] as int == msgs.len()
            &&& message_pairs(b.skip(33)) == msgs
        }),
{
    let b = encode_client_packet(sequence, pos, acked, msgs);
    lemma_le_roundtrip(sequence);
    lemma_le_roundtrip(acked);
    lemma_le_roundtrip_signed(pos.x);
    lemma_le_roundtrip_signed(pos.y);
    lemma_message_bytes(msgs);
    assert(b.subrange(0, 8) =~= le_bytes(sequence));
    assert(b.subrange(8, 16) =~= le_bytes(pos.x as u64));
    assert(b.subrange(16, 24) =~= le_bytes(pos.y as u64));
    assert(b.subrange(24, 32) =~= le_bytes(acked));
    assert(b.skip(33) =~= message_bytes(msgs));
}

/// The fields of a server datagram read back as they were written.
pub proof fn lemma_server_packet_fields(sequence: u64, pos: Vec2<i64>, processed: u64)
    ensures
        ({
            let b = encode_server_packet(sequence, pos, processed);
            &&& b.len() == 32
            &&& field_at(b, 0) == sequence
            &&& field_at(b, 8) as i64 == pos.x
            &&& field_at(b, 16) as i64 == pos.y
            &&& field_at(b, 24) == processed
        }),
{
    let b = encode_server_packet(sequence, pos, processed);
    lemma_le_roundtrip(sequence);
    lemma_le_roundtrip(processed);
    lemma_le_roundtrip_signed(pos.x);
    lemma_le_roundtrip_signed(pos.y);
    assert(b.subrange(0, 8) =~= le_bytes(sequence));
    assert(b.subrange(8, 16) =~= le_bytes(pos.x as u64));
    assert(b.subrange(16, 24) =~= le_bytes(pos.y as u64));
    assert(b.subrange(24, 32) =~= le_bytes(processed));
}

} // verus!
