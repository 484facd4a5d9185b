use vstd::prelude::*;

use std::collections::VecDeque;

use crate::common::{ConsumerDeviceCode, HidButtonCode, HidKeyCode, MessageType, MouseType, Vec2};
use crate::protocol::{
    decode_message, encode_server_packet, events_of, lemma_events_of_push, message_pairs,
    saturating_sub, InputEvent, Message, WireError,
};
use crate::wire::{field_at, i64_le_bytes, push_bytes8, read_i64_le, read_u64_le, u64_le_bytes};

verus! {

/// What the server knows of a connection.
pub struct ReceiverState {
    pub local_sequence: u64,
    pub remote_sequence: u64,
    pub local_mouse_pos: Vec2<i64>,
    pub last_message: u64,
    pub events: Seq<InputEvent>,
}

/// The state after the server reads datagram `b`, and what it answers: `Ok(None)`
/// for a datagram that is not newer than the last one, `Ok(Some(reply))`, or an
/// error where `b` ends early (keeping what was read before that point).
pub open spec fn receive(r: ReceiverState, b: Seq<u8>) -> (ReceiverState, Result<Option<Seq<u8>>, WireError>) {
    if b.len() < 8 {
        (r, Err(WireError::Truncated))
    } else if field_at(b, 0) <= r.remote_sequence {
        (r, Ok(None))
    } else {
        let r1 = ReceiverState { remote_sequence: field_at(b, 0), ..r };
        if b.len() < 24 {
            (r1, Err(WireError::Truncated))
        } else {
            let pos = Vec2 { x: field_at(b, 8) as i64, y: field_at(b, 16) as i64 };
            let r2 = if pos != r.local_mouse_pos {
                ReceiverState {
                    local_mouse_pos: pos,
                    events: r.events.push(
                        InputEvent::MouseMove(
                            (pos.x - r.local_mouse_pos.x) as i64,
                            (pos.y - r.local_mouse_pos.y) as i64,
                        ),
                    ),
                    ..r1
                }
            } else {
                r1
            };
            if b.len() < 33 {
                (r2, Err(WireError::Truncated))
            } else {
                let start = field_at(b, 24);
                let n = b[32] as int;
                let msgs = message_pairs(b.skip(33));
                let diff = saturating_sub(r.last_message, start) as int;
                let avail = if n <= msgs.len() {
                    n
                } else {
                    msgs.len() as int
                };
                let r3 = if diff < avail {
                    ReceiverState {
                        events: r2.events + events_of(msgs.subrange(diff, avail)),
                        last_message: (start + avail) as u64,
                        ..r2
                    }
                } else {
                    r2
                };
                if diff < n && msgs.len() < n {
                    (r3, Err(WireError::Truncated))
                } else {
                    (
                        ReceiverState { local_sequence: (r3.local_sequence + 1) as u64, ..r3 },
                        Ok(Some(encode_server_packet(r3.local_sequence, r3.local_mouse_pos, r3.last_message))),
                    )
                }
            }
        }
    }
}

/// The server reads `b` without an arithmetic overflow or an out-of-range skip:
/// the mouse movement fits an `i64`, the messages that the server has already
/// seen lie within the datagram, the message count stays below 2^64, and the
/// sequence number can be incremented.
pub open spec fn receive_defined(r: ReceiverState, b: Seq<u8>) -> bool {
    b.len() >= 24 && field_at(b, 0) > r.remote_sequence ==> {
        let pos = Vec2 { x: field_at(b, 8) as i64, y: field_at(b, 16) as i64 };
        &&& i64::MIN <= pos.x - r.local_mouse_pos.x <= i64::MAX
        &&& i64::MIN <= pos.y - r.local_mouse_pos.y <= i64::MAX
        &&& b.len() >= 33 ==> {
            let start = field_at(b, 24);
            let n = b[32] as int;
            let msgs = message_pairs(b.skip(33));
            let diff = saturating_sub(r.last_message, start) as int;
            let avail = if n <= msgs.len() {
                n
            } else {
                msgs.len() as int
            };
            &&& 2 * diff <= b.len() - 33
            &&& diff < avail ==> start + avail <= u64::MAX
            &&& !(diff < n && msgs.len() < n) ==> r.local_sequence < u64::MAX
        }
    }
}

/// The server side of a connection: it reads the client's datagrams, turns
/// the messages it has not seen yet into events, and answers with what it
/// has processed.
pub struct InputReceiver {
    local_sequence: u64,
    remote_sequence: u64,
    packet_buffer: Vec<u8>,
    local_mouse_pos: Vec2<MouseType>,
    last_message: u64,
    events: VecDeque<InputEvent>,
}

impl View for InputReceiver {
    type V = ReceiverState;

    closed spec fn view(&self) -> ReceiverState {
        ReceiverState {
            local_sequence: self.local_sequence,
            remote_sequence: self.remote_sequence,
            local_mouse_pos: self.local_mouse_pos,
            last_message: self.last_message,
            events: self.events@,
        }
    }
}

fn decode_message_exec(msg_id: u8, msg_arg: u8) -> (r: Option<InputEvent>)
    ensures
        r == decode_message((msg_id, msg_arg)),
{
    match MessageType::try_from_u8(msg_id) {
        Some(MessageType::KeyPress) => Some(InputEvent::KeyPress(HidKeyCode::from_u8(msg_arg))),
        Some(MessageType::KeyRelease) => Some(InputEvent::KeyRelease(HidKeyCode::from_u8(msg_arg))),
        Some(MessageType::MouseButtonPress) => Some(
            InputEvent::MouseButtonPress(HidButtonCode::from_u8(msg_arg)),
        ),
        Some(MessageType::MouseButtonRelease) => Some(
            InputEvent::MouseButtonRelease(HidButtonCode::from_u8(msg_arg)),
        ),
        Some(MessageType::ConsumerDevicePress) => Some(
            InputEvent::ConsumerDevicePress(ConsumerDeviceCode::from_u8(msg_arg)),
        ),
        Some(MessageType::ConsumerDeviceRelease) => Some(
            InputEvent::ConsumerDeviceRelease(ConsumerDeviceCode::from_u8(msg_arg)),
        ),
        Some(MessageType::HorizontalScrolling) => Some(InputEvent::HorizontalScrolling(msg_arg as i8)),
        Some(MessageType::VerticalScrolling) => Some(InputEvent::VerticalScrolling(msg_arg as i8)),
        Some(MessageType::Reset) => Some(InputEvent::Reset),
        Some(MessageType::Shutdown) => Some(InputEvent::Shutdown),
        None => None,
    }
}

impl InputReceiver {
    /// A receiver that has seen nothing yet.
    pub fn new() -> (r: Self)
        ensures
            r@ == (ReceiverState {
                local_sequence: 1,
                remote_sequence: 0,
                local_mouse_pos: Vec2 { x: 0, y: 0 },
                last_message: 0,
                events: Seq::empty(),
            }),
    {
        InputReceiver {
            local_sequence: 1,
            local_mouse_pos: Vec2::new(0, 0),
            packet_buffer: Vec::new(),
            events: VecDeque::new(),
            last_message: 0,
            remote_sequence: 0,
        }
    }

    /// Returns whether reading `packet` stays within the arithmetic and the
    /// datagram; see `receive_defined`.
    pub fn accepts(&self, packet: &[u8]) -> (r: bool)
        ensures
            r == receive_defined(self@, packet@),
    {
        if packet.len() < 24 {
            return true;
        }
        let sequence = read_u64_le(packet, 0);
        if sequence <= self.remote_sequence {
            return true;
        }
        let x = read_i64_le(packet, 8) as i128;
        let y = read_i64_le(packet, 16) as i128;
        let dx = x - self.local_mouse_pos.x as i128;
        let dy = y - self.local_mouse_pos.y as i128;
        if dx < i64::MIN as i128 || dx > i64::MAX as i128 || dy < i64::MIN as i128 || dy
            > i64::MAX as i128 {
            return false;
        }
        if packet.len() < 33 {
            return true;
        }
        let start = read_u64_le(packet, 24);
        let n = packet[32] as u64;
        let pairs = ((packet.len() - 33) / 2) as u64;
        assert(message_pairs(packet@.skip(33)).len() == pairs);
        let diff = self.last_message.saturating_sub(start);
        let avail = if n <= pairs {
            n
        } else {
            pairs
        };
        if diff > pairs {
            return false;
        }
        if diff < avail && start > u64::MAX - avail {
            return false;
        }
        if !(diff < n && pairs < n) && self.local_sequence == u64::MAX {
            return false;
        }
        true
    }

    /// Takes the oldest pending event.
    pub fn get_event(&mut self) -> (r: Option<InputEvent>)
        ensures
            old(self)@.events.len() == 0 ==> r is None && final(self)@ == old(self)@,
            old(self)@.events.len() > 0 ==> r == Some(old(self)@.events[0]) && final(self)@ == (
            ReceiverState { events: old(self)@.events.drop_first(), ..old(self)@ }),
    {
        self.events.pop_front()
    }

    /// Reads a datagram of the client; see `receive`.
    pub fn process_packet(&mut self, packet: &[u8]) -> (r: Result<Option<&[u8]>, WireError>)
        requires
            receive_defined(old(self)@, packet@),
        ensures
            final(self)@ == receive(old(self)@, packet@).0,
            receive(old(self)@, packet@).1 == match r {
                Ok(Some(reply)) => Ok(Some(reply@)),
                Ok(None) => Ok(None),
                Err(e) => Err(e),
            },
    {
        let ghost r0 = self@;
        let ghost b = packet@;
        if packet.len() < 8 {
            return Err(WireError::Truncated);
        }
        let sequence = read_u64_le(packet, 0);
        if sequence <= self.remote_sequence {
            return Ok(None);
        }
        self.remote_sequence = sequence;
        if packet.len() < 24 {
            return Err(WireError::Truncated);
        }
        let remote_mouse_pos = Vec2::new(read_i64_le(packet, 8), read_i64_le(packet, 16));
        if remote_mouse_pos.x != self.local_mouse_pos.x || remote_mouse_pos.y != self.local_mouse_pos.y {
            self.events.push_back(
                InputEvent::MouseMove(
                    remote_mouse_pos.x - self.local_mouse_pos.x,
                    remote_mouse_pos.y - self.local_mouse_pos.y,
                ),
            );
            self.local_mouse_pos = remote_mouse_pos;
        }
        let ghost r2 = self@;
        if packet.len() < 33 {
            return Err(WireError::Truncated);
        }
        let start_message = read_u64_le(packet, 24);
        let diff = self.last_message.saturating_sub(start_message);
        let len = packet[32] as u64;
        let ghost msgs = message_pairs(b.skip(33));
        let ghost n = b[32] as int;
        let ghost avail = if n <= msgs.len() {
            n
        } else {
            msgs.len() as int
        };
        assert(diff == saturating_sub(r0.last_message, start_message));
        let ghost r3 = if diff < avail {
            ReceiverState {
                events: r2.events + events_of(msgs.subrange(diff as int, avail)),
                last_message: (start_message + avail) as u64,
                ..r2
            }
        } else {
            r2
        };
        let ghost expected = receive(r0, b);
        assert(expected.0 == (if diff < n && msgs.len() < n {
            r3
        } else {
            ReceiverState { local_sequence: (r3.local_sequence + 1) as u64, ..r3 }
        }));
        assert(diff < n && msgs.len() < n ==> expected.1 == Err::<Option<Seq<u8>>, WireError>(WireError::Truncated));
        assert(!(diff < n && msgs.len() < n) ==> expected.1 == Ok::<Option<Seq<u8>>, WireError>(Some(encode_server_packet(r3.local_sequence, r3.local_mouse_pos, r3.last_message))));
        let mut i = diff;
        while i < len
            invariant
                b == packet@,
                b.len() >= 33,
                msgs == message_pairs(b.skip(33)),
                n == b[32] as int,
                len == n,
                avail == (if n <= msgs.len() {
                    n
                } else {
                    msgs.len() as int
                }),
                diff == saturating_sub(r0.last_message, start_message),
                start_message == field_at(b, 24),
                2 * diff <= b.len() - 33,
                diff < avail ==> start_message + avail <= u64::MAX,
                diff <= i,
                i <= avail || i == diff,
                expected == receive(r0, b),
                r0 == old(self)@,
                r3 == (if diff < avail {
                    ReceiverState {
                        events: r2.events + events_of(msgs.subrange(diff as int, avail)),
                        last_message: (start_message + avail) as u64,
                        ..r2
                    }
                } else {
                    r2
                }),
                expected.0 == (if diff < n && msgs.len() < n {
                    r3
                } else {
                    ReceiverState { local_sequence: (r3.local_sequence + 1) as u64, ..r3 }
                }),
                diff < n && msgs.len() < n ==> expected.1 == Err::<Option<Seq<u8>>, WireError>(WireError::Truncated),
                !(diff < n && msgs.len() < n) ==> expected.1 == Ok::<Option<Seq<u8>>, WireError>(Some(encode_server_packet(r3.local_sequence, r3.local_mouse_pos, r3.last_message))),
                self@ == (if diff < i {
                    ReceiverState {
                        events: r2.events + events_of(msgs.subrange(diff as int, i as int)),
                        last_message: (start_message + i) as u64,
                        ..r2
                    }
                } else {
                    r2
                }),
            decreases len - i,
        {
            let pos: usize = 33 + 2 * (i as usize);
            if pos + 2 > packet.len() {
                proof {
                    assert(msgs.len() == (b.len() - 33) / 2);
                    assert(msgs.len() <= i);
                    assert(diff <= msgs.len());
                    assert(i as int == avail);
                    assert(self@ == r3);
                }
                return Err(WireError::Truncated);
            }
            let msg_id = packet[pos];
            let msg_arg = packet[pos + 1];
            proof {
                assert(i < msgs.len());
                assert(msgs[i as int] == (msg_id, msg_arg));
                assert(msgs.subrange(diff as int, i + 1) == msgs.subrange(diff as int, i as int).push(
                    (msg_id, msg_arg),
                ));
                lemma_events_of_push(msgs.subrange(diff as int, i as int), (msg_id, msg_arg));
                if diff == i {
                    assert(msgs.subrange(diff as int, i as int) =~= Seq::<Message>::empty());
                }
            }
            match decode_message_exec(msg_id, msg_arg) {
                Some(event) => self.events.push_back(event),
                None => {},
            }
            self.last_message = start_message + i + 1;
            i += 1;
            proof {
                assert(self@.events =~= r2.events + events_of(msgs.subrange(diff as int, i as int)));
            }
        }
        self.packet_buffer.clear();
        let seq_bytes = u64_le_bytes(self.local_sequence);
        push_bytes8(&mut self.packet_buffer, seq_bytes);
        let x_bytes = i64_le_bytes(self.local_mouse_pos.x);
        push_bytes8(&mut self.packet_buffer, x_bytes);
        let y_bytes = i64_le_bytes(self.local_mouse_pos.y);
        push_bytes8(&mut self.packet_buffer, y_bytes);
        let ack_bytes = u64_le_bytes(self.last_message);
        push_bytes8(&mut self.packet_buffer, ack_bytes);
        self.local_sequence += 1;
        Ok(Some(self.packet_buffer.as_slice()))
    }
}

/// A datagram that arrives a second time changes nothing and is not answered:
/// its messages become events at most once.
pub proof fn lemma_duplicate_ignored(r: ReceiverState, b: Seq<u8>)
    requires
        b.len() >= 8,
    ensures
        receive(receive(r, b).0, b) == (receive(r, b).0, Ok::<Option<Seq<u8>>, WireError>(None)),
{
}

} // verus!
