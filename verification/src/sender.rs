use vstd::prelude::*;

use std::collections::VecDeque;

use crate::common::{ConsumerDeviceCode, HidButtonCode, HidKeyCode, MessageType, MouseType, Vec2};
use crate::protocol::{encode_client_packet, lemma_message_bytes, message_bytes, saturating_sub, Message, WireError};
use crate::wire::{field_at, i64_le_bytes, le_bytes, push_bytes8, read_i64_le, read_u64_le, u64_le_bytes};

verus! {

/// What the client knows of its connection to the server.
pub struct SenderState {
    pub local_sequence: u64,
    pub remote_sequence: u64,
    pub local_mouse_pos: Vec2<i64>,
    pub local_mouse_pos_raw: Vec2<i64>,
    pub remote_mouse_pos: Vec2<i64>,
    pub queue: Seq<Message>,
    pub last_message: u64,
}

/// The most messages that one datagram carries.
pub open spec fn max_batch() -> int {
    255
}

/// The messages that the next datagram carries: the oldest unacknowledged ones, at most 255.
pub open spec fn batch(s: SenderState) -> Seq<Message> {
    if s.queue.len() <= max_batch() {
        s.queue
    } else {
        s.queue.take(max_batch())
    }
}

/// The datagram that the client sends in state `s`.
pub open spec fn sender_packet(s: SenderState) -> Seq<u8> {
    encode_client_packet(s.local_sequence, s.local_mouse_pos, s.last_message, batch(s))
}

/// The state after the client reads the server's datagram `b`: a datagram
/// that is not newer than the last one changes nothing; otherwise the client
/// takes the server's mouse position and drops the messages that the server
/// has acknowledged. Where `b` ends early the fields read before stay read.
pub open spec fn read_reply(s: SenderState, b: Seq<u8>) -> (SenderState, Result<(), WireError>) {
    if b.len() < 8 {
        (s, Err(WireError::Truncated))
    } else if field_at(b, 0) <= s.remote_sequence {
        (s, Ok(()))
    } else {
        let s1 = SenderState { remote_sequence: field_at(b, 0), ..s };
        if b.len() < 16 {
            (s1, Err(WireError::Truncated))
        } else {
            let s2 = SenderState {
                remote_mouse_pos: Vec2 { x: field_at(b, 8) as i64, ..s1.remote_mouse_pos },
                ..s1
            };
            if b.len() < 24 {
                (s2, Err(WireError::Truncated))
            } else {
                let s3 = SenderState {
                    remote_mouse_pos: Vec2 { y: field_at(b, 16) as i64, ..s2.remote_mouse_pos },
                    ..s2
                };
                if b.len() < 32 {
                    (s3, Err(WireError::Truncated))
                } else {
                    let received = field_at(b, 24);
                    let diff = saturating_sub(received, s.last_message) as int;
                    (SenderState { queue: s.queue.skip(diff), last_message: received, ..s3 }, Ok(()))
                }
            }
        }
    }
}

/// The client drops no more messages than it holds: a datagram that is newer
/// than the last one does not acknowledge messages that were never queued.
pub open spec fn read_reply_defined(s: SenderState, b: Seq<u8>) -> bool {
    b.len() >= 32 && field_at(b, 0) > s.remote_sequence ==> saturating_sub(field_at(b, 24), s.last_message)
        <= s.queue.len()
}

/// The local and the remote mouse positions agree and no message waits.
pub open spec fn in_sync_spec(s: SenderState) -> bool {
    s.local_mouse_pos == s.remote_mouse_pos && s.queue.len() == 0
}

/// The client side of a connection: it queues messages until the server
/// acknowledges them and sends its mouse position with every datagram.
pub struct InputSender {
    local_sequence: u64,
    remote_sequence: u64,
    packet_buffer: Vec<u8>,
    local_mouse_pos: Vec2<MouseType>,
    local_mouse_pos_raw: Vec2<MouseType>,
    remote_mouse_pos: Vec2<MouseType>,
    message_queue: VecDeque<Message>,
    last_message: u64,
}

impl View for InputSender {
    type V = SenderState;

    closed spec fn view(&self) -> SenderState {
        SenderState {
            local_sequence: self.local_sequence,
            remote_sequence: self.remote_sequence,
            local_mouse_pos: self.local_mouse_pos,
            local_mouse_pos_raw: self.local_mouse_pos_raw,
            remote_mouse_pos: self.remote_mouse_pos,
            queue: self.message_queue@,
            last_message: self.last_message,
        }
    }
}

impl InputSender {
    /// A sender that has sent nothing yet.
    pub fn new() -> (r: Self)
        ensures
            r@ == (SenderState {
                local_sequence: 1,
                remote_sequence: 0,
                local_mouse_pos: Vec2 { x: 0, y: 0 },
                local_mouse_pos_raw: Vec2 { x: 0, y: 0 },
                remote_mouse_pos: Vec2 { x: 0, y: 0 },
                queue: Seq::empty(),
                last_message: 0,
            }),
    {
        InputSender {
            local_sequence: 1,
            remote_sequence: 0,
            packet_buffer: Vec::new(),
            local_mouse_pos: Vec2::new(0, 0),
            local_mouse_pos_raw: Vec2::new(0, 0),
            remote_mouse_pos: Vec2::new(0, 0),
            message_queue: VecDeque::new(),
            last_message: 0,
        }
    }

    /// Moves the local mouse position by `(x, y)` (mouse speed factor 1).
    pub fn move_mouse(&mut self, x: MouseType, y: MouseType)
        requires
            i64::MIN <= old(self)@.local_mouse_pos.x + x <= i64::MAX,
            i64::MIN <= old(self)@.local_mouse_pos.y + y <= i64::MAX,
        ensures
            final(self)@ == (SenderState {
                local_mouse_pos: Vec2 {
                    x: (old(self)@.local_mouse_pos.x + x) as i64,
                    y: (old(self)@.local_mouse_pos.y + y) as i64,
                },
                ..old(self)@
            }),
    {
        self.local_mouse_pos.x = self.local_mouse_pos.x + x;
        self.local_mouse_pos.y = self.local_mouse_pos.y + y;
    }

    /// Adds `(x, y)` to the unscaled mouse position, from which a mouse speed
    /// factor other than 1 derives the local position, and returns it.
    pub fn accumulate_raw_mouse(&mut self, x: MouseType, y: MouseType) -> (r: Vec2<MouseType>)
        requires
            i64::MIN <= old(self)@.local_mouse_pos_raw.x + x <= i64::MAX,
            i64::MIN <= old(self)@.local_mouse_pos_raw.y + y <= i64::MAX,
        ensures
            r == final(self)@.local_mouse_pos_raw,
            final(self)@ == (SenderState {
                local_mouse_pos_raw: Vec2 {
                    x: (old(self)@.local_mouse_pos_raw.x + x) as i64,
                    y: (old(self)@.local_mouse_pos_raw.y + y) as i64,
                },
                ..old(self)@
            }),
    {
        self.local_mouse_pos_raw.x = self.local_mouse_pos_raw.x + x;
        self.local_mouse_pos_raw.y = self.local_mouse_pos_raw.y + y;
        Vec2::new(self.local_mouse_pos_raw.x, self.local_mouse_pos_raw.y)
    }

    /// Sets the local mouse position (the scaled unscaled position).
    pub fn set_scaled_mouse_pos(&mut self, pos: Vec2<MouseType>)
        ensures
            final(self)@ == (SenderState { local_mouse_pos: pos, ..old(self)@ }),
    {
        self.local_mouse_pos = pos;
    }

    fn queue_message(&mut self, kind: MessageType, arg: u8)
        ensures
            final(self)@ == (SenderState { queue: old(self)@.queue.push((kind.spec_to_u8(), arg)), ..old(self)@ }),
    {
        self.message_queue.push_back((kind.to_u8(), arg));
    }

    /// Queues a request that the server shut its machine down.
    pub fn shutdown_remote(&mut self)
        ensures
            final(self)@ == (SenderState { queue: old(self)@.queue.push((MessageType::Shutdown.spec_to_u8(), 0u8)), ..old(self)@ }),
    {
        self.queue_message(MessageType::Shutdown, 0)
    }

    /// Queues a request that the server release every key and button.
    pub fn reset(&mut self)
        ensures
            final(self)@ == (SenderState { queue: old(self)@.queue.push((MessageType::Reset.spec_to_u8(), 0u8)), ..old(self)@ }),
    {
        self.queue_message(MessageType::Reset, 0)
    }

    /// Queues a key press.
    pub fn press_key(&mut self, key: HidKeyCode)
        ensures
            final(self)@ == (SenderState { queue: old(self)@.queue.push((MessageType::KeyPress.spec_to_u8(), key.spec_to_u8())), ..old(self)@ }),
    {
        self.queue_message(MessageType::KeyPress, key.to_u8())
    }

    /// Queues a key release.
    pub fn release_key(&mut self, key: HidKeyCode)
        ensures
            final(self)@ == (SenderState { queue: old(self)@.queue.push((MessageType::KeyRelease.spec_to_u8(), key.spec_to_u8())), ..old(self)@ }),
    {
        self.queue_message(MessageType::KeyRelease, key.to_u8())
    }

    /// Queues a mouse button press.
    pub fn press_mouse_button(&mut self, button: HidButtonCode)
        ensures
            final(self)@ == (SenderState { queue: old(self)@.queue.push((MessageType::MouseButtonPress.spec_to_u8(), button.spec_to_u8())), ..old(self)@ }),
    {
        self.queue_message(MessageType::MouseButtonPress, button.to_u8())
    }

    /// Queues a mouse button release.
    pub fn release_mouse_button(&mut self, button: HidButtonCode)
        ensures
            final(self)@ == (SenderState { queue: old(self)@.queue.push((MessageType::MouseButtonRelease.spec_to_u8(), button.spec_to_u8())), ..old(self)@ }),
    {
        self.queue_message(MessageType::MouseButtonRelease, button.to_u8())
    }

    /// Queues a press of a consumer device key.
    pub fn press_consumer_device(&mut self, button: ConsumerDeviceCode)
        ensures
            final(self)@ == (SenderState { queue: old(self)@.queue.push((MessageType::ConsumerDevicePress.spec_to_u8(), button.spec_to_u8())), ..old(self)@ }),
    {
        self.queue_message(MessageType::ConsumerDevicePress, button.to_u8())
    }

    /// Queues a release of a consumer device key.
    pub fn release_consumer_device(&mut self, button: ConsumerDeviceCode)
        ensures
            final(self)@ == (SenderState { queue: old(self)@.queue.push((MessageType::ConsumerDeviceRelease.spec_to_u8(), button.spec_to_u8())), ..old(self)@ }),
    {
        self.queue_message(MessageType::ConsumerDeviceRelease, button.to_u8())
    }

    /// Queues a horizontal scroll by `amount` notches.
    pub fn scroll_horizontal(&mut self, amount: i8)
        ensures
            final(self)@ == (SenderState { queue: old(self)@.queue.push((MessageType::HorizontalScrolling.spec_to_u8(), amount as u8)), ..old(self)@ }),
    {
        self.queue_message(MessageType::HorizontalScrolling, amount as u8)
    }

    /// Queues a vertical scroll by `amount` notches.
    pub fn scroll_vertical(&mut self, amount: i8)
        ensures
            final(self)@ == (SenderState { queue: old(self)@.queue.push((MessageType::VerticalScrolling.spec_to_u8(), amount as u8)), ..old(self)@ }),
    {
        self.queue_message(MessageType::VerticalScrolling, amount as u8)
    }

    /// Returns whether the server has reached the local mouse position and
    /// acknowledged every message.
    pub fn in_sync(&self) -> (r: bool)
        ensures
            r == in_sync_spec(self@),
    {
        self.local_mouse_pos.x == self.remote_mouse_pos.x && self.local_mouse_pos.y
            == self.remote_mouse_pos.y && self.message_queue.len() == 0
    }

    /// Returns whether reading `packet` drops no more messages than are
    /// queued; see `read_reply_defined`.
    pub fn accepts(&self, packet: &[u8]) -> (r: bool)
        ensures
            r == read_reply_defined(self@, packet@),
    {
        if packet.len() < 32 {
            return true;
        }
        let sequence = read_u64_le(packet, 0);
        if sequence <= self.remote_sequence {
            return true;
        }
        let received_index = read_u64_le(packet, 24);
        received_index.saturating_sub(self.last_message) <= self.message_queue.len() as u64
    }

    /// Reads a datagram of the server; see `read_reply`.
    pub fn read_packet(&mut self, packet: &[u8]) -> (r: Result<(), WireError>)
        requires
            read_reply_defined(old(self)@, packet@),
        ensures
            (final(self)@, r) == read_reply(old(self)@, packet@),
    {
        if packet.len() < 8 {
            return Err(WireError::Truncated);
        }
        let sequence = read_u64_le(packet, 0);
        if sequence <= self.remote_sequence {
            return Ok(());
        }
        self.remote_sequence = sequence;
        if packet.len() < 16 {
            return Err(WireError::Truncated);
        }
        self.remote_mouse_pos.x = read_i64_le(packet, 8);
        if packet.len() < 24 {
            return Err(WireError::Truncated);
        }
        self.remote_mouse_pos.y = read_i64_le(packet, 16);
        if packet.len() < 32 {
            return Err(WireError::Truncated);
        }
        let received_index = read_u64_le(packet, 24);
        let diff = received_index.saturating_sub(self.last_message);
        let ghost q0 = self.message_queue@;
        let ghost s3 = self@;
        let mut dropped: u64 = 0;
        assert(q0.skip(0) == q0);
        while dropped < diff
            invariant
                dropped <= diff,
                diff <= q0.len(),
                s3.queue == q0,
                self@ == (SenderState { queue: q0.skip(dropped as int), ..s3 }),
            decreases diff - dropped,
        {
            self.message_queue.pop_front();
            dropped += 1;
            proof {
                assert(q0.skip(dropped as int) == q0.skip(dropped - 1).drop_first());
            }
        }
        self.last_message = received_index;
        Ok(())
    }

    /// Writes the next datagram: the sequence number, the local mouse
    /// position, the acknowledged count and at most 255 queued messages.
    pub fn write_packet(&mut self) -> (r: &[u8])
        requires
            old(self)@.local_sequence < u64::MAX,
        ensures
            r@ == sender_packet(old(self)@),
            final(self)@ == (SenderState { local_sequence: (old(self)@.local_sequence + 1) as u64, ..old(self)@ }),
    {
        let ghost s0 = self@;
        self.packet_buffer.clear();
        let seq_bytes = u64_le_bytes(self.local_sequence);
        push_bytes8(&mut self.packet_buffer, seq_bytes);
        let x_bytes = i64_le_bytes(self.local_mouse_pos.x);
        push_bytes8(&mut self.packet_buffer, x_bytes);
        let y_bytes = i64_le_bytes(self.local_mouse_pos.y);
        push_bytes8(&mut self.packet_buffer, y_bytes);
        let ack_bytes = u64_le_bytes(self.last_message);
        push_bytes8(&mut self.packet_buffer, ack_bytes);
        let count = if self.message_queue.len() < 255 {
            self.message_queue.len()
        } else {
            255
        };
        self.packet_buffer.push(count as u8);
        let ghost header = self.packet_buffer@;
        let ghost msgs = batch(s0);
        assert(msgs.len() == count);
        let mut i: usize = 0;
        while i < count
            invariant
                i <= count,
                count == msgs.len(),
                msgs == batch(s0),
                s0 == self@,
                s0.local_sequence < u64::MAX,
                forall|j: int| 0 <= j < count ==> msgs[j] == s0.queue[j],
                self.packet_buffer@ == header + message_bytes(msgs.take(i as int)),
            decreases count - i,
        {
            let m = self.message_queue[i];
            self.packet_buffer.push(m.0);
            self.packet_buffer.push(m.1);
            proof {
                assert(msgs.take(i + 1).drop_last() == msgs.take(i as int));
                assert(msgs.take(i + 1).last() == m);
                assert(self.packet_buffer@ =~= header + message_bytes(msgs.take(i + 1)));
            }
            i += 1;
        }
        assert(msgs.take(count as int) == msgs);
        assert(self.packet_buffer@ =~= sender_packet(s0));
        self.local_sequence += 1;
        self.packet_buffer.as_slice()
    }
}

/// When the client sends its next datagram: never while it is in sync with
/// the server; otherwise at the deadline. Times are microseconds of a
/// monotonic clock; while out of sync the client sends `send_rate` datagrams
/// per second.
pub struct SendSchedule {
    pub deadline: Option<u64>,
    pub interval: u64,
}

impl SendSchedule {
    /// Nothing to send; datagrams go `send_rate` times a second while out of
    /// sync.
    pub fn new(send_rate: u32) -> (r: Self)
        requires
            send_rate >= 1,
        ensures
            r.deadline is None,
            r.interval == 1_000_000int / (send_rate as int),
    {
        SendSchedule { deadline: None, interval: 1_000_000u64 / (send_rate as u64) }
    }

    /// Takes the sender's state into account after any event at time `now`:
    /// in sync, nothing is due; out of sync, a pending deadline stays and
    /// otherwise a datagram is due at once.
    pub fn settle(&mut self, in_sync: bool, now: u64)
        ensures
            final(self).deadline == (if in_sync {
                None
            } else {
                match old(self).deadline {
                    Some(d) => Some(d),
                    None => Some(now),
                }
            }),
            final(self).interval == old(self).interval,
    {
        if in_sync {
            self.deadline = None;
        } else if self.deadline.is_none() {
            self.deadline = Some(now);
        }
    }

    /// A datagram went out at `now`: the next is due one interval later.
    pub fn sent(&mut self, now: u64)
        requires
            now + old(self).interval <= u64::MAX,
        ensures
            final(self).deadline == Some((now + old(self).interval) as u64),
            final(self).interval == old(self).interval,
    {
        self.deadline = Some(now + self.interval);
    }
}

/// A reply of the server that arrives a second time changes nothing.
pub proof fn lemma_duplicate_reply_ignored(s: SenderState, b: Seq<u8>)
    requires
        b.len() >= 8,
    ensures
        read_reply(read_reply(s, b).0, b) == (read_reply(s, b).0, Ok::<(), WireError>(())),
{
}

} // verus!
