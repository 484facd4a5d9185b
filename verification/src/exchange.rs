use vstd::prelude::*;

use crate::common::Vec2;
use crate::wire::field_at;
use crate::protocol::{
    encode_server_packet, events_of, lemma_client_packet_fields, lemma_server_packet_fields, InputEvent,
};
use crate::receiver::{receive, receive_defined, ReceiverState};
use crate::sender::{batch, in_sync_spec, read_reply, read_reply_defined, sender_packet, SenderState};

verus! {

/// The events that the server adds when its mouse position `from` moves to `to`.
pub open spec fn mouse_events(from: Vec2<i64>, to: Vec2<i64>) -> Seq<InputEvent> {
    if to != from {
        seq![InputEvent::MouseMove((to.x - from.x) as i64, (to.y - from.y) as i64)]
    } else {
        Seq::empty()
    }
}

/// One exchange of datagrams without loss, from a client in state `s` and a
/// server in state `r` that has processed at least the messages that the
/// client knows to be acknowledged and none beyond those that this datagram
/// carries:
/// - the server reads the client's datagram without error and answers;
/// - it reaches the client's mouse position;
/// - it turns exactly the carried messages that it had not processed yet into
///   events, in the order in which they were queued;
/// - the client, reading the answer, drops exactly the messages that the
///   server has processed and takes the server's mouse position;
/// - where the client held at most 255 messages, it is then in sync.
pub proof fn lemma_exchange_delivers(s: SenderState, r: ReceiverState)
    requires
        s.last_message <= r.last_message <= s.last_message + batch(s).len(),
        r.remote_sequence < s.local_sequence < u64::MAX,
        s.remote_sequence < r.local_sequence < u64::MAX,
        s.last_message + batch(s).len() <= u64::MAX,
        i64::MIN <= s.local_mouse_pos.x - r.local_mouse_pos.x <= i64::MAX,
        i64::MIN <= s.local_mouse_pos.y - r.local_mouse_pos.y <= i64::MAX,
    ensures
        ({
            let packet = sender_packet(s);
            let r1 = receive(r, packet).0;
            let d = r.last_message - s.last_message;
            let k = batch(s).len() as int;
            let reply = encode_server_packet(r.local_sequence, s.local_mouse_pos, r1.last_message);
            let s1 = SenderState { local_sequence: (s.local_sequence + 1) as u64, ..s };
            let s2 = read_reply(s1, reply).0;
            &&& receive_defined(r, packet)
            &&& receive(r, packet).1 == Ok::<Option<Seq<u8>>, crate::protocol::WireError>(Some(reply))
            &&& r1.local_mouse_pos == s.local_mouse_pos
            &&& r1.last_message == (if d < k {
                (s.last_message + k) as u64
            } else {
                r.last_message
            })
            &&& r1.events == r.events + mouse_events(r.local_mouse_pos, s.local_mouse_pos) + (if d < k {
                events_of(batch(s).subrange(d, k))
            } else {
                Seq::empty()
            })
            &&& read_reply_defined(s1, reply)
            &&& read_reply(s1, reply).1 == Ok::<(), crate::protocol::WireError>(())
            &&& s2.queue == s.queue.skip(r1.last_message - s.last_message)
            &&& s2.last_message == r1.last_message
            &&& s2.remote_mouse_pos == s.local_mouse_pos
            &&& s.queue.len() <= 255 ==> in_sync_spec(s2)
        }),
{
    let packet = sender_packet(s);
    let k = batch(s).len() as int;
    lemma_client_packet_fields(s.local_sequence, s.local_mouse_pos, s.last_message, batch(s));
    let pos = Vec2 { x: crate::wire::field_at(packet, 8) as i64, y: crate::wire::field_at(packet, 16) as i64 };
    assert(pos == s.local_mouse_pos);
    let r1 = receive(r, packet).0;
    let reply = encode_server_packet(r.local_sequence, s.local_mouse_pos, r1.last_message);
    lemma_server_packet_fields(r.local_sequence, s.local_mouse_pos, r1.last_message);
    let d = r.last_message - s.last_message;
    if !(d < k) {
        assert(r1.events =~= r.events + mouse_events(r.local_mouse_pos, s.local_mouse_pos));
    }
    assert(receive_defined(r, packet));
    assert(receive(r, packet).1 == Ok::<Option<Seq<u8>>, crate::protocol::WireError>(Some(reply)));
    assert(r1.local_mouse_pos == s.local_mouse_pos);
    assert(r1.last_message == (if d < k { (s.last_message + k) as u64 } else { r.last_message }));
    let s1 = SenderState { local_sequence: (s.local_sequence + 1) as u64, ..s };
    assert(read_reply_defined(s1, reply));
    let s2 = read_reply(s1, reply).0;
    assert(read_reply(s1, reply).1 == Ok::<(), crate::protocol::WireError>(()));
    assert(s2.queue == s.queue.skip(r1.last_message - s.last_message));
    assert(s2.remote_mouse_pos == s.local_mouse_pos);
    if s.queue.len() <= 255 {
        assert(s.queue.skip(s.queue.len() as int) =~= Seq::<crate::protocol::Message>::empty());
        assert(in_sync_spec(s2));
    }
}

/// A client and a server that can exchange datagrams: the server has
/// processed at least the messages that the client knows to be acknowledged
/// and none beyond those of the client's next datagram, and each side's next
/// datagram is newer than the last one the other side read.
pub open spec fn linked(s: SenderState, r: ReceiverState) -> bool {
    &&& s.last_message <= r.last_message <= s.last_message + batch(s).len()
    &&& r.remote_sequence < s.local_sequence
    &&& s.remote_sequence < r.local_sequence
}

/// A new client and a new server are linked.
pub proof fn lemma_new_linked(s: SenderState, r: ReceiverState)
    requires
        s.local_sequence == 1 && s.remote_sequence == 0 && s.last_message == 0,
        r.local_sequence == 1 && r.remote_sequence == 0 && r.last_message == 0,
    ensures
        linked(s, r),
{
}

/// Queueing a message on the client keeps it linked to the server.
pub proof fn lemma_queue_keeps_link(s: SenderState, r: ReceiverState, m: crate::protocol::Message)
    requires
        linked(s, r),
    ensures
        linked(SenderState { queue: s.queue.push(m), ..s }, r),
{
    let s1 = SenderState { queue: s.queue.push(m), ..s };
    assert(batch(s1).len() >= batch(s).len());
}

/// After one exchange without loss the two sides are linked again and have
/// processed the same messages, so that `lemma_exchange_delivers` applies to
/// the next exchange as well.
pub proof fn lemma_exchange_keeps_link(s: SenderState, r: ReceiverState)
    requires
        linked(s, r),
        s.local_sequence + 1 < u64::MAX,
        r.local_sequence + 1 < u64::MAX,
        s.last_message + batch(s).len() <= u64::MAX,
        i64::MIN <= s.local_mouse_pos.x - r.local_mouse_pos.x <= i64::MAX,
        i64::MIN <= s.local_mouse_pos.y - r.local_mouse_pos.y <= i64::MAX,
    ensures
        ({
            let packet = sender_packet(s);
            let r1 = receive(r, packet).0;
            let reply = encode_server_packet(r.local_sequence, s.local_mouse_pos, r1.last_message);
            let s1 = SenderState { local_sequence: (s.local_sequence + 1) as u64, ..s };
            let s2 = read_reply(s1, reply).0;
            &&& linked(s2, r1)
            &&& s2.last_message == r1.last_message
        }),
{
    lemma_exchange_delivers(s, r);
    let packet = sender_packet(s);
    lemma_client_packet_fields(s.local_sequence, s.local_mouse_pos, s.last_message, batch(s));
    let r1 = receive(r, packet).0;
    let reply = encode_server_packet(r.local_sequence, s.local_mouse_pos, r1.last_message);
    lemma_server_packet_fields(r.local_sequence, s.local_mouse_pos, r1.last_message);
    let s1 = SenderState { local_sequence: (s.local_sequence + 1) as u64, ..s };
    let s2 = read_reply(s1, reply).0;
    assert(r1.remote_sequence == s.local_sequence);
    assert(r1.local_sequence == r.local_sequence + 1);
    assert(s2.remote_sequence == r.local_sequence);
    assert(s2.local_sequence == s.local_sequence + 1);
}

/// What the server does with a whole datagram that is newer than the last
/// one: it adds the mouse movement, if any, then the events of the carried
/// messages that it has not processed yet, in order (so that no message is
/// delivered twice), moves its count of processed messages to the end of the
/// carried ones where that count grows, and answers.
pub proof fn lemma_receive_appends(r: ReceiverState, b: Seq<u8>)
    requires
        b.len() >= 33,
        field_at(b, 0) > r.remote_sequence,
        b.len() >= 33 + 2 * (b[32] as int),
    ensures
        ({
            let pos = Vec2 { x: field_at(b, 8) as i64, y: field_at(b, 16) as i64 };
            let start = field_at(b, 24);
            let n = b[32] as int;
            let d = crate::protocol::saturating_sub(r.last_message, start) as int;
            let msgs = crate::protocol::message_pairs(b.skip(33));
            let r1 = receive(r, b).0;
            &&& receive(r, b).1 is Ok
            &&& receive(r, b).1->Ok_0 is Some
            &&& r1.events == r.events + mouse_events(r.local_mouse_pos, pos) + (if d < n {
                events_of(msgs.subrange(d, n))
            } else {
                Seq::empty()
            })
            &&& r1.last_message == (if d < n {
                (start + n) as u64
            } else {
                r.last_message
            })
            &&& r1.local_mouse_pos == pos
            &&& r1.remote_sequence == field_at(b, 0)
        }),
{
    let pos = Vec2 { x: field_at(b, 8) as i64, y: field_at(b, 16) as i64 };
    let msgs = crate::protocol::message_pairs(b.skip(33));
    assert(msgs.len() >= b[32] as int);
    if pos == r.local_mouse_pos {
        assert(r.events + mouse_events(r.local_mouse_pos, pos) =~= r.events);
    } else {
        assert(r.events.push(
            InputEvent::MouseMove((pos.x - r.local_mouse_pos.x) as i64, (pos.y - r.local_mouse_pos.y) as i64),
        ) =~= r.events + mouse_events(r.local_mouse_pos, pos));
    }
    let d = crate::protocol::saturating_sub(r.last_message, field_at(b, 24)) as int;
    if !(d < b[32] as int) {
        assert(r.events + mouse_events(r.local_mouse_pos, pos) + Seq::<InputEvent>::empty() =~= r.events
            + mouse_events(r.local_mouse_pos, pos));
    }
}

} // verus!
