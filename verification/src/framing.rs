//! Length-prefixed frames: how bodies follow each other on the wire.
use vstd::prelude::*;
use vstd::slice::slice_subrange;
use vstd::slice::slice_to_vec;
use crate::bytes::{
    a_byte_counts_more_than_those_behind_it, a_number_is_written_byte_by_byte, be_bytes,
    be_bytes_are_read_back, be_value, u32_from_be_bytes, u32_to_be_bytes,
};

verus! {

/// A body as it goes on the wire: its length in four big-endian bytes, then
/// the body itself.
pub open spec fn framed(body: Seq<u8>) -> Seq<u8> {
    be_bytes(body.len() as int) + body
}

/// The bytes of several bodies, framed one after the other.
pub open spec fn stream(bodies: Seq<Seq<u8>>) -> Seq<u8>
    decreases bodies.len(),
{
    if bodies.len() == 0 {
        Seq::empty()
    } else {
        framed(bodies[0]) + stream(bodies.skip(1))
    }
}

/// Whether `bytes` start with a whole frame.
pub open spec fn starts_with_frame(bytes: Seq<u8>) -> bool {
    bytes.len() >= 4 && bytes.len() >= 4 + be_value(bytes)
}

/// The bodies of the whole frames that `bytes` start with, in order. A frame
/// that is cut off ends the list.
pub open spec fn bodies(bytes: Seq<u8>) -> Seq<Seq<u8>>
    decreases bytes.len(),
{
    if starts_with_frame(bytes) {
        let end = 4 + be_value(bytes);
        seq![bytes.subrange(4, end)] + bodies(bytes.skip(end))
    } else {
        Seq::empty()
    }
}

/// The length that the four bytes before a body announce.
pub fn message_length(prefix: &[u8]) -> (length: usize)
    requires
        prefix@.len() >= 4,
    ensures
        length == be_value(prefix@),
{
    u32_from_be_bytes(prefix) as usize
}

/// Put the length of a body before it.
pub fn encode_raw_length(body: &[u8]) -> (frame: Vec<u8>)
    requires
        body@.len() <= u32::MAX,
    ensures
        frame@ == framed(body@),
{
    let mut frame: Vec<u8> = u32_to_be_bytes(body.len() as u32);
    frame.extend_from_slice(body);
    frame
}

/// The bodies of the whole frames in `all`, in order.
pub fn frames(all: &[u8]) -> (found: Vec<Vec<u8>>)
    ensures
        found@.map_values(|body: Vec<u8>| body@) == bodies(all@),
{
    let mut found: Vec<Vec<u8>> = Vec::new();
    let mut rest: &[u8] = all;
    assert(found@.map_values(|body: Vec<u8>| body@) + bodies(rest@) == bodies(all@));
    while rest.len() >= 4
        invariant
            found@.map_values(|body: Vec<u8>| body@) + bodies(rest@) == bodies(all@),
        ensures
            found@.map_values(|body: Vec<u8>| body@) == bodies(all@),
        decreases rest@.len(),
    {
        let length: usize = message_length(rest);
        if rest.len() - 4 < length {
            assert(bodies(rest@) == Seq::<Seq<u8>>::empty());
            break;
        }
        let end: usize = 4 + length;
        let body: Vec<u8> = slice_to_vec(slice_subrange(rest, 4, end));
        let ghost before = found@;
        found.push(body);
        proof {
            let view = |body: Vec<u8>| body@;
            assert(found@.map_values(view) == before.map_values(view).push(body@));
            assert(bodies(rest@) == seq![body@] + bodies(rest@.skip(end as int)));
            assert(rest@.skip(end as int) == rest@.subrange(end as int, rest@.len() as int));
        }
        rest = slice_subrange(rest, end, rest.len());
    }
    found
}

/// What one read of a connection brought.
pub enum Received {
    /// Bytes; none of them is the connection's end.
    Bytes(Vec<u8>),
    /// An error, which ends the connection too.
    Failed,
    /// Nothing in time.
    TimedOut,
}

/// What draining a connection does after a read.
#[derive(Debug, Clone, Copy, PartialEq, Eq, Structural)]
pub enum Draining {
    /// Read on.
    More,
    /// The connection has ended: everything was received.
    Ended,
    /// The connection did not end in time.
    Late,
}

/// Take one read into everything that was received until the connection's
/// end.
pub fn drain(received: &mut Vec<u8>, read: &Received) -> (draining: Draining)
    ensures
        final(received)@ == received_after(old(received)@, *read),
        draining == draining_after(*read),
        final(received)@ == (match *read {
            Received::Bytes(bytes) => old(received)@ + bytes@,
            _ => old(received)@,
        }),
        draining == (match *read {
            Received::Bytes(bytes) => if bytes@.len() > 0 {
                Draining::More
            } else {
                Draining::Ended
            },
            Received::Failed => Draining::Ended,
            Received::TimedOut => Draining::Late,
        }),
{
    match read {
        Received::Bytes(bytes) => {
            received.extend_from_slice(bytes.as_slice());
            if bytes.len() > 0 {
                Draining::More
            } else {
                Draining::Ended
            }
        },
        Received::Failed => Draining::Ended,
        Received::TimedOut => Draining::Late,
    }
}

/// A frame cut off before its end is not a whole frame.
pub proof fn a_cut_frame_is_not_whole(body: Seq<u8>, sent: int)
    requires
        body.len() <= u32::MAX,
        0 <= sent < framed(body).len(),
    ensures
        !starts_with_frame(framed(body).take(sent)),
{
    be_bytes_are_read_back(body.len() as int);
    if sent >= 4 {
        let cut = framed(body).take(sent);
        assert(be_value(cut) == be_value(be_bytes(body.len() as int)));
    }
}

/// The first frame is read off the front, and what follows it is read next.
pub proof fn the_first_frame_is_read_first(body: Seq<u8>, rest: Seq<u8>)
    requires
        body.len() <= u32::MAX,
    ensures
        bodies(framed(body) + rest) == seq![body] + bodies(rest),
{
    let all = framed(body) + rest;
    let prefix = be_bytes(body.len() as int);
    be_bytes_are_read_back(body.len() as int);
    assert(all[0] == prefix[0] && all[1] == prefix[1]);
    assert(all[2] == prefix[2] && all[3] == prefix[3]);
    let end = 4 + body.len() as int;
    assert(all.subrange(4, end) == body);
    assert(all.skip(end) == rest);
}

/// Whatever bodies are framed one after the other, reading the stream gives
/// back exactly those, in order, and nothing of a frame still cut off behind
/// them.
pub proof fn framed_bodies_are_read_back(list: Seq<Seq<u8>>, tail: Seq<u8>)
    requires
        forall|i: int| 0 <= i < list.len() ==> (#[trigger] list[i]).len() <= u32::MAX,
        !starts_with_frame(tail),
    ensures
        bodies(stream(list) + tail) == list,
    decreases list.len(),
{
    if list.len() == 0 {
        assert(stream(list) + tail == tail);
    } else {
        let rest = stream(list.skip(1)) + tail;
        assert(stream(list) + tail == framed(list[0]) + rest);
        the_first_frame_is_read_first(list[0], rest);
        framed_bodies_are_read_back(list.skip(1), tail);
        assert(seq![list[0]] + list.skip(1) == list);
    }
}

/// A frame is its body behind four bytes that spell how long the body is,
/// the most significant first.
pub proof fn a_frame_is_its_body_behind_its_length(body: Seq<u8>)
    requires
        body.len() <= u32::MAX,
    ensures
        framed(body).len() == 4 + body.len(),
        framed(body).skip(4) == body,
        ({
            let frame = framed(body);
            ((frame[0] * 256 + frame[1]) * 256 + frame[2]) * 256 + frame[3] == body.len()
        }),
{
    let prefix = be_bytes(body.len() as int);
    a_number_is_written_byte_by_byte(body.len() as int);
    let frame = framed(body);
    assert(frame[0] == prefix[0] && frame[1] == prefix[1]);
    assert(frame[2] == prefix[2] && frame[3] == prefix[3]);
    assert(frame.skip(4) == body);
}

/// Bytes hold no frame exactly if they are too short for a length, or for
/// what their length announces.
pub proof fn only_a_whole_frame_is_read(bytes: Seq<u8>)
    ensures
        bodies(bytes).len() == 0 <==> bytes.len() < 4 || bytes.len() < 4 + (((bytes[0] * 256
            + bytes[1]) * 256 + bytes[2]) * 256 + bytes[3]),
        starts_with_frame(bytes) <==> bodies(bytes).len() > 0,
        bodies(bytes).len() > 0 ==> {
            let end = 4 + (((bytes[0] * 256 + bytes[1]) * 256 + bytes[2]) * 256 + bytes[3]);
            &&& bodies(bytes)[0] == bytes.subrange(4, end)
            &&& bodies(bytes).skip(1) == bodies(bytes.skip(end))
        },
{
    if bytes.len() >= 4 {
        a_byte_counts_more_than_those_behind_it(bytes);
    }
    if bodies(bytes).len() > 0 {
        let end = 4 + be_value(bytes);
        assert((seq![bytes.subrange(4, end)] + bodies(bytes.skip(end))).skip(1) == bodies(
            bytes.skip(end),
        ));
    }
}

/// Reading more bytes behind what was read changes nothing of it.
pub proof fn what_was_read_stays(bodies_read: Seq<Seq<u8>>, more: Seq<u8>)
    requires
        forall|i: int| 0 <= i < bodies_read.len() ==> (#[trigger] bodies_read[i]).len() <= u32::MAX,
    ensures
        bodies(stream(bodies_read) + more) == bodies_read + bodies(more),
    decreases bodies_read.len(),
{
    if bodies_read.len() == 0 {
        assert(stream(bodies_read) + more == more);
        assert(bodies_read + bodies(more) == bodies(more));
    } else {
        let rest = stream(bodies_read.skip(1)) + more;
        assert(stream(bodies_read) + more == framed(bodies_read[0]) + rest);
        the_first_frame_is_read_first(bodies_read[0], rest);
        what_was_read_stays(bodies_read.skip(1), more);
        assert(seq![bodies_read[0]] + (bodies_read.skip(1) + bodies(more)) == bodies_read + bodies(
            more,
        ));
    }
}

/// Whatever [`encode_raw_length`] returns for a body is the body behind its
/// length, which is what [`message_length`] returns for those bytes.
pub proof fn a_length_is_what_was_put_before_the_body(
    body: &[u8],
    frame: Vec<u8>,
    prefix: &[u8],
    length: usize,
)
    requires
        body@.len() <= u32::MAX,
        prefix@.len() >= 4,
        call_ensures(encode_raw_length, (body,), frame),
        call_ensures(message_length, (prefix,), length),
    ensures
        frame@.len() == 4 + body@.len(),
        frame@.skip(4) == body@,
        length == ((prefix@[0] * 256 + prefix@[1]) * 256 + prefix@[2]) * 256 + prefix@[3],
        prefix@ == frame@ ==> length == body@.len(),
{
    a_frame_is_its_body_behind_its_length(body@);
    a_byte_counts_more_than_those_behind_it(prefix@);
}

/// Whatever [`frames`] returns for a stream of frames, with less than a whole
/// frame behind them, are their bodies, all of them, in order.
pub proof fn frames_returns_what_was_framed(
    all: &[u8],
    list: Seq<Seq<u8>>,
    tail: Seq<u8>,
    found: Vec<Vec<u8>>,
)
    requires
        call_ensures(frames, (all,), found),
        all@ == stream(list) + tail,
        forall|i: int| 0 <= i < list.len() ==> (#[trigger] list[i]).len() <= u32::MAX,
        tail.len() < 4 || tail.len() < 4 + (((tail[0] * 256 + tail[1]) * 256 + tail[2]) * 256
            + tail[3]),
    ensures
        found@.len() == list.len(),
        forall|i: int| 0 <= i < list.len() ==> (#[trigger] found@[i])@ == list[i],
{
    only_a_whole_frame_is_read(tail);
    framed_bodies_are_read_back(list, tail);
    let read = found@.map_values(|body: Vec<u8>| body@);
    assert(read == list);
    assert forall|i: int| 0 <= i < list.len() implies (#[trigger] found@[i])@ == list[i] by {
        assert(read[i] == found@[i]@);
    }
}

/// What was received once one read more was taken.
pub open spec fn received_after(before: Seq<u8>, read: Received) -> Seq<u8> {
    match read {
        Received::Bytes(bytes) => before + bytes@,
        _ => before,
    }
}

/// What draining does after a read.
pub open spec fn draining_after(read: Received) -> Draining {
    match read {
        Received::Bytes(bytes) => if bytes@.len() > 0 {
            Draining::More
        } else {
            Draining::Ended
        },
        Received::Failed => Draining::Ended,
        Received::TimedOut => Draining::Late,
    }
}

/// Draining goes on exactly as long as bytes come. It takes every byte, in
/// order and whatever came before, and loses none of what it has; a read
/// without bytes adds nothing. Only a read that brought nothing in time is
/// late.
pub proof fn draining_takes_every_byte(before: Seq<u8>, read: Received)
    ensures
        before.is_prefix_of(received_after(before, read)),
        received_after(before, read).skip(before.len() as int) == received_after(
            Seq::empty(),
            read,
        ),
        read matches Received::Bytes(bytes) ==> received_after(Seq::empty(), read) == bytes@,
        !(read is Bytes) ==> received_after(before, read) == before,
        draining_after(read) is More <==> received_after(before, read).len() > before.len(),
        draining_after(read) is Late <==> read is TimedOut,
{
    let after = received_after(before, read);
    assert(after.take(before.len() as int) == before);
    if let Received::Bytes(bytes) = read {
        assert(after.skip(before.len() as int) == bytes@);
        assert(received_after(Seq::empty(), read) == bytes@);
    } else {
        assert(after.skip(before.len() as int) == Seq::<u8>::empty());
    }
}

} // verus!
