//! A gate every write asks, under the connection's writer lock, before its
//! first byte.
//!
//! A caller that paces its messages cannot count them on entry to a request:
//! the request may then wait for the writer's lock, and several requests
//! counted in different windows may reach the wire together. The write gate is
//! asked at the write itself, with the writer's lock held and nothing yet
//! sent, so what it counts is what goes out.
//!
//! The write gate never makes the writer wait while holding the lock. It answers
//! at once:
//!
//! - [`Admit::Write`]: write now.
//! - [`Admit::Refuse`]: do not write; the call fails with
//!   [`Error::Refused`](crate::errors::Error::Refused), and no byte of it
//!   reached the socket.
//! - [`Admit::Later`]: not yet. The writer's lock is released, the call waits
//!   until `retry_at` or its deadline, whichever comes first, takes the lock
//!   again, and asks again. Other writes on the connection go ahead meanwhile.
//!
//! Each write is one [`WriteCall`], begun with [`WriteGate::begin`] before the
//! write waits for the writer's lock, kept across every release and retake of
//! it, and dropped when the write ends, however it ends. A gate that queues
//! writes keeps each one's place in its call, and its `Drop` is where the
//! place is given up.
//!
//! Each call has one [`Deadline`], asked of it once, before the write waits
//! for the writer's lock, and kept across every release and retake.
//!
//! What a write does with these answers is decided in [`crate::write`].
use vstd::prelude::*;
use vstd::slice::slice_subrange;
use crate::bytes::{
    a_byte_counts_more_than_those_behind_it, be_bytes, be_bytes_are_read_back, be_value,
    u32_from_be_bytes,
};
use crate::clock::Instant;
use crate::decimal::{decimal_i32, parse_i32};
use crate::messages::{
    a_named_message_has_the_id, an_id_names_one_message, message_with_id, protobuf_body,
    OutgoingMessages, PROTOBUF_MSG_ID,
};
use crate::proto::{order_id_of, request_order_id};

pub use crate::errors::{GateReason, Refusal, Waiting};

verus! {

/// What a write is about to send, for a [`WriteGate`].
#[derive(Debug, Clone, Copy, PartialEq, Eq, Structural)]
#[non_exhaustive]
pub struct OutgoingMeta {
    /// The message's outgoing id, when the frame carries one.
    pub message: Option<OutgoingMessages>,
    /// The order id, for a placement or an order cancel.
    pub order_id: Option<i32>,
    /// The request id, when the request was sent with one.
    pub request_id: Option<i32>,
    /// Whether the write belongs to the connect handshake (the version
    /// prefix, `startApi`) rather than to the session.
    pub handshake: bool,
}

/// A [`WriteGate`]'s answer.
#[derive(Debug, Clone, Copy, PartialEq, Eq)]
pub enum Admit {
    /// Write now.
    Write,
    /// Do not write this message.
    Refuse(GateReason),
    /// Not yet: ask again at `retry_at`, or when the deadline comes.
    Later {
        /// When asking again may succeed.
        retry_at: Instant,
    },
}

/// How long a write may wait to go out.
#[derive(Debug, Clone, Copy, PartialEq, Eq, Structural)]
pub enum Deadline {
    /// Until this instant, the wait for the writer's lock included. Past it,
    /// the write is refused without being tried.
    At(Instant),
    /// Not at all: one try, now, or a refusal.
    NoWait,
}

/// `tokio::sync::Notify`, which a gate hands over to wake its writes.
#[verifier::external_type_specification]
#[verifier::external_body]
pub struct ExNotify(tokio::sync::Notify);

/// The call that a gate begins for one write.
pub struct BoxedCall(pub Box<dyn WriteCall>);

/// Decides, at each write, whether it may go out now.
pub trait WriteGate: Send + Sync + 'static {
    /// Begin the write described by `meta`. Called once per write, before it
    /// waits for the writer's lock.
    fn begin(&self, meta: &OutgoingMeta) -> BoxedCall;
}

/// One write's call to the write gate, from its beginning to its end.
///
/// Every answer the write gets comes from this call, and it is dropped
/// exactly once, when the write ends, whatever ended it.
pub trait WriteCall: Send {
    /// The write's deadline. Asked once, before the write waits for the
    /// writer's lock.
    fn deadline(&self) -> Deadline;

    /// Whether `answer` is one that the call can give when it is asked next.
    /// Each gate says for itself what its calls can answer; one that does not
    /// say can give any answer.
    open spec fn can_answer(&self, answer: Admit) -> bool {
        true
    }

    /// Whether the write may go out now. Called with the writer's lock held
    /// and before any byte: it must not block.
    fn ask(&mut self) -> (answer: Admit)
        ensures
            old(self).can_answer(answer),
    ;

    /// A notification that wakes the write while it waits after `Later`,
    /// besides its `retry_at`, its deadline and the connection's close. Asked
    /// once, when the write begins. A gate that grants turns notifies with
    /// `notify_one`, whose permit is kept if the write is not waiting yet, so
    /// a wake between `Later` and the wait is never lost. A wake never moves
    /// the deadline. None, the default, is a write woken by time alone.
    fn wakeup(&self) -> (notify: Option<std::sync::Arc<tokio::sync::Notify>>)
        default_ensures
            notify is None,
    {
        None
    }
}

/// Whether a body starts with a four-byte binary id. Such an id is a small
/// number, so its first byte is zero; a text message starts with an ASCII
/// digit.
pub open spec fn has_binary_id(body: Seq<u8>) -> bool {
    body.len() >= 4 && body[0] == 0
}

/// Whether a body is a protobuf message: its binary id is above
/// [`PROTOBUF_MSG_ID`].
pub open spec fn is_protobuf(body: Seq<u8>) -> bool {
    has_binary_id(body) && be_value(body) > PROTOBUF_MSG_ID
}

/// The id of a protobuf message.
pub open spec fn protobuf_id(body: Seq<u8>) -> Option<int> {
    if is_protobuf(body) {
        Some(be_value(body) - PROTOBUF_MSG_ID)
    } else {
        None
    }
}

/// The bytes before the first NUL.
pub open spec fn before_nul(body: Seq<u8>) -> Seq<u8>
    decreases body.len(),
{
    if body.len() == 0 || body[0] == 0 {
        Seq::empty()
    } else {
        seq![body[0]] + before_nul(body.skip(1))
    }
}

/// The id that a body starts with, in whichever way it is written.
pub open spec fn body_id(body: Seq<u8>) -> Option<int> {
    if is_protobuf(body) {
        Some(be_value(body) - PROTOBUF_MSG_ID)
    } else if has_binary_id(body) {
        Some(be_value(body))
    } else {
        decimal_i32(before_nul(body))
    }
}

/// The message that a body starts with, if its id names one.
pub open spec fn body_message(body: Seq<u8>) -> Option<OutgoingMessages> {
    match body_id(body) {
        Some(id) => message_with_id(id),
        None => None,
    }
}

/// Whether a message is one whose request holds an order id.
pub open spec fn names_an_order(message: Option<OutgoingMessages>) -> bool {
    message == Some(OutgoingMessages::PlaceOrder) || message == Some(OutgoingMessages::CancelOrder)
}

/// The order id that a body holds: the one in the protobuf request of a
/// placement or of an order cancel.
pub open spec fn body_order_id(body: Seq<u8>) -> Option<i32> {
    if is_protobuf(body) && names_an_order(body_message(body)) {
        request_order_id(body.skip(4))
    } else {
        None
    }
}

/// What a gate is told of a write.
pub open spec fn description(
    body: Seq<u8>,
    order_id: Option<i32>,
    request_id: Option<i32>,
    handshake: bool,
) -> OutgoingMeta {
    OutgoingMeta { message: body_message(body), order_id, request_id, handshake }
}

/// The id of a protobuf message, if the body is one. Its big-endian prefix
/// is a small number, so its first byte is zero; a text message starts with
/// an ASCII digit.
pub fn proto_id(body: &[u8]) -> (id: Option<i32>)
    ensures
        id == (match protobuf_id(body@) {
            Some(number) => Some(number as i32),
            None => None,
        }),
        id matches Some(number) ==> number == be_value(body@) - PROTOBUF_MSG_ID,
{
    if body.len() < 4 || body[0] != 0 {
        return None;
    }
    let raw: u32 = u32_from_be_bytes(body);
    if raw > PROTOBUF_MSG_ID as u32 {
        Some(raw as i32 - PROTOBUF_MSG_ID)
    } else {
        None
    }
}

/// The request of a protobuf message: the body behind its id.
pub fn proto_body(body: &[u8]) -> (request: Option<&[u8]>)
    ensures
        request is Some <==> is_protobuf(body@),
        request matches Some(bytes) ==> bytes@ == body@.skip(4),
{
    match proto_id(body) {
        Some(_) => {
            let request: &[u8] = slice_subrange(body, 4, body.len());
            assert(request@ == body@.skip(4));
            Some(request)
        },
        None => None,
    }
}

/// The bytes of a text message before its first NUL.
fn text_before_nul(body: &[u8]) -> (text: &[u8])
    ensures
        text@ == before_nul(body@),
{
    let mut end: usize = 0;
    assert(body@.skip(0) == body@);
    while end < body.len() && body[end] != 0
        invariant
            end <= body@.len(),
            before_nul(body@) == body@.take(end as int) + before_nul(body@.skip(end as int)),
        decreases body@.len() - end,
    {
        proof {
            let rest = body@.skip(end as int);
            assert(rest.skip(1) == body@.skip(end + 1));
            assert(body@.take(end + 1) == body@.take(end as int) + seq![rest[0]]);
        }
        end += 1;
    }
    let text: &[u8] = slice_subrange(body, 0, end);
    assert(text@ == body@.take(end as int));
    assert(before_nul(body@.skip(end as int)) == Seq::<u8>::empty());
    text
}

/// The message that a body starts with, if its id names one.
pub fn message_of(body: &[u8]) -> (message: Option<OutgoingMessages>)
    ensures
        message == body_message(body@),
{
    match proto_id(body) {
        Some(id) => OutgoingMessages::from_id(id),
        None => {
            if body.len() >= 4 && body[0] == 0 {
                return OutgoingMessages::from_id(u32_from_be_bytes(body) as i32);
            }
            match parse_i32(text_before_nul(body)) {
                Some(id) => OutgoingMessages::from_id(id),
                None => None,
            }
        },
    }
}

/// Describe a message body whose request holds the order id `decoded`, for a
/// gate. Only a protobuf placement or cancel has an order id.
pub fn describe_decoded(
    body: &[u8],
    decoded: Option<i32>,
    request_id: Option<i32>,
    handshake: bool,
) -> (meta: OutgoingMeta)
    ensures
        meta == description(
            body@,
            if is_protobuf(body@) && names_an_order(body_message(body@)) {
                decoded
            } else {
                None
            },
            request_id,
            handshake,
        ),
        meta.message == body_message(body@),
        meta.request_id == request_id,
        meta.handshake == handshake,
        meta.order_id == decoded || meta.order_id is None,
{
    let message: Option<OutgoingMessages> = message_of(body);
    let order_id: Option<i32> = match (message, proto_id(body)) {
        (Some(OutgoingMessages::PlaceOrder), Some(_)) => decoded,
        (Some(OutgoingMessages::CancelOrder), Some(_)) => decoded,
        _ => None,
    };
    OutgoingMeta { message, order_id, request_id, handshake }
}

/// Describe a message body (without its length prefix) for a gate.
///
/// A protobuf message starts with its id plus 200, big-endian; a legacy
/// binary message with its id, big-endian; a text message with its id in
/// digits before the first NUL. The order id of a placement or an order
/// cancel is read from the protobuf request itself.
pub fn describe(body: &[u8], request_id: Option<i32>, handshake: bool) -> (meta: OutgoingMeta)
    ensures
        meta == description(body@, body_order_id(body@), request_id, handshake),
        meta.message == body_message(body@),
        meta.order_id == body_order_id(body@),
        meta.request_id == request_id,
        meta.handshake == handshake,
{
    let decoded: Option<i32> = match (message_of(body), proto_body(body)) {
        (Some(OutgoingMessages::PlaceOrder), Some(request)) => order_id_of(request),
        (Some(OutgoingMessages::CancelOrder), Some(request)) => order_id_of(request),
        _ => None,
    };
    describe_decoded(body, decoded, request_id, handshake)
}

/// A protobuf message is described by the id it was given and by the request
/// behind it.
pub proof fn a_protobuf_message_is_recognised(message: OutgoingMessages, request: Seq<u8>)
    ensures
        is_protobuf(protobuf_body(message.wire_id(), request)),
        protobuf_id(protobuf_body(message.wire_id(), request)) == Some(message.wire_id()),
        body_message(protobuf_body(message.wire_id(), request)) == Some(message),
        body_order_id(protobuf_body(message.wire_id(), request)) == (if names_an_order(
            Some(message),
        ) {
            request_order_id(request)
        } else {
            None
        }),
{
    an_id_names_one_message(message);
    let raw = message.wire_id() + PROTOBUF_MSG_ID;
    let body = protobuf_body(message.wire_id(), request);
    be_bytes_are_read_back(raw);
    assert(be_value(body) == be_value(be_bytes(raw)));
    assert(body.skip(4) == request);
}

/// A legacy binary message is described by its id, and never has an order id.
pub proof fn a_legacy_message_is_recognised(message: OutgoingMessages, rest: Seq<u8>)
    ensures
        !is_protobuf(be_bytes(message.wire_id()) + rest),
        body_message(be_bytes(message.wire_id()) + rest) == Some(message),
        body_order_id(be_bytes(message.wire_id()) + rest) is None,
{
    an_id_names_one_message(message);
    let body = be_bytes(message.wire_id()) + rest;
    be_bytes_are_read_back(message.wire_id());
    assert(be_value(body) == be_value(be_bytes(message.wire_id())));
}

/// The bytes before the first NUL are those of the text in front of it.
proof fn the_text_ends_at_the_nul(text: Seq<u8>, rest: Seq<u8>)
    requires
        !text.contains(0),
    ensures
        before_nul(text + seq![0u8] + rest) == text,
        before_nul(text) == text,
    decreases text.len(),
{
    let body = text + seq![0u8] + rest;
    if text.len() > 0 {
        assert(text[0] != 0) by {
            assert(text.contains(text[0]));
        }
        assert(!text.skip(1).contains(0)) by {
            if text.skip(1).contains(0) {
                let i = choose|i: int| 0 <= i < text.skip(1).len() && text.skip(1)[i] == 0;
                assert(text[i + 1] == 0);
            }
        }
        the_text_ends_at_the_nul(text.skip(1), rest);
        assert(body.skip(1) == text.skip(1) + seq![0u8] + rest);
        assert(seq![text[0]] + text.skip(1) == text);
    }
}

/// A text message is described by the decimal id before its first NUL, or by
/// all of it where it has none, and never has an order id.
pub proof fn a_text_message_is_recognised(text: Seq<u8>, rest: Seq<u8>)
    requires
        text.len() > 0,
        !text.contains(0),
    ensures
        body_id(text + seq![0u8] + rest) == decimal_i32(text),
        body_id(text) == decimal_i32(text),
        body_order_id(text + seq![0u8] + rest) is None,
        body_order_id(text) is None,
{
    assert(text[0] != 0) by {
        assert(text.contains(text[0]));
    }
    the_text_ends_at_the_nul(text, rest);
}

/// What a gate is told of a write is what the write was given, field by field:
/// its request id and its part in the handshake are passed on whatever the
/// body is, its message is the one that the body starts with, and nothing that
/// is told depends on more than its own part.
pub proof fn a_gate_is_told_what_the_write_was_given(
    body: Seq<u8>,
    order_id: Option<i32>,
    request_id: Option<i32>,
    handshake: bool,
)
    ensures
        ({
            let told = description(body, order_id, request_id, handshake);
            &&& told.message == body_message(body)
            &&& told.order_id == order_id
            &&& told.request_id == request_id
            &&& told.handshake == handshake
        }),
{
}

/// A body that begins with a zero byte has its id in its first four bytes, the
/// most significant first: less two hundred where it is above that, in which
/// case it is a protobuf message, and as it is where it is not.
pub proof fn a_binary_id_is_read_from_four_bytes(body: Seq<u8>)
    requires
        body.len() >= 4,
        body[0] == 0,
    ensures
        ({
            let raw = (body[1] * 256 + body[2]) * 256 + body[3];
            &&& is_protobuf(body) <==> raw > 200
            &&& protobuf_id(body) == (if raw > 200 {
                Some(raw - 200)
            } else {
                None
            })
            &&& body_id(body) == (if raw > 200 {
                Some(raw - 200)
            } else {
                Some(raw)
            })
        }),
{
    a_byte_counts_more_than_those_behind_it(body);
}

/// A body that does not begin with a zero byte, or is too short for a binary
/// id, is a text message: its id is the decimal number that all of its bytes
/// up to the first NUL spell, at `end`, and it is never a protobuf message.
pub proof fn a_text_id_is_read_up_to_the_first_nul(body: Seq<u8>, end: int)
    requires
        body.len() < 4 || body[0] != 0,
        0 <= end <= body.len(),
        forall|i: int| 0 <= i < end ==> #[trigger] body[i] != 0,
        end < body.len() ==> body[end] == 0,
    ensures
        body_id(body) == decimal_i32(body.take(end)),
        !is_protobuf(body),
        protobuf_id(body) is None,
        body_order_id(body) is None,
{
    before_nul_ends_at_the_first(body, end);
}

proof fn before_nul_ends_at_the_first(body: Seq<u8>, end: int)
    requires
        0 <= end <= body.len(),
        forall|i: int| 0 <= i < end ==> #[trigger] body[i] != 0,
        end < body.len() ==> body[end] == 0,
    ensures
        before_nul(body) == body.take(end),
    decreases end,
{
    if end > 0 {
        assert(body[0] != 0);
        let rest = body.skip(1);
        assert forall|i: int| 0 <= i < end - 1 implies #[trigger] rest[i] != 0 by {
            assert(rest[i] == body[i + 1]);
        }
        before_nul_ends_at_the_first(rest, end - 1);
        assert(seq![body[0]] + rest.take(end - 1) == body.take(end));
    } else {
        assert(body.take(0) == Seq::<u8>::empty());
    }
}

/// A body names the message whose id it starts with, and none where its id is
/// no message's, or where it has no id.
pub proof fn a_body_names_the_message_with_its_id(body: Seq<u8>, message: OutgoingMessages)
    ensures
        body_message(body) == Some(message) <==> body_id(body) == Some(message.wire_id()),
        body_id(body) is None ==> body_message(body) is None,
{
    an_id_names_one_message(message);
    if let Some(id) = body_id(body) {
        a_named_message_has_the_id(id);
    }
}

/// A body has an order id only if it is the protobuf message of a placement
/// or of an order cancel, by its first four bytes; and then it is the one
/// that its request holds, all of the body behind those bytes.
pub proof fn only_a_placement_or_a_cancel_has_an_order_id(body: Seq<u8>)
    ensures
        ({
            let is_order = body.len() >= 4 && body[0] == 0 && body[1] == 0 && body[2] == 0 && (
            body[3] == 203 || body[3] == 204);
            &&& body_order_id(body) == (if is_order {
                request_order_id(body.skip(4))
            } else {
                None
            })
            &&& is_order <==> is_protobuf(body) && names_an_order(body_message(body))
        }),
        forall|message: OutgoingMessages| #[trigger]
            names_an_order(Some(message)) <==> message is PlaceOrder || message is CancelOrder,
        !names_an_order(None),
{
    an_id_names_one_message(OutgoingMessages::PlaceOrder);
    an_id_names_one_message(OutgoingMessages::CancelOrder);
    if body.len() >= 4 {
        a_byte_counts_more_than_those_behind_it(body);
    }
    if let Some(id) = body_id(body) {
        a_named_message_has_the_id(id);
    }
}

/// Whatever [`describe`] returns for a write has the request id and the part
/// in the handshake that it was given, whatever the body is; and two writes
/// of one body have the same message and the same order id.
pub proof fn describe_passes_on_what_it_was_given(
    body: &[u8],
    request_id: Option<i32>,
    handshake: bool,
    meta: OutgoingMeta,
    other_id: Option<i32>,
    other_handshake: bool,
    other: OutgoingMeta,
)
    requires
        call_ensures(describe, (body, request_id, handshake), meta),
        call_ensures(describe, (body, other_id, other_handshake), other),
    ensures
        meta.request_id == request_id,
        meta.handshake == handshake,
        meta.message == other.message,
        meta.order_id == other.order_id,
{
}

/// Whatever [`describe_decoded`] returns has the order id that was decoded
/// exactly if the body is the protobuf message of a placement or of an order
/// cancel, and passes on everything else as it was given.
pub proof fn describe_decoded_passes_on_what_it_was_given(
    body: &[u8],
    decoded: Option<i32>,
    request_id: Option<i32>,
    handshake: bool,
    meta: OutgoingMeta,
)
    requires
        call_ensures(describe_decoded, (body, decoded, request_id, handshake), meta),
    ensures
        meta.request_id == request_id,
        meta.handshake == handshake,
        meta.message == body_message(body@),
        ({
            let is_order = body@.len() >= 4 && body@[0] == 0 && body@[1] == 0 && body@[2] == 0 && (
            body@[3] == 203 || body@[3] == 204);
            meta.order_id == (if is_order {
                decoded
            } else {
                None
            })
        }),
{
    only_a_placement_or_a_cancel_has_an_order_id(body@);
}

/// Whatever [`describe`] returns for a body that begins with a zero byte names
/// the message whose id its first four bytes spell, plus two hundred or as it
/// is, and has the order id that the rest holds, if it is a placement or an
/// order cancel.
pub proof fn describe_reads_a_binary_body(
    body: &[u8],
    request_id: Option<i32>,
    handshake: bool,
    meta: OutgoingMeta,
    message: OutgoingMessages,
)
    requires
        call_ensures(describe, (body, request_id, handshake), meta),
        body@.len() >= 4,
        body@[0] == 0,
    ensures
        ({
            let raw = (body@[1] * 256 + body@[2]) * 256 + body@[3];
            &&& meta.message == Some(message) <==> raw == message.wire_id() || raw
                == message.wire_id() + 200
            &&& meta.order_id == (if raw == 203 || raw == 204 {
                request_order_id(body@.skip(4))
            } else {
                None
            })
        }),
{
    a_binary_id_is_read_from_four_bytes(body@);
    a_body_names_the_message_with_its_id(body@, message);
    an_id_names_one_message(message);
    only_a_placement_or_a_cancel_has_an_order_id(body@);
}

/// Whatever [`describe`] returns for a text body names the message whose id
/// its bytes up to the first NUL, at `end`, spell in decimal, and has no order
/// id.
pub proof fn describe_reads_a_text_body(
    body: &[u8],
    request_id: Option<i32>,
    handshake: bool,
    meta: OutgoingMeta,
    message: OutgoingMessages,
    end: int,
)
    requires
        call_ensures(describe, (body, request_id, handshake), meta),
        body@.len() < 4 || body@[0] != 0,
        0 <= end <= body@.len(),
        forall|i: int| 0 <= i < end ==> #[trigger] body@[i] != 0,
        end < body@.len() ==> body@[end] == 0,
    ensures
        meta.message == Some(message) <==> decimal_i32(body@.take(end)) == Some(
            message.wire_id(),
        ),
        meta.order_id is None,
{
    a_text_id_is_read_up_to_the_first_nul(body@, end);
    a_body_names_the_message_with_its_id(body@, message);
}

/// Whatever [`proto_id`], [`proto_body`] and [`message_of`] return of one body
/// fits together: there is a request exactly if there is a protobuf id, it is
/// all of the body behind four bytes, and the message is the one with that id.
pub proof fn the_parts_of_a_protobuf_body_fit_together<'a>(
    body: &'a [u8],
    id: Option<i32>,
    request: Option<&'a [u8]>,
    message: Option<OutgoingMessages>,
)
    requires
        call_ensures(proto_id, (body,), id),
        call_ensures(proto_body, (body,), request),
        call_ensures(message_of, (body,), message),
    ensures
        id is Some <==> request is Some,
        id is Some <==> body@.len() >= 4 && body@[0] == 0 && (body@[1] * 256 + body@[2]) * 256
            + body@[3] > 200,
        id matches Some(number) ==> number == (body@[1] * 256 + body@[2]) * 256 + body@[3] - 200,
        request matches Some(bytes) ==> bytes@ == body@.skip(4),
        id matches Some(number) ==> message == message_with_id(number as int),
{
    if body@.len() >= 4 && body@[0] == 0 {
        a_binary_id_is_read_from_four_bytes(body@);
    }
}

} // verus!
