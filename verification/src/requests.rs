//! A few requests, ready to be sent.
use vstd::prelude::*;
use crate::messages::{
    an_id_names_one_message, encode_protobuf_message, protobuf_body, OutgoingMessages,
};
use crate::proto::{encode_order_id, int32_field, ORDER_ID_TAG};
use crate::write_gate::{
    a_protobuf_message_is_recognised, a_text_message_is_recognised, body_message, body_order_id,
    describe, OutgoingMeta,
};
use crate::decimal::digits_value;

verus! {

/// A request for the server's time, as protobuf.
pub fn time() -> (body: Vec<u8>)
    ensures
        body@ == protobuf_body(
            OutgoingMessages::RequestCurrentTime.wire_id(),
            Seq::<u8>::empty(),
        ),
        body_message(body@) == Some(OutgoingMessages::RequestCurrentTime),
        body_order_id(body@) is None,
{
    let request: Vec<u8> = Vec::new();
    proof {
        a_protobuf_message_is_recognised(OutgoingMessages::RequestCurrentTime, request@);
    }
    encode_protobuf_message(OutgoingMessages::RequestCurrentTime.id(), request.as_slice())
}

/// A request for market data, as text: version 11 of message 1.
pub fn market_data() -> (body: Vec<u8>)
    ensures
        body@ == seq![0x31u8, 0u8, 0x31u8, 0x31u8, 0u8],
        body_message(body@) == Some(OutgoingMessages::RequestMarketData),
        body_order_id(body@) is None,
{
    proof {
        let text = seq![0x31u8];
        let rest = seq![0x31u8, 0x31u8, 0u8];
        a_text_message_is_recognised(text, rest);
        an_id_names_one_message(OutgoingMessages::RequestMarketData);
        assert(text + seq![0u8] + rest == seq![0x31u8, 0u8, 0x31u8, 0x31u8, 0u8]);
        assert(text.drop_last() == Seq::<u8>::empty());
        assert(digits_value(text) == 1) by {
            reveal_with_fuel(digits_value, 2);
        }
    }
    vec![0x31u8, 0u8, 0x31u8, 0x31u8, 0u8]
}

/// A placement of the order `order_id`.
pub fn place(order_id: i32) -> (body: Vec<u8>)
    ensures
        body@ == protobuf_body(
            OutgoingMessages::PlaceOrder.wire_id(),
            int32_field(ORDER_ID_TAG, order_id),
        ),
        body_message(body@) == Some(OutgoingMessages::PlaceOrder),
        body_order_id(body@) == Some(order_id),
{
    let request: Vec<u8> = encode_order_id(order_id);
    proof {
        a_protobuf_message_is_recognised(OutgoingMessages::PlaceOrder, request@);
    }
    encode_protobuf_message(OutgoingMessages::PlaceOrder.id(), request.as_slice())
}

/// A cancel of the order `order_id`.
pub fn cancel(order_id: i32) -> (body: Vec<u8>)
    ensures
        body@ == protobuf_body(
            OutgoingMessages::CancelOrder.wire_id(),
            int32_field(ORDER_ID_TAG, order_id),
        ),
        body_message(body@) == Some(OutgoingMessages::CancelOrder),
        body_order_id(body@) == Some(order_id),
{
    let request: Vec<u8> = encode_order_id(order_id);
    proof {
        a_protobuf_message_is_recognised(OutgoingMessages::CancelOrder, request@);
    }
    encode_protobuf_message(OutgoingMessages::CancelOrder.id(), request.as_slice())
}

/// Whatever [`place`] and [`cancel`] return for an order id is told apart by
/// its message, and the order id is told as it was given, whatever it is.
pub proof fn what_is_told_of_a_placement_and_of_a_cancel(
    order_id: i32,
    placement: Vec<u8>,
    cancellation: Vec<u8>,
    body: &[u8],
    request_id: Option<i32>,
    handshake: bool,
    meta: OutgoingMeta,
)
    requires
        call_ensures(place, (order_id,), placement),
        call_ensures(cancel, (order_id,), cancellation),
        call_ensures(describe, (body, request_id, handshake), meta),
    ensures
        body@ == placement@ ==> meta.message == Some(OutgoingMessages::PlaceOrder) && meta.order_id
            == Some(order_id),
        body@ == cancellation@ ==> meta.message == Some(OutgoingMessages::CancelOrder)
            && meta.order_id == Some(order_id),
        placement@ != cancellation@,
{
}

/// Whatever [`time`] and [`market_data`] return is told by its message, and
/// has no order id.
pub proof fn what_is_told_of_requests_without_an_order(
    timing: Vec<u8>,
    market: Vec<u8>,
    body: &[u8],
    request_id: Option<i32>,
    handshake: bool,
    meta: OutgoingMeta,
)
    requires
        call_ensures(time, (), timing),
        call_ensures(market_data, (), market),
        call_ensures(describe, (body, request_id, handshake), meta),
    ensures
        body@ == timing@ ==> meta.message == Some(OutgoingMessages::RequestCurrentTime)
            && meta.order_id is None,
        body@ == market@ ==> meta.message == Some(OutgoingMessages::RequestMarketData)
            && meta.order_id is None,
{
}

} // verus!
