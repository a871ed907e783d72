use write_gate::decimal::parse_i32;
use write_gate::messages::{encode_protobuf_message, OutgoingMessages};
use write_gate::proto::{agreed, encode_order_id, order_id_of};
use write_gate::requests;
use write_gate::requests::{cancel, market_data, place};
use write_gate::write_gate::{describe, describe_decoded, message_of, proto_body, proto_id};

#[test]
fn the_gate_is_told_the_message_and_its_order_id() {
    // Protobuf frames: the id is the prefix less 200; the order id is read
    // from the request itself.
    let placed = describe(&place(4242), None, false);
    assert_eq!(placed.message, Some(OutgoingMessages::PlaceOrder));
    assert_eq!(placed.order_id, Some(4242));
    let cancelled = describe(&cancel(4243), None, false);
    assert_eq!(cancelled.message, Some(OutgoingMessages::CancelOrder));
    assert_eq!(cancelled.order_id, Some(4243));

    // A protobuf request that is not an order carries no order id, and keeps
    // the request id it was sent with.
    let time = encode_protobuf_message(OutgoingMessages::RequestCurrentTime.id(), &[]);
    let probe = describe(&time, Some(17), false);
    assert_eq!(probe.message, Some(OutgoingMessages::RequestCurrentTime));
    assert_eq!(probe.order_id, None);
    assert_eq!(probe.request_id, Some(17));

    // A text frame (the older encoding): the id before the first NUL.
    let text = describe(b"49\x001\x00", None, false);
    assert_eq!(text.message, Some(OutgoingMessages::RequestCurrentTime));
    let md = describe(b"1\x0011\x00", Some(3), false);
    assert_eq!(md.message, Some(OutgoingMessages::RequestMarketData));

    // A legacy message with a binary id: the account summary cancel on
    // server 221.
    let legacy = describe(b"\x00\x00\x00\x3f1\x0060002\x00", Some(60002), false);
    assert_eq!(legacy.message, Some(OutgoingMessages::CancelAccountSummary));
    assert_eq!(legacy.request_id, Some(60002));

    // The handshake, and a frame with no recognisable id.
    let handshake = describe(&[], None, true);
    assert!(handshake.handshake);
    assert_eq!(handshake.message, None);
    assert_eq!(describe(b"API\x00", None, true).message, None);
}

#[test]
fn requests_are_the_bytes_they_should_be() {
    assert_eq!(place(7), b"\x00\x00\x00\xcb\x08\x07");
    assert_eq!(cancel(300), b"\x00\x00\x00\xcc\x08\xac\x02");
    assert_eq!(requests::time(), b"\x00\x00\x00\xf9");
    assert_eq!(market_data(), b"1\x0011\x00");
}

#[test]
fn an_order_id_is_read_back_whatever_it_is() {
    for order_id in [0, 1, 2, -1, 127, 128, i32::MIN, i32::MAX] {
        assert_eq!(order_id_of(&encode_order_id(order_id)), Some(order_id));
        assert_eq!(describe(&place(order_id), None, false).order_id, Some(order_id));
        assert_eq!(describe(&cancel(order_id), None, false).order_id, Some(order_id));
    }
}

#[test]
fn the_other_fields_of_a_request_are_passed_over() {
    // Field 2 is a nested message of three bytes, field 3 a number.
    let request = b"\x12\x03abc\x18\x05\x08\x2a";
    assert_eq!(order_id_of(request), Some(42));
    // The last of two order ids counts.
    assert_eq!(order_id_of(b"\x08\x01\x08\x02"), Some(2));
    // No order id, and nothing at all.
    assert_eq!(order_id_of(b"\x12\x03abc"), None);
    assert_eq!(order_id_of(b""), None);
    // Cut off, an impossible key, and the wrong wire type.
    assert_eq!(order_id_of(b"\x08"), None);
    assert_eq!(order_id_of(b"\x00"), None);
    assert_eq!(order_id_of(b"\x0a\x01a"), None);
    assert_eq!(order_id_of(b"\x08\x05\x12\x09abc"), None);
}

#[test]
fn two_merges_agree_only_on_a_value_that_is_there() {
    assert_eq!(agreed(Some(5), Some(5)), Some(5));
    assert_eq!(agreed(Some(0), Some(1)), None);
    assert_eq!(agreed(None, None), None);
    assert_eq!(agreed(Some(0), None), None);
}

#[test]
fn only_a_protobuf_order_has_an_order_id() {
    let meta = describe_decoded(&place(1), Some(9), Some(2), false);
    assert_eq!((meta.order_id, meta.request_id, meta.handshake), (Some(9), Some(2), false));
    // A text placement and a legacy one.
    assert_eq!(describe_decoded(b"3\x001\x00", Some(9), None, false).order_id, None);
    assert_eq!(describe(b"3\x001\x00", None, false).message, Some(OutgoingMessages::PlaceOrder));
    assert_eq!(describe(b"\x00\x00\x00\x03\x08\x07", None, false).message, Some(OutgoingMessages::PlaceOrder));
    assert_eq!(describe(b"\x00\x00\x00\x03\x08\x07", None, false).order_id, None);
    // A protobuf message that is no order, whatever it holds.
    assert_eq!(describe_decoded(&requests::time(), Some(9), None, true).order_id, None);
    // A placement that cannot be decoded.
    assert_eq!(describe(b"\x00\x00\x00\xcb\x08", None, false).order_id, None);
}

#[test]
fn a_binary_id_is_protobuf_above_two_hundred() {
    assert_eq!(proto_id(b"\x00\x00\x00\xc8"), None);
    assert_eq!(proto_id(b"\x00\x00\x00\xc9"), Some(1));
    assert_eq!(proto_id(b"\x00\xff\xff\xffrest"), Some(0xff_ffff - 200));
    assert_eq!(proto_id(b"\x01\x00\x00\xc9"), None);
    assert_eq!(proto_id(b"\x00\x00\xc9"), None);
    assert_eq!(proto_body(b"\x00\x00\x00\xc9ab"), Some(&b"ab"[..]));
    assert_eq!(proto_body(b"\x00\x00\x00\xc9"), Some(&b""[..]));
    assert_eq!(proto_body(b"\x00\x00\x00\x3fab"), None);
    assert_eq!(message_of(b"\x00\x00\x00\xc9"), Some(OutgoingMessages::RequestMarketData));
    assert_eq!(message_of(b"\x00\x00\x00\xc8"), None);
    assert_eq!(message_of(b"\x00\x00\x00\x00"), None);
    assert_eq!(message_of(b"\x00\x00"), None);
}

#[test]
fn a_text_id_is_a_decimal_number() {
    assert_eq!(message_of(b"49"), Some(OutgoingMessages::RequestCurrentTime));
    assert_eq!(message_of(b"0049\x00"), Some(OutgoingMessages::RequestCurrentTime));
    assert_eq!(message_of(b"+49\x00"), Some(OutgoingMessages::RequestCurrentTime));
    assert_eq!(message_of(b" 49\x00"), None);
    assert_eq!(message_of(b"-49\x00"), None);
    assert_eq!(message_of(b"48\x00"), None);
    assert_eq!(message_of(b"\xff\xff\x00"), None);
    for text in ["", "-", "+", "0", "-0", "7", "2147483647", "2147483648", "-2147483648", "-2147483649",
        "00000000000000000000049", "99999999999999999999", "1a", "a", "+-1", "4 9"]
    {
        assert_eq!(parse_i32(text.as_bytes()), text.parse::<i32>().ok(), "{text:?}");
    }
}

#[test]
fn an_id_names_one_message() {
    let mut named = 0;
    for id in -300..=300 {
        if let Some(message) = OutgoingMessages::from_id(id) {
            named += 1;
            assert_eq!(message.id(), id);
            let body = encode_protobuf_message(id, b"");
            assert_eq!(message_of(&body), Some(message));
            assert_eq!(message_of(id.to_string().as_bytes()), Some(message));
        }
    }
    assert_eq!(named, 80);
    assert_eq!(OutgoingMessages::StartApi.id(), 71);
    assert_eq!(OutgoingMessages::RequestFamilyCodes.id(), 80);
}
