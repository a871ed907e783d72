//! The one protobuf field that a gate is told of: the order id, an optional
//! `int32` under tag 1 of a placement and of an order cancel.
//!
//! Both requests carry more than the order id. The other fields are passed
//! over, whatever they hold, as long as their wire format is sound.
use vstd::prelude::*;

verus! {

/// The tag of the order id in a placement and in an order cancel.
pub const ORDER_ID_TAG: u32 = 1;

/// The largest tag that a protobuf field can have.
pub const MAX_TAG: u32 = 0x1fff_ffff;

/// What `prost` makes of an `int32` under tag 1 that was `before`, once it
/// has merged the protobuf message `message` into it; `None` where the
/// message cannot be decoded.
pub uninterp spec fn merged_int32(before: i32, message: Seq<u8>) -> Option<i32>;

/// A number in LEB128 variable length format: seven bits to the byte, least
/// significant first, with the top bit set on every byte but the last.
pub open spec fn varint(number: int) -> Seq<u8>
    decreases number,
{
    if number < 0x80 {
        seq![number as u8]
    } else {
        seq![(number % 0x80 + 0x80) as u8] + varint(number / 0x80)
    }
}

/// A protobuf `int32` field: its key, which is the tag shifted past the wire
/// type of a varint, and its value extended to 64 bits, both as varints.
pub open spec fn int32_field(tag: u32, value: i32) -> Seq<u8> {
    varint(tag * 8) + varint(
        if value < 0 {
            value + 0x1_0000_0000_0000_0000
        } else {
            value as int
        },
    )
}

/// `prost::Message::merge` on `i32`, the message whose only field is an
/// `int32` under tag 1: it decodes `message` to its end, sets the value at
/// every field with tag 1, and skips every field with another tag.
///
/// Claimed of it: the outcome is a function of the value before and of the
/// bytes; an empty message changes nothing; and the value before decides
/// neither whether the message can be decoded nor what a field sets. So
/// either every value before is left as it was, or every one is overwritten
/// with the same number, or the message cannot be decoded.
#[verifier::external_body]
fn merge_int32(before: i32, message: &[u8]) -> (after: Option<i32>)
    ensures
        after == merged_int32(before, message@),
        message@.len() == 0 ==> after == Some(before),
        after is None ==> forall|other: i32| #[trigger] merged_int32(other, message@) is None,
        after matches Some(value) ==> {
            ||| forall|other: i32| #[trigger] merged_int32(other, message@) == Some(value)
            ||| value == before && forall|other: i32| #[trigger]
                merged_int32(other, message@) == Some(other)
        },
{
    let mut value: i32 = before;
    match prost::Message::merge(&mut value, message) {
        Ok(()) => Some(value),
        Err(_) => None,
    }
}

/// `prost::encoding::int32::encode`: it writes the key of `tag` and then
/// `value` as a varint.
///
/// Claimed of it: it writes the bytes of the field and nothing else, and
/// under tag 1 a merge reads `value` back from them.
#[verifier::external_body]
fn encode_int32(tag: u32, value: i32) -> (field: Vec<u8>)
    requires
        1 <= tag <= MAX_TAG,
    ensures
        field@ == int32_field(tag, value),
        tag == 1 ==> forall|before: i32| #[trigger] merged_int32(before, field@) == Some(value),
{
    let mut field: Vec<u8> = Vec::new();
    prost::encoding::int32::encode(tag, &value, &mut field);
    field
}

/// The value that two merges agree on. Merged into different numbers, a
/// message that holds the field leaves the same number behind, and one that
/// does not leaves each as it was.
pub open spec fn agreed_value(first: Option<i32>, second: Option<i32>) -> Option<i32> {
    if first == second {
        first
    } else {
        None
    }
}

/// The order id that a request holds, if it can be decoded and holds one.
pub open spec fn request_order_id(request: Seq<u8>) -> Option<i32> {
    agreed_value(merged_int32(0, request), merged_int32(1, request))
}

/// The value that two merges agree on.
pub fn agreed(first: Option<i32>, second: Option<i32>) -> (value: Option<i32>)
    ensures
        value == agreed_value(first, second),
{
    match (first, second) {
        (Some(one), Some(other)) => if one == other {
            Some(one)
        } else {
            None
        },
        _ => None,
    }
}

/// The order id that a request holds, if it can be decoded and holds one.
///
/// A placement or a cancel whose nested messages are malformed still has its
/// order id read: what is inside the other fields is not looked at.
pub fn order_id_of(request: &[u8]) -> (order_id: Option<i32>)
    ensures
        order_id == request_order_id(request@),
        order_id matches Some(id) ==> forall|before: i32| #[trigger]
            merged_int32(before, request@) == Some(id),
        order_id is None ==> {
            ||| forall|before: i32| #[trigger] merged_int32(before, request@) is None
            ||| forall|before: i32| #[trigger] merged_int32(before, request@) == Some(before)
        },
        request@.len() == 0 ==> order_id is None,
{
    let first: Option<i32> = merge_int32(0, request);
    let second: Option<i32> = merge_int32(1, request);
    agreed(first, second)
}

/// A request that holds an order id and nothing else.
pub fn encode_order_id(order_id: i32) -> (request: Vec<u8>)
    ensures
        request@ == int32_field(ORDER_ID_TAG, order_id),
        request_order_id(request@) == Some(order_id),
{
    encode_int32(ORDER_ID_TAG, order_id)
}

/// Two merges agree on a value exactly if both have come to it.
pub proof fn two_merges_agree_only_on_what_both_hold(
    first: Option<i32>,
    second: Option<i32>,
    value: i32,
)
    ensures
        agreed_value(first, second) == Some(value) <==> first == Some(value) && second == Some(
            value,
        ),
{
}

/// A request has an order id exactly if a merge of it comes to that id,
/// whichever of two values it began with.
pub proof fn a_request_has_the_order_id_that_its_merges_come_to(request: Seq<u8>, order_id: i32)
    ensures
        request_order_id(request) == Some(order_id) <==> merged_int32(0, request) == Some(order_id)
            && merged_int32(1, request) == Some(order_id),
{
}

/// A field that is written under tag 1 starts with the key of that tag, and
/// holds a small number in one byte.
pub proof fn a_small_number_is_one_byte(value: i32)
    requires
        0 <= value < 0x80,
    ensures
        int32_field(ORDER_ID_TAG, value) == seq![8u8, value as u8],
{
    assert(varint(8) == seq![8u8]);
    assert(varint(value as int) == seq![value as u8]);
}

/// Whatever [`order_id_of`] returns is what every merge of the request comes
/// to, and nothing where no merge changes anything or none succeeds; whatever
/// [`encode_order_id`] returns holds the id that it was given; and
/// [`agreed`] returns a value only where it got it twice.
pub proof fn an_order_id_is_what_every_merge_comes_to(
    request: &[u8],
    order_id: Option<i32>,
    before: i32,
    id: i32,
    written: Vec<u8>,
    first: Option<i32>,
    second: Option<i32>,
    both: Option<i32>,
)
    requires
        call_ensures(order_id_of, (request,), order_id),
        call_ensures(encode_order_id, (id,), written),
        call_ensures(agreed, (first, second), both),
    ensures
        order_id is Some ==> merged_int32(before, request@) == order_id,
        order_id is None ==> merged_int32(before, request@) is None || merged_int32(
            before,
            request@,
        ) == Some(before),
        request@ == written@ ==> order_id == Some(id),
        both is Some ==> both == first && both == second,
        both is None ==> first is None || first != second,
{
    if let Some(value) = order_id {
        assert(merged_int32(before, request@) == Some(value));
    }
}

} // verus!
