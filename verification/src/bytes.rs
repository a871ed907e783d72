//! Four-byte big-endian numbers.
use vstd::prelude::*;

verus! {

/// The number that four bytes spell, most significant first.
pub open spec fn be_value(bytes: Seq<u8>) -> int {
    bytes[0] * 0x100_0000 + bytes[1] * 0x1_0000 + bytes[2] * 0x100 + bytes[3]
}

/// The four bytes of a number, most significant first.
pub open spec fn be_bytes(value: int) -> Seq<u8> {
    seq![
        (value / 0x100_0000 % 0x100) as u8,
        (value / 0x1_0000 % 0x100) as u8,
        (value / 0x100 % 0x100) as u8,
        (value % 0x100) as u8,
    ]
}

/// The number that the first four bytes of `bytes` spell.
pub fn u32_from_be_bytes(bytes: &[u8]) -> (value: u32)
    requires
        bytes@.len() >= 4,
    ensures
        value == be_value(bytes@),
{
    bytes[0] as u32 * 0x100_0000 + bytes[1] as u32 * 0x1_0000 + bytes[2] as u32 * 0x100
        + bytes[3] as u32
}

/// The four bytes of `value`, most significant first.
pub fn u32_to_be_bytes(value: u32) -> (bytes: Vec<u8>)
    ensures
        bytes@ == be_bytes(value as int),
{
    let mut bytes: Vec<u8> = Vec::new();
    bytes.push((value / 0x100_0000) as u8);
    bytes.push((value / 0x1_0000 % 0x100) as u8);
    bytes.push((value / 0x100 % 0x100) as u8);
    bytes.push((value % 0x100) as u8);
    bytes
}

/// Reading four bytes gives back the number they were written from.
pub proof fn be_bytes_are_read_back(value: int)
    requires
        0 <= value <= u32::MAX,
    ensures
        be_bytes(value).len() == 4,
        be_value(be_bytes(value)) == value,
{
}

/// The most significant byte comes first: each byte counts 256 times as much
/// as the one behind it.
pub proof fn a_byte_counts_more_than_those_behind_it(bytes: Seq<u8>)
    requires
        bytes.len() >= 4,
    ensures
        be_value(bytes) == ((bytes[0] * 256 + bytes[1]) * 256 + bytes[2]) * 256 + bytes[3],
{
}

/// A number is written in four bytes, and each of them is what is left of the
/// number in its place.
pub proof fn a_number_is_written_byte_by_byte(value: int)
    requires
        0 <= value <= u32::MAX,
    ensures
        be_bytes(value).len() == 4,
        ({
            let bytes = be_bytes(value);
            ((bytes[0] * 256 + bytes[1]) * 256 + bytes[2]) * 256 + bytes[3] == value
        }),
{
}

/// Whatever [`u32_to_be_bytes`] returns for a number is four bytes, from
/// which [`u32_from_be_bytes`] returns the number, with the first byte
/// counting most.
pub proof fn a_number_comes_back_from_its_bytes(
    number: u32,
    written: Vec<u8>,
    bytes: &[u8],
    value: u32,
)
    requires
        call_ensures(u32_to_be_bytes, (number,), written),
        call_ensures(u32_from_be_bytes, (bytes,), value),
        bytes@.len() >= 4,
    ensures
        written@.len() == 4,
        ((written@[0] * 256 + written@[1]) * 256 + written@[2]) * 256 + written@[3] == number,
        ((bytes@[0] * 256 + bytes@[1]) * 256 + bytes@[2]) * 256 + bytes@[3] == value,
        bytes@.take(4) == written@ ==> value == number,
{
    a_number_is_written_byte_by_byte(number as int);
    if bytes@.take(4) == written@ {
        assert(bytes@[0] == written@[0] && bytes@[1] == written@[1]) by {
            assert(bytes@.take(4)[0] == bytes@[0] && bytes@.take(4)[1] == bytes@[1]);
        }
        assert(bytes@[2] == written@[2] && bytes@[3] == written@[3]) by {
            assert(bytes@.take(4)[2] == bytes@[2] && bytes@.take(4)[3] == bytes@[3]);
        }
    }
}

} // verus!
