//! Decimal numbers in text messages.
use vstd::prelude::*;
use vstd::slice::slice_subrange;

verus! {

/// Whether a byte is an ASCII digit.
pub open spec fn is_digit(byte: u8) -> bool {
    0x30 <= byte <= 0x39
}

/// Whether every byte of `text` is an ASCII digit.
pub open spec fn all_digits(text: Seq<u8>) -> bool {
    forall|i: int| 0 <= i < text.len() ==> is_digit(#[trigger] text[i])
}

/// The number that a row of ASCII digits spells.
pub open spec fn digits_value(digits: Seq<u8>) -> int
    decreases digits.len(),
{
    if digits.len() == 0 {
        0
    } else {
        digits_value(digits.drop_last()) * 10 + (digits.last() - 0x30)
    }
}

/// `text` without its sign, if it starts with one.
pub open spec fn without_sign(text: Seq<u8>) -> Seq<u8> {
    if text.len() > 0 && (text[0] == 0x2b || text[0] == 0x2d) {
        text.skip(1)
    } else {
        text
    }
}

/// The number that a decimal text spells before its range is looked at: an
/// optional sign and at least one digit, with nothing around them.
pub open spec fn decimal_value(text: Seq<u8>) -> Option<int> {
    let digits = without_sign(text);
    if digits.len() == 0 || !all_digits(digits) {
        None
    } else if text[0] == 0x2d {
        Some(-digits_value(digits))
    } else {
        Some(digits_value(digits))
    }
}

/// The `i32` that a decimal text spells, if it spells one.
pub open spec fn decimal_i32(text: Seq<u8>) -> Option<int> {
    match decimal_value(text) {
        Some(value) if i32::MIN <= value <= i32::MAX => Some(value),
        _ => None,
    }
}

/// A prefix of a row of digits spells no larger a number than the whole row.
proof fn a_prefix_is_no_larger(digits: Seq<u8>, n: int)
    requires
        all_digits(digits),
        0 <= n <= digits.len(),
    ensures
        0 <= digits_value(digits.take(n)) <= digits_value(digits),
    decreases digits.len(),
{
    if n == digits.len() {
        assert(digits.take(n) == digits);
        if n > 0 {
            a_prefix_is_no_larger(digits.drop_last(), n - 1);
        }
    } else {
        a_prefix_is_no_larger(digits.drop_last(), n);
        assert(digits.drop_last().take(n) == digits.take(n));
        assert(is_digit(digits[digits.len() - 1]));
    }
}

/// The number that a row of digits spells, if it is one and is at most
/// `limit`.
fn parse_digits(digits: &[u8], limit: u64) -> (value: Option<u64>)
    requires
        limit <= 0x1_0000_0000,
    ensures
        value == (if digits@.len() > 0 && all_digits(digits@) && digits_value(digits@) <= limit {
            Some(digits_value(digits@) as u64)
        } else {
            None
        }),
{
    if digits.len() == 0 {
        return None;
    }
    let mut value: u64 = 0;
    let mut i: usize = 0;
    assert(digits@.take(0) == Seq::<u8>::empty());
    while i < digits.len()
        invariant
            i <= digits@.len(),
            limit <= 0x1_0000_0000,
            value <= limit,
            all_digits(digits@.take(i as int)),
            value == digits_value(digits@.take(i as int)),
        decreases digits@.len() - i,
    {
        let byte: u8 = digits[i];
        if byte < 0x30 || byte > 0x39 {
            assert(!is_digit(digits@[i as int]));
            return None;
        }
        let next: u64 = value * 10 + (byte - 0x30) as u64;
        proof {
            let taken = digits@.take(i + 1);
            assert(taken.drop_last() == digits@.take(i as int));
            assert forall|j: int| 0 <= j < taken.len() implies is_digit(#[trigger] taken[j]) by {
                if j < i {
                    assert(taken[j] == digits@.take(i as int)[j]);
                }
            }
            if next > limit && all_digits(digits@) {
                a_prefix_is_no_larger(digits@, i + 1);
            }
        }
        if next > limit {
            return None;
        }
        value = next;
        i += 1;
    }
    assert(digits@.take(i as int) == digits@);
    Some(value)
}

/// Read a decimal text as an `i32`.
pub fn parse_i32(text: &[u8]) -> (value: Option<i32>)
    ensures
        value == (match decimal_i32(text@) {
            Some(number) => Some(number as i32),
            None => None,
        }),
{
    if text.len() == 0 {
        return None;
    }
    if text[0] == 0x2d {
        let digits: &[u8] = slice_subrange(text, 1, text.len());
        assert(digits@ == without_sign(text@));
        proof {
            if all_digits(digits@) {
                a_prefix_is_no_larger(digits@, 0);
            }
        }
        match parse_digits(digits, 0x8000_0000) {
            Some(size) => Some((-(size as i64)) as i32),
            None => None,
        }
    } else {
        let digits: &[u8] = if text[0] == 0x2b {
            slice_subrange(text, 1, text.len())
        } else {
            text
        };
        assert(digits@ == without_sign(text@));
        proof {
            if all_digits(digits@) {
                a_prefix_is_no_larger(digits@, 0);
            }
        }
        match parse_digits(digits, 0x7fff_ffff) {
            Some(size) => Some(size as i32),
            None => None,
        }
    }
}

/// Writing one more digit behind a number makes it ten times as large, and
/// adds the digit.
pub proof fn one_more_digit_is_ten_times_as_much(digits: Seq<u8>, digit: u8)
    ensures
        digits_value(Seq::empty()) == 0,
        digits_value(digits.push(digit)) == 10 * digits_value(digits) + (digit - 0x30),
{
    assert(digits.push(digit).drop_last() == digits);
}

/// A row of digits spells its number, with a plus sign or without, and the
/// negative of it with a minus sign, as long as that is in the range of an
/// `i32`. Zeros in front change nothing.
pub proof fn a_row_of_digits_spells_its_number(digits: Seq<u8>)
    requires
        digits.len() > 0,
        forall|i: int| 0 <= i < digits.len() ==> 0x30 <= #[trigger] digits[i] <= 0x39,
    ensures
        0 <= digits_value(digits),
        decimal_i32(digits) == (if digits_value(digits) <= 2_147_483_647 {
            Some(digits_value(digits))
        } else {
            None
        }),
        decimal_i32(seq![0x2bu8] + digits) == decimal_i32(digits),
        decimal_i32(seq![0x2du8] + digits) == (if digits_value(digits) <= 2_147_483_648 {
            Some(-digits_value(digits))
        } else {
            None
        }),
        decimal_i32(seq![0x30u8] + digits) == decimal_i32(digits),
{
    assert(all_digits(digits)) by {
        assert forall|i: int| 0 <= i < digits.len() implies is_digit(#[trigger] digits[i]) by {}
    }
    a_prefix_is_no_larger(digits, 0);
    let plus = seq![0x2bu8] + digits;
    let minus = seq![0x2du8] + digits;
    let zero = seq![0x30u8] + digits;
    assert(plus.skip(1) == digits);
    assert(minus.skip(1) == digits);
    assert(without_sign(digits) == digits) by {
        assert(is_digit(digits[0]));
    }
    assert(without_sign(zero) == zero);
    assert(all_digits(zero)) by {
        assert forall|i: int| 0 <= i < zero.len() implies is_digit(#[trigger] zero[i]) by {
            if i > 0 {
                assert(zero[i] == digits[i - 1]);
            }
        }
    }
    a_zero_in_front_changes_nothing(digits);
    assert(digits[0] != 0x2d) by {
        assert(is_digit(digits[0]));
    }
}

/// A zero in front of a row of digits changes nothing.
proof fn a_zero_in_front_changes_nothing(digits: Seq<u8>)
    ensures
        digits_value(seq![0x30u8] + digits) == digits_value(digits),
    decreases digits.len(),
{
    let zero = seq![0x30u8] + digits;
    if digits.len() == 0 {
        assert(zero.drop_last() == digits);
    } else {
        a_zero_in_front_changes_nothing(digits.drop_last());
        assert(zero.drop_last() == seq![0x30u8] + digits.drop_last());
    }
}

/// Nothing else spells a number: not a text without digits, and not one that
/// holds anything but digits behind its sign.
pub proof fn nothing_else_spells_a_number(text: Seq<u8>, i: int)
    requires
        ({
            ||| text.len() == 0
            ||| text.len() == 1 && !(0x30 <= text[0] <= 0x39)
            ||| 0 < i < text.len() && !(0x30 <= text[i] <= 0x39)
            ||| text.len() > 0 && text[0] != 0x2b && text[0] != 0x2d && !(0x30 <= text[0] <= 0x39)
        }),
    ensures
        decimal_i32(text) is None,
{
    let digits = without_sign(text);
    if 0 < i < text.len() && !(0x30 <= text[i] <= 0x39) {
        if digits == text {
            assert(!is_digit(digits[i]));
        } else {
            assert(digits[i - 1] == text[i]);
            assert(!is_digit(digits[i - 1]));
        }
    } else if text.len() > 0 && digits == text {
        assert(!is_digit(digits[0]));
    }
}

/// Whatever [`parse_i32`] returns for a row of digits, or for one behind a
/// minus sign, is the number that it spells, in the range of an `i32`, and
/// nothing outside it.
pub proof fn parse_i32_returns_what_the_digits_spell(text: &[u8], value: Option<i32>)
    requires
        call_ensures(parse_i32, (text,), value),
        text@.len() > 0,
        forall|i: int| 1 <= i < text@.len() ==> 0x30 <= #[trigger] text@[i] <= 0x39,
        0x30 <= text@[0] <= 0x39 || text@[0] == 0x2d && text@.len() > 1,
    ensures
        ({
            let spelled = if text@[0] == 0x2d {
                -digits_value(text@.skip(1))
            } else {
                digits_value(text@)
            };
            &&& value is Some <==> -2_147_483_648 <= spelled <= 2_147_483_647
            &&& value matches Some(number) ==> number == spelled
        }),
{
    if text@[0] == 0x2d {
        let digits = text@.skip(1);
        assert forall|i: int| 0 <= i < digits.len() implies 0x30 <= #[trigger] digits[i]
            <= 0x39 by {
            assert(digits[i] == text@[i + 1]);
        }
        a_row_of_digits_spells_its_number(digits);
        assert(seq![0x2du8] + digits == text@);
    } else {
        assert forall|i: int| 0 <= i < text@.len() implies 0x30 <= #[trigger] text@[i]
            <= 0x39 by {}
        a_row_of_digits_spells_its_number(text@);
    }
}

} // verus!
