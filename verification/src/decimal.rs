//! Decimal numerals: how counters are written into ids and read back.

use crate::text::{chars_of, Text};
use vstd::prelude::*;

verus! {

/// The numeral of a single digit.
pub open spec fn digit_char(digit: nat) -> char {
    (0x30 + digit) as char
}

/// The digit a character stands for.
pub open spec fn char_digit(c: char) -> nat {
    (c as u32 - 0x30) as nat
}

/// Whether a character is one of the ten ASCII digits.
pub open spec fn is_digit_char(c: char) -> bool {
    0x30 <= c as u32 <= 0x39
}

/// The decimal numeral of a number, without leading zeros.
pub open spec fn decimal_text(number: nat) -> Text
    decreases number,
{
    if number < 10 {
        seq![digit_char(number)]
    } else {
        decimal_text(number / 10).push(digit_char(number % 10))
    }
}

/// Whether a text is digits throughout.
pub open spec fn all_digits(text: Text) -> bool {
    forall|i: int| 0 <= i < text.len() ==> is_digit_char(#[trigger] text[i])
}

/// The number a run of digits stands for.
pub open spec fn digits_value(text: Text) -> nat
    decreases text.len(),
{
    if text.len() == 0 {
        0
    } else {
        digits_value(text.drop_last()) * 10 + char_digit(text.last())
    }
}

/// The digits of a numeral, past the `+` it may begin with.
pub open spec fn unsigned_part(text: Text) -> Text {
    if text.len() > 0 && text[0] == '+' {
        text.skip(1)
    } else {
        text
    }
}

/// The `u64` a text names: digits, at least one, a leading `+` allowed, no
/// larger than the type.
pub open spec fn parsed_u64(text: Text) -> Option<u64> {
    let digits = unsigned_part(text);
    if digits.len() > 0 && all_digits(digits) && digits_value(digits) <= u64::MAX {
        Some(digits_value(digits) as u64)
    } else {
        None
    }
}

/// A numeral is digits throughout, at least one, and stands for the number it
/// was written from.
pub proof fn lemma_decimal_text(number: nat)
    ensures
        decimal_text(number).len() > 0,
        all_digits(decimal_text(number)),
        digits_value(decimal_text(number)) == number,
    decreases number,
{
    if number < 10 {
        let text = decimal_text(number);
        assert(text.drop_last() =~= Seq::<char>::empty());
        assert(digits_value(text.drop_last()) == 0);
    } else {
        lemma_decimal_text(number / 10);
        let shorter = decimal_text(number / 10);
        let text = decimal_text(number);
        assert(text.drop_last() =~= shorter);
        assert(text.last() == digit_char(number % 10));
    }
}

/// Different numbers have different numerals.
pub proof fn lemma_decimal_text_injective(left: nat, right: nat)
    requires
        decimal_text(left) == decimal_text(right),
    ensures
        left == right,
{
    lemma_decimal_text(left);
    lemma_decimal_text(right);
}

/// Reading back a written number gives the number.
pub proof fn law_decimal_round_trip(number: u64)
    ensures
        parsed_u64(decimal_text(number as nat)) == Some(number),
{
    lemma_decimal_text(number as nat);
    let text = decimal_text(number as nat);
    assert(is_digit_char(text[0]));
    assert(unsigned_part(text) == text);
}

/// A number is read with a plus before it as without one, leading zeros do not
/// change it, one too large for the type is refused, and so is anything that
/// holds a character that is no digit.
pub proof fn law_what_is_read_as_a_number(number: nat, text: Text, at: int)
    ensures
        number <= u64::MAX ==> parsed_u64(seq!['+'] + decimal_text(number)) == Some(number as u64),
        number > u64::MAX ==> parsed_u64(decimal_text(number)) is None,
        text.len() == 0 ==> parsed_u64(text) is None,
        text == seq!['+'] ==> parsed_u64(text) is None,
        1 <= at < text.len() && !(0x30 <= text[at] as u32 <= 0x39) ==> parsed_u64(text) is None,
        text.len() > 0 && text[0] != '+' && !(0x30 <= text[0] as u32 <= 0x39) ==> parsed_u64(text)
            is None,
{
    lemma_decimal_text(number);
    let digits = decimal_text(number);
    let signed = seq!['+'] + digits;
    assert(signed.skip(1) =~= digits);
    assert(is_digit_char(digits[0]));
    if 1 <= at < text.len() && !is_digit_char(text[at]) {
        if text[0] == '+' {
            assert(unsigned_part(text)[at - 1] == text[at]);
        }
    }
    if text.len() > 0 && text[0] != '+' && !is_digit_char(text[0]) {
        assert(unsigned_part(text)[0] == text[0]);
    }
}

/// A numeral of one digit is that digit's character; a longer one is the
/// numeral of the tens and then the digit of the ones.
pub proof fn law_a_numeral_is_written_by_its_digits(tens: nat, ones: nat)
    requires
        ones < 10,
    ensures
        decimal_text(ones) == seq![(0x30 + ones) as char],
        tens > 0 ==> decimal_text(tens * 10 + ones) == decimal_text(tens).push(
            (0x30 + ones) as char,
        ),
{
    if tens > 0 {
        assert((tens * 10 + ones) / 10 == tens);
        assert((tens * 10 + ones) % 10 == ones);
    }
}

/// A negative number is written as a minus and its magnitude, and numbers are
/// told apart by their texts.
pub proof fn law_a_signed_number_is_told_by_its_text(left: int, right: int)
    ensures
        left >= 0 ==> signed_text(left) == decimal_text(left as nat),
        left < 0 ==> signed_text(left) == seq!['-'] + decimal_text((-left) as nat),
        signed_text(left) == signed_text(right) ==> left == right,
{
    reveal_strlit("-");
    assert("-"@ =~= seq!['-']);
    if left < 0 {
        assert(signed_text(left)[0] == '-');
        assert(signed_text(left).skip(1) =~= decimal_text((-left) as nat));
    } else {
        lemma_decimal_text(left as nat);
        assert(is_digit_char(signed_text(left)[0]));
    }
    if right < 0 {
        assert(signed_text(right)[0] == '-');
        assert(signed_text(right).skip(1) =~= decimal_text((-right) as nat));
    } else {
        lemma_decimal_text(right as nat);
        assert(is_digit_char(signed_text(right)[0]));
    }
    if signed_text(left) == signed_text(right) {
        if left < 0 {
            assert(!is_digit_char('-'));
            lemma_decimal_text_injective((-left) as nat, (-right) as nat);
        } else {
            lemma_decimal_text_injective(left as nat, right as nat);
        }
    }
}

proof fn lemma_digits_value_grows(text: Text, shorter: int)
    requires
        all_digits(text),
        0 <= shorter <= text.len(),
    ensures
        digits_value(text.take(shorter)) <= digits_value(text),
    decreases text.len() - shorter,
{
    if shorter < text.len() {
        lemma_digits_value_grows(text, shorter + 1);
        let longer = text.take(shorter + 1);
        assert(longer.drop_last() =~= text.take(shorter));
        assert(longer.last() == text[shorter]);
    } else {
        assert(text.take(shorter) =~= text);
    }
}

fn digit_text(digit: u64) -> (text: &'static str)
    requires
        digit < 10,
    ensures
        text@ == seq![digit_char(digit as nat)],
{
    proof {
        reveal_strlit("0");
        reveal_strlit("1");
        reveal_strlit("2");
        reveal_strlit("3");
        reveal_strlit("4");
        reveal_strlit("5");
        reveal_strlit("6");
        reveal_strlit("7");
        reveal_strlit("8");
        reveal_strlit("9");
    }
    match digit {
        0 => "0",
        1 => "1",
        2 => "2",
        3 => "3",
        4 => "4",
        5 => "5",
        6 => "6",
        7 => "7",
        8 => "8",
        _ => "9",
    }
}

/// Write a number in decimal.
pub fn decimal(number: u64) -> (text: String)
    ensures
        text@ == decimal_text(number as nat),
    decreases number,
{
    if number < 10 {
        digit_text(number).to_owned()
    } else {
        let mut text: String = decimal(number / 10);
        text.append(digit_text(number % 10));
        assert(text@ =~= decimal_text((number / 10) as nat).push(digit_char((number % 10) as nat)));
        text
    }
}

/// Read a number written in decimal.
pub fn parse_decimal(text: &str) -> (number: Option<u64>)
    ensures
        number == parsed_u64(text@),
{
    let chars: Vec<char> = chars_of(text);
    let ghost digits = unsigned_part(text@);
    let start: usize = if chars.len() > 0 && chars[0] == '+' {
        1
    } else {
        0
    };
    assert(digits =~= chars@.skip(start as int));
    if start == chars.len() {
        return None;
    }
    let mut value: u64 = 0;
    let mut i: usize = start;
    while i < chars.len()
        invariant
            start <= i <= chars@.len(),
            start < chars@.len(),
            digits == chars@.skip(start as int),
            digits == unsigned_part(text@),
            forall|k: int| start <= k < i ==> is_digit_char(#[trigger] chars@[k]),
            value == digits_value(digits.take(i - start)),
        decreases chars@.len() - i,
    {
        let code: u32 = chars[i] as u32;
        proof {
            let longer = digits.take(i - start + 1);
            assert(longer.drop_last() =~= digits.take(i - start));
            assert(longer.last() == chars@[i as int]);
            assert(digits[i - start] == chars@[i as int]);
        }
        if code < 0x30 || code > 0x39 {
            return None;
        }
        let digit: u64 = (code - 0x30) as u64;
        if value > (u64::MAX - digit) / 10 {
            proof {
                assert(value * 10 + digit > u64::MAX);
                if all_digits(digits) {
                    lemma_digits_value_grows(digits, i - start + 1);
                }
            }
            return None;
        }
        value = value * 10 + digit;
        i = i + 1;
    }
    proof {
        assert(digits.take(i - start) =~= digits);
        assert forall|k: int| 0 <= k < digits.len() implies is_digit_char(#[trigger] digits[k]) by {
            assert(digits[k] == chars@[k + start]);
        }
    }
    Some(value)
}

/// The decimal numeral of a signed number, with a `-` in front where it is
/// negative.
pub open spec fn signed_text(number: int) -> Text {
    if number < 0 {
        "-"@ + decimal_text((-number) as nat)
    } else {
        decimal_text(number as nat)
    }
}

/// Write a signed number in decimal.
pub fn signed_decimal(number: i64) -> (text: String)
    ensures
        text@ == signed_text(number as int),
{
    if number < 0 {
        let below: u64 = (-(number + 1)) as u64;
        let mut text: String = "-".to_owned();
        text.append(decimal(below + 1).as_str());
        text
    } else {
        decimal(number as u64)
    }
}

} // verus!
