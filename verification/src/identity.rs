//! UUIDs as plain 128-bit numbers, with the `uuid` crate's text forms.

use crate::text::Text;
use vstd::prelude::*;

verus! {

/// A lower-case hexadecimal digit.
pub open spec fn hex_digit(digit: nat) -> char {
    if digit < 10 {
        (0x30 + digit) as char
    } else {
        (0x61 + digit - 10) as char
    }
}

/// The last `count` hexadecimal digits of a number, zeros in front.
pub open spec fn hex_text(number: nat, count: nat) -> Text
    decreases count,
{
    if count == 0 {
        Seq::empty()
    } else {
        hex_text(number / 16, (count - 1) as nat).push(hex_digit(number % 16))
    }
}

/// A UUID in its hyphenated form: 32 digits in groups of 8, 4, 4, 4 and 12.
pub open spec fn hyphenated(id: u128) -> Text {
    let digits = hex_text(id as nat, 32);
    digits.subrange(0, 8) + seq!['-'] + digits.subrange(8, 12) + seq!['-'] + digits.subrange(12, 16)
        + seq!['-'] + digits.subrange(16, 20) + seq!['-'] + digits.subrange(20, 32)
}

/// `16` to the power of `count`.
pub open spec fn pow16(count: nat) -> nat
    decreases count,
{
    if count == 0 {
        1
    } else {
        16 * pow16((count - 1) as nat)
    }
}

proof fn lemma_hex_text(number: nat, count: nat)
    ensures
        hex_text(number, count).len() == count,
        forall|i: int| 0 <= i < count ==> #[trigger] hex_text(number, count)[i] != ':',
    decreases count,
{
    if count > 0 {
        lemma_hex_text(number / 16, (count - 1) as nat);
    }
}

proof fn lemma_hex_text_injective(left: nat, right: nat, count: nat)
    requires
        hex_text(left, count) == hex_text(right, count),
        left < pow16(count),
        right < pow16(count),
    ensures
        left == right,
    decreases count,
{
    if count > 0 {
        let shorter = (count - 1) as nat;
        lemma_hex_text(left / 16, shorter);
        lemma_hex_text(right / 16, shorter);
        assert(hex_text(left, count).drop_last() =~= hex_text(left / 16, shorter));
        assert(hex_text(right, count).drop_last() =~= hex_text(right / 16, shorter));
        assert(hex_text(left, count).last() == hex_digit(left % 16));
        assert(hex_text(right, count).last() == hex_digit(right % 16));
        lemma_hex_text_injective(left / 16, right / 16, shorter);
    }
}

/// The hyphenated form has 36 characters, none of them a colon.
pub proof fn lemma_hyphenated(id: u128)
    ensures
        hyphenated(id).len() == 36,
        forall|i: int| 0 <= i < 36 ==> #[trigger] hyphenated(id)[i] != ':',
{
    lemma_hex_text(id as nat, 32);
}

/// Different UUIDs have different hyphenated forms.
pub proof fn lemma_hyphenated_injective(left: u128, right: u128)
    requires
        hyphenated(left) == hyphenated(right),
    ensures
        left == right,
{
    let a = hex_text(left as nat, 32);
    let b = hex_text(right as nat, 32);
    let text = hyphenated(left);
    lemma_hex_text(left as nat, 32);
    lemma_hex_text(right as nat, 32);
    assert(a.subrange(0, 8) =~= text.subrange(0, 8));
    assert(b.subrange(0, 8) =~= text.subrange(0, 8));
    assert(a.subrange(8, 12) =~= text.subrange(9, 13));
    assert(b.subrange(8, 12) =~= text.subrange(9, 13));
    assert(a.subrange(12, 16) =~= text.subrange(14, 18));
    assert(b.subrange(12, 16) =~= text.subrange(14, 18));
    assert(a.subrange(16, 20) =~= text.subrange(19, 23));
    assert(b.subrange(16, 20) =~= text.subrange(19, 23));
    assert(a.subrange(20, 32) =~= text.subrange(24, 36));
    assert(b.subrange(20, 32) =~= text.subrange(24, 36));
    assert(a =~= a.subrange(0, 8) + a.subrange(8, 12) + a.subrange(12, 16) + a.subrange(16, 20)
        + a.subrange(20, 32));
    assert(b =~= b.subrange(0, 8) + b.subrange(8, 12) + b.subrange(12, 16) + b.subrange(16, 20)
        + b.subrange(20, 32));
    reveal_with_fuel(pow16, 33);
    lemma_hex_text_injective(left as nat, right as nat, 32);
}

proof fn lemma_hex_digit_at(number: nat, count: nat, at: nat)
    requires
        at < count,
    ensures
        hex_text(number, count).len() == count,
        hex_text(number, count)[at as int] == hex_digit(
            (number / pow16((count - 1 - at) as nat)) % 16,
        ),
    decreases count,
{
    lemma_hex_text(number, count);
    let shorter = (count - 1) as nat;
    lemma_hex_text(number / 16, shorter);
    if at < shorter {
        lemma_hex_digit_at(number / 16, shorter, at);
        let below = pow16((shorter - 1 - at) as nat);
        lemma_pow16_positive((shorter - 1 - at) as nat);
        vstd::arithmetic::div_mod::lemma_div_denominator(number as int, 16, below as int);
        assert(pow16((count - 1 - at) as nat) == 16 * below);
        assert(hex_text(number, count)[at as int] == hex_text(number / 16, shorter)[at as int]);
        assert((number / 16) / below == number / (16 * below));
    } else {
        assert(pow16(0) == 1);
        assert(number / 1 == number);
        assert(hex_text(number, count).last() == hex_digit(number % 16));
    }
}

proof fn lemma_pow16_positive(count: nat)
    ensures
        pow16(count) > 0,
    decreases count,
{
    if count > 0 {
        lemma_pow16_positive((count - 1) as nat);
    }
}

/// The hyphenated form spells the number's digits from the most significant
/// on, in lower-case hexadecimal, with hyphens at four fixed places.
pub proof fn law_a_uuid_is_spelled_by_its_digits(id: u128, at: nat)
    requires
        at < 32,
    ensures
        ({
            let text = hyphenated(id);
            let digit = (id as nat / pow16((31 - at) as nat)) % 16;
            let place = at as int + if at < 8 {
                0int
            } else if at < 12 {
                1
            } else if at < 16 {
                2
            } else if at < 20 {
                3
            } else {
                4
            };
            &&& text[8] == '-' && text[13] == '-' && text[18] == '-' && text[23] == '-'
            &&& digit < 10 ==> text[place] as u32 == 0x30 + digit
            &&& digit >= 10 ==> text[place] as u32 == 0x61 + digit - 10
        }),
{
    lemma_hyphenated(id);
    lemma_hex_digit_at(id as nat, 32, at);
}

/// Writes a UUID with `uuid::Uuid`'s `Display`: 32 lower-case hexadecimal
/// digits, most significant first, with a hyphen after the 8th, 12th, 16th and
/// 20th.
#[verifier::external_body]
pub(crate) fn hyphenate(id: u128) -> (text: String)
    ensures
        text@ == hyphenated(id),
{
    uuid::Uuid::from_u128(id).to_string()
}

/// The UUID `uuid::Uuid::parse_str` reads from a text, in any of the forms the
/// `uuid` crate writes.
pub uninterp spec fn parsed_uuid(text: Seq<char>) -> Option<u128>;

/// Calls `uuid::Uuid::parse_str`. Claims that what it reads depends on the text
/// alone, and that a hyphenated form reads back as the UUID it was written
/// from.
#[verifier::external_body]
pub(crate) fn parse_uuid(text: &str) -> (id: Option<u128>)
    ensures
        id == parsed_uuid(text@),
        forall|known: u128| #[trigger] hyphenated(known) == text@ ==> id == Some(known),
{
    uuid::Uuid::parse_str(text).ok().map(|id| id.as_u128())
}

/// The name-based UUID `uuid::Uuid::new_v5` derives in a namespace.
pub uninterp spec fn uuid_v5(namespace: u128, name: Seq<char>) -> u128;

/// Calls `uuid::Uuid::new_v5` on a name's UTF-8 bytes. Claims only that the
/// UUID depends on the namespace and the name alone.
#[verifier::external_body]
pub(crate) fn derive_uuid(namespace: u128, name: &str) -> (id: u128)
    ensures
        id == uuid_v5(namespace, name@),
{
    uuid::Uuid::new_v5(&uuid::Uuid::from_u128(namespace), name.as_bytes()).as_u128()
}

/// Whether a UUID is marked as a random one: version 4 in its 13th hexadecimal
/// digit, and the standard variant, binary `10`, at the head of its 17th.
pub open spec fn is_random_uuid(id: u128) -> bool {
    id & 0xf000_c000_0000_0000_0000 == 0x4000_8000_0000_0000_0000
}

/// Calls `uuid::Uuid::new_v4`. Claims that the UUID carries the version and the
/// variant of a random one. The other bits are left to chance: nothing is said
/// of them, nor that two calls differ.
#[verifier::external_body]
pub(crate) fn random_uuid() -> (id: u128)
    ensures
        is_random_uuid(id),
{
    uuid::Uuid::new_v4().as_u128()
}

/// A random UUID says so: its version is four and its variant the standard one,
/// and nothing else about it is fixed.
pub proof fn law_a_random_uuid_says_so(id: u128)
    ensures
        is_random_uuid(id) <==> (id >> 76) & 0xf == 4 && (id >> 62) & 0x3 == 2,
{
    assert((id & 0xf000_c000_0000_0000_0000 == 0x4000_8000_0000_0000_0000) <==> ((id >> 76) & 0xf
        == 4 && (id >> 62) & 0x3 == 2)) by (bit_vector);
}

} // verus!
