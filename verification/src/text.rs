//! Text building: decimal and hexadecimal numerals.

use vstd::prelude::*;
use vstd::utf8::{
    decode_utf8, encode_utf8, encode_utf8_decode_utf8, encode_utf8_valid_utf8, is_ascii_chars,
    is_ascii_chars_encode_utf8, is_ascii_chars_nat_bound, is_char_boundary,
    is_char_boundary_iff_not_is_continuation_byte, is_char_boundary_start_end_of_seq,
};

verus! {

/// The view of an optional value.
pub open spec fn opt_view<T: View>(value: Option<T>) -> Option<T::V> {
    match value {
        Some(v) => Some(v@),
        None => None,
    }
}

/// The length in bytes of the UTF-8 form of a text, as a machine word.
pub open spec fn byte_len(text: Seq<char>) -> usize {
    encode_utf8(text).len() as usize
}

/// Whether byte position `at` of the UTF-8 form of `text` is where a
/// character begins, or the end of the text.
pub open spec fn char_boundary(text: Seq<char>, at: int) -> bool {
    is_char_boundary(encode_utf8(text), at)
}

/// Whether a character of `text` begins at byte position `at`.
pub open spec fn char_start(text: Seq<char>, at: int) -> bool {
    char_boundary(text, at) && at < byte_len(text)
}

/// The number of characters of `text` that lie before byte position `at`.
pub open spec fn chars_before(text: Seq<char>, at: int) -> int {
    decode_utf8(encode_utf8(text).subrange(0, at)).len() as int
}

/// In an ASCII text bytes and characters coincide: the text is as many bytes
/// long as it has characters, every position up to its length is a character
/// boundary, and as many characters lie before a position as bytes.
pub proof fn lemma_ascii_positions(text: Seq<char>, at: int)
    requires
        is_ascii_chars(text),
        0 <= at <= text.len() <= usize::MAX,
    ensures
        byte_len(text) == text.len(),
        char_boundary(text, at),
        chars_before(text, at) == at,
{
    let bytes = encode_utf8(text);
    is_ascii_chars_encode_utf8(text);
    encode_utf8_valid_utf8(text);
    if at == bytes.len() {
        is_char_boundary_start_end_of_seq(bytes);
    } else {
        is_ascii_chars_nat_bound(text);
        assert(bytes[at] == text[at] as u8);
        is_char_boundary_iff_not_is_continuation_byte(bytes, at);
    }
    let prefix = text.take(at);
    is_ascii_chars_encode_utf8(prefix);
    assert(encode_utf8(prefix) =~= bytes.subrange(0, at));
    encode_utf8_decode_utf8(prefix);
}

/// `String::insert`: puts `c` into the text at byte position `at`, before
/// the character that begins there. The position must be a character
/// boundary.
#[verifier::external_body]
pub(crate) fn insert_char(text: &mut String, at: usize, c: char)
    requires
        char_boundary(old(text)@, at as int),
    ensures
        final(text)@ == old(text)@.insert(chars_before(old(text)@, at as int), c),
{
    text.insert(at, c)
}

/// `String::remove`: takes the character that begins at byte position `at`
/// out of the text and returns it. A character must begin there.
#[verifier::external_body]
pub(crate) fn remove_char(text: &mut String, at: usize) -> (removed: char)
    requires
        char_start(old(text)@, at as int),
    ensures
        final(text)@ == old(text)@.remove(chars_before(old(text)@, at as int)),
        removed == old(text)@[chars_before(old(text)@, at as int)],
{
    text.remove(at)
}

/// The characters of a text, in order.
pub fn chars_of(text: &str) -> (chars: Vec<char>)
    ensures
        chars@ == text@,
{
    let mut chars: Vec<char> = Vec::new();
    for c in it: text.chars()
        invariant
            chars@ == it.seq().take(it.index() as int),
            it.seq() == text@,
    {
        chars.push(c);
    }
    chars
}

/// `String::push`: appends one character to the text.
#[verifier::external_body]
pub(crate) fn push_char(text: &mut String, c: char)
    ensures
        final(text)@ == old(text)@.push(c),
{
    text.push(c)
}

/// The numeral of a value below sixteen, in upper case.
pub open spec fn digit_char(d: int) -> char {
    if d == 0 {
        '0'
    } else if d == 1 {
        '1'
    } else if d == 2 {
        '2'
    } else if d == 3 {
        '3'
    } else if d == 4 {
        '4'
    } else if d == 5 {
        '5'
    } else if d == 6 {
        '6'
    } else if d == 7 {
        '7'
    } else if d == 8 {
        '8'
    } else if d == 9 {
        '9'
    } else if d == 10 {
        'A'
    } else if d == 11 {
        'B'
    } else if d == 12 {
        'C'
    } else if d == 13 {
        'D'
    } else if d == 14 {
        'E'
    } else {
        'F'
    }
}

/// The decimal numeral of a natural number, without leading zeros.
pub open spec fn decimal(n: nat) -> Seq<char>
    decreases n,
{
    if n < 10 {
        seq![digit_char(n as int)]
    } else {
        decimal(n / 10).push(digit_char((n % 10) as int))
    }
}

/// The decimal numeral of an integer, with a minus sign where it is negative.
pub open spec fn signed_decimal(n: int) -> Seq<char> {
    if n < 0 {
        seq!['-'] + decimal((-n) as nat)
    } else {
        decimal(n as nat)
    }
}

/// The two upper-case hexadecimal numerals of a byte.
pub open spec fn hex_byte(b: u8) -> Seq<char> {
    seq![digit_char(b as int / 16), digit_char(b as int % 16)]
}

/// The numerals of each byte in turn, with one space between neighbours.
pub open spec fn hex_joined(bytes: Seq<u8>) -> Seq<char>
    decreases bytes.len(),
{
    if bytes.len() == 0 {
        Seq::empty()
    } else if bytes.len() == 1 {
        hex_byte(bytes[0])
    } else {
        hex_joined(bytes.drop_last()) + seq![' '] + hex_byte(bytes.last())
    }
}

fn digit(d: u8) -> (c: char)
    requires
        d < 16,
    ensures
        c == digit_char(d as int),
{
    if d == 0 {
        '0'
    } else if d == 1 {
        '1'
    } else if d == 2 {
        '2'
    } else if d == 3 {
        '3'
    } else if d == 4 {
        '4'
    } else if d == 5 {
        '5'
    } else if d == 6 {
        '6'
    } else if d == 7 {
        '7'
    } else if d == 8 {
        '8'
    } else if d == 9 {
        '9'
    } else if d == 10 {
        'A'
    } else if d == 11 {
        'B'
    } else if d == 12 {
        'C'
    } else if d == 13 {
        'D'
    } else if d == 14 {
        'E'
    } else {
        'F'
    }
}

/// Appends the decimal numeral of `n` to `text`.
pub fn push_decimal(text: &mut String, n: u64)
    ensures
        final(text)@ == old(text)@ + decimal(n as nat),
    decreases n,
{
    if n >= 10 {
        push_decimal(text, n / 10);
    }
    push_char(text, digit((n % 10) as u8));
}

/// Appends the decimal numeral of `n` to `text`, with its sign where it is
/// negative.
pub fn push_signed_decimal(text: &mut String, n: i64)
    ensures
        final(text)@ == old(text)@ + signed_decimal(n as int),
{
    if n < 0 {
        push_char(text, '-');
        let magnitude: u64 = ((-(n + 1)) as u64) + 1;
        push_decimal(text, magnitude);
    } else {
        push_decimal(text, n as u64);
    }
}

/// Appends the two hexadecimal numerals of `b` to `text`.
pub fn push_hex_byte(text: &mut String, b: u8)
    ensures
        final(text)@ == old(text)@ + hex_byte(b),
{
    push_char(text, digit(b / 16));
    push_char(text, digit(b % 16));
}

/// Appends the numerals of the first `count` of `bytes`, a space between
/// neighbours.
pub fn push_hex_joined(text: &mut String, bytes: &Vec<u8>, count: usize)
    requires
        count <= bytes@.len(),
    ensures
        final(text)@ == old(text)@ + hex_joined(bytes@.take(count as int)),
{
    let mut i: usize = 0;
    while i < count
        invariant
            i <= count <= bytes@.len(),
            text@ == old(text)@ + hex_joined(bytes@.take(i as int)),
        decreases count - i,
    {
        if i > 0 {
            push_char(text, ' ');
        }
        push_hex_byte(text, bytes[i]);
        proof {
            let next = bytes@.take(i + 1);
            assert(next.drop_last() == bytes@.take(i as int));
            assert(next.last() == bytes@[i as int]);
        }
        i += 1;
    }
}

} // verus!
