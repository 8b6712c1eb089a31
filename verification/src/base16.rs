//! Base-16 text: two digits per byte, most significant nibble first.
//!
//! Encoding writes lowercase digits and no prefix. Decoding accepts both
//! cases, as is usual for hexadecimal input. Seeds and keys pass through
//! here, so a digit is never looked up or branched upon: the only branch
//! on what is read is whether it is a digit at all.

use crate::flag::{either, less, within};
use crate::secret::wipe_bytes;
use vstd::prelude::*;

verus! {

/// The lowercase digit that stands for a nibble.
pub open spec fn digit_char(nibble: u8) -> char
    recommends
        nibble < 16,
{
    if nibble < 10 {
        (nibble + 48) as char
    } else {
        (nibble + 87) as char
    }
}

/// The nibble that a digit stands for, in either case.
pub open spec fn digit_value(c: char) -> Option<u8> {
    if '0' <= c && c <= '9' {
        Some((c as u8 - 48) as u8)
    } else if 'a' <= c && c <= 'f' {
        Some((c as u8 - 87) as u8)
    } else if 'A' <= c && c <= 'F' {
        Some((c as u8 - 55) as u8)
    } else {
        None
    }
}

/// The text of a byte sequence.
pub open spec fn encode_spec(bytes: Seq<u8>) -> Seq<char> {
    Seq::new(
        2 * bytes.len(),
        |i: int|
            if i % 2 == 0 {
                digit_char(bytes[i / 2] / 16)
            } else {
                digit_char(bytes[i / 2] % 16)
            },
    )
}

/// Whether a text is the base-16 form of some byte sequence.
pub open spec fn is_encoding(text: Seq<char>) -> bool {
    &&& text.len() % 2 == 0
    &&& forall|i: int| 0 <= i < text.len() ==> (#[trigger] digit_value(text[i])) is Some
}

/// The bytes that a base-16 text stands for.
pub open spec fn decode_spec(text: Seq<char>) -> Seq<u8>
    recommends
        is_encoding(text),
{
    Seq::new(
        text.len() / 2,
        |i: int| (digit_value(text[2 * i])->0 * 16 + digit_value(text[2 * i + 1])->0) as u8,
    )
}

/// Every character of an encoded text is a digit or a lowercase letter from
/// `a` to `f`, and a byte takes two characters.
pub proof fn lemma_encode_is_lowercase(bytes: Seq<u8>)
    ensures
        encode_spec(bytes).len() == 2 * bytes.len(),
        forall|i: int|
            0 <= i < encode_spec(bytes).len() ==> {
                let c = #[trigger] encode_spec(bytes)[i];
                ('0' <= c && c <= '9') || ('a' <= c && c <= 'f')
            },
{
}

/// Decoding the text of a byte sequence gives the sequence back.
pub proof fn lemma_decode_encode(bytes: Seq<u8>)
    ensures
        is_encoding(encode_spec(bytes)),
        decode_spec(encode_spec(bytes)) == bytes,
{
    let text = encode_spec(bytes);
    assert forall|i: int| 0 <= i < text.len() implies (#[trigger] digit_value(text[i])) is Some by {
        lemma_digit_round_trip(bytes[i / 2] / 16);
        lemma_digit_round_trip(bytes[i / 2] % 16);
    }
    assert forall|i: int| 0 <= i < bytes.len() implies decode_spec(text)[i] == bytes[i] by {
        lemma_digit_round_trip(bytes[i] / 16);
        lemma_digit_round_trip(bytes[i] % 16);
    }
}

/// Two byte sequences with the same text are the same sequence.
pub proof fn lemma_encode_injective(a: Seq<u8>, b: Seq<u8>)
    requires
        encode_spec(a) == encode_spec(b),
    ensures
        a == b,
{
    lemma_decode_encode(a);
    lemma_decode_encode(b);
}

proof fn lemma_digit_round_trip(nibble: u8)
    requires
        nibble < 16,
    ensures
        digit_value(digit_char(nibble)) == Some(nibble),
{
}

fn digit(nibble: u8) -> (c: char)
    requires
        nibble < 16,
    ensures
        c == digit_char(nibble),
        digit_value(c) == Some(nibble),
{
    let letter: u8 = less(9, nibble);
    (nibble + 48 + letter * 39) as char
}

/// Writes `bytes` as lowercase base-16 text.
pub fn encode(bytes: &[u8]) -> (text: String)
    ensures
        text@ == encode_spec(bytes@),
{
    let mut text = String::new();
    let mut i: usize = 0;
    while i < bytes.len()
        invariant
            i <= bytes.len(),
            text@.len() == 2 * i,
            forall|j: int| 0 <= j < 2 * i ==> text@[j] == encode_spec(bytes@)[j],
        decreases bytes.len() - i,
    {
        let b: u8 = bytes[i];
        text.push(digit(b / 16));
        text.push(digit(b % 16));
        i += 1;
    }
    text
}

fn nibble(b: u8) -> (v: Option<u8>)
    ensures
        v == digit_value(b as char),
        v is Some ==> v->0 < 16,
{
    let numeral: u8 = within(48, b, 57);
    let lower: u8 = within(97, b, 102);
    let upper: u8 = within(65, b, 70);
    let offset: u8 = numeral * 48 + lower * 87 + upper * 55;
    if either(numeral, either(lower, upper)) == 1 {
        Some(b - offset)
    } else {
        None
    }
}

/// Reads base-16 text. Gives `None` where the text has an odd number of
/// characters or holds a character that is no hexadecimal digit; what was
/// read up to that character is cleared.
pub fn decode(text: &str) -> (bytes: Option<Vec<u8>>)
    ensures
        bytes is Some <==> is_encoding(text@),
        bytes is Some ==> bytes->0@ == decode_spec(text@),
{
    if !text.is_ascii() {
        assert(!is_encoding(text@)) by {
            let i = choose|i: int|
                0 <= i < text@.len() && !('\0' <= #[trigger] text@[i] <= '\u{7f}');
            assert(digit_value(text@[i]) is None);
        }
        return None;
    }
    let raw = text.as_bytes();
    proof {
        vstd::string::is_ascii_spec_bytes(text);
    }
    let n = raw.len();
    if n % 2 != 0 {
        return None;
    }
    let mut bytes: Vec<u8> = Vec::new();
    let mut i: usize = 0;
    while i < n / 2
        invariant
            n == raw@.len(),
            n == text@.len(),
            n % 2 == 0,
            i <= n / 2,
            forall|j: int| 0 <= j < n ==> raw@[j] == text@[j] as u8,
            forall|j: int| 0 <= j < n ==> '\0' <= #[trigger] text@[j] <= '\u{7f}',
            forall|j: int| 0 <= j < 2 * i ==> (#[trigger] digit_value(text@[j])) is Some,
            bytes@.len() == i,
            forall|j: int| 0 <= j < i ==> bytes@[j] == decode_spec(text@)[j],
        decreases n / 2 - i,
    {
        let high = nibble(raw[2 * i]);
        let low = nibble(raw[2 * i + 1]);
        match (high, low) {
            (Some(h), Some(l)) => {
                bytes.push(h * 16 + l);
            },
            _ => {
                wipe_bytes(&mut bytes);
                return None;
            },
        }
        i += 1;
    }
    Some(bytes)
}

} // verus!
