//! Percent-encoding of text for URLs and form bodies.
//!
//! A text is taken by its UTF-8 bytes. Letters, digits, `-`, `.`, `_` and `~`
//! stand for themselves; every other byte is written as `%` and two
//! upper-case hexadecimal digits.

use vstd::prelude::*;
use vstd::string::*;
use vstd::utf8::*;

use crate::text::{
    ascii_string, ascii_text, is_ascii_bytes, lemma_ascii_bytes_are_utf8, text_from_utf8,
};

verus! {

/// Whether a byte stands for itself.
pub open spec fn is_unreserved(b: u8) -> bool {
    ||| 0x41 <= b <= 0x5A
    ||| 0x61 <= b <= 0x7A
    ||| 0x30 <= b <= 0x39
    ||| b == 0x2D
    ||| b == 0x2E
    ||| b == 0x5F
    ||| b == 0x7E
}

/// The upper-case hexadecimal digit for a value below 16.
pub open spec fn hex_digit(value: int) -> u8 {
    if value < 10 {
        (0x30 + value) as u8
    } else {
        (0x41 + value - 10) as u8
    }
}

/// The value of a hexadecimal digit of either case.
pub open spec fn hex_value(digit: u8) -> Option<int> {
    if 0x30 <= digit <= 0x39 {
        Some(digit - 0x30)
    } else if 0x41 <= digit <= 0x46 {
        Some(digit - 0x41 + 10)
    } else if 0x61 <= digit <= 0x66 {
        Some(digit - 0x61 + 10)
    } else {
        None
    }
}

/// The bytes that stand for one byte.
pub open spec fn escape_byte(b: u8) -> Seq<u8> {
    if is_unreserved(b) {
        seq![b]
    } else {
        seq![0x25u8, hex_digit(b as int / 16), hex_digit(b as int % 16)]
    }
}

/// The bytes that stand for a sequence of bytes.
pub open spec fn escape_bytes(bytes: Seq<u8>) -> Seq<u8>
    decreases bytes.len(),
{
    if bytes.len() == 0 {
        Seq::empty()
    } else {
        escape_byte(bytes[0]) + escape_bytes(bytes.drop_first())
    }
}

/// The bytes that an escaped sequence stands for. A `%` must be followed by
/// two hexadecimal digits; any other byte stands for itself.
pub open spec fn unescape_bytes(bytes: Seq<u8>) -> Option<Seq<u8>>
    decreases bytes.len(),
{
    if bytes.len() == 0 {
        Some(Seq::empty())
    } else if bytes[0] != 0x25 {
        match unescape_bytes(bytes.skip(1)) {
            Some(rest) => Some(seq![bytes[0]] + rest),
            None => None,
        }
    } else if bytes.len() >= 3 && hex_value(bytes[1]) is Some && hex_value(bytes[2]) is Some {
        match unescape_bytes(bytes.skip(3)) {
            Some(rest) => Some(
                seq![(hex_value(bytes[1])->0 * 16 + hex_value(bytes[2])->0) as u8] + rest,
            ),
            None => None,
        }
    } else {
        None
    }
}

/// The percent-encoded form of a text.
pub open spec fn percent_encoded(text: Seq<char>) -> Seq<char> {
    ascii_text(escape_bytes(encode_utf8(text)))
}

/// The text that escaped bytes stand for: none where a `%` lacks its two
/// digits or the bytes that come out are not UTF-8.
pub open spec fn component_text(escaped: Seq<u8>) -> Option<Seq<char>> {
    match unescape_bytes(escaped) {
        Some(bytes) => if valid_utf8(bytes) {
            Some(decode_utf8(bytes))
        } else {
            None
        },
        None => None,
    }
}

/// The text that a percent-encoded form stands for, where it stands for one.
pub open spec fn percent_decoded(text: Seq<char>) -> Option<Seq<char>> {
    component_text(encode_utf8(text))
}

/// An escaped sequence holds ASCII only.
pub proof fn lemma_escaped_is_ascii(bytes: Seq<u8>)
    ensures
        is_ascii_bytes(escape_bytes(bytes)),
    decreases bytes.len(),
{
    if bytes.len() > 0 {
        lemma_escaped_is_ascii(bytes.drop_first());
    }
}

/// Unescaping undoes escaping.
pub proof fn lemma_unescape_escaped(bytes: Seq<u8>)
    ensures
        unescape_bytes(escape_bytes(bytes)) == Some(bytes),
    decreases bytes.len(),
{
    if bytes.len() > 0 {
        let b = bytes[0];
        let rest = bytes.drop_first();
        let escaped = escape_bytes(bytes);
        lemma_unescape_escaped(rest);
        if is_unreserved(b) {
            assert(escaped.skip(1) =~= escape_bytes(rest));
        } else {
            assert(escaped.skip(3) =~= escape_bytes(rest));
            assert(hex_value(hex_digit(b as int / 16)) == Some(b as int / 16));
            assert(hex_value(hex_digit(b as int % 16)) == Some(b as int % 16));
        }
        assert(seq![b] + rest =~= bytes);
    }
}

/// Decoding undoes encoding, for every text.
pub proof fn lemma_percent_round_trip(text: Seq<char>)
    ensures
        percent_decoded(percent_encoded(text)) == Some(text),
{
    let bytes = encode_utf8(text);
    lemma_escaped_is_ascii(bytes);
    lemma_ascii_bytes_are_utf8(escape_bytes(bytes));
    lemma_unescape_escaped(bytes);
    encode_utf8_valid_utf8(text);
    encode_utf8_decode_utf8(text);
}

fn hex_digit_of(value: u8) -> (digit: u8)
    requires
        value < 16,
    ensures
        digit == hex_digit(value as int),
{
    if value < 10 {
        0x30 + value
    } else {
        0x41 + (value - 10)
    }
}

fn hex_value_of(digit: u8) -> (value: Option<u8>)
    ensures
        match value {
            Some(v) => hex_value(digit) == Some(v as int) && v < 16,
            None => hex_value(digit) is None,
        },
{
    if 0x30 <= digit && digit <= 0x39 {
        Some(digit - 0x30)
    } else if 0x41 <= digit && digit <= 0x46 {
        Some(digit - 0x41 + 10)
    } else if 0x61 <= digit && digit <= 0x66 {
        Some(digit - 0x61 + 10)
    } else {
        None
    }
}

fn unreserved(b: u8) -> (plain: bool)
    ensures
        plain == is_unreserved(b),
{
    (0x41 <= b && b <= 0x5A) || (0x61 <= b && b <= 0x7A) || (0x30 <= b && b <= 0x39) || b == 0x2D
        || b == 0x2E || b == 0x5F || b == 0x7E
}

/// Percent-encodes a text.
pub fn percent_encode(text: &str) -> (encoded: String)
    ensures
        encoded@ == percent_encoded(text@),
{
    let bytes = text.as_bytes();
    let n: usize = bytes.len();
    let mut out: Vec<u8> = Vec::new();
    let mut i: usize = 0;
    assert(bytes@.skip(0) =~= bytes@);
    while i < n
        invariant
            i <= n,
            n == bytes@.len(),
            escape_bytes(bytes@) == out@ + escape_bytes(bytes@.skip(i as int)),
        decreases n - i,
    {
        let b: u8 = bytes[i];
        let ghost before = out@;
        if unreserved(b) {
            out.push(b);
        } else {
            out.push(0x25);
            out.push(hex_digit_of(b / 16));
            out.push(hex_digit_of(b % 16));
        }
        proof {
            let tail = bytes@.skip(i as int);
            assert(tail.drop_first() =~= bytes@.skip(i + 1));
            assert(out@ =~= before + escape_byte(b));
            assert(before + (escape_byte(b) + escape_bytes(tail.drop_first())) =~= (before
                + escape_byte(b)) + escape_bytes(tail.drop_first()));
        }
        i = i + 1;
    }
    proof {
        assert(out@ =~= escape_bytes(bytes@));
        lemma_escaped_is_ascii(bytes@);
    }
    ascii_string(out)
}

/// The bytes that the escaped bytes from `from` on stand for, put behind
/// what was decoded before.
spec fn unescaped_behind(done: Seq<u8>, rest: Option<Seq<u8>>) -> Option<Seq<u8>> {
    match rest {
        Some(tail) => Some(done + tail),
        None => None,
    }
}

/// Decodes the escaped bytes from `from` up to `to`.
pub fn decode_component(bytes: &[u8], from: usize, to: usize) -> (decoded: Option<String>)
    requires
        from <= to <= bytes@.len(),
    ensures
        match decoded {
            Some(s) => component_text(bytes@.subrange(from as int, to as int)) == Some(s@),
            None => component_text(bytes@.subrange(from as int, to as int)) is None,
        },
{
    let ghost piece = bytes@.subrange(from as int, to as int);
    let mut out: Vec<u8> = Vec::new();
    let mut i: usize = from;
    assert(piece.skip(0) =~= piece);
    assert(Seq::<u8>::empty() + unescape_bytes(piece)->0 =~= unescape_bytes(piece)->0);
    while i < to
        invariant
            from <= i <= to <= bytes@.len(),
            piece == bytes@.subrange(from as int, to as int),
            unescape_bytes(piece) == unescaped_behind(out@, unescape_bytes(piece.skip(i - from))),
        decreases to - i,
    {
        let ghost tail = piece.skip(i - from);
        let ghost before = out@;
        let b: u8 = bytes[i];
        assert(tail[0] == b);
        if b != 0x25 {
            out.push(b);
            proof {
                assert(tail.skip(1) =~= piece.skip(i + 1 - from));
                let rest = unescape_bytes(tail.skip(1));
                if rest is Some {
                    assert(before + (seq![b] + rest->0) =~= out@ + rest->0);
                }
            }
            i = i + 1;
        } else {
            if to - i < 3 {
                assert(unescape_bytes(tail) is None);
                return None;
            }
            let high = hex_value_of(bytes[i + 1]);
            let low = hex_value_of(bytes[i + 2]);
            assert(tail[1] == bytes@[i + 1] && tail[2] == bytes@[i + 2]);
            match (high, low) {
                (Some(h), Some(l)) => {
                    out.push(h * 16 + l);
                    proof {
                        assert(tail.skip(3) =~= piece.skip(i + 3 - from));
                        let rest = unescape_bytes(tail.skip(3));
                        if rest is Some {
                            assert(before + (seq![(h * 16 + l) as u8] + rest->0) =~= out@
                                + rest->0);
                        }
                    }
                    i = i + 3;
                },
                _ => {
                    return None;
                },
            }
        }
    }
    proof {
        assert(piece.skip(to - from) =~= Seq::<u8>::empty());
        assert(out@ + Seq::<u8>::empty() =~= out@);
    }
    text_from_utf8(out)
}

/// Decodes a percent-encoded text.
pub fn percent_decode(text: &str) -> (decoded: Option<String>)
    ensures
        match decoded {
            Some(s) => percent_decoded(text@) == Some(s@),
            None => percent_decoded(text@) is None,
        },
{
    let bytes = text.as_bytes();
    assert(bytes@.subrange(0, bytes@.len() as int) =~= bytes@);
    decode_component(bytes, 0, bytes.len())
}

} // verus!
