//! Query strings: a list of pairs written as `key=value&`, and read back.

use vstd::prelude::*;
use vstd::string::*;
use vstd::utf8::*;

use crate::percent::{
    component_text, decode_component, escape_bytes, is_unreserved, lemma_escaped_is_ascii,
    lemma_unescape_escaped, percent_encoded, unescape_bytes,
};
use crate::text::{lemma_ascii_bytes_are_utf8, lemma_utf8_of_concat};

verus! {

/// The byte that parts one pair from the next.
pub const AMPERSAND: u8 = 0x26;

/// The byte that parts a key from its value.
pub const EQUALS: u8 = 0x3D;

/// The query text of a list of pairs: each pair as `key=value&`, in order.
pub open spec fn query_text(pairs: Seq<(Seq<char>, Seq<char>)>) -> Seq<char>
    decreases pairs.len(),
{
    if pairs.len() == 0 {
        Seq::empty()
    } else {
        pairs[0].0 + seq!['='] + pairs[0].1 + seq!['&'] + query_text(pairs.drop_first())
    }
}

/// The characters of each pair of string slices.
pub open spec fn pair_views(pairs: Seq<(&str, &str)>) -> Seq<(Seq<char>, Seq<char>)> {
    pairs.map_values(|p: (&str, &str)| (p.0@, p.1@))
}

/// The characters of each pair of strings.
pub open spec fn string_pairs(pairs: Seq<(String, String)>) -> Seq<(Seq<char>, Seq<char>)> {
    pairs.map_values(|p: (String, String)| (p.0@, p.1@))
}

/// `querystring::stringify`: for each pair in turn the key, `=`, the value
/// and `&`, with nothing encoded and nothing left out.
#[verifier::external_body]
pub(crate) fn stringify(pairs: Vec<(&str, &str)>) -> (text: String)
    ensures
        text@ == query_text(pair_views(pairs@)),
{
    querystring::stringify(pairs)
}

/// The pairs with every value percent-encoded.
pub open spec fn encoded_values(pairs: Seq<(Seq<char>, Seq<char>)>) -> Seq<
    (Seq<char>, Seq<char>),
> {
    pairs.map_values(|p: (Seq<char>, Seq<char>)| (p.0, percent_encoded(p.1)))
}

/// The place of the first `mark` among the bytes, or their number where
/// there is none.
pub open spec fn index_of_byte(bytes: Seq<u8>, mark: u8) -> int
    decreases bytes.len(),
{
    if bytes.len() == 0 || bytes[0] == mark {
        0
    } else {
        1 + index_of_byte(bytes.drop_first(), mark)
    }
}

/// What one piece between two `&` holds: no pair where it has no `=`; else
/// the key before the first `=` and the value behind it, both
/// percent-decoded. The outer `None` is for a piece that cannot be decoded.
pub open spec fn piece_pair(piece: Seq<u8>) -> Option<Option<(Seq<char>, Seq<char>)>> {
    let eq = index_of_byte(piece, EQUALS);
    if 0 <= eq < piece.len() {
        match (component_text(piece.take(eq)), component_text(piece.skip(eq + 1))) {
            (Some(key), Some(value)) => Some(Some((key, value))),
            _ => None,
        }
    } else {
        Some(None)
    }
}

/// The pairs that the bytes of a query text hold, piece by piece; none
/// where a piece cannot be decoded.
pub open spec fn parsed_bytes(bytes: Seq<u8>) -> Option<Seq<(Seq<char>, Seq<char>)>>
    decreases bytes.len(),
{
    if bytes.len() == 0 {
        Some(Seq::empty())
    } else {
        let end = index_of_byte(bytes, AMPERSAND);
        if 0 <= end < bytes.len() {
            pairs_behind(piece_pair(bytes.take(end)), parsed_bytes(bytes.skip(end + 1)))
        } else {
            pairs_behind(piece_pair(bytes), Some(Seq::empty()))
        }
    }
}

/// The pair of a piece put before the pairs of what follows it.
pub open spec fn pairs_behind(
    first: Option<Option<(Seq<char>, Seq<char>)>>,
    others: Option<Seq<(Seq<char>, Seq<char>)>>,
) -> Option<Seq<(Seq<char>, Seq<char>)>> {
    match (first, others) {
        (Some(Some(pair)), Some(list)) => Some(seq![pair] + list),
        (Some(None), Some(list)) => Some(list),
        _ => None,
    }
}

/// The pairs that a query text holds.
pub open spec fn parsed_query(text: Seq<char>) -> Option<Seq<(Seq<char>, Seq<char>)>> {
    parsed_bytes(encode_utf8(text))
}

/// Whether a text needs no encoding: it is made of letters, digits, `-`,
/// `.`, `_` and `~`.
pub open spec fn is_plain(text: Seq<char>) -> bool {
    forall|i: int|
        0 <= i < text.len() ==> '\0' <= #[trigger] text[i] <= '\u{7f}' && is_unreserved(
            text[i] as u8,
        )
}

/// Whether no byte is `mark`.
pub open spec fn free_of(bytes: Seq<u8>, mark: u8) -> bool {
    forall|i: int| 0 <= i < bytes.len() ==> bytes[i] != mark
}

/// The first `mark` is where the bytes before are free of it and either a
/// `mark` or the end follows.
pub proof fn lemma_index_of_byte(bytes: Seq<u8>, mark: u8, at: int)
    requires
        0 <= at <= bytes.len(),
        free_of(bytes.take(at), mark),
        at < bytes.len() ==> bytes[at] == mark,
    ensures
        index_of_byte(bytes, mark) == at,
    decreases bytes.len(),
{
    if bytes.len() == 0 || at == 0 {
    } else {
        assert(bytes.take(at)[0] == bytes[0]);
        let shorter = bytes.drop_first().take(at - 1);
        assert forall|i: int| 0 <= i < shorter.len() implies #[trigger] shorter[i] != mark by {
            assert(bytes.take(at)[i + 1] == shorter[i]);
        }
        lemma_index_of_byte(bytes.drop_first(), mark, at - 1);
    }
}

fn find_byte(bytes: &[u8], from: usize, to: usize, mark: u8) -> (at: usize)
    requires
        from <= to <= bytes@.len(),
    ensures
        from <= at <= to,
        at - from == index_of_byte(bytes@.subrange(from as int, to as int), mark),
{
    let mut i: usize = from;
    while i < to && bytes[i] != mark
        invariant
            from <= i <= to <= bytes@.len(),
            forall|k: int| from <= k < i ==> bytes@[k] != mark,
        decreases to - i,
    {
        i = i + 1;
    }
    proof {
        let range = bytes@.subrange(from as int, to as int);
        let head = range.take(i - from);
        assert forall|k: int| 0 <= k < head.len() implies #[trigger] head[k] != mark by {
            assert(head[k] == bytes@[from + k]);
        }
        lemma_index_of_byte(range, mark, i - from);
    }
    i
}

/// Reads the pairs of a query text. The text is cut at each `&`; a piece
/// without `=` is passed over; in any other piece the key stands before the
/// first `=` and the value behind it, both percent-encoded. Nothing comes
/// back where a key or a value cannot be decoded.
pub fn parse_query(text: &str) -> (pairs: Option<Vec<(String, String)>>)
    ensures
        match pairs {
            Some(list) => parsed_query(text@) == Some(string_pairs(list@)),
            None => parsed_query(text@) is None,
        },
{
    let bytes = text.as_bytes();
    let n: usize = bytes.len();
    let mut list: Vec<(String, String)> = Vec::new();
    let mut start: usize = 0;
    assert(bytes@.skip(0) =~= bytes@);
    assert(string_pairs(list@) =~= Seq::empty());
    assert(Seq::<(Seq<char>, Seq<char>)>::empty() + parsed_bytes(bytes@)->0 =~= parsed_bytes(
        bytes@,
    )->0);
    while start < n
        invariant
            start <= n,
            n == bytes@.len(),
            bytes@ == encode_utf8(text@),
            parsed_bytes(bytes@) == match parsed_bytes(bytes@.skip(start as int)) {
                Some(others) => Some(string_pairs(list@) + others),
                None => None,
            },
        decreases n - start,
    {
        let ghost tail = bytes@.skip(start as int);
        let ghost before = string_pairs(list@);
        let end = find_byte(bytes, start, n, AMPERSAND);
        let eq = find_byte(bytes, start, end, EQUALS);
        proof {
            assert(bytes@.subrange(start as int, n as int) =~= tail);
            let piece = if end < n {
                tail.take(end - start)
            } else {
                tail
            };
            assert(bytes@.subrange(start as int, end as int) =~= piece);
            assert(bytes@.subrange(start as int, eq as int) =~= piece.take(eq - start));
            if eq < end {
                assert(bytes@.subrange(eq + 1, end as int) =~= piece.skip(eq - start + 1));
            }
            if end < n {
                assert(tail.skip(end - start + 1) =~= bytes@.skip(end + 1));
            } else {
                assert(bytes@.skip(n as int) =~= Seq::<u8>::empty());
            }
        }
        if eq < end {
            let key = decode_component(bytes, start, eq);
            let value = decode_component(bytes, eq + 1, end);
            match (key, value) {
                (Some(k), Some(v)) => {
                    list.push((k, v));
                    proof {
                        assert(string_pairs(list@) =~= before + seq![(k@, v@)]);
                        let next: int = if end < n {
                            end + 1
                        } else {
                            n as int
                        };
                        let others = parsed_bytes(bytes@.skip(next));
                        if others is Some {
                            assert(before + (seq![(k@, v@)] + others->0) =~= (before + seq![
                                (k@, v@),
                            ]) + others->0);
                        }
                    }
                },
                _ => {
                    return None;
                },
            }
        }
        start = if end < n {
            end + 1
        } else {
            n
        };
    }
    proof {
        assert(bytes@.skip(n as int) =~= Seq::<u8>::empty());
        assert(string_pairs(list@) + Seq::<(Seq<char>, Seq<char>)>::empty() =~= string_pairs(
            list@,
        ));
    }
    Some(list)
}

/// Escaped bytes hold neither `&` nor `=`.
pub proof fn lemma_escaped_has_no_separator(bytes: Seq<u8>)
    ensures
        free_of(escape_bytes(bytes), AMPERSAND),
        free_of(escape_bytes(bytes), EQUALS),
    decreases bytes.len(),
{
    if bytes.len() > 0 {
        lemma_escaped_has_no_separator(bytes.drop_first());
    }
}

/// Bytes without `%` stand for themselves.
pub proof fn lemma_unescape_without_percent(bytes: Seq<u8>)
    requires
        free_of(bytes, 0x25),
    ensures
        unescape_bytes(bytes) == Some(bytes),
    decreases bytes.len(),
{
    if bytes.len() > 0 {
        assert(bytes[0] != 0x25);
        let shorter = bytes.skip(1);
        assert forall|i: int| 0 <= i < shorter.len() implies #[trigger] shorter[i] != 0x25 by {
            assert(shorter[i] == bytes[i + 1]);
        }
        lemma_unescape_without_percent(bytes.skip(1));
        assert(seq![bytes[0]] + bytes.skip(1) =~= bytes);
    }
}

/// A plain text is its own encoded form, and holds neither `&` nor `=`.
pub proof fn lemma_plain_text(text: Seq<char>)
    requires
        is_plain(text),
    ensures
        free_of(encode_utf8(text), AMPERSAND),
        free_of(encode_utf8(text), EQUALS),
        component_text(encode_utf8(text)) == Some(text),
{
    let bytes = encode_utf8(text);
    assert(is_ascii_chars(text));
    is_ascii_chars_encode_utf8(text);
    assert forall|i: int| 0 <= i < bytes.len() implies is_unreserved(#[trigger] bytes[i]) by {
        assert(text[i] as u8 == bytes[i]);
    }
    assert(free_of(bytes, 0x25));
    lemma_unescape_without_percent(bytes);
    encode_utf8_valid_utf8(text);
    encode_utf8_decode_utf8(text);
}

/// The bytes of one pair written as `key=value&`, followed by more bytes,
/// are read as that pair followed by what the further bytes hold.
proof fn lemma_parse_first_pair(
    key: Seq<u8>,
    value: Seq<u8>,
    rest: Seq<u8>,
)
    requires
        free_of(key, AMPERSAND),
        free_of(key, EQUALS),
        free_of(value, AMPERSAND),
    ensures
        parsed_bytes(key + seq![EQUALS] + value + seq![AMPERSAND] + rest) == pairs_behind(
            match (component_text(key), component_text(value)) {
                (Some(k), Some(v)) => Some(Some((k, v))),
                _ => None,
            },
            parsed_bytes(rest),
        ),
{
    let piece = key + seq![EQUALS] + value;
    let bytes = piece + seq![AMPERSAND] + rest;
    let end = piece.len() as int;
    assert(bytes.take(end) =~= piece);
    assert(bytes[end] == AMPERSAND);
    assert forall|i: int| 0 <= i < piece.len() implies piece[i] != AMPERSAND by {
        if i < key.len() {
            assert(piece[i] == key[i]);
        } else if i > key.len() {
            assert(piece[i] == value[i - key.len() - 1]);
        }
    }
    lemma_index_of_byte(bytes, AMPERSAND, end);
    assert(bytes.skip(end + 1) =~= rest);
    let eq = key.len() as int;
    assert(piece.take(eq) =~= key);
    assert(piece[eq] == EQUALS);
    lemma_index_of_byte(piece, EQUALS, eq);
    assert(piece.skip(eq + 1) =~= value);
}

/// Reading undoes writing: a list of pairs with plain keys, written with
/// its values percent-encoded, is read back as it was.
pub proof fn lemma_query_round_trip(pairs: Seq<(Seq<char>, Seq<char>)>)
    requires
        forall|i: int| 0 <= i < pairs.len() ==> is_plain(#[trigger] pairs[i].0),
    ensures
        parsed_query(query_text(encoded_values(pairs))) == Some(pairs),
    decreases pairs.len(),
{
    let written = encoded_values(pairs);
    if pairs.len() == 0 {
        assert(query_text(written) =~= Seq::<char>::empty());
        assert(encode_utf8(Seq::<char>::empty()) =~= Seq::<u8>::empty());
        assert(pairs =~= Seq::empty());
    } else {
        let key = pairs[0].0;
        let value = pairs[0].1;
        let others = pairs.drop_first();
        assert(written.drop_first() =~= encoded_values(others));
        assert(is_plain(key));
        assert forall|i: int| 0 <= i < others.len() implies is_plain(#[trigger] others[i].0) by {
            assert(others[i] == pairs[i + 1]);
        }
        lemma_query_round_trip(others);

        let tail_text = query_text(encoded_values(others));
        let key_bytes = encode_utf8(key);
        let value_bytes = escape_bytes(encode_utf8(value));
        let tail_bytes = encode_utf8(tail_text);
        assert(encode_utf8(seq!['=']) =~= seq![EQUALS]) by {
            assert(is_ascii_chars(seq!['=']));
            is_ascii_chars_encode_utf8(seq!['=']);
            assert(seq!['='][0] as u8 == encode_utf8(seq!['='])[0]);
        }
        assert(encode_utf8(seq!['&']) =~= seq![AMPERSAND]) by {
            assert(is_ascii_chars(seq!['&']));
            is_ascii_chars_encode_utf8(seq!['&']);
            assert(seq!['&'][0] as u8 == encode_utf8(seq!['&'])[0]);
        }
        assert(encode_utf8(percent_encoded(value)) == value_bytes) by {
            lemma_escaped_is_ascii(encode_utf8(value));
            lemma_ascii_bytes_are_utf8(value_bytes);
        }
        assert(encode_utf8(query_text(written)) == key_bytes + seq![EQUALS] + value_bytes + seq![
            AMPERSAND,
        ] + tail_bytes) by {
            let encoded_value = percent_encoded(value);
            assert(written[0] == (key, encoded_value));
            lemma_utf8_of_concat(key + seq!['='] + encoded_value + seq!['&'], tail_text);
            lemma_utf8_of_concat(key + seq!['='] + encoded_value, seq!['&']);
            lemma_utf8_of_concat(key + seq!['='], encoded_value);
            lemma_utf8_of_concat(key, seq!['=']);
        }
        lemma_plain_text(key);
        lemma_escaped_has_no_separator(encode_utf8(value));
        lemma_parse_first_pair(key_bytes, value_bytes, tail_bytes);
        assert(component_text(value_bytes) == Some(value)) by {
            lemma_unescape_escaped(encode_utf8(value));
            encode_utf8_valid_utf8(value);
            encode_utf8_decode_utf8(value);
        }
        assert(seq![(key, value)] + others =~= pairs);
    }
}

} // verus!
