//! The two encodings that a request URL needs: percent-encoding of a path
//! segment, and the `application/x-www-form-urlencoded` form of a query.
//! Both are stated here in full, over the UTF-8 bytes of the text; the
//! encoders themselves are those of `urlencoding` and `serde_urlencoded`.

use vstd::prelude::*;
use vstd::string::*;
use vstd::utf8::*;
use crate::text::{decimal_string, decimal_text};

verus! {

/// Whether `b` is an ASCII letter or digit.
pub open spec fn is_alphanumeric(b: u8) -> bool {
    (48 <= b && b <= 57) || (65 <= b && b <= 90) || (97 <= b && b <= 122)
}

/// Whether `b` stays as it is in a path segment: a letter, a digit, or one
/// of `-`, `.`, `_`, `~`.
pub open spec fn is_unreserved(b: u8) -> bool {
    is_alphanumeric(b) || b == 45 || b == 46 || b == 95 || b == 126
}

/// Whether `b` stays as it is in a query: a letter, a digit, or one of `*`,
/// `-`, `.`, `_`.
pub open spec fn is_form_safe(b: u8) -> bool {
    is_alphanumeric(b) || b == 42 || b == 45 || b == 46 || b == 95
}

/// The upper-case hexadecimal digit for `n`.
pub open spec fn hex_digit(n: nat) -> char
    recommends
        n < 16,
{
    if n < 10 {
        ((48 + n) as u8) as char
    } else {
        ((55 + n) as u8) as char
    }
}

/// The number that the hexadecimal digit `c` stands for, in either case.
pub open spec fn hex_value(c: char) -> Option<nat> {
    if '0' <= c && c <= '9' {
        Some((c as nat - 48) as nat)
    } else if 'A' <= c && c <= 'F' {
        Some((c as nat - 55) as nat)
    } else if 'a' <= c && c <= 'f' {
        Some((c as nat - 87) as nat)
    } else {
        None
    }
}

/// `%` and the two hexadecimal digits of `b`.
pub open spec fn escaped(b: u8) -> Seq<char> {
    seq!['%', hex_digit((b / 16) as nat), hex_digit((b % 16) as nat)]
}

/// One byte of a path segment, percent-encoded.
pub open spec fn percent_encode_byte(b: u8) -> Seq<char> {
    if is_unreserved(b) {
        seq![b as char]
    } else {
        escaped(b)
    }
}

/// `bytes`, percent-encoded byte by byte.
pub open spec fn percent_encode(bytes: Seq<u8>) -> Seq<char>
    decreases bytes.len(),
{
    if bytes.len() == 0 {
        Seq::empty()
    } else {
        percent_encode_byte(bytes[0]) + percent_encode(bytes.skip(1))
    }
}

/// The text `id` as one path segment: its UTF-8 bytes, percent-encoded.
pub open spec fn path_segment(id: Seq<char>) -> Seq<char> {
    percent_encode(encode_utf8(id))
}

/// The bytes that percent-encoded text stands for: `%` with two
/// hexadecimal digits is one byte, every other character is itself.
pub open spec fn percent_decode(text: Seq<char>) -> Seq<u8>
    decreases text.len(),
{
    if text.len() == 0 {
        Seq::empty()
    } else if text[0] == '%' && text.len() >= 3 && hex_value(text[1]) is Some && hex_value(
        text[2],
    ) is Some {
        seq![(hex_value(text[1])->0 * 16 + hex_value(text[2])->0) as u8] + percent_decode(
            text.skip(3),
        )
    } else {
        seq![text[0] as u8] + percent_decode(text.skip(1))
    }
}

/// Whether `c` may stand in a percent-encoded path segment: `%`, or an
/// unreserved ASCII character.
pub open spec fn is_segment_char(c: char) -> bool {
    c == '%' || (c <= '\u{7f}' && is_unreserved(c as u8))
}

/// One byte of a query name or value in form encoding: a space becomes `+`.
pub open spec fn form_encode_byte(b: u8) -> Seq<char> {
    if is_form_safe(b) {
        seq![b as char]
    } else if b == 32 {
        seq!['+']
    } else {
        escaped(b)
    }
}

/// `bytes` in form encoding, byte by byte.
pub open spec fn form_encode(bytes: Seq<u8>) -> Seq<char>
    decreases bytes.len(),
{
    if bytes.len() == 0 {
        Seq::empty()
    } else {
        form_encode_byte(bytes[0]) + form_encode(bytes.skip(1))
    }
}

/// One `name=value` of a query.
pub open spec fn form_encode_pair(pair: (Seq<char>, Seq<char>)) -> Seq<char> {
    form_encode(encode_utf8(pair.0)) + seq!['='] + form_encode(encode_utf8(pair.1))
}

/// A query: the pairs in their order, with `&` between them.
pub open spec fn form_encode_pairs(pairs: Seq<(Seq<char>, Seq<char>)>) -> Seq<char>
    decreases pairs.len(),
{
    if pairs.len() == 0 {
        Seq::empty()
    } else if pairs.len() == 1 {
        form_encode_pair(pairs[0])
    } else {
        form_encode_pairs(pairs.drop_last()) + seq!['&'] + form_encode_pair(pairs.last())
    }
}

/// The names and values of `pairs` as character sequences.
pub open spec fn pairs_text(pairs: Seq<(String, String)>) -> Seq<(Seq<char>, Seq<char>)> {
    pairs.map_values(|pair: (String, String)| (pair.0@, pair.1@))
}

/// `urlencoding::encode`: every byte of the UTF-8 form of `text` but ASCII
/// letters, digits and `-`, `.`, `_`, `~` is replaced by `%` and its two
/// upper-case hexadecimal digits.
#[verifier::external_body]
pub(crate) fn encode_segment(text: &str) -> (r: String)
    ensures
        r@ == path_segment(text@),
{
    urlencoding::encode(text).into_owned()
}

/// `serde_urlencoded::to_string` on a list of name and value texts: the
/// pairs as `name=value`, joined by `&`, names and values in form encoding.
/// On such a list the serializer has nothing to refuse.
#[verifier::external_body]
pub(crate) fn encode_query(pairs: &Vec<(String, String)>) -> (r: Result<String, String>)
    ensures
        match r {
            Ok(query) => query@ == form_encode_pairs(pairs_text(pairs@)),
            Err(_) => false,
        },
{
    serde_urlencoded::to_string(pairs).map_err(|e| e.to_string())
}

/// How a query writes a flag: `true` or `false`.
pub open spec fn flag_text(flag: bool) -> Seq<char> {
    if flag {
        "true"@
    } else {
        "false"@
    }
}

/// The pair that a text field adds to a query: none where it is not set.
pub open spec fn text_pair(name: Seq<char>, value: Option<String>) -> Seq<(Seq<char>, Seq<char>)> {
    match value {
        Some(text) => seq![(name, text@)],
        None => Seq::empty(),
    }
}

/// The pair that a number field adds to a query: none where it is not set,
/// and else the number in decimal notation.
pub open spec fn number_pair(name: Seq<char>, value: Option<u32>) -> Seq<(Seq<char>, Seq<char>)> {
    match value {
        Some(number) => seq![(name, decimal_text(number as nat))],
        None => Seq::empty(),
    }
}

/// The pair that a flag field adds to a query: none where it is not set.
pub open spec fn flag_pair(name: Seq<char>, value: Option<bool>) -> Seq<(Seq<char>, Seq<char>)> {
    match value {
        Some(flag) => seq![(name, flag_text(flag))],
        None => Seq::empty(),
    }
}

/// Appends the pair of a text field, if the field is set.
pub fn push_text_pair(pairs: &mut Vec<(String, String)>, name: &str, value: &Option<String>)
    ensures
        pairs_text(final(pairs)@) == pairs_text(old(pairs)@) + text_pair(name@, *value),
{
    match value {
        Some(text) => {
            pairs.push((String::from_str(name), text.clone()));
        },
        None => {},
    }
    assert(pairs_text(pairs@) =~= pairs_text(old(pairs)@) + text_pair(name@, *value));
}

/// Appends the pair of a number field, if the field is set.
pub fn push_number_pair(pairs: &mut Vec<(String, String)>, name: &str, value: &Option<u32>)
    ensures
        pairs_text(final(pairs)@) == pairs_text(old(pairs)@) + number_pair(name@, *value),
{
    match value {
        Some(number) => {
            pairs.push((String::from_str(name), decimal_string(*number as u64)));
        },
        None => {},
    }
    assert(pairs_text(pairs@) =~= pairs_text(old(pairs)@) + number_pair(name@, *value));
}

/// Appends the pair of a flag field, if the field is set.
pub fn push_flag_pair(pairs: &mut Vec<(String, String)>, name: &str, value: &Option<bool>)
    ensures
        pairs_text(final(pairs)@) == pairs_text(old(pairs)@) + flag_pair(name@, *value),
{
    match value {
        Some(flag) => {
            let text = if *flag {
                String::from_str("true")
            } else {
                String::from_str("false")
            };
            pairs.push((String::from_str(name), text));
        },
        None => {},
    }
    assert(pairs_text(pairs@) =~= pairs_text(old(pairs)@) + flag_pair(name@, *value));
}

/// A hexadecimal digit stands for the number it was written for.
proof fn lemma_hex_digit_value(n: nat)
    requires
        n < 16,
    ensures
        hex_value(hex_digit(n)) == Some(n),
        is_segment_char(hex_digit(n)),
{
}

/// Decoding takes one encoded byte off the front.
proof fn lemma_decode_encoded_byte(b: u8, rest: Seq<char>)
    ensures
        percent_decode(percent_encode_byte(b) + rest) == seq![b] + percent_decode(rest),
{
    let text = percent_encode_byte(b) + rest;
    if is_unreserved(b) {
        assert(text[0] == b as char);
        assert(text.skip(1) =~= rest);
    } else {
        lemma_hex_digit_value((b / 16) as nat);
        lemma_hex_digit_value((b % 16) as nat);
        assert(text[0] == '%');
        assert(text[1] == hex_digit((b / 16) as nat));
        assert(text[2] == hex_digit((b % 16) as nat));
        assert(text.skip(3) =~= rest);
    }
}

/// Decoding what percent-encoding wrote gives back the bytes, whatever they
/// are.
pub proof fn lemma_percent_decode_inverts_encode(bytes: Seq<u8>)
    ensures
        percent_decode(percent_encode(bytes)) == bytes,
    decreases bytes.len(),
{
    if bytes.len() > 0 {
        lemma_percent_decode_inverts_encode(bytes.skip(1));
        lemma_decode_encoded_byte(bytes[0], percent_encode(bytes.skip(1)));
        assert(seq![bytes[0]] + bytes.skip(1) =~= bytes);
    } else {
        assert(percent_decode(percent_encode(bytes)) =~= bytes);
    }
}

/// An identifier survives its way through a path: the segment that stands
/// for it decodes to the identifier itself.
pub proof fn lemma_path_segment_round_trip(id: Seq<char>)
    ensures
        decode_utf8(percent_decode(path_segment(id))) == id,
{
    lemma_percent_decode_inverts_encode(encode_utf8(id));
    encode_utf8_decode_utf8(id);
}

/// A path segment holds nothing but `%` and unreserved characters: no `/`,
/// `?` or `#` that would end the segment.
pub proof fn lemma_path_segment_is_one_segment(id: Seq<char>, i: int)
    requires
        0 <= i < path_segment(id).len(),
    ensures
        is_segment_char(path_segment(id)[i]),
        path_segment(id)[i] != '/',
        path_segment(id)[i] != '?',
        path_segment(id)[i] != '#',
{
    lemma_encoded_chars(encode_utf8(id), i);
}

/// Percent-encoded text holds nothing but `%` and unreserved characters.
proof fn lemma_encoded_chars(bytes: Seq<u8>, i: int)
    requires
        0 <= i < percent_encode(bytes).len(),
    ensures
        is_segment_char(percent_encode(bytes)[i]),
    decreases bytes.len(),
{
    let first = percent_encode_byte(bytes[0]);
    if i < first.len() {
        if !is_unreserved(bytes[0]) {
            lemma_hex_digit_value((bytes[0] / 16) as nat);
            lemma_hex_digit_value((bytes[0] % 16) as nat);
        }
    } else {
        lemma_encoded_chars(bytes.skip(1), i - first.len());
    }
}

} // verus!
