//! Percent-encoding of values for the line-oriented `get-all` output, stated
//! over the UTF-8 bytes of the text.

use vstd::prelude::*;
use vstd::utf8::{decode_utf8, encode_utf8, valid_utf8, is_ascii_chars, is_ascii_chars_encode_utf8,
    encode_utf8_valid_utf8, encode_utf8_decode_utf8};

verus! {

/// A byte that percent-encoding leaves as it is: an ASCII alphanumeric or one
/// of `-`, `.`, `_`, `~`.
pub open spec fn is_unreserved(b: u8) -> bool {
    (0x30 <= b <= 0x39) || (0x41 <= b <= 0x5a) || (0x61 <= b <= 0x7a) || b == 0x2d || b == 0x2e
        || b == 0x5f || b == 0x7e
}

/// The upper-case hexadecimal digit of `d < 16`.
pub open spec fn hex_digit(d: u8) -> u8 {
    if d < 10 {
        (0x30 + d) as u8
    } else {
        (0x41 - 10 + d) as u8
    }
}

/// The value of a hexadecimal digit of either case.
pub open spec fn hex_value(c: u8) -> Option<u8> {
    if 0x30 <= c <= 0x39 {
        Some((c - 0x30) as u8)
    } else if 0x41 <= c <= 0x46 {
        Some((c - 0x41 + 10) as u8)
    } else if 0x61 <= c <= 0x66 {
        Some((c - 0x61 + 10) as u8)
    } else {
        None
    }
}

/// One byte, encoded.
pub open spec fn percent_encode_byte(b: u8) -> Seq<u8> {
    if is_unreserved(b) {
        seq![b]
    } else {
        seq![0x25u8, hex_digit(b / 16), hex_digit(b % 16)]
    }
}

/// Percent-encoding of a byte string.
pub open spec fn percent_encode(bytes: Seq<u8>) -> Seq<u8>
    decreases bytes.len(),
{
    if bytes.len() == 0 {
        Seq::empty()
    } else {
        percent_encode_byte(bytes[0]) + percent_encode(bytes.drop_first())
    }
}

/// Percent-decoding of a byte string: each `%` followed by two hexadecimal
/// digits becomes the byte they spell; every other byte stays.
pub open spec fn percent_decode(bytes: Seq<u8>) -> Seq<u8>
    decreases bytes.len(),
{
    if bytes.len() == 0 {
        Seq::empty()
    } else if bytes[0] == 0x25 && bytes.len() >= 3 && hex_value(bytes[1]) is Some && hex_value(
        bytes[2],
    ) is Some {
        seq![(hex_value(bytes[1])->0 * 16 + hex_value(bytes[2])->0) as u8] + percent_decode(
            bytes.subrange(3, bytes.len() as int),
        )
    } else {
        seq![bytes[0]] + percent_decode(bytes.drop_first())
    }
}

/// Bytes below 128 read as characters.
pub open spec fn ascii_text(bytes: Seq<u8>) -> Seq<char> {
    bytes.map_values(|b: u8| b as char)
}

/// The encoded form of the text `s`.
pub open spec fn url_encoded(s: Seq<char>) -> Seq<char> {
    ascii_text(percent_encode(encode_utf8(s)))
}

/// The text that `s` decodes to; `None` where the decoded bytes are not UTF-8.
pub open spec fn url_decoded(s: Seq<char>) -> Option<Seq<char>> {
    let bytes = percent_decode(encode_utf8(s));
    if valid_utf8(bytes) {
        Some(decode_utf8(bytes))
    } else {
        None
    }
}

/// Relies on urlencoding::encode: it percent-encodes every byte of the UTF-8
/// text but the ASCII alphanumerics and `-`, `_`, `.`, `~`, with upper-case
/// hexadecimal digits.
#[verifier::external_body]
fn url_encode(value: &str) -> (r: String)
    ensures
        r@ == url_encoded(value@),
{
    urlencoding::encode(value).into_owned()
}

/// Relies on urlencoding::decode: it replaces each `%` that two hexadecimal
/// digits follow by the byte they spell, and fails where the bytes that result
/// are not UTF-8.
#[verifier::external_body]
fn url_decode(encoded: &str) -> (r: Option<String>)
    ensures
        r.is_some() == url_decoded(encoded@).is_some(),
        r.is_some() ==> r->0@ == url_decoded(encoded@)->0,
{
    match urlencoding::decode(encoded) {
        Ok(s) => Some(s.into_owned()),
        Err(_) => None,
    }
}

/// Encodes a value into a single line of ASCII alphanumerics, `-`, `.`, `_`,
/// `~` and `%`.
pub fn encode_value(value: &str) -> (r: String)
    ensures
        r@ == url_encoded(value@),
{
    url_encode(value)
}

/// Decodes an encoded value; `None` where the decoded bytes are not UTF-8.
pub fn decode_value(encoded: &str) -> (r: Option<String>)
    ensures
        r.is_some() == url_decoded(encoded@).is_some(),
        r.is_some() ==> r->0@ == url_decoded(encoded@)->0,
{
    url_decode(encoded)
}

proof fn lemma_hex_round_trip(d: u8)
    requires
        d < 16,
    ensures
        hex_value(hex_digit(d)) == Some(d),
        hex_digit(d) < 128,
{
}

proof fn lemma_encode_byte(b: u8)
    ensures
        forall|i: int| 0 <= i < percent_encode_byte(b).len() ==> is_unreserved(
            #[trigger] percent_encode_byte(b)[i],
        ) || percent_encode_byte(b)[i] == 0x25,
        !is_unreserved(b) ==> hex_value(percent_encode_byte(b)[1]) == Some(b / 16) && hex_value(
            percent_encode_byte(b)[2],
        ) == Some(b % 16),
{
    lemma_hex_round_trip(b / 16);
    lemma_hex_round_trip(b % 16);
}

proof fn lemma_encoded_bytes(bytes: Seq<u8>)
    ensures
        forall|i: int| 0 <= i < percent_encode(bytes).len() ==> is_unreserved(
            #[trigger] percent_encode(bytes)[i],
        ) || percent_encode(bytes)[i] == 0x25,
    decreases bytes.len(),
{
    if bytes.len() > 0 {
        lemma_encode_byte(bytes[0]);
        lemma_encoded_bytes(bytes.drop_first());
        let a = percent_encode_byte(bytes[0]);
        let r = percent_encode(bytes.drop_first());
        assert forall|i: int| 0 <= i < percent_encode(bytes).len() implies is_unreserved(
            #[trigger] percent_encode(bytes)[i],
        ) || percent_encode(bytes)[i] == 0x25 by {
            if i < a.len() {
                assert(percent_encode(bytes)[i] == a[i]);
            } else {
                assert(percent_encode(bytes)[i] == r[i - a.len()]);
            }
        }
    }
}

proof fn lemma_decode_encode(bytes: Seq<u8>)
    ensures
        percent_decode(percent_encode(bytes)) == bytes,
    decreases bytes.len(),
{
    if bytes.len() > 0 {
        let b = bytes[0];
        let rest = bytes.drop_first();
        let blk = percent_encode_byte(b);
        let enc = percent_encode(bytes);
        lemma_decode_encode(rest);
        lemma_encode_byte(b);
        assert(enc == blk + percent_encode(rest));
        if is_unreserved(b) {
            assert(enc[0] == b);
            assert(enc.drop_first() =~= percent_encode(rest));
            assert(percent_decode(enc) =~= seq![b] + rest);
        } else {
            assert(enc[0] == 0x25 && enc[1] == blk[1] && enc[2] == blk[2]);
            assert(enc.subrange(3, enc.len() as int) =~= percent_encode(rest));
            assert((b / 16 * 16 + b % 16) as u8 == b);
            assert(percent_decode(enc) =~= seq![b] + rest);
        }
        assert(bytes =~= seq![b] + rest);
    }
}

/// An encoded value is one line that a shell splits nowhere: it holds no `=`,
/// space, tab, newline or carriage return.
pub proof fn lemma_encoded_line_safe(value: Seq<char>)
    ensures
        forall|i: int| 0 <= i < url_encoded(value).len() ==> {
            let c = #[trigger] url_encoded(value)[i];
            c != '=' && c != ' ' && c != '\t' && c != '\n' && c != '\r'
        },
{
    lemma_encoded_bytes(encode_utf8(value));
}

/// Decoding undoes encoding: every text, empty, multi-line, holding `=`, `%`
/// or non-ASCII characters, comes back exactly.
pub proof fn lemma_round_trip(value: Seq<char>)
    ensures
        url_decoded(url_encoded(value)) == Some(value),
{
    let bytes = encode_utf8(value);
    let enc = percent_encode(bytes);
    let text = url_encoded(value);
    lemma_encoded_bytes(bytes);
    assert(is_ascii_chars(text));
    is_ascii_chars_encode_utf8(text);
    assert(encode_utf8(text) =~= enc);
    lemma_decode_encode(bytes);
    encode_utf8_valid_utf8(value);
    encode_utf8_decode_utf8(value);
}

} // verus!
