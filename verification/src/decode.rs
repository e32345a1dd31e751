//! Percent-decoding of request paths.

use percent_encoding::percent_decode_str;
use vstd::prelude::*;
use vstd::string::*;
use vstd::utf8::*;

verus! {

/// Whether `b` is an ASCII hexadecimal digit, in either case.
pub open spec fn is_hex_digit(b: u8) -> bool {
    ||| 0x30 <= b <= 0x39
    ||| 0x41 <= b <= 0x46
    ||| 0x61 <= b <= 0x66
}

/// The number that the hexadecimal digit `b` stands for.
pub open spec fn hex_value(b: u8) -> int
    recommends
        is_hex_digit(b),
{
    if b <= 0x39 {
        b - 0x30
    } else if b <= 0x46 {
        b - 0x41 + 10
    } else {
        b - 0x61 + 10
    }
}

/// Whether `bytes` begins with an escape: a percent sign and two hexadecimal
/// digits.
pub open spec fn starts_with_escape(bytes: Seq<u8>) -> bool {
    &&& bytes.len() >= 3
    &&& bytes[0] == 0x25
    &&& is_hex_digit(bytes[1])
    &&& is_hex_digit(bytes[2])
}

/// The bytes that `bytes` stands for once every escape is replaced by the
/// byte it names. A percent sign that begins no escape stands for itself.
pub open spec fn percent_decoded(bytes: Seq<u8>) -> Seq<u8>
    decreases bytes.len(),
{
    if bytes.len() == 0 {
        seq![]
    } else if starts_with_escape(bytes) {
        seq![(hex_value(bytes[1]) * 16 + hex_value(bytes[2])) as u8] + percent_decoded(
            bytes.skip(3),
        )
    } else {
        seq![bytes[0]] + percent_decoded(bytes.skip(1))
    }
}

/// The text that `text` stands for: its UTF-8 bytes percent-decoded and read
/// as UTF-8 again, or nothing where the decoded bytes are not UTF-8.
pub open spec fn percent_decoded_text(text: Seq<char>) -> Option<Seq<char>> {
    let bytes = percent_decoded(encode_utf8(text));
    if valid_utf8(bytes) {
        Some(decode_utf8(bytes))
    } else {
        None
    }
}

/// The request path without its one leading slash, if it has one.
pub open spec fn without_leading_slash(raw: Seq<char>) -> Seq<char> {
    if raw.len() > 0 && raw[0] == '/' {
        raw.drop_first()
    } else {
        raw
    }
}

/// The decoded form of a raw request path: the leading slash is dropped, the
/// rest is percent-decoded, and a path that does not decode to UTF-8 counts
/// as empty.
pub open spec fn decoded_path(raw: Seq<char>) -> Seq<char> {
    match percent_decoded_text(without_leading_slash(raw)) {
        Some(path) => path,
        None => Seq::empty(),
    }
}

/// No byte of a scalar's UTF-8 encoding is a percent sign, unless the scalar
/// is the percent sign.
proof fn lemma_scalar_encoding_has_no_percent(scalar: u32)
    by (bit_vector)
    requires
        scalar != 0x25,
    ensures
        scalar <= 0x7f ==> leading_byte_width_1(scalar) != 0x25,
        leading_byte_width_2(scalar) != 0x25,
        leading_byte_width_3(scalar) != 0x25,
        leading_byte_width_4(scalar) != 0x25,
        last_continuation_byte(scalar) != 0x25,
        second_last_continuation_byte(scalar) != 0x25,
        third_last_continuation_byte(scalar) != 0x25,
{
}

/// Text without a percent sign has no percent sign among its UTF-8 bytes.
pub proof fn lemma_encoding_has_no_percent(text: Seq<char>)
    requires
        !text.contains('%'),
    ensures
        !encode_utf8(text).contains(0x25),
    decreases text.len(),
{
    if text.len() > 0 {
        let rest = text.drop_first();
        assert(text[0] != '%');
        assert forall|i: int| 0 <= i < rest.len() implies rest[i] != '%' by {
            assert(rest[i] == text[i + 1]);
        }
        lemma_encoding_has_no_percent(rest);
        let scalar = text[0] as u32;
        char_is_scalar(text[0]);
        assert(scalar != 0x25) by {
            if scalar == 0x25 {
                char_u32_cast(text[0], scalar);
                char_u32_cast('%', scalar);
            }
        }
        let first = encode_scalar(scalar);
        let bytes = encode_utf8(text);
        lemma_scalar_encoding_has_no_percent(scalar);
        assert forall|i: int| 0 <= i < bytes.len() implies bytes[i] != 0x25 by {
            if i >= first.len() {
                assert(bytes[i] == encode_utf8(rest)[i - first.len()]);
            }
        }
    }
}

/// Bytes without a percent sign stand for themselves.
pub proof fn lemma_decoding_keeps_plain_bytes(bytes: Seq<u8>)
    requires
        !bytes.contains(0x25),
    ensures
        percent_decoded(bytes) == bytes,
    decreases bytes.len(),
{
    if bytes.len() > 0 {
        let rest = bytes.skip(1);
        assert(bytes[0] != 0x25);
        assert forall|i: int| 0 <= i < rest.len() implies rest[i] != 0x25 by {
            assert(rest[i] == bytes[i + 1]);
        }
        lemma_decoding_keeps_plain_bytes(rest);
        assert(seq![bytes[0]] + rest =~= bytes);
    } else {
        assert(percent_decoded(bytes) =~= bytes);
    }
}

/// Text without a percent sign decodes to itself, whatever else it holds.
pub proof fn lemma_plain_text_decodes_to_itself(text: Seq<char>)
    requires
        !text.contains('%'),
    ensures
        percent_decoded_text(text) == Some(text),
{
    lemma_encoding_has_no_percent(text);
    lemma_decoding_keeps_plain_bytes(encode_utf8(text));
    encode_utf8_valid_utf8(text);
    encode_utf8_decode_utf8(text);
}

/// A raw path without a percent sign decodes to what stands behind its
/// leading slash.
pub proof fn lemma_plain_path_decodes_to_itself(raw: Seq<char>)
    requires
        !raw.contains('%'),
    ensures
        decoded_path(raw) == without_leading_slash(raw),
{
    let rest = without_leading_slash(raw);
    assert forall|i: int| 0 <= i < rest.len() implies rest[i] != '%' by {
        if raw.len() > 0 && raw[0] == '/' {
            assert(rest[i] == raw[i + 1]);
        }
    }
    lemma_plain_text_decodes_to_itself(rest);
}

/// Runs `percent_encoding::percent_decode_str` on `text` and reads the bytes
/// that come out with `PercentDecode::decode_utf8`.
///
/// Trusted: the decoder walks the UTF-8 bytes of `text`, turns each percent
/// sign that is followed by two hexadecimal digits into the byte they name
/// and passes every other byte on; `decode_utf8` then yields the string with
/// exactly those bytes, or an error where they are not well-formed UTF-8.
#[verifier::external_body]
fn percent_decode_utf8(text: &str) -> (decoded: Option<String>)
    ensures
        decoded is Some <==> valid_utf8(percent_decoded(text.spec_bytes())),
        decoded is Some ==> decoded->0@ == decode_utf8(percent_decoded(text.spec_bytes())),
{
    match percent_decode_str(text).decode_utf8() {
        Ok(decoded) => Some(decoded.into_owned()),
        Err(_) => None,
    }
}

/// Drops the one leading slash of `raw`, if it has one.
pub fn strip_leading_slash(raw: &str) -> (rest: &str)
    ensures
        rest@ == without_leading_slash(raw@),
{
    let n: usize = raw.unicode_len();
    if n > 0 && raw.get_char(0) == '/' {
        let rest = raw.substring_char(1, n);
        assert(rest@ =~= raw@.drop_first());
        rest
    } else {
        raw
    }
}

/// Decodes a raw request path. Never fails: a path that does not decode
/// gives the empty path.
pub fn decode_path(raw: &str) -> (path: String)
    ensures
        path@ == decoded_path(raw@),
{
    match percent_decode_utf8(strip_leading_slash(raw)) {
        Some(path) => path,
        None => String::new(),
    }
}

} // verus!
