//! The byte-level encodings RobTop's formats use: percent encoding, URL-safe base64 and gzip/zlib
//! compression.

use vstd::prelude::*;
use vstd::utf8::{decode_utf8, encode_utf8, valid_utf8};
use std::io::Read;
use base64::Engine;
use crate::text::push_char;

verus! {

/// The upper-case hexadecimal digit with value `d`.
pub open spec fn hex_upper(d: nat) -> char {
    if d < 10 {
        ((d + 48) as u32) as char
    } else {
        ((d + 55) as u32) as char
    }
}

/// The value of a hexadecimal digit, in either case.
pub open spec fn hex_value(b: u8) -> Option<nat> {
    if 48 <= b <= 57 {
        Some((b - 48) as nat)
    } else if 65 <= b <= 70 {
        Some((b - 55) as nat)
    } else if 97 <= b <= 102 {
        Some((b - 87) as nat)
    } else {
        None
    }
}

/// The three characters `%XX` that stand for a byte in percent encoding.
pub open spec fn percent_escape(b: u8) -> Seq<char> {
    seq!['%', hex_upper((b / 16) as nat), hex_upper((b % 16) as nat)]
}

/// Percent decoding: `%` followed by two hexadecimal digits stands for the byte they spell, every
/// other byte stands for itself.
pub open spec fn percent_decoded(bytes: Seq<u8>) -> Seq<u8>
    decreases bytes.len(),
{
    if bytes.len() == 0 {
        seq![]
    } else if bytes[0] == 37 && bytes.len() >= 3 && hex_value(bytes[1]) is Some && hex_value(
        bytes[2],
    ) is Some {
        seq![(hex_value(bytes[1])->0 * 16 + hex_value(bytes[2])->0) as u8] + percent_decoded(
            bytes.subrange(3, bytes.len() as int),
        )
    } else {
        seq![bytes[0]] + percent_decoded(bytes.drop_first())
    }
}

/// The sets of ASCII characters that are percent encoded (bytes outside ASCII always are).
#[derive(Debug, Clone, Copy, PartialEq, Eq)]
pub enum EncodeSet {
    /// The characters RobTop encodes: the control characters, space, `:`, `/`, `?` and `~`.
    Robtop,
    /// Every character but the ASCII letters and digits.
    NonAlphanumeric,
}

/// Whether `b` is an ASCII letter or digit.
pub open spec fn is_ascii_alphanumeric(b: u8) -> bool {
    (48 <= b <= 57) || (65 <= b <= 90) || (97 <= b <= 122)
}

/// Whether the set contains the ASCII character `b`.
pub open spec fn set_contains(set: EncodeSet, b: u8) -> bool {
    match set {
        EncodeSet::Robtop => b < 32 || b == 127 || b == 32 || b == 58 || b == 47 || b == 63
            || b == 126,
        EncodeSet::NonAlphanumeric => !is_ascii_alphanumeric(b),
    }
}

/// Whether the byte `b` is written percent encoded.
pub open spec fn should_encode(set: EncodeSet, b: u8) -> bool {
    b >= 128 || set_contains(set, b)
}

/// Which bytes each set encodes: RobTop's set the control characters, space, `:`, `/`, `?` and
/// `~`, leaving every other ASCII character (`%` among them) as it is; the other set everything
/// but the ASCII letters and digits. Bytes outside ASCII are always encoded. An encoded byte is
/// written as `%` followed by its two hexadecimal digits, upper case, the high one first.
pub proof fn lemma_encode_sets(b: u8)
    ensures
        should_encode(EncodeSet::Robtop, b) <==> (b < 0x20 || b >= 0x7f || b == 0x20 || b == 0x3a
            || b == 0x2f || b == 0x3f || b == 0x7e),
        should_encode(EncodeSet::NonAlphanumeric, b) <==> !((0x30 <= b <= 0x39) || (0x41 <= b <= 0x5a)
            || (0x61 <= b <= 0x7a)),
        !should_encode(EncodeSet::Robtop, 0x25),
        percent_escape(b).len() == 3,
        percent_escape(b)[0] == '%',
        ('0' <= percent_escape(b)[1] <= '9' || 'A' <= percent_escape(b)[1] <= 'F'),
        ('0' <= percent_escape(b)[2] <= '9' || 'A' <= percent_escape(b)[2] <= 'F'),
        hex_value(percent_escape(b)[1] as u8) == Some((b / 16) as nat),
        hex_value(percent_escape(b)[2] as u8) == Some((b % 16) as nat),
{
}

/// What a single byte is written as.
pub open spec fn byte_encoded(set: EncodeSet, b: u8) -> Seq<char> {
    if should_encode(set, b) {
        percent_escape(b)
    } else {
        seq![b as char]
    }
}

/// Percent encoding of a sequence of bytes with the given set.
pub open spec fn percent_encoded(bytes: Seq<u8>, set: EncodeSet) -> Seq<char>
    decreases bytes.len(),
{
    if bytes.len() == 0 {
        seq![]
    } else {
        percent_encoded(bytes.drop_last(), set) + byte_encoded(set, bytes.last())
    }
}

/// Whether the set contains the byte (`AsciiSet::contains` of the two sets).
pub fn set_contains_exec(set: EncodeSet, b: u8) -> (res: bool)
    ensures
        res == set_contains(set, b),
{
    match set {
        EncodeSet::Robtop => b < 32 || b == 127 || b == 32 || b == 58 || b == 47 || b == 63
            || b == 126,
        EncodeSet::NonAlphanumeric => !((48 <= b && b <= 57) || (65 <= b && b <= 90) || (97 <= b
            && b <= 122)),
    }
}

/// The percent escape of one byte (`percent_encoding::percent_encode_byte`): `%` followed by the
/// two upper-case hexadecimal digits of the byte.
#[verifier::external_body]
fn percent_encode_byte(b: u8) -> (res: &'static str)
    ensures
        res@ == percent_escape(b),
{
    percent_encoding::percent_encode_byte(b)
}

/// Percent encodes the UTF-8 bytes of `input` with the given set (as
/// `percent_encoding::utf8_percent_encode` does).
pub fn percent_encode(input: &str, set: EncodeSet) -> (res: String)
    ensures
        res@ == percent_encoded(encode_utf8(input@), set),
{
    let bytes = input.as_bytes();
    let ghost bs = encode_utf8(input@);
    let mut out = String::new();
    let mut i: usize = 0;
    while i < bytes.len()
        invariant
            bytes@ == bs,
            i <= bs.len(),
            out@ == percent_encoded(bs.take(i as int), set),
        decreases bs.len() - i,
    {
        let b = bytes[i];
        assert(bs.take(i + 1).drop_last() =~= bs.take(i as int));
        if b >= 128 || set_contains_exec(set, b) {
            let esc = percent_encode_byte(b);
            out.append(esc);
        } else {
            push_char(&mut out, b as char);
        }
        i = i + 1;
    }
    assert(bs.take(bs.len() as int) =~= bs);
    out
}

/// Percent decodes `input` and reads the result as UTF-8 (`percent_encoding::percent_decode_str`
/// followed by `PercentDecode::decode_utf8`): `None` exactly when the decoded bytes are not UTF-8.
#[verifier::external_body]
pub fn percent_decode(input: &str) -> (res: Option<String>)
    ensures
        res is Some <==> valid_utf8(percent_decoded(encode_utf8(input@))),
        res matches Some(s) ==> s@ == decode_utf8(percent_decoded(encode_utf8(input@))),
{
    match percent_encoding::percent_decode_str(input).decode_utf8() {
        Ok(decoded) => Some(decoded.into_owned()),
        Err(_) => None,
    }
}

/// What the URL-safe base64 engine (`base64::engine::general_purpose::URL_SAFE`, padded and
/// canonical) decodes a text to, `None` where it refuses the text.
pub uninterp spec fn base64_decoded(text: Seq<char>) -> Option<Seq<u8>>;

/// What the URL-safe base64 engine encodes bytes as.
pub uninterp spec fn base64_encoded(bytes: Seq<u8>) -> Seq<char>;

/// Whether `c` can occur in URL-safe base64 output: letters, digits, `-`, `_` and the padding `=`.
pub open spec fn is_base64_char(c: char) -> bool {
    ('A' <= c <= 'Z') || ('a' <= c <= 'z') || ('0' <= c <= '9') || c == '-' || c == '_' || c
        == '='
}

/// Decodes URL-safe base64 (`Engine::decode` of `URL_SAFE`).
#[verifier::external_body]
pub fn base64_decode(text: &str) -> (res: Option<Vec<u8>>)
    ensures
        match res {
            Some(b) => base64_decoded(text@) == Some(b@),
            None => base64_decoded(text@) is None,
        },
{
    base64::engine::general_purpose::URL_SAFE.decode(text).ok()
}

/// Encodes bytes as URL-safe base64 (`Engine::encode` of `URL_SAFE`): padded output of four
/// characters for every started group of three bytes, which the engine decodes back to the bytes.
#[verifier::external_body]
pub fn base64_encode(bytes: &[u8]) -> (res: String)
    ensures
        res@ == base64_encoded(bytes@),
        base64_decoded(res@) == Some(bytes@),
        res@.len() == 4 * ((bytes@.len() + 2) / 3),
        forall|i: int| 0 <= i < res@.len() ==> is_base64_char(#[trigger] res@[i]),
{
    base64::engine::general_purpose::URL_SAFE.encode(bytes)
}

/// What gzip decompression (`flate2::read::GzDecoder` read to a string) yields, `None` where the
/// data is not a gzip stream of UTF-8 text.
pub uninterp spec fn gz_inflated(data: Seq<u8>) -> Option<Seq<char>>;

/// What zlib decompression (`flate2::read::ZlibDecoder` read to a string) yields.
pub uninterp spec fn zlib_inflated(data: Seq<u8>) -> Option<Seq<char>>;

/// What gzip compression at level 9 (`flate2::read::GzEncoder` with `Compression::new(9)`, read to
/// the end) yields, `None` where reading the compressed stream fails.
pub uninterp spec fn gz_deflated(data: Seq<u8>) -> Option<Seq<u8>>;

/// Decompresses a gzip stream into a string.
#[verifier::external_body]
pub fn gz_decompress(data: &[u8]) -> (res: Option<String>)
    ensures
        match res {
            Some(s) => gz_inflated(data@) == Some(s@),
            None => gz_inflated(data@) is None,
        },
{
    let mut out = String::new();
    match flate2::read::GzDecoder::new(data).read_to_string(&mut out) {
        Ok(_) => Some(out),
        Err(_) => None,
    }
}

/// Decompresses a zlib stream into a string.
#[verifier::external_body]
pub fn zlib_decompress(data: &[u8]) -> (res: Option<String>)
    ensures
        match res {
            Some(s) => zlib_inflated(data@) == Some(s@),
            None => zlib_inflated(data@) is None,
        },
{
    let mut out = String::new();
    match flate2::read::ZlibDecoder::new(data).read_to_string(&mut out) {
        Ok(_) => Some(out),
        Err(_) => None,
    }
}

/// Compresses the UTF-8 bytes of `text` into a gzip stream at level 9 (`None` where reading the
/// compressed stream fails). The stream starts with the gzip magic bytes, and decompressing it
/// gives the text back.
#[verifier::external_body]
pub fn gz_compress(text: &str) -> (res: Option<Vec<u8>>)
    ensures
        match res {
            Some(out) => {
                &&& gz_deflated(encode_utf8(text@)) == Some(out@)
                &&& out@.len() >= 2
                &&& out@[0] == 0x1f && out@[1] == 0x8b
                &&& gz_inflated(out@) == Some(text@)
            },
            None => gz_deflated(encode_utf8(text@)) is None,
        },
{
    let mut out = Vec::new();
    let mut encoder = flate2::read::GzEncoder::new(text.as_bytes(), flate2::Compression::new(9));
    match encoder.read_to_end(&mut out) {
        Ok(_) => Some(out),
        Err(_) => None,
    }
}

} // verus!

verus! {

/// The bytes a single byte is percent encoded to.
pub open spec fn byte_escaped(set: EncodeSet, b: u8) -> Seq<u8> {
    if should_encode(set, b) {
        seq![37u8, hex_upper((b / 16) as nat) as u8, hex_upper((b % 16) as nat) as u8]
    } else {
        seq![b]
    }
}

/// Percent encoding of bytes, as bytes.
pub open spec fn escaped(bytes: Seq<u8>, set: EncodeSet) -> Seq<u8>
    decreases bytes.len(),
{
    if bytes.len() == 0 {
        seq![]
    } else {
        byte_escaped(set, bytes[0]) + escaped(bytes.drop_first(), set)
    }
}

/// No `%` in the bytes is followed by two hexadecimal digits.
pub open spec fn no_percent_escape(bytes: Seq<u8>) -> bool {
    forall|i: int|
        0 <= i && i + 2 < bytes.len() ==> !(#[trigger] bytes[i] == 37 && hex_value(bytes[i + 1]) is Some
            && hex_value(bytes[i + 2]) is Some)
}

proof fn lemma_hex_digit(d: nat)
    requires
        d < 16,
    ensures
        hex_value(hex_upper(d) as u8) == Some(d),
        hex_upper(d) as u8 != 37,
        (hex_upper(d) as u32) < 128,
{
    vstd::utf8::char_is_scalar(hex_upper(d));
}

/// Encoding one more byte at the end.
proof fn lemma_escaped_push(bytes: Seq<u8>, b: u8, set: EncodeSet)
    ensures
        escaped(bytes.push(b), set) == escaped(bytes, set) + byte_escaped(set, b),
    decreases bytes.len(),
{
    if bytes.len() == 0 {
        assert(bytes.push(b).drop_first() =~= Seq::<u8>::empty());
        assert(escaped(Seq::<u8>::empty(), set) =~= Seq::<u8>::empty());
        assert(escaped(bytes.push(b), set) =~= byte_escaped(set, b));
    } else {
        lemma_escaped_push(bytes.drop_first(), b, set);
        assert(bytes.push(b).drop_first() =~= bytes.drop_first().push(b));
        assert(escaped(bytes.push(b), set) =~= escaped(bytes, set) + byte_escaped(set, b));
    }
}

/// Percent encoded text is ASCII, and its UTF-8 bytes are the percent encoded bytes.
proof fn lemma_percent_encoded_bytes(bytes: Seq<u8>, set: EncodeSet)
    ensures
        vstd::utf8::is_ascii_chars(percent_encoded(bytes, set)),
        encode_utf8(percent_encoded(bytes, set)) == escaped(bytes, set),
    decreases bytes.len(),
{
    let text = percent_encoded(bytes, set);
    if bytes.len() == 0 {
        vstd::utf8::is_ascii_chars_encode_utf8(text);
        assert(encode_utf8(text) =~= escaped(bytes, set));
    } else {
        let prev = bytes.drop_last();
        let b = bytes.last();
        lemma_percent_encoded_bytes(prev, set);
        lemma_escaped_push(prev, b, set);
        assert(prev.push(b) =~= bytes);
        let tail = byte_encoded(set, b);
        lemma_hex_digit((b / 16) as nat);
        lemma_hex_digit((b % 16) as nat);
        assert(vstd::utf8::is_ascii_chars(tail));
        let ptext = percent_encoded(prev, set);
        assert(text =~= ptext + tail);
        assert(vstd::utf8::is_ascii_chars(text)) by {
            assert forall|i: int| 0 <= i < text.len() implies '\0' <= #[trigger] text[i] <= '\u{7f}' by {
                if i < ptext.len() {
                    assert(text[i] == ptext[i]);
                } else {
                    assert(text[i] == tail[i - ptext.len()]);
                }
            }
        }
        vstd::utf8::is_ascii_chars_encode_utf8(text);
        vstd::utf8::is_ascii_chars_encode_utf8(ptext);
        assert forall|i: int| 0 <= i < text.len() implies #[trigger] encode_utf8(text)[i] == escaped(
            bytes,
            set,
        )[i] by {
            assert(encode_utf8(text)[i] == text[i] as u8);
            if i < ptext.len() {
                assert(text[i] == ptext[i]);
                assert(encode_utf8(ptext)[i] == ptext[i] as u8);
            } else {
                assert(text[i] == tail[i - ptext.len()]);
            }
        }
        assert(encode_utf8(text) =~= escaped(bytes, set));
    }
}

/// Decoding an escaped byte in front of more bytes.
proof fn lemma_decode_escape(b: u8, er: Seq<u8>, set: EncodeSet)
    requires
        should_encode(set, b),
    ensures
        percent_decoded(byte_escaped(set, b) + er) == seq![b] + percent_decoded(er),
{
    lemma_hex_digit((b / 16) as nat);
    lemma_hex_digit((b % 16) as nat);
    let e = byte_escaped(set, b) + er;
    assert(e.subrange(3, e.len() as int) =~= er);
    assert(((b / 16) * 16 + b % 16) as u8 == b);
}

/// Decoding a byte left as it is in front of more bytes.
proof fn lemma_decode_literal(b: u8, er: Seq<u8>)
    requires
        b != 37 || !(er.len() >= 2 && hex_value(er[0]) is Some && hex_value(er[1]) is Some),
    ensures
        percent_decoded(seq![b] + er) == seq![b] + percent_decoded(er),
{
    let e = seq![b] + er;
    assert(e.drop_first() =~= er);
    assert(e[0] == b);
    assert(e.len() >= 3 ==> e[1] == er[0] && e[2] == er[1]);
}

/// The first byte of what a non-empty byte sequence is escaped to.
proof fn lemma_escaped_first(bytes: Seq<u8>, set: EncodeSet)
    requires
        bytes.len() > 0,
    ensures
        escaped(bytes, set).len() > 0,
        escaped(bytes, set)[0] == if should_encode(set, bytes[0]) {
            37u8
        } else {
            bytes[0]
        },
        !should_encode(set, bytes[0]) ==> escaped(bytes, set).drop_first() == escaped(
            bytes.drop_first(),
            set,
        ),
{
    let e = escaped(bytes, set);
    assert(e == byte_escaped(set, bytes[0]) + escaped(bytes.drop_first(), set));
    if !should_encode(set, bytes[0]) {
        assert(e.drop_first() =~= escaped(bytes.drop_first(), set));
    }
}

/// Decoding percent encoded bytes gives the bytes back, unless a `%` that is left as it is (the
/// RobTop set does not encode it) is followed by two hexadecimal digits.
proof fn lemma_escaped_decoded(bytes: Seq<u8>, set: EncodeSet)
    requires
        set == EncodeSet::NonAlphanumeric || no_percent_escape(bytes),
    ensures
        percent_decoded(escaped(bytes, set)) == bytes,
    decreases bytes.len(),
{
    if bytes.len() > 0 {
        let b = bytes[0];
        let rest = bytes.drop_first();
        assert(set == EncodeSet::NonAlphanumeric || no_percent_escape(rest)) by {
            if set != EncodeSet::NonAlphanumeric {
                assert forall|i: int|
                    0 <= i && i + 2 < rest.len() implies !(#[trigger] rest[i] == 37 && hex_value(
                    rest[i + 1],
                ) is Some && hex_value(rest[i + 2]) is Some) by {
                    assert(rest[i] == bytes[i + 1]);
                    assert(rest[i + 1] == bytes[i + 2]);
                    assert(rest[i + 2] == bytes[i + 3]);
                }
            }
        }
        lemma_escaped_decoded(rest, set);
        let er = escaped(rest, set);
        assert(escaped(bytes, set) == byte_escaped(set, b) + er);
        if should_encode(set, b) {
            lemma_decode_escape(b, er, set);
        } else {
            assert(byte_escaped(set, b) == seq![b]);
            if b == 37 && er.len() >= 2 && hex_value(er[0]) is Some && hex_value(er[1]) is Some {
                assert(set == EncodeSet::Robtop);
                lemma_escaped_first(rest, set);
                assert(!should_encode(set, rest[0]));
                assert(er[0] == rest[0]);
                assert(rest.len() >= 2) by {
                    if rest.len() == 1 {
                        assert(rest.drop_first() =~= Seq::<u8>::empty());
                        assert(escaped(Seq::<u8>::empty(), set) =~= Seq::<u8>::empty());
                    }
                }
                lemma_escaped_first(rest.drop_first(), set);
                assert(er.drop_first()[0] == er[1]);
                assert(!should_encode(set, rest[1]));
                assert(er[1] == rest[1]);
                assert(bytes[1] == rest[0] && bytes[2] == rest[1]);
                assert(false);
            }
            lemma_decode_literal(b, er);
        }
        assert(seq![b] + rest =~= bytes);
    }
}

/// Text written with percent encoding reads back as itself; with the RobTop set, which leaves `%`
/// as it is, provided no `%` in the text's bytes is followed by two hexadecimal digits.
pub proof fn lemma_percent_roundtrip(text: Seq<char>, set: EncodeSet)
    requires
        set == EncodeSet::NonAlphanumeric || no_percent_escape(encode_utf8(text)),
    ensures
        valid_utf8(percent_decoded(encode_utf8(percent_encoded(encode_utf8(text), set)))),
        decode_utf8(percent_decoded(encode_utf8(percent_encoded(encode_utf8(text), set)))) == text,
{
    lemma_percent_encoded_bytes(encode_utf8(text), set);
    lemma_escaped_decoded(encode_utf8(text), set);
    vstd::utf8::encode_utf8_valid_utf8(text);
    vstd::utf8::encode_utf8_decode_utf8(text);
}

} // verus!
