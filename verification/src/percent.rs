//! Percent-encoding and percent-decoding of one path segment of an http(s) URL.

use vstd::prelude::*;
use vstd::string::*;
use vstd::utf8::*;

verus! {

/// Whether `byte` is written as `%XX` inside a path segment of an http(s)
/// URL: the controls, everything outside ASCII, and the characters that would
/// end the segment or start an escape.
pub open spec fn is_escaped_in_path_segment(byte: u8) -> bool {
    ||| byte < 0x20
    ||| byte >= 0x7f
    ||| byte == 0x20  // space
    ||| byte == 0x22  // "
    ||| byte == 0x23  // #
    ||| byte == 0x25  // %
    ||| byte == 0x2f  // /
    ||| byte == 0x3c  // <
    ||| byte == 0x3e  // >
    ||| byte == 0x3f  // ?
    ||| byte == 0x5c  // \
    ||| byte == 0x60  // `
    ||| byte == 0x7b  // {
    ||| byte == 0x7d  // }
}

/// The upper-case hexadecimal digit for `nibble`, which is below 16.
pub open spec fn hex_upper(nibble: u8) -> char {
    if nibble < 10 {
        (0x30 + nibble) as u8 as char
    } else {
        (0x37 + nibble) as u8 as char
    }
}

/// The three characters `%XX` that stand for `byte`.
pub open spec fn escape_of(byte: u8) -> Seq<char> {
    seq!['%', hex_upper(byte / 16), hex_upper(byte % 16)]
}

/// What one byte of a segment becomes when the segment is encoded.
pub open spec fn encoded_byte(byte: u8) -> Seq<char> {
    if is_escaped_in_path_segment(byte) {
        escape_of(byte)
    } else {
        seq![byte as char]
    }
}

/// The percent-encoding of a byte string, byte by byte.
pub open spec fn percent_encoded(bytes: Seq<u8>) -> Seq<char>
    decreases bytes.len(),
{
    if bytes.len() == 0 {
        Seq::empty()
    } else {
        encoded_byte(bytes[0]) + percent_encoded(bytes.drop_first())
    }
}

/// The text that stands for `segment` in the path of an http(s) URL: its
/// UTF-8 bytes, percent-encoded.
pub open spec fn encoded_path(segment: Seq<char>) -> Seq<char> {
    percent_encoded(encode_utf8(segment))
}

/// The value of an ASCII hexadecimal digit of either case, if `byte` is one.
pub open spec fn hex_value(byte: u8) -> Option<u8> {
    if 0x30 <= byte <= 0x39 {
        Some((byte - 0x30) as u8)
    } else if 0x41 <= byte <= 0x46 {
        Some((byte - 0x37) as u8)
    } else if 0x61 <= byte <= 0x66 {
        Some((byte - 0x57) as u8)
    } else {
        None
    }
}

/// Whether `bytes` begins with `%` and two hexadecimal digits.
pub open spec fn starts_with_escape(bytes: Seq<u8>) -> bool {
    &&& bytes.len() >= 3
    &&& bytes[0] == 0x25
    &&& hex_value(bytes[1]) is Some
    &&& hex_value(bytes[2]) is Some
}

/// The percent-decoding of a byte string: every `%` that two hexadecimal
/// digits follow becomes the byte they spell, every other byte stays.
pub open spec fn percent_decoded(bytes: Seq<u8>) -> Seq<u8>
    decreases bytes.len(),
{
    if bytes.len() == 0 {
        Seq::empty()
    } else if starts_with_escape(bytes) {
        seq![(hex_value(bytes[1])->0 * 16 + hex_value(bytes[2])->0) as u8] + percent_decoded(
            bytes.subrange(3, bytes.len() as int),
        )
    } else {
        seq![bytes[0]] + percent_decoded(bytes.drop_first())
    }
}

/// The text that `String::from_utf8_lossy` makes of bytes that are not
/// well-formed UTF-8, each ill-formed part replaced by U+FFFD.
pub uninterp spec fn utf8_lossy_repair(bytes: Seq<u8>) -> Seq<char>;

/// The text of `bytes`, read as UTF-8 where they are well formed and repaired
/// where they are not.
pub open spec fn utf8_lossy(bytes: Seq<u8>) -> Seq<char> {
    if valid_utf8(bytes) {
        decode_utf8(bytes)
    } else {
        utf8_lossy_repair(bytes)
    }
}

/// The segment that `text` stands for in the path of an http(s) URL.
pub open spec fn decoded_path(text: Seq<char>) -> Seq<char> {
    utf8_lossy(percent_decoded(encode_utf8(text)))
}

/// `percent_encoding::percent_encode_byte`: a look-up in a table that holds
/// `%` and the two upper-case hexadecimal digits of each byte.
#[verifier::external_body]
fn percent_encode_byte(byte: u8) -> (text: &'static str)
    ensures
        text@ == escape_of(byte),
{
    percent_encoding::percent_encode_byte(byte)
}

/// `percent_encoding::percent_decode_str` followed by `decode_utf8_lossy`:
/// the bytes of `input` are percent-decoded and the result is handed to
/// `String::from_utf8_lossy`, which returns well-formed UTF-8 as it is.
#[verifier::external_body]
fn percent_decode_lossy(input: &str) -> (text: String)
    ensures
        valid_utf8(percent_decoded(encode_utf8(input@))) ==> text@ == decode_utf8(
            percent_decoded(encode_utf8(input@)),
        ),
        !valid_utf8(percent_decoded(encode_utf8(input@))) ==> text@ == utf8_lossy_repair(
            percent_decoded(encode_utf8(input@)),
        ),
{
    percent_encoding::percent_decode_str(input).decode_utf8_lossy().into_owned()
}

/// `String::push`: appends one character.
#[verifier::external_body]
fn push_char(text: &mut String, c: char)
    ensures
        final(text)@ == old(text)@.push(c),
{
    text.push(c)
}

/// The bytes of a text whose characters are all ASCII.
pub open spec fn ascii_bytes(text: Seq<char>) -> Seq<u8> {
    Seq::new(text.len(), |i: int| text[i] as u8)
}

proof fn lemma_hex_upper(nibble: u8)
    requires
        nibble < 16,
    ensures
        '\0' <= hex_upper(nibble) <= '\u{7f}',
        hex_value(hex_upper(nibble) as u8) == Some(nibble),
{
}

proof fn lemma_encoded_byte_is_ascii(byte: u8)
    ensures
        is_ascii_chars(encoded_byte(byte)),
{
    lemma_hex_upper(byte / 16);
    lemma_hex_upper(byte % 16);
}

/// Encoding goes byte by byte: a byte added at the end adds its own piece.
proof fn lemma_percent_encoded_push(bytes: Seq<u8>, byte: u8)
    ensures
        percent_encoded(bytes.push(byte)) == percent_encoded(bytes) + encoded_byte(byte),
    decreases bytes.len(),
{
    if bytes.len() == 0 {
        assert(bytes.push(byte).drop_first() =~= bytes);
        assert(percent_encoded(bytes) =~= Seq::<char>::empty());
        assert(percent_encoded(bytes.push(byte)) =~= encoded_byte(byte));
    } else {
        assert(bytes.push(byte).drop_first() =~= bytes.drop_first().push(byte));
        lemma_percent_encoded_push(bytes.drop_first(), byte);
        assert(percent_encoded(bytes.push(byte)) =~= percent_encoded(bytes) + encoded_byte(byte));
    }
}

/// An encoded segment is ASCII, and decoding its bytes gives the bytes that
/// were encoded.
proof fn lemma_percent_decoded_inverts_encoded(bytes: Seq<u8>)
    ensures
        is_ascii_chars(percent_encoded(bytes)),
        percent_decoded(ascii_bytes(percent_encoded(bytes))) == bytes,
    decreases bytes.len(),
{
    if bytes.len() > 0 {
        let first = bytes[0];
        let rest = bytes.drop_first();
        let piece = encoded_byte(first);
        let tail = percent_encoded(rest);
        let all = ascii_bytes(piece + tail);
        lemma_percent_decoded_inverts_encoded(rest);
        lemma_encoded_byte_is_ascii(first);
        lemma_hex_upper(first / 16);
        lemma_hex_upper(first % 16);
        if is_escaped_in_path_segment(first) {
            assert(all.subrange(3, all.len() as int) =~= ascii_bytes(tail));
            assert(first == (first / 16) * 16 + first % 16);
            assert(percent_decoded(all) =~= bytes);
        } else {
            assert(all.drop_first() =~= ascii_bytes(tail));
            assert(percent_decoded(all) =~= bytes);
        }
    }
}

/// Bytes that hold no `%` are their own percent-decoding.
proof fn lemma_percent_decoded_without_percent(bytes: Seq<u8>)
    requires
        forall|i: int| 0 <= i < bytes.len() ==> bytes[i] != 0x25,
    ensures
        percent_decoded(bytes) == bytes,
    decreases bytes.len(),
{
    if bytes.len() > 0 {
        lemma_percent_decoded_without_percent(bytes.drop_first());
        assert(percent_decoded(bytes) =~= bytes);
    }
}

/// Decoding undoes encoding: whatever segment is percent-encoded for the path
/// of a URL, percent-decoding the encoded text gives that segment back.
pub proof fn lemma_decode_inverts_encode(segment: Seq<char>)
    ensures
        decoded_path(encoded_path(segment)) == segment,
{
    let bytes = encode_utf8(segment);
    let text = percent_encoded(bytes);
    lemma_percent_decoded_inverts_encoded(bytes);
    is_ascii_chars_encode_utf8(text);
    assert(encode_utf8(text) =~= ascii_bytes(text));
    encode_utf8_valid_utf8(segment);
    encode_utf8_decode_utf8(segment);
}

fn must_escape(byte: u8) -> (escaped: bool)
    ensures
        escaped == is_escaped_in_path_segment(byte),
{
    byte < 0x20 || byte >= 0x7f || byte == 0x20 || byte == 0x22 || byte == 0x23 || byte == 0x25
        || byte == 0x2f || byte == 0x3c || byte == 0x3e || byte == 0x3f || byte == 0x5c || byte
        == 0x60 || byte == 0x7b || byte == 0x7d
}

/// Whether `byte` occurs in `bytes`.
pub fn has_byte(bytes: &[u8], byte: u8) -> (found: bool)
    ensures
        found == bytes@.contains(byte),
{
    let mut i: usize = 0;
    while i < bytes.len()
        invariant
            i <= bytes.len(),
            forall|j: int| 0 <= j < i ==> bytes@[j] != byte,
        decreases bytes.len() - i,
    {
        if bytes[i] == byte {
            return true;
        }
        i += 1;
    }
    false
}

/// Percent-encodes `path` as one segment of the path of an http(s) URL.
///
/// Every byte of the UTF-8 encoding of `path` that is a control, lies outside
/// ASCII or is one of ``space " # % / < > ? \ ` { }`` is written as `%XX` with
/// upper-case digits; every other byte stands for itself.
pub fn percent_encode_http_url_path(path: &str) -> (text: String)
    ensures
        text@ == encoded_path(path@),
{
    let bytes = path.as_bytes();
    let mut text = String::new();
    let mut i: usize = 0;
    while i < bytes.len()
        invariant
            i <= bytes.len(),
            text@ == percent_encoded(bytes@.take(i as int)),
        decreases bytes.len() - i,
    {
        let byte = bytes[i];
        proof {
            lemma_percent_encoded_push(bytes@.take(i as int), byte);
            assert(bytes@.take(i + 1) =~= bytes@.take(i as int).push(byte));
        }
        if must_escape(byte) {
            text.append(percent_encode_byte(byte));
        } else {
            push_char(&mut text, byte as char);
        }
        i += 1;
    }
    proof {
        assert(bytes@.take(i as int) =~= bytes@);
    }
    text
}

/// Percent-decodes one segment of the path of an http(s) URL.
///
/// Every `%` that two hexadecimal digits follow becomes the byte they spell;
/// the bytes are then read as UTF-8, ill-formed parts replaced by U+FFFD. A
/// segment without `%` is returned as it is.
pub fn percent_decode_http_url_path(input: &str) -> (text: String)
    ensures
        text@ == decoded_path(input@),
{
    if has_byte(input.as_bytes(), 0x25) {
        percent_decode_lossy(input)
    } else {
        proof {
            let bytes = encode_utf8(input@);
            assert forall|i: int| 0 <= i < bytes.len() implies bytes[i] != 0x25 by {
                assert(bytes.contains(bytes[i]));
            }
            lemma_percent_decoded_without_percent(bytes);
            encode_utf8_valid_utf8(input@);
            encode_utf8_decode_utf8(input@);
        }
        input.to_owned()
    }
}

} // verus!
