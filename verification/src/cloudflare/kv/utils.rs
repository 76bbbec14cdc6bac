//! Keys as URL path segments.

use vstd::prelude::*;
use vstd::slice::slice_index_get;
use vstd::utf8::encode_utf8;

verus! {

/// The upper-case hexadecimal digit of a number below sixteen.
pub open spec fn hex_upper(n: nat) -> char {
    if n == 0 {
        '0'
    } else if n == 1 {
        '1'
    } else if n == 2 {
        '2'
    } else if n == 3 {
        '3'
    } else if n == 4 {
        '4'
    } else if n == 5 {
        '5'
    } else if n == 6 {
        '6'
    } else if n == 7 {
        '7'
    } else if n == 8 {
        '8'
    } else if n == 9 {
        '9'
    } else if n == 10 {
        'A'
    } else if n == 11 {
        'B'
    } else if n == 12 {
        'C'
    } else if n == 13 {
        'D'
    } else if n == 14 {
        'E'
    } else {
        'F'
    }
}

/// A percent sign and the byte's two upper-case hexadecimal digits.
pub open spec fn percent_triplet(byte: u8) -> Seq<char> {
    seq!['%', hex_upper((byte / 16) as nat), hex_upper((byte % 16) as nat)]
}

/// Whether a byte of a key is escaped in a path segment: everything outside
/// ASCII, the control characters, and the characters that the remote
/// routing layer would misread.
pub open spec fn must_escape(byte: u8) -> bool {
    byte >= 0x80 || byte < 0x20 || byte == 0x7f || byte == 0x20  // space
     || byte == 0x22  // "
     || byte == 0x23  // #
     || byte == 0x3c  // <
     || byte == 0x3e  // >
     || byte == 0x60  // `
     || byte == 0x3f  // ?
     || byte == 0x7b  // {
     || byte == 0x7d  // }
     || byte == 0x25  // %
     || byte == 0x2f  // /
     || byte == 0x5b  // [
     || byte == 0x5d  // ]

}

/// One byte of a key as it stands in a path segment.
pub open spec fn encoded_byte(byte: u8) -> Seq<char> {
    if must_escape(byte) {
        percent_triplet(byte)
    } else {
        seq![byte as char]
    }
}

/// A run of bytes as it stands in a path segment.
pub open spec fn encoded_bytes(bytes: Seq<u8>) -> Seq<char>
    decreases bytes.len(),
{
    if bytes.len() == 0 {
        Seq::empty()
    } else {
        encoded_bytes(bytes.drop_last()) + encoded_byte(bytes.last())
    }
}

/// A key as it stands in a path segment: its UTF-8 bytes, each escaped
/// where it must be.
pub open spec fn encoded_key(key: Seq<char>) -> Seq<char> {
    encoded_bytes(encode_utf8(key))
}

/// Whether a character can stand in a path segment as it is, or belongs to
/// an escape: printable ASCII but for the characters that end a segment or
/// that the remote routing layer would misread.
pub open spec fn is_segment_char(c: char) -> bool {
    &&& '!' <= c <= '~'
    &&& c != '"'
    &&& c != '#'
    &&& c != '<'
    &&& c != '>'
    &&& c != '`'
    &&& c != '?'
    &&& c != '{'
    &&& c != '}'
    &&& c != '/'
    &&& c != '['
    &&& c != ']'
}

/// An encoded run of bytes is made of segment characters alone.
pub proof fn lemma_encoded_bytes_are_segment_chars(bytes: Seq<u8>)
    ensures
        forall|i: int|
            0 <= i < encoded_bytes(bytes).len() ==> is_segment_char(
                #[trigger] encoded_bytes(bytes)[i],
            ),
    decreases bytes.len(),
{
    if bytes.len() > 0 {
        lemma_encoded_bytes_are_segment_chars(bytes.drop_last());
        let head = encoded_bytes(bytes.drop_last());
        let byte = bytes.last();
        let tail = encoded_byte(byte);
        assert forall|j: int| 0 <= j < tail.len() implies is_segment_char(#[trigger] tail[j]) by {
            if must_escape(byte) {
                assert(is_segment_char(hex_upper((byte / 16) as nat)));
                assert(is_segment_char(hex_upper((byte % 16) as nat)));
                assert(is_segment_char('%'));
            } else {
                assert(tail[j] == byte as char);
            }
        }
        assert forall|i: int| 0 <= i < encoded_bytes(bytes).len() implies is_segment_char(
            #[trigger] encoded_bytes(bytes)[i],
        ) by {
            if i < head.len() {
                assert(encoded_bytes(bytes)[i] == head[i]);
            } else {
                assert(encoded_bytes(bytes)[i] == tail[i - head.len()]);
            }
        }
    }
}

/// However a key is spelled, what stands for it in a URL is one path
/// segment: no slash, no question mark, no hash, no space, no control
/// character and nothing outside ASCII is left in it.
pub proof fn lemma_encoded_key_is_one_segment(key: Seq<char>)
    ensures
        forall|i: int|
            0 <= i < encoded_key(key).len() ==> is_segment_char(#[trigger] encoded_key(key)[i]),
{
    lemma_encoded_bytes_are_segment_chars(encode_utf8(key));
}

/// The number that an upper-case hexadecimal digit writes; zero for any
/// other character.
pub open spec fn hex_value(c: char) -> nat {
    if c == '1' {
        1
    } else if c == '2' {
        2
    } else if c == '3' {
        3
    } else if c == '4' {
        4
    } else if c == '5' {
        5
    } else if c == '6' {
        6
    } else if c == '7' {
        7
    } else if c == '8' {
        8
    } else if c == '9' {
        9
    } else if c == 'A' {
        10
    } else if c == 'B' {
        11
    } else if c == 'C' {
        12
    } else if c == 'D' {
        13
    } else if c == 'E' {
        14
    } else if c == 'F' {
        15
    } else {
        0
    }
}

/// The bytes that an encoded text stands for, read from its end: an
/// escape gives the byte that its two digits write, any other character
/// gives itself.
pub open spec fn decoded_bytes(text: Seq<char>) -> Seq<u8>
    decreases text.len(),
{
    if text.len() == 0 {
        Seq::empty()
    } else if text.len() >= 3 && text[text.len() - 3] == '%' {
        decoded_bytes(text.take(text.len() - 3)).push(
            (hex_value(text[text.len() - 2]) * 16 + hex_value(text[text.len() - 1])) as u8,
        )
    } else {
        decoded_bytes(text.drop_last()).push(text.last() as u8)
    }
}

/// In an encoded run of bytes every percent sign is followed by its two
/// digits.
pub proof fn lemma_escapes_are_complete(bytes: Seq<u8>)
    ensures
        forall|i: int|
            0 <= i < encoded_bytes(bytes).len() && #[trigger] encoded_bytes(bytes)[i] == '%' ==> i
                + 2 < encoded_bytes(bytes).len(),
    decreases bytes.len(),
{
    if bytes.len() > 0 {
        lemma_escapes_are_complete(bytes.drop_last());
        let head = encoded_bytes(bytes.drop_last());
        let byte = bytes.last();
        let tail = encoded_byte(byte);
        let whole = encoded_bytes(bytes);
        assert forall|i: int| 0 <= i < whole.len() && #[trigger] whole[i] == '%' implies i + 2
            < whole.len() by {
            if i < head.len() {
                assert(whole[i] == head[i]);
            } else {
                assert(whole[i] == tail[i - head.len()]);
                if must_escape(byte) {
                    assert(hex_upper((byte / 16) as nat) != '%');
                    assert(hex_upper((byte % 16) as nat) != '%');
                } else {
                    assert(tail[0] == byte as char);
                }
            }
        }
    }
}

/// Decoding gives back the bytes that were encoded.
pub proof fn lemma_decoding_gives_the_bytes(bytes: Seq<u8>)
    ensures
        decoded_bytes(encoded_bytes(bytes)) == bytes,
    decreases bytes.len(),
{
    if bytes.len() > 0 {
        let init = bytes.drop_last();
        lemma_decoding_gives_the_bytes(init);
        lemma_escapes_are_complete(init);
        let head = encoded_bytes(init);
        let byte = bytes.last();
        let whole = encoded_bytes(bytes);
        if must_escape(byte) {
            assert(whole.len() == head.len() + 3);
            assert(whole[whole.len() - 3] == '%');
            assert(whole.take(whole.len() - 3) =~= head);
            assert(whole[whole.len() - 2] == hex_upper((byte / 16) as nat));
            assert(whole[whole.len() - 1] == hex_upper((byte % 16) as nat));
            assert(hex_value(hex_upper((byte / 16) as nat)) == (byte / 16) as nat);
            assert(hex_value(hex_upper((byte % 16) as nat)) == (byte % 16) as nat);
            assert(decoded_bytes(whole) =~= init.push(byte));
        } else {
            assert(whole.len() == head.len() + 1);
            assert(whole.last() == byte as char);
            assert(whole.drop_last() =~= head);
            if whole.len() >= 3 {
                assert(whole[whole.len() - 3] == head[head.len() - 2]);
            }
            assert((byte as char) as u8 == byte);
            assert(decoded_bytes(whole) =~= init.push(byte));
        }
        assert(init.push(byte) =~= bytes);
    } else {
        assert(decoded_bytes(encoded_bytes(bytes)) =~= bytes);
    }
}

/// No two keys share an encoding: a key that is spelled otherwise is
/// addressed otherwise.
pub proof fn lemma_encoded_keys_differ(a: Seq<char>, b: Seq<char>)
    requires
        encoded_key(a) == encoded_key(b),
    ensures
        a == b,
{
    lemma_decoding_gives_the_bytes(encode_utf8(a));
    lemma_decoding_gives_the_bytes(encode_utf8(b));
    assert(encode_utf8(a) == encode_utf8(b));
    vstd::utf8::encode_utf8_decode_utf8(a);
    vstd::utf8::encode_utf8_decode_utf8(b);
}

/// `percent_encoding::percent_encode_byte`: the three characters that
/// escape one byte, a percent sign and two upper-case hexadecimal digits.
#[verifier::external_body]
fn percent_encode_byte(byte: u8) -> (text: &'static str)
    ensures
        text@ == percent_triplet(byte),
{
    percent_encoding::percent_encode_byte(byte)
}

/// `String::push` of std: the character is appended.
#[verifier::external_body]
fn push_char(text: &mut String, c: char)
    ensures
        final(text)@ == old(text)@.push(c),
{
    text.push(c)
}

/// Whether a byte of a key is escaped in a path segment.
pub fn should_escape(byte: u8) -> (escape: bool)
    ensures
        escape == must_escape(byte),
{
    byte >= 0x80 || byte < 0x20 || byte == 0x7f || byte == 0x20 || byte == 0x22 || byte == 0x23
        || byte == 0x3c || byte == 0x3e || byte == 0x60 || byte == 0x3f || byte == 0x7b || byte
        == 0x7d || byte == 0x25 || byte == 0x2f || byte == 0x5b || byte == 0x5d
}

/// Percent-encodes a key for use as one path segment.
pub fn url_encode_key(key: &str) -> (encoded: String)
    ensures
        encoded@ == encoded_key(key@),
{
    let bytes = key.as_bytes();
    let mut encoded = String::new();
    let mut i: usize = 0;
    assert(bytes@.take(0) =~= Seq::<u8>::empty());
    while i < bytes.len()
        invariant
            i <= bytes@.len(),
            encoded@ == encoded_bytes(bytes@.take(i as int)),
        decreases bytes@.len() - i,
    {
        let byte = *slice_index_get(bytes, i);
        proof {
            let next = bytes@.take(i + 1);
            assert(next.drop_last() =~= bytes@.take(i as int));
            assert(next.last() == byte);
        }
        if should_escape(byte) {
            encoded.append(percent_encode_byte(byte));
        } else {
            push_char(&mut encoded, byte as char);
            assert(encoded@ =~= encoded_bytes(bytes@.take(i as int)) + seq![byte as char]);
        }
        i += 1;
    }
    assert(bytes@.take(i as int) =~= bytes@);
    encoded
}

} // verus!
