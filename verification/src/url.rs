//! Percent-encoding of URL components.

use vstd::prelude::*;
use vstd::utf8::*;

verus! {

/// Whether a byte stands for itself in an encoded component: an ASCII letter
/// or digit, `-`, `.`, `_` or `~`.
pub open spec fn is_unreserved(b: u8) -> bool {
    ||| 0x30 <= b <= 0x39
    ||| 0x41 <= b <= 0x5a
    ||| 0x61 <= b <= 0x7a
    ||| b == 0x2d
    ||| b == 0x2e
    ||| b == 0x5f
    ||| b == 0x7e
}

/// The upper-case hexadecimal digit of `n` (0 to 15).
pub open spec fn hex_upper(n: int) -> char {
    if 0 <= n < 10 {
        (0x30 + n) as char
    } else {
        (0x41 + n - 10) as char
    }
}

/// The number that a hexadecimal digit of either case writes.
pub open spec fn hex_value(c: char) -> Option<int> {
    if '0' <= c <= '9' {
        Some(c as int - 0x30)
    } else if 'A' <= c <= 'F' {
        Some(c as int - 0x41 + 10)
    } else if 'a' <= c <= 'f' {
        Some(c as int - 0x61 + 10)
    } else {
        None
    }
}

/// One byte, encoded: itself where unreserved, else `%` and two digits.
pub open spec fn encode_byte(b: u8) -> Seq<char> {
    if is_unreserved(b) {
        seq![b as char]
    } else {
        seq!['%', hex_upper(b as int / 16), hex_upper(b as int % 16)]
    }
}

/// The percent-encoding of a byte string.
pub open spec fn percent_encode(bytes: Seq<u8>) -> Seq<char>
    decreases bytes.len(),
{
    if bytes.len() == 0 {
        Seq::empty()
    } else {
        encode_byte(bytes[0]) + percent_encode(bytes.drop_first())
    }
}

/// The byte string that an encoded component stands for: `%` and two
/// hexadecimal digits give one byte, any other ASCII character gives itself.
/// `None` for a `%` without two digits and for a character outside ASCII.
pub open spec fn percent_decode(text: Seq<char>) -> Option<Seq<u8>>
    decreases text.len(),
{
    if text.len() == 0 {
        Some(Seq::empty())
    } else if text[0] == '%' {
        if text.len() >= 3 && hex_value(text[1]) is Some && hex_value(text[2]) is Some {
            match percent_decode(text.skip(3)) {
                Some(rest) => Some(
                    seq![(hex_value(text[1])->0 * 16 + hex_value(text[2])->0) as u8] + rest,
                ),
                None => None,
            }
        } else {
            None
        }
    } else if (text[0] as u32) < 128 {
        match percent_decode(text.drop_first()) {
            Some(rest) => Some(seq![text[0] as u8] + rest),
            None => None,
        }
    } else {
        None
    }
}

/// The encoding of a text as a URL component: the percent-encoding of its
/// UTF-8 bytes.
pub open spec fn encode_component(text: Seq<char>) -> Seq<char> {
    percent_encode(encode_utf8(text))
}

/// The text that an encoded component stands for, where it stands for one.
pub open spec fn decode_component(text: Seq<char>) -> Option<Seq<char>> {
    match percent_decode(text) {
        Some(bytes) => if valid_utf8(bytes) {
            Some(decode_utf8(bytes))
        } else {
            None
        },
        None => None,
    }
}

/// Whether a character may occur in an encoded component.
pub open spec fn is_component_char(c: char) -> bool {
    c == '%' || ((c as u32) < 128 && is_unreserved(c as u8)) || hex_value(c) is Some
}

/// Decoding undoes encoding, byte for byte.
pub proof fn percent_round_trip(bytes: Seq<u8>)
    ensures
        percent_decode(percent_encode(bytes)) == Some(bytes),
    decreases bytes.len(),
{
    if bytes.len() > 0 {
        let b = bytes[0];
        let rest = bytes.drop_first();
        let tail = percent_encode(rest);
        percent_round_trip(rest);
        let text = percent_encode(bytes);
        assert(text == encode_byte(b) + tail);
        if is_unreserved(b) {
            assert(text[0] == b as char);
            assert(text.drop_first() =~= tail);
            assert((b as char) as u8 == b);
            assert(seq![b] + rest =~= bytes);
        } else {
            let hi = b as int / 16;
            let lo = b as int % 16;
            assert(text[0] == '%');
            assert(text[1] == hex_upper(hi));
            assert(text[2] == hex_upper(lo));
            assert(text.skip(3) =~= tail);
            assert(hex_value(hex_upper(hi)) == Some(hi));
            assert(hex_value(hex_upper(lo)) == Some(lo));
            assert((hi * 16 + lo) as u8 == b);
            assert(seq![b] + rest =~= bytes);
        }
    }
}

/// A text that is encoded as a URL component and decoded again is the text
/// it was.
pub proof fn component_round_trip(text: Seq<char>)
    ensures
        decode_component(encode_component(text)) == Some(text),
{
    percent_round_trip(encode_utf8(text));
    encode_utf8_valid_utf8(text);
    encode_utf8_decode_utf8(text);
}

/// An encoded component is made of `%`, hexadecimal digits and unreserved
/// characters alone: it holds no `/`, `?`, `&` or `=`.
pub proof fn encoded_chars(bytes: Seq<u8>)
    ensures
        forall|i: int|
            0 <= i < percent_encode(bytes).len() ==> is_component_char(
                #[trigger] percent_encode(bytes)[i],
            ),
    decreases bytes.len(),
{
    if bytes.len() > 0 {
        let b = bytes[0];
        encoded_chars(bytes.drop_first());
        let head = encode_byte(b);
        let tail = percent_encode(bytes.drop_first());
        assert(percent_encode(bytes) == head + tail);
        assert forall|i: int| 0 <= i < (head + tail).len() implies is_component_char(
            #[trigger] (head + tail)[i],
        ) by {
            if i < head.len() {
                if is_unreserved(b) {
                    assert((b as char) as u8 == b);
                } else {
                    let hi = b as int / 16;
                    let lo = b as int % 16;
                    assert(hex_value(hex_upper(hi)) == Some(hi));
                    assert(hex_value(hex_upper(lo)) == Some(lo));
                }
            } else {
                assert((head + tail)[i] == tail[i - head.len()]);
            }
        }
    }
}

/// Encodes `text` with `urlencoding::encode`: every byte of its UTF-8 form
/// but an ASCII letter, a digit, `-`, `.`, `_` or `~` becomes `%` and its
/// two upper-case hexadecimal digits.
#[verifier::external_body]
pub(crate) fn encode(text: &str) -> (encoded: String)
    ensures
        encoded@ == encode_component(text@),
{
    urlencoding::encode(text).into_owned()
}

} // verus!
