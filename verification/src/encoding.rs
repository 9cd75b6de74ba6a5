//! Percent-encoding of parameter values.
//!
//! A value is encoded byte by byte over its UTF-8 form: the unreserved
//! characters of RFC 3986 stand for themselves, every other byte becomes `%`
//! followed by two upper-case hexadecimal digits. The encoded text is plain
//! ASCII and holds none of the characters that delimit a URL's parts, so a
//! value can be placed in a path segment, a query string or a form body and
//! read back unchanged.

use vstd::prelude::*;
use vstd::string::*;
use vstd::utf8::{
    decode_utf8, encode_utf8, encode_utf8_decode_utf8, is_ascii_chars, is_ascii_chars_encode_utf8,
};

verus! {

/// `String::push` appends exactly one character to the end of the string.
pub assume_specification[ String::push ](s: &mut String, ch: char)
    ensures
        final(s)@ == old(s)@.push(ch),
;

/// The bytes that are never escaped: ASCII letters, digits, `-`, `.`, `_`, `~`.
pub open spec fn is_unreserved(b: u8) -> bool {
    ||| 0x41 <= b <= 0x5a
    ||| 0x61 <= b <= 0x7a
    ||| 0x30 <= b <= 0x39
    ||| b == 0x2d
    ||| b == 0x2e
    ||| b == 0x5f
    ||| b == 0x7e
}

/// The upper-case hexadecimal digit for a value below sixteen.
pub open spec fn hex_digit(n: u8) -> char {
    if n < 10 {
        (0x30 + n) as char
    } else {
        (0x37 + n) as char
    }
}

/// The value of a hexadecimal digit of either case, if `c` is one.
pub open spec fn hex_value(c: char) -> Option<u8> {
    let n = c as u32;
    if 0x30 <= n <= 0x39 {
        Some((n - 0x30) as u8)
    } else if 0x41 <= n <= 0x46 {
        Some((n - 0x37) as u8)
    } else if 0x61 <= n <= 0x66 {
        Some((n - 0x57) as u8)
    } else {
        None
    }
}

/// The encoded form of one byte.
pub open spec fn encode_byte(b: u8) -> Seq<char> {
    if is_unreserved(b) {
        seq![b as char]
    } else {
        seq!['%', hex_digit(b / 16), hex_digit(b % 16)]
    }
}

/// The encoded form of a byte sequence: the encoded bytes, in order.
pub open spec fn encoded(bytes: Seq<u8>) -> Seq<char>
    decreases bytes.len(),
{
    if bytes.len() == 0 {
        Seq::empty()
    } else {
        encode_byte(bytes[0]) + encoded(bytes.skip(1))
    }
}

/// The percent-encoded form of a text, taken over its UTF-8 bytes.
pub open spec fn escaped(text: Seq<char>) -> Seq<char> {
    encoded(encode_utf8(text))
}

/// Whether a text is made of unreserved characters only.
pub open spec fn is_plain(text: Seq<char>) -> bool {
    forall|i: int| 0 <= i < text.len() ==> is_encoded_char(#[trigger] text[i]) && text[i] != '%'
}

/// What an encoded text stands for. An escape is `%` and two hexadecimal
/// digits; any other ASCII character stands for itself. A text with a broken
/// escape or a character outside ASCII stands for nothing.
pub open spec fn decoded(text: Seq<char>) -> Option<Seq<u8>>
    decreases text.len(),
{
    if text.len() == 0 {
        Some(Seq::empty())
    } else if text[0] == '%' {
        if text.len() >= 3 && hex_value(text[1]) is Some && hex_value(text[2]) is Some {
            match decoded(text.skip(3)) {
                Some(rest) => Some(
                    seq![(hex_value(text[1])->0 * 16 + hex_value(text[2])->0) as u8] + rest,
                ),
                None => None,
            }
        } else {
            None
        }
    } else if text[0] <= '\u{7f}' {
        match decoded(text.skip(1)) {
            Some(rest) => Some(seq![text[0] as u8] + rest),
            None => None,
        }
    } else {
        None
    }
}

/// A character that may appear in encoded text: an unreserved one or `%`.
pub open spec fn is_encoded_char(c: char) -> bool {
    c <= '\u{7f}' && (is_unreserved(c as u8) || c == '%')
}

proof fn lemma_encoded_unreserved(bytes: Seq<u8>)
    requires
        forall|i: int| 0 <= i < bytes.len() ==> is_unreserved(#[trigger] bytes[i]),
    ensures
        encoded(bytes) == Seq::new(bytes.len(), |i: int| bytes[i] as char),
    decreases bytes.len(),
{
    if bytes.len() > 0 {
        let tail = bytes.skip(1);
        assert forall|i: int| 0 <= i < tail.len() implies is_unreserved(#[trigger] tail[i]) by {
            assert(tail[i] == bytes[i + 1]);
        }
        lemma_encoded_unreserved(tail);
        assert(is_unreserved(bytes[0]));
        assert(encoded(bytes) =~= Seq::new(bytes.len(), |i: int| bytes[i] as char));
    } else {
        assert(encoded(bytes) =~= Seq::new(bytes.len(), |i: int| bytes[i] as char));
    }
}

/// A text made of unreserved characters only is its own encoded form.
pub proof fn lemma_escaped_plain(text: Seq<char>)
    requires
        is_plain(text),
    ensures
        escaped(text) == text,
{
    assert(is_ascii_chars(text)) by {
        assert forall|i: int| 0 <= i < text.len() implies '\0' <= #[trigger] text[i] <= '\u{7f}' by {
            assert(is_encoded_char(text[i]));
            lemma_char_range(text[i]);
        }
    }
    is_ascii_chars_encode_utf8(text);
    let bytes = encode_utf8(text);
    assert forall|i: int| 0 <= i < bytes.len() implies is_unreserved(#[trigger] bytes[i]) by {
        assert(is_encoded_char(text[i]));
        assert(bytes[i] == text[i] as u8);
    }
    lemma_encoded_unreserved(bytes);
    assert forall|i: int| 0 <= i < text.len() implies (bytes[i] as char) == #[trigger] text[i] by {
        assert(is_encoded_char(text[i]));
        lemma_char_range(text[i]);
        assert(bytes[i] == text[i] as u8);
    }
    assert(escaped(text) =~= text);
}

/// Every character of an encoded text is unreserved or `%`: none is `/`, `?`,
/// `#`, `&`, `=` or a space.
pub proof fn lemma_encoded_is_url_safe(bytes: Seq<u8>)
    ensures
        forall|i: int| 0 <= i < encoded(bytes).len() ==> is_encoded_char(#[trigger] encoded(bytes)[i]),
    decreases bytes.len(),
{
    if bytes.len() > 0 {
        lemma_encoded_is_url_safe(bytes.skip(1));
        let head = encode_byte(bytes[0]);
        let tail = encoded(bytes.skip(1));
        assert forall|i: int| 0 <= i < encoded(bytes).len() implies is_encoded_char(
            #[trigger] encoded(bytes)[i],
        ) by {
            if i < head.len() {
                assert(encoded(bytes)[i] == head[i]);
            } else {
                assert(encoded(bytes)[i] == tail[i - head.len()]);
            }
        }
    }
}

/// Decoding an encoded value gives the value back, whatever bytes it holds.
pub proof fn lemma_decode_encode(bytes: Seq<u8>)
    ensures
        decoded(encoded(bytes)) == Some(bytes),
    decreases bytes.len(),
{
    if bytes.len() > 0 {
        let b = bytes[0];
        let tail = encoded(bytes.skip(1));
        let text = encoded(bytes);
        lemma_decode_encode(bytes.skip(1));
        if is_unreserved(b) {
            assert(text.skip(1) =~= tail);
            assert(text[0] == b as char);
            assert(seq![b] + bytes.skip(1) =~= bytes);
        } else {
            assert(text.skip(3) =~= tail);
            assert(text[0] == '%');
            assert(text[1] == hex_digit(b / 16));
            assert(text[2] == hex_digit(b % 16));
            assert(hex_value(hex_digit(b / 16)) == Some(b / 16));
            assert(hex_value(hex_digit(b % 16)) == Some(b % 16));
            assert(seq![b] + bytes.skip(1) =~= bytes);
        }
    } else {
        assert(decoded(encoded(bytes)) =~= Some(bytes));
    }
}

/// A parameter value survives the trip through a URL: decoding its escaped
/// form gives its UTF-8 bytes, which spell the value again, and the escaped
/// form holds no character that could end the part of the URL it stands in.
pub proof fn lemma_escaped_round_trip(value: Seq<char>)
    ensures
        decoded(escaped(value)) == Some(encode_utf8(value)),
        decode_utf8(encode_utf8(value)) == value,
        forall|i: int|
            0 <= i < escaped(value).len() ==> is_encoded_char(#[trigger] escaped(value)[i]),
{
    lemma_decode_encode(encode_utf8(value));
    encode_utf8_decode_utf8(value);
    lemma_encoded_is_url_safe(encode_utf8(value));
}

pub(crate) proof fn lemma_char_range(c: char)
    ensures
        (c <= '\u{7f}') == ((c as u32) < 0x80),
        '\0' <= c,
{
}

/// A text that holds a character outside ASCII stands for nothing.
proof fn lemma_decoded_needs_ascii(text: Seq<char>, at: int)
    requires
        0 <= at < text.len(),
        text[at] > '\u{7f}',
    ensures
        decoded(text) is None,
    decreases text.len(),
{
    lemma_char_range(text[at]);
    if text[0] == '%' {
        if text.len() >= 3 && hex_value(text[1]) is Some && hex_value(text[2]) is Some {
            assert(at >= 3);
            lemma_decoded_needs_ascii(text.skip(3), at - 3);
        }
    } else if text[0] <= '\u{7f}' {
        lemma_decoded_needs_ascii(text.skip(1), at - 1);
    }
}

fn hex_char(n: u8) -> (c: char)
    requires
        n < 16,
    ensures
        c == hex_digit(n),
{
    if n < 10 {
        (0x30 + n) as char
    } else {
        (0x37 + n) as char
    }
}

fn hex_number(b: u8) -> (r: Option<u8>)
    ensures
        r == hex_value(b as char),
{
    if 0x30 <= b && b <= 0x39 {
        Some(b - 0x30)
    } else if 0x41 <= b && b <= 0x46 {
        Some(b - 0x37)
    } else if 0x61 <= b && b <= 0x66 {
        Some(b - 0x57)
    } else {
        None
    }
}

fn unreserved(b: u8) -> (r: bool)
    ensures
        r == is_unreserved(b),
{
    (0x41 <= b && b <= 0x5a) || (0x61 <= b && b <= 0x7a) || (0x30 <= b && b <= 0x39) || b == 0x2d
        || b == 0x2e || b == 0x5f || b == 0x7e
}

/// Appends the encoded form of `value` to `out`.
pub fn push_encoded(out: &mut String, value: &str)
    ensures
        final(out)@ == old(out)@ + encoded(value.spec_bytes()),
{
    let bytes = value.as_bytes();
    let n = bytes.len();
    let mut i: usize = 0;
    assert(bytes@.skip(0) =~= bytes@);
    while i < n
        invariant
            n == bytes@.len(),
            i <= n,
            bytes@ == value.spec_bytes(),
            old(out)@ + encoded(bytes@) == out@ + encoded(bytes@.skip(i as int)),
        decreases n - i,
    {
        let b = bytes[i];
        let ghost before = out@;
        assert(bytes@.skip(i as int).skip(1) =~= bytes@.skip(i + 1));
        assert(bytes@.skip(i as int)[0] == b);
        if unreserved(b) {
            out.push(b as char);
        } else {
            out.push('%');
            out.push(hex_char(b / 16));
            out.push(hex_char(b % 16));
        }
        assert(out@ =~= before + encode_byte(b));
        assert(out@ + encoded(bytes@.skip(i + 1)) =~= before + encoded(bytes@.skip(i as int)));
        i += 1;
    }
    assert(out@ =~= old(out)@ + encoded(value.spec_bytes()));
}

/// The encoded form of `value`, safe to place in a path segment, a query
/// string or a form body.
pub fn percent_encode(value: &str) -> (text: String)
    ensures
        text@ == encoded(value.spec_bytes()),
{
    let mut text = String::new();
    push_encoded(&mut text, value);
    assert(text@ =~= encoded(value.spec_bytes()));
    text
}

/// The bytes that `text` stands for, or `None` where `text` has a broken
/// escape or a character outside ASCII.
pub fn percent_decode(text: &str) -> (bytes: Option<Vec<u8>>)
    ensures
        match bytes {
            Some(v) => decoded(text@) == Some(v@),
            None => decoded(text@) is None,
        },
{
    if !text.is_ascii() {
        proof {
            let at = choose|i: int|
                0 <= i < text@.len() && !('\0' <= #[trigger] text@[i] <= '\u{7f}');
            lemma_char_range(text@[at]);
            lemma_decoded_needs_ascii(text@, at);
        }
        return None;
    }
    let raw = text.as_bytes();
    proof {
        is_ascii_spec_bytes(text);
        assert forall|k: int| 0 <= k < text@.len() implies #[trigger] raw@[k] as char == text@[k]
            && raw@[k] < 0x80 by {
            assert('\0' <= text@[k] <= '\u{7f}');
            assert(raw@[k] == text@[k] as u8);
        }
    }
    let n = raw.len();
    let mut out: Vec<u8> = Vec::new();
    let mut i: usize = 0;
    assert(text@.skip(0) =~= text@);
    while i < n
        invariant
            n == raw@.len(),
            n == text@.len(),
            i <= n,
            forall|k: int| 0 <= k < n ==> #[trigger] raw@[k] as char == text@[k] && raw@[k] < 0x80,
            decoded(text@) == match decoded(text@.skip(i as int)) {
                Some(rest) => Some(out@ + rest),
                None => None,
            },
        decreases n - i,
    {
        let ghost here = text@.skip(i as int);
        let b = raw[i];
        assert(here[0] == text@[i as int]);
        assert(b as char == here[0]);
        if b == 0x25 {
            if n - i < 3 {
                return None;
            }
            assert(here[1] == text@[i + 1] && here[1] == raw@[i + 1] as char);
            assert(here[2] == text@[i + 2] && here[2] == raw@[i + 2] as char);
            let hi = hex_number(raw[i + 1]);
            let lo = hex_number(raw[i + 2]);
            match (hi, lo) {
                (Some(h), Some(l)) => {
                    let ghost before = out@;
                    out.push(h * 16 + l);
                    assert(here.skip(3) =~= text@.skip(i + 3));
                    assert forall|rest: Seq<u8>| before + (seq![(h * 16 + l) as u8] + rest) == out@ + rest by {
                        assert(before + (seq![(h * 16 + l) as u8] + rest) =~= out@ + rest);
                    }
                    i += 3;
                },
                _ => {
                    return None;
                },
            }
        } else {
            let ghost before = out@;
            out.push(b);
            assert(here.skip(1) =~= text@.skip(i + 1));
            assert forall|rest: Seq<u8>| before + (seq![b] + rest) == out@ + rest by {
                assert(before + (seq![b] + rest) =~= out@ + rest);
            }
            i += 1;
        }
    }
    assert(out@ + Seq::<u8>::empty() =~= out@);
    Some(out)
}

} // verus!
