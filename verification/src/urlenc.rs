//! Percent-encoding of URL query components, byte by byte over the UTF-8
//! encoding of the input, keeping only unreserved characters literal.

use vstd::prelude::*;
use vstd::string::StrSliceExecFns;
use vstd::string::StringSliceAdditionalSpecFns;

verus! {

/// Bytes that stay literal in an encoded component: ASCII letters, digits,
/// and `- _ . ! ~ * ' ( )`.
pub open spec fn is_unreserved_byte(b: u8) -> bool {
    ||| 65 <= b <= 90  // 'A'..'Z'
    ||| 97 <= b <= 122  // 'a'..'z'
    ||| 48 <= b <= 57  // '0'..'9'
    ||| b == 45  // '-'
    ||| b == 95  // '_'
    ||| b == 46  // '.'
    ||| b == 33  // '!'
    ||| b == 126  // '~'
    ||| b == 42  // '*'
    ||| b == 39  // '\''
    ||| b == 40  // '('
    ||| b == 41  // ')'
}

/// The upper-case hexadecimal digit for a value between 0 and 15.
pub open spec fn hex_digit_char(d: int) -> char {
    if d < 10 {
        ((48 + d) as u8) as char
    } else {
        ((55 + d) as u8) as char
    }
}

/// How one byte appears in an encoded component: itself when unreserved,
/// otherwise a percent escape of its two hexadecimal digits.
pub open spec fn encoded_byte(b: u8) -> Seq<char> {
    if is_unreserved_byte(b) {
        seq![b as char]
    } else {
        seq!['%', hex_digit_char(b as int / 16), hex_digit_char(b as int % 16)]
    }
}

/// The encoding of all bytes from position `i` on.
pub open spec fn encoded_from(bytes: Seq<u8>, i: int) -> Seq<char>
    decreases bytes.len() - i,
{
    if i < 0 || i >= bytes.len() {
        Seq::empty()
    } else {
        encoded_byte(bytes[i]) + encoded_from(bytes, i + 1)
    }
}

/// The percent-encoded form of a byte sequence.
pub open spec fn spec_encode_component(bytes: Seq<u8>) -> Seq<char> {
    encoded_from(bytes, 0)
}

/// Percent-encodes a string for use as one URL query component: each UTF-8
/// byte outside the unreserved set becomes `%XX` with upper-case digits.
pub fn encode_url_component(s: &str) -> (r: String)
    ensures
        r@ == spec_encode_component(s.spec_bytes()),
{
    let bytes = s.as_bytes_vec();
    let mut out = String::new();
    let mut i: usize = 0;
    while i < bytes.len()
        invariant
            i <= bytes@.len(),
            spec_encode_component(bytes@) =~= out@ + encoded_from(bytes@, i as int),
        decreases bytes@.len() - i,
    {
        let b = bytes[i];
        if (65 <= b && b <= 90) || (97 <= b && b <= 122) || (48 <= b && b <= 57) || b == 45
            || b == 95 || b == 46 || b == 33 || b == 126 || b == 42 || b == 39 || b == 40
            || b == 41 {
            push_byte_char(&mut out, b);
        } else {
            push_byte_char(&mut out, 37);
            push_hex_digit(&mut out, b / 16);
            push_hex_digit(&mut out, b % 16);
        }
        proof {
            assert(encoded_from(bytes@, i as int) =~= encoded_byte(bytes@[i as int])
                + encoded_from(bytes@, i + 1));
        }
        i = i + 1;
    }
    out
}

/// Appends the character whose code point is the given byte.
fn push_byte_char(out: &mut String, b: u8)
    ensures
        final(out)@ == old(out)@ + seq![b as char],
{
    crate::text::push_char(out, b as char);
}

/// Appends the upper-case hexadecimal digit of a value below 16.
fn push_hex_digit(out: &mut String, d: u8)
    requires
        d < 16,
    ensures
        final(out)@ == old(out)@ + seq![hex_digit_char(d as int)],
{
    if d < 10 {
        crate::text::push_char(out, (48u8 + d) as char);
    } else {
        crate::text::push_char(out, (55u8 + d) as char);
    }
}

} // verus!
