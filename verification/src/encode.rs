//! Percent-encoding of a URL path segment.
//!
//! A crate name is interpolated into the lookup URL as one path segment, so
//! every byte outside the unreserved set is written as `%` followed by two
//! uppercase hexadecimal digits.

use vstd::prelude::*;

use crate::text::push_char;

verus! {

/// Bytes that stand for themselves in a URL path segment: ASCII letters,
/// digits, `-`, `.`, `_` and `~`.
pub open spec fn is_unreserved_byte(b: u8) -> bool {
    ||| 0x41 <= b <= 0x5a
    ||| 0x61 <= b <= 0x7a
    ||| 0x30 <= b <= 0x39
    ||| b == 0x2d
    ||| b == 0x2e
    ||| b == 0x5f
    ||| b == 0x7e
}

/// The character for one hexadecimal digit, uppercase.
pub open spec fn hex_char(d: u8) -> char {
    if d < 10 {
        ((0x30 + d) as u8) as char
    } else {
        ((0x37 + d) as u8) as char
    }
}

/// How one byte appears in the encoded segment.
pub open spec fn encoded_byte(b: u8) -> Seq<char> {
    if is_unreserved_byte(b) {
        seq![b as char]
    } else {
        seq!['%', hex_char(b / 16), hex_char(b % 16)]
    }
}

/// The percent-encoded form of a byte string.
pub open spec fn percent_encoded(bs: Seq<u8>) -> Seq<char>
    decreases bs.len(),
{
    if bs.len() == 0 {
        Seq::empty()
    } else {
        percent_encoded(bs.drop_last()) + encoded_byte(bs.last())
    }
}

pub(crate) fn hex_char_exec(d: u8) -> (r: char)
    requires
        d < 16,
    ensures
        r == hex_char(d),
{
    if d < 10 {
        (0x30 + d) as char
    } else {
        (0x37 + d) as char
    }
}

/// Percent-encodes a byte string into one URL path segment.
pub fn percent_encode(bytes: &Vec<u8>) -> (r: String)
    ensures
        r@ == percent_encoded(bytes@),
{
    let mut out = String::new();
    let mut i: usize = 0;
    while i < bytes.len()
        invariant
            i <= bytes@.len(),
            out@ == percent_encoded(bytes@.take(i as int)),
        decreases bytes@.len() - i,
    {
        let b = bytes[i];
        if (0x41 <= b && b <= 0x5a) || (0x61 <= b && b <= 0x7a) || (0x30 <= b && b <= 0x39) || b
            == 0x2d || b == 0x2e || b == 0x5f || b == 0x7e {
            push_char(&mut out, b as char);
        } else {
            push_char(&mut out, '%');
            push_char(&mut out, hex_char_exec(b / 16));
            push_char(&mut out, hex_char_exec(b % 16));
        }
        proof {
            let head = bytes@.take(i + 1);
            assert(head.drop_last() =~= bytes@.take(i as int));
            assert(head.last() == bytes@[i as int]);
            assert(out@ =~= percent_encoded(head));
        }
        i += 1;
    }
    proof {
        assert(bytes@.take(bytes@.len() as int) =~= bytes@);
    }
    out
}

} // verus!
