//! Hexadecimal text: what counts as hex, what bytes it stands for, and the
//! decoder.

use vstd::prelude::*;
use vstd::string::*;

verus! {

/// One of `0-9`, `a-f`, `A-F`.
pub open spec fn is_hex_digit(c: char) -> bool {
    ('0' <= c <= '9') || ('a' <= c <= 'f') || ('A' <= c <= 'F')
}

/// The value of a hex digit, in either case.
pub open spec fn hex_digit_value(c: char) -> int {
    if '0' <= c <= '9' {
        c as u32 - 0x30
    } else if 'a' <= c <= 'f' {
        c as u32 - 0x61 + 10
    } else {
        c as u32 - 0x41 + 10
    }
}

/// Every character is a hex digit.
pub open spec fn is_hex_text(text: Seq<char>) -> bool {
    forall|i: int| 0 <= i < text.len() ==> is_hex_digit(#[trigger] text[i])
}

/// The text can be decoded: hex digits only, and an even number of them.
pub open spec fn is_hex_encoding(text: Seq<char>) -> bool {
    is_hex_text(text) && text.len() % 2 == 0
}

/// The bytes that a hex encoding stands for: each pair of digits is one
/// byte, the high digit first.
pub open spec fn hex_decoded(text: Seq<char>) -> Seq<u8> {
    Seq::new(
        text.len() / 2,
        |i: int| (16 * hex_digit_value(text[2 * i]) + hex_digit_value(text[2 * i + 1])) as u8,
    )
}

/// `hex::decode` on a string: it succeeds exactly on an even number of hex
/// digits (either case), and then gives one byte per pair of digits.
#[verifier::external_body]
pub(crate) fn hex_decode(text: &str) -> (bytes: Option<Vec<u8>>)
    ensures
        bytes.is_some() <==> is_hex_encoding(text@),
        bytes.is_some() ==> bytes.unwrap()@ == hex_decoded(text@),
{
    hex::decode(text).ok()
}

fn is_hex_byte(b: u8) -> (yes: bool)
    ensures
        yes == is_hex_digit(b as char),
{
    (0x30 <= b && b <= 0x39) || (0x61 <= b && b <= 0x66) || (0x41 <= b && b <= 0x46)
}

/// Whether every character of the text is a hex digit.
pub fn all_hex_digits(text: &str) -> (yes: bool)
    ensures
        yes == is_hex_text(text@),
{
    broadcast use is_ascii_spec_bytes;

    if !text.is_ascii() {
        proof {
            if is_hex_text(text@) {
                assert forall|i: int| 0 <= i < text@.len() implies '\0' <= #[trigger] text@[i]
                    <= '\u{7f}' by {
                    assert(is_hex_digit(text@[i]));
                }
                assert(false);
            }
        }
        return false;
    }
    let bytes = text.as_bytes();
    let n = bytes.len();
    let mut i: usize = 0;
    while i < n
        invariant
            n == bytes@.len(),
            bytes@.len() == text@.len(),
            i <= n,
            forall|j: int| 0 <= j < bytes@.len() ==> bytes@[j] == (#[trigger] text@[j]) as u8,
            forall|j: int| 0 <= j < bytes@.len() ==> '\0' <= #[trigger] text@[j] <= '\u{7f}',
            forall|j: int| 0 <= j < i ==> is_hex_digit(#[trigger] text@[j]),
        decreases n - i,
    {
        if !is_hex_byte(bytes[i]) {
            assert(!is_hex_digit(text@[i as int]));
            return false;
        }
        i = i + 1;
    }
    true
}

} // verus!
