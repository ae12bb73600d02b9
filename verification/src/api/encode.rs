//! Percent-encoding of a search term for use inside a URL's query.

use vstd::prelude::*;
use vstd::utf8::encode_utf8;

verus! {

/// The bytes that stand for themselves in an encoded term: ASCII letters and
/// digits, and `-`, `.`, `_`, `~`.
pub open spec fn is_unreserved(byte: u8) -> bool {
    ||| 0x30 <= byte <= 0x39
    ||| 0x41 <= byte <= 0x5a
    ||| 0x61 <= byte <= 0x7a
    ||| byte == 0x2d
    ||| byte == 0x2e
    ||| byte == 0x5f
    ||| byte == 0x7e
}

/// The upper-case hexadecimal digit for a value below 16.
pub open spec fn hex_digit(nibble: u8) -> char {
    if nibble < 10 {
        (0x30 + nibble) as u8 as char
    } else {
        (0x41 + nibble - 10) as u8 as char
    }
}

/// How one byte is written: as itself if unreserved, else as `%` and two
/// hexadecimal digits.
pub open spec fn encoded_byte(byte: u8) -> Seq<char> {
    if is_unreserved(byte) {
        seq![byte as char]
    } else {
        seq!['%', hex_digit(byte / 16), hex_digit(byte % 16)]
    }
}

/// The percent-encoding of a byte string, byte by byte.
pub open spec fn percent_encoded(bytes: Seq<u8>) -> Seq<char>
    decreases bytes.len(),
{
    if bytes.len() == 0 {
        Seq::empty()
    } else {
        percent_encoded(bytes.drop_last()) + encoded_byte(bytes.last())
    }
}

/// The percent-encoding of a text: that of its UTF-8 bytes.
pub open spec fn encoded_term(term: Seq<char>) -> Seq<char> {
    percent_encoded(encode_utf8(term))
}

/// Calls `urlencoding::encode`, which walks the UTF-8 bytes of its argument,
/// copies alphanumerics and `-`, `.`, `_`, `~`, and writes every other byte as
/// `%` followed by its two upper-case hexadecimal digits.
#[verifier::external_body]
pub(crate) fn encode_term(term: &str) -> (encoded: String)
    ensures
        encoded@ == encoded_term(term@),
{
    urlencoding::encode(term).into_owned()
}

} // verus!
