use vstd::prelude::*;
use vstd::utf8::encode_utf8;

verus! {

/// An ASCII letter or digit: the only bytes that percent-encoding with the
/// "non-alphanumeric" set leaves as they are.
pub open spec fn is_ascii_alphanumeric(b: u8) -> bool {
    (0x30 <= b <= 0x39) || (0x41 <= b <= 0x5A) || (0x61 <= b <= 0x7A)
}

/// The upper-case hexadecimal digit for a value below sixteen.
pub open spec fn hex_digit(n: u8) -> char {
    if n < 10 {
        (0x30 + n) as char
    } else {
        (0x41 + n - 10) as char
    }
}

/// What a single byte becomes: itself if alphanumeric, else `%` and two hex digits.
pub open spec fn encoded_byte(b: u8) -> Seq<char> {
    if is_ascii_alphanumeric(b) {
        seq![b as char]
    } else {
        seq!['%', hex_digit(b / 16), hex_digit(b % 16)]
    }
}

/// Percent-encoding of a byte sequence, byte by byte.
pub open spec fn encoded_bytes(bytes: Seq<u8>) -> Seq<char>
    decreases bytes.len(),
{
    if bytes.len() == 0 {
        seq![]
    } else {
        encoded_bytes(bytes.drop_last()) + encoded_byte(bytes.last())
    }
}

/// Percent-encoding of the UTF-8 form of a string, every byte outside
/// `[A-Za-z0-9]` escaped.
pub open spec fn percent_encoded(s: Seq<char>) -> Seq<char> {
    encoded_bytes(encode_utf8(s))
}

/// Relies on `percent_encoding::utf8_percent_encode` with `NON_ALPHANUMERIC`:
/// each UTF-8 byte that is not an ASCII letter or digit is written as `%XX`
/// with upper-case hex digits, every other byte is kept.
#[verifier::external_body]
pub(crate) fn percent_encode(s: &str) -> (r: String)
    ensures
        r@ == percent_encoded(s@),
{
    percent_encoding::utf8_percent_encode(s, percent_encoding::NON_ALPHANUMERIC).to_string()
}

} // verus!
