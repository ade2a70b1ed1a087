//! Encodings of text and bytes that the token request needs.

use vstd::prelude::*;
use vstd::utf8::*;

verus! {

/// A byte that stands for itself in a percent-encoded text: an ASCII letter
/// or digit, or one of `-`, `.`, `_`, `~`.
pub open spec fn unreserved(b: u8) -> bool {
    (48 <= b <= 57) || (65 <= b <= 90) || (97 <= b <= 122) || b == 45 || b == 46 || b == 95 || b
        == 126
}

/// The upper-case hexadecimal digit of `d`, as an ASCII code.
pub open spec fn hex_digit(d: int) -> u8 {
    if d < 10 {
        (48 + d) as u8
    } else {
        (55 + d) as u8
    }
}

/// What one byte becomes: itself, or `%` and its two hexadecimal digits.
pub open spec fn percent_byte(b: u8) -> Seq<char> {
    if unreserved(b) {
        seq![b as char]
    } else {
        seq!['%', hex_digit(b as int / 16) as char, hex_digit(b as int % 16) as char]
    }
}

/// The percent-encoding of `bytes`.
pub open spec fn percent_encoded(bytes: Seq<u8>) -> Seq<char>
    decreases bytes.len(),
{
    if bytes.len() == 0 {
        Seq::empty()
    } else {
        percent_encoded(bytes.drop_last()) + percent_byte(bytes.last())
    }
}

/// `urlencoding::encode`: byte by byte of the UTF-8 form of `text`, a byte
/// that is unreserved is kept and any other is written as `%` and two
/// upper-case hexadecimal digits.
#[verifier::external_body]
pub(crate) fn percent_encode(text: &str) -> (encoded: String)
    ensures
        encoded@ == percent_encoded(encode_utf8(text@)),
{
    urlencoding::encode(text).into_owned()
}

/// The Base64 form of `bytes`, in the standard alphabet and with padding.
pub uninterp spec fn base64_standard(bytes: Seq<u8>) -> Seq<char>;

/// The longest input for which the length of the Base64 form is sure to fit
/// in `usize`.
pub const BASE64_MAX_INPUT: usize = 0x2000_0000;

/// `base64::encode`: the text depends on the bytes alone, and
/// `base64_standard` is the name of it. Longer inputs are left out because
/// the length of the result must fit in `usize`.
#[verifier::external_body]
pub(crate) fn base64_encode(bytes: &[u8]) -> (encoded: String)
    requires
        bytes@.len() <= BASE64_MAX_INPUT,
    ensures
        encoded@ == base64_standard(bytes@),
{
    base64::encode(bytes)
}

/// A digit of a lower-case hexadecimal numeral.
pub open spec fn lower_hex_digit(c: char) -> bool {
    ('0' <= c <= '9') || ('a' <= c <= 'f')
}

/// Whether `text` is the hyphenated form of a random identifier: 36
/// characters, hyphens after the 8th, the 12th, the 16th and the 20th digit,
/// lower-case hexadecimal digits elsewhere; the 13th digit is the version,
/// 4, and the 17th holds the variant, one of `8`, `9`, `a`, `b`.
pub open spec fn is_uuid_v4_text(text: Seq<char>) -> bool {
    &&& text.len() == 36
    &&& forall|i: int|
        0 <= i < 36 ==> if i == 8 || i == 13 || i == 18 || i == 23 {
            #[trigger] text[i] == '-'
        } else {
            lower_hex_digit(text[i])
        }
    &&& text[14] == '4'
    &&& (text[19] == '8' || text[19] == '9' || text[19] == 'a' || text[19] == 'b')
}

/// `uuid::Uuid::new_v4`, written as text by `to_string`: a fresh random
/// identifier at each call. Which one it is depends on chance; every one
/// has the version and the variant of a random identifier set, and is
/// written in the hyphenated lower-case form.
#[verifier::external_body]
pub(crate) fn random_uuid() -> (id: String)
    ensures
        is_uuid_v4_text(id@),
{
    uuid::Uuid::new_v4().to_string()
}

} // verus!
