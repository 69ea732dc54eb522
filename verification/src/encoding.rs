//! Percent-encoding of URL components, made by the `urlencoding` crate.
use vstd::prelude::*;

verus! {

/// The bytes `urlencoding::encode` keeps as they are: ASCII letters and
/// digits, `-`, `.`, `_` and `~`.
pub open spec fn is_unreserved(b: u8) -> bool {
    ||| (48 <= b && b <= 57)
    ||| (65 <= b && b <= 90)
    ||| (97 <= b && b <= 122)
    ||| b == 45
    ||| b == 46
    ||| b == 95
    ||| b == 126
}

/// The upper-case hexadecimal digit of `d` (for `d < 16`).
pub open spec fn hex_upper(d: u8) -> char {
    if d < 10 {
        ((48 + d) as u8) as char
    } else {
        ((55 + d) as u8) as char
    }
}

/// One byte, encoded: itself when it is unreserved, else `%` and its two
/// upper-case hexadecimal digits.
pub open spec fn encode_byte(b: u8) -> Seq<char> {
    if is_unreserved(b) {
        seq![b as char]
    } else {
        seq!['%', hex_upper(b / 16), hex_upper(b % 16)]
    }
}

/// Each of `bytes`, encoded.
pub open spec fn encode_bytes(bytes: Seq<u8>) -> Seq<char>
    decreases bytes.len(),
{
    if bytes.len() == 0 {
        Seq::empty()
    } else {
        encode_bytes(bytes.drop_last()) + encode_byte(bytes.last())
    }
}

/// What `urlencoding::encode` gives for `s`: the bytes of its UTF-8
/// encoding, each encoded.
pub open spec fn url_encoded(s: Seq<char>) -> Seq<char> {
    encode_bytes(vstd::utf8::encode_utf8(s))
}

/// What `urlencoding::decode` gives for `s`: the decoded text, or the text
/// of the error when the decoded bytes are not UTF-8.
pub uninterp spec fn url_decode_result(s: Seq<char>) -> Result<Seq<char>, Seq<char>>;

/// Calls `urlencoding::encode`, which percent-encodes every byte of the
/// UTF-8 text except ASCII letters, digits, `-`, `.`, `_` and `~`, with
/// upper-case hexadecimal digits (see [`url_encoded`]).
#[verifier::external_body]
pub(crate) fn url_encode(s: &str) -> (r: String)
    ensures
        r@ == url_encoded(s@),
{
    urlencoding::encode(s).into_owned()
}

/// Calls `urlencoding::decode`; its outcome is named [`url_decode_result`],
/// an error being kept as its text.
#[verifier::external_body]
pub(crate) fn url_decode(s: &str) -> (r: Result<String, String>)
    ensures
        match r {
            Ok(d) => url_decode_result(s@) == Ok::<Seq<char>, Seq<char>>(d@),
            Err(m) => url_decode_result(s@) == Err::<Seq<char>, Seq<char>>(m@),
        },
{
    match urlencoding::decode(s) {
        Ok(d) => Ok(d.into_owned()),
        Err(e) => Err(e.to_string()),
    }
}

} // verus!
