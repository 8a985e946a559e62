//! The text form in which bytes cross the command boundary: base64 with the
//! standard alphabet and padding, on one line.

use vstd::prelude::*;

verus! {

/// The character that stands for a six-bit value in the standard alphabet.
pub open spec fn digit(value: int) -> char
    recommends
        0 <= value < 64,
{
    "ABCDEFGHIJKLMNOPQRSTUVWXYZabcdefghijklmnopqrstuvwxyz0123456789+/"@[value]
}

/// The base64 text of a byte sequence: four characters for every three
/// bytes, the last group filled up with `=` where fewer than three bytes are
/// left.
pub open spec fn base64_text(bytes: Seq<u8>) -> Seq<char>
    decreases bytes.len(),
{
    if bytes.len() == 0 {
        Seq::empty()
    } else if bytes.len() == 1 {
        seq![digit(bytes[0] as int / 4), digit((bytes[0] as int % 4) * 16), '=', '=']
    } else if bytes.len() == 2 {
        seq![
            digit(bytes[0] as int / 4),
            digit((bytes[0] as int % 4) * 16 + bytes[1] as int / 16),
            digit((bytes[1] as int % 16) * 4),
            '=',
        ]
    } else {
        seq![
            digit(bytes[0] as int / 4),
            digit((bytes[0] as int % 4) * 16 + bytes[1] as int / 16),
            digit((bytes[1] as int % 16) * 4 + bytes[2] as int / 64),
            digit(bytes[2] as int % 64),
        ] + base64_text(bytes.skip(3))
    }
}

/// Calls `Engine::encode` of the `base64` crate on its `STANDARD` engine.
/// Trusted: the text returned is the padded base64 form of the bytes in the
/// standard alphabet, without line breaks. The call cannot overflow its
/// length arithmetic on the contents of a `Vec`.
#[verifier::external_body]
pub(crate) fn encode_base64(bytes: &Vec<u8>) -> (text: String)
    ensures
        text@ == base64_text(bytes@),
{
    base64::Engine::encode(&base64::engine::general_purpose::STANDARD, bytes)
}

} // verus!
