//! The audio payload of a request: base64 text of bounded size.

use vstd::prelude::*;

verus! {

/// What `base64::decode` makes of a text: the bytes, or the message of its
/// error. Nothing more is said of it here.
pub uninterp spec fn base64_decoding(text: Seq<char>) -> Result<Seq<u8>, Seq<char>>;

/// The content of a decoder's answer.
pub open spec fn decoding_of(answer: Result<Vec<u8>, String>) -> Result<Seq<u8>, Seq<char>> {
    match answer {
        Ok(bytes) => Ok(bytes@),
        Err(message) => Err(message@),
    }
}

/// Calls `base64::decode`. Taken on trust: the answer depends on the text
/// alone, so that it is the one named by [`base64_decoding`]; an error is
/// given by its message. Texts longer than a quarter of the address space
/// are left out, because the decoder computes four times the length of its
/// input.
#[verifier::external_body]
fn decode_standard(text: &str) -> (r: Result<Vec<u8>, String>)
    requires
        text.len() <= usize::MAX / 4,
    ensures
        decoding_of(r) == base64_decoding(text@),
{
    match base64::decode(text) {
        Ok(bytes) => Ok(bytes),
        Err(error) => Err(error.to_string()),
    }
}

/// Why a payload was not decoded.
#[derive(Debug)]
pub enum PayloadError {
    /// The text is longer than the limit.
    TooLarge,
    /// The text is not base64; the decoder's message says why.
    Malformed(String),
}

/// Whether a payload of this text is within the limit.
pub open spec fn within_limit(text: &str, limit: usize) -> bool {
    text.len() <= limit && text.len() <= usize::MAX / 4
}

/// What is made of the decoder's answer: the bytes, or the payload as
/// malformed with the decoder's message.
pub fn checked_payload(answer: Result<Vec<u8>, String>) -> (r: Result<Vec<u8>, PayloadError>)
    ensures
        match r {
            Ok(bytes) => decoding_of(answer) == Ok::<Seq<u8>, Seq<char>>(bytes@),
            Err(PayloadError::Malformed(message)) => decoding_of(answer) == Err::<
                Seq<u8>,
                Seq<char>,
            >(message@),
            Err(PayloadError::TooLarge) => false,
        },
{
    match answer {
        Ok(bytes) => Ok(bytes),
        Err(message) => Err(PayloadError::Malformed(message)),
    }
}

/// Decodes the base64 text of a request. A text of more than `limit` bytes,
/// or of more than a quarter of the address space, is too large. Any other
/// text is decoded, and is malformed where the decoder says so.
pub fn decode_payload(text: &str, limit: usize) -> (r: Result<Vec<u8>, PayloadError>)
    ensures
        match r {
            Ok(bytes) => within_limit(text, limit) && base64_decoding(text@) == Ok::<
                Seq<u8>,
                Seq<char>,
            >(bytes@),
            Err(PayloadError::Malformed(message)) => within_limit(text, limit) && base64_decoding(
                text@,
            ) == Err::<Seq<u8>, Seq<char>>(message@),
            Err(PayloadError::TooLarge) => !within_limit(text, limit),
        },
{
    if text.len() > limit || text.len() > usize::MAX / 4 {
        Err(PayloadError::TooLarge)
    } else {
        checked_payload(decode_standard(text))
    }
}

/// What is said of a payload error.
pub open spec fn payload_error_text(error: PayloadError) -> Seq<char> {
    match error {
        PayloadError::TooLarge => "audio data exceeds the size limit"@,
        PayloadError::Malformed(message) => message@,
    }
}

} // verus!
