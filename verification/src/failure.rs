//! What can stop a request before a command is found, and what is answered
//! then.

use vstd::prelude::*;
use vstd::string::StringExecFns;
use crate::number::Number;
use crate::payload::{payload_error_text, PayloadError};
use crate::response::{KakaiaResponse, ResponseModel};

verus! {

/// Why a request was given up. Where the reason comes from outside, its text
/// is carried along.
#[derive(Debug)]
pub enum Failure {
    /// The payload was not decoded.
    Payload(PayloadError),
    /// No temporary file could be created.
    TemporaryFileCreation(String),
    /// The temporary file could not be opened.
    TemporaryFileOpening(String),
    /// The audio could not be written to the temporary file.
    TemporaryFileWriting(String),
    /// The directory for the day could not be created.
    ArchiveDirectory { directory: String, reason: String },
    /// The audio could not be freed of noise.
    Denoising,
}

/// The message for a person.
pub open spec fn failure_message(failure: Failure) -> Seq<char> {
    match failure {
        Failure::Payload(_) => "unexpected error decoding audio data"@,
        Failure::TemporaryFileCreation(_) => "unexpected error creating a temporary file"@,
        Failure::TemporaryFileOpening(_) => "unexpected error opening a temporary file"@,
        Failure::TemporaryFileWriting(_) => "unexpected error creating a temporary file"@,
        Failure::ArchiveDirectory { .. } => "unexpected error creating directory"@,
        Failure::Denoising => "unexpected error denoising audio"@,
    }
}

/// What is given in place of a transcript.
pub open spec fn failure_detail(failure: Failure) -> Seq<char> {
    match failure {
        Failure::Payload(error) => "failed to decode audio.data: "@ + payload_error_text(error)
            + "\n"@,
        Failure::TemporaryFileCreation(reason) => "failed to create temporary file: "@ + reason@,
        Failure::TemporaryFileOpening(reason) => "failed to open temporary file: "@ + reason@,
        Failure::TemporaryFileWriting(reason) => "failed to create temporary file: "@ + reason@,
        Failure::ArchiveDirectory { directory, reason } => "failed to create directory '"@
            + directory@ + "': "@ + reason@,
        Failure::Denoising => "failed to denoise audio"@,
    }
}

/// The response to a request that was given up: no command, the message, the
/// detail in place of a transcript, and zero.
pub fn failure_response(failure: &Failure) -> (r: KakaiaResponse)
    ensures
        r@ == (ResponseModel {
            command: "none"@,
            human: failure_message(*failure),
            raw: failure_detail(*failure),
            result: Number::Integer(0),
        }),
{
    match failure {
        Failure::Payload(error) => {
            let mut detail = String::from_str("failed to decode audio.data: ");
            match error {
                PayloadError::TooLarge => detail.append("audio data exceeds the size limit"),
                PayloadError::Malformed(message) => detail.append(message.as_str()),
            }
            detail.append("\n");
            KakaiaResponse::failure("unexpected error decoding audio data", detail.as_str())
        },
        Failure::TemporaryFileCreation(reason) => {
            let mut detail = String::from_str("failed to create temporary file: ");
            detail.append(reason.as_str());
            KakaiaResponse::failure("unexpected error creating a temporary file", detail.as_str())
        },
        Failure::TemporaryFileOpening(reason) => {
            let mut detail = String::from_str("failed to open temporary file: ");
            detail.append(reason.as_str());
            KakaiaResponse::failure("unexpected error opening a temporary file", detail.as_str())
        },
        Failure::TemporaryFileWriting(reason) => {
            let mut detail = String::from_str("failed to create temporary file: ");
            detail.append(reason.as_str());
            KakaiaResponse::failure("unexpected error creating a temporary file", detail.as_str())
        },
        Failure::ArchiveDirectory { directory, reason } => {
            let mut detail = String::from_str("failed to create directory '");
            detail.append(directory.as_str());
            detail.append("': ");
            detail.append(reason.as_str());
            KakaiaResponse::failure("unexpected error creating directory", detail.as_str())
        },
        Failure::Denoising => KakaiaResponse::failure(
            "unexpected error denoising audio",
            "failed to denoise audio",
        ),
    }
}

} // verus!
