//! Around the transcription model: what it is given and what is made of its
//! answer.

use vstd::prelude::*;
use vstd::string::StringExecFns;
use crate::audio::{
    at_rate, channel_violation, extension_of, texts, violations, PcmBuffer,
    TRANSCRIPTION_SAMPLE_RATE,
};

verus! {

/// A recognised transcript: the text and the container format of the audio it
/// came from, as a file extension.
#[derive(Debug)]
pub struct AudioAsText {
    pub raw: String,
    pub filetype: String,
}

/// What the transcription model is given: mono audio at the rate the model
/// takes, and the file extension of the container it was read from.
#[derive(Debug)]
pub struct TranscriptionInput {
    pub audio: PcmBuffer,
    pub filetype: String,
}

/// The text that stands in for a transcript when the model fails.
pub open spec fn inference_failure_text() -> Seq<char> {
    "Unexpected error: failed to convert audio to text"@
}

/// What is reported in place of a transcript when audio could not be loaded:
/// the reason, with the file type `unknown`.
pub fn load_failure(detail: &str) -> (r: AudioAsText)
    ensures
        r.raw@ == "failed to load audio file: "@ + detail@ + "\n"@,
        r.filetype@ == "unknown"@,
{
    let mut raw = String::from_str("failed to load audio file: ");
    raw.append(detail);
    raw.append("\n");
    AudioAsText { raw, filetype: String::from_str("unknown") }
}

/// Prepares decoded audio for the transcription model. Audio with one channel
/// is brought to the model's rate. Any other channel count is reported in
/// place of a transcript, with the file type `unknown`.
pub fn prepare_transcription(buffer: &PcmBuffer) -> (r: Result<TranscriptionInput, AudioAsText>)
    ensures
        match r {
            Ok(input) => buffer@.channel_count == 1 && input.audio@ == at_rate(
                buffer@,
                TRANSCRIPTION_SAMPLE_RATE as nat,
            ) && input.filetype@ == extension_of(buffer@.format),
            Err(failure) => buffer@.channel_count != 1 && failure.raw@ == channel_violation(
                buffer@.channel_count,
            ) && failure.filetype@ == "unknown"@,
        },
{
    match buffer.normalize(TRANSCRIPTION_SAMPLE_RATE) {
        Ok(audio) => Ok(TranscriptionInput { audio, filetype: buffer.format().extension() }),
        Err(messages) => {
            proof {
                assert(violations(buffer@, None) =~= seq![
                    channel_violation(buffer@.channel_count),
                ]);
                assert(texts(messages@)[0] == messages@[0]@);
            }
            Err(
                AudioAsText {
                    raw: messages[0].clone(),
                    filetype: String::from_str("unknown"),
                },
            )
        },
    }
}

/// The transcript of audio of the given file type: the text that the model
/// recognised, or a fixed text where it failed.
pub fn transcript(recognised: Option<String>, filetype: String) -> (r: AudioAsText)
    ensures
        r.filetype@ == filetype@,
        r.raw@ == match recognised {
            Some(text) => text@,
            None => inference_failure_text(),
        },
{
    let raw = match recognised {
        Some(text) => text,
        None => String::from_str("Unexpected error: failed to convert audio to text"),
    };
    AudioAsText { raw, filetype }
}

} // verus!
