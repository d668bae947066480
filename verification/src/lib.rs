//! The deterministic core of a voice-command service.
//!
//! A request carries a recording as base64 text. The recording is decoded,
//! checked, brought to the sample rate of its consumer, transcribed, and the
//! transcript is parsed into an intent. The intent selects a command, and the
//! command's result is the response.
//!
//! Transcription and intent parsing are done by models outside this crate, and
//! so is everything that touches files, the clock or floating-point numbers.
//! This crate holds what lies between: each function here takes plain values
//! and says exactly what it returns.
//!
//! - [`payload`]: the base64 payload and its size limit
//! - [`audio`]: decoded audio, its validation and normalisation
//! - [`resample`]: sample-rate conversion by linear interpolation
//! - [`framing`]: padding to whole frames for a frame-by-frame filter
//! - [`speech`]: what the transcription model is given, and its transcript
//! - [`nlu`]: parsed intents and their slots
//! - [`command`]: the commands, temperature conversions and operations
//! - [`dispatch`]: from intent to response, or to a job in floating point
//! - [`response`]: the response and its messages
//! - [`failure`]: the responses to requests that were given up
//! - [`archive`]: where audio and transcript are kept
//! - [`config`]: what the service is started with
//! - [`number`], [`text`]: numbers as they are passed on, and decimal numerals

pub mod archive;
pub mod audio;
pub mod command;
pub mod config;
pub mod dispatch;
pub mod failure;
pub mod framing;
pub mod nlu;
pub mod number;
pub mod payload;
pub mod resample;
pub mod response;
pub mod speech;
pub mod text;

pub use archive::{archive_audio_path, archive_base, archive_directory, archive_text_path};
pub use audio::{
    AudioFormat, PcmBuffer, ValidationResult, DENOISER_SAMPLE_RATE, TRANSCRIPTION_SAMPLE_RATE,
};
pub use command::{Conversion, KakaiaCommand, KakaiaCommandType, Operation};
pub use config::{Configuration, DEFAULT_BYTE_LIMIT};
pub use dispatch::{dispatch, CalculationJob, Dispatch, TemperatureJob};
pub use failure::{failure_response, Failure};
pub use framing::{filter_frames, pad_to_frames, padding_for};
pub use nlu::{ParsedIntent, Scalar, Slot, SlotValue, NLU};
pub use number::Number;
pub use payload::{checked_payload, decode_payload, PayloadError};
pub use resample::resample_samples;
pub use response::KakaiaResponse;
pub use speech::{
    load_failure, prepare_transcription, transcript, AudioAsText, TranscriptionInput,
};
