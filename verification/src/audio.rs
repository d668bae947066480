//! Decoded audio: the buffer, its validation and its normalisation.

use vstd::prelude::*;
use vstd::string::StringExecFns;
use crate::resample::{lemma_resample_identity, resample_samples, resampled};
use crate::text::{decimal, decimal_string};

verus! {

/// The sample rate that the transcription model takes.
pub const TRANSCRIPTION_SAMPLE_RATE: u32 = 16_000;

/// The sample rate that the noise filter takes.
pub const DENOISER_SAMPLE_RATE: u32 = 48_000;

/// The container formats that audio is read from.
#[derive(Debug, Clone, Copy, PartialEq, Eq, Structural)]
pub enum AudioFormat {
    Flac,
    OggVorbis,
    Wav,
    CafAlac,
}

/// The file extension of a container format.
pub open spec fn extension_of(format: AudioFormat) -> Seq<char> {
    match format {
        AudioFormat::Flac => "flac"@,
        AudioFormat::OggVorbis => "ogg"@,
        AudioFormat::Wav => "wav"@,
        AudioFormat::CafAlac => "caf"@,
    }
}

impl AudioFormat {
    /// The file extension of the format.
    pub fn extension(self) -> (r: String)
        ensures
            r@ == extension_of(self),
    {
        match self {
            AudioFormat::Flac => String::from_str("flac"),
            AudioFormat::OggVorbis => String::from_str("ogg"),
            AudioFormat::Wav => String::from_str("wav"),
            AudioFormat::CafAlac => String::from_str("caf"),
        }
    }
}

/// Interleaved 16-bit samples with the rate, channel count and container
/// format they were read with. The sample rate is positive.
#[derive(Debug)]
pub struct PcmBuffer {
    samples: Vec<i16>,
    sample_rate: u32,
    channel_count: u32,
    format: AudioFormat,
}

/// The mathematical content of a [`PcmBuffer`].
pub ghost struct PcmModel {
    pub samples: Seq<i16>,
    pub sample_rate: nat,
    pub channel_count: nat,
    pub format: AudioFormat,
}

impl View for PcmBuffer {
    type V = PcmModel;

    closed spec fn view(&self) -> PcmModel {
        PcmModel {
            samples: self.samples@,
            sample_rate: self.sample_rate as nat,
            channel_count: self.channel_count as nat,
            format: self.format,
        }
    }
}

/// The outcome of validation: valid, or every violation found, in the order
/// of the checks.
#[derive(Debug)]
pub enum ValidationResult {
    Valid,
    Invalid(Vec<String>),
}

impl ValidationResult {
    /// A result that is not valid names at least one violation.
    pub open spec fn wf(&self) -> bool {
        match *self {
            ValidationResult::Valid => true,
            ValidationResult::Invalid(messages) => messages@.len() > 0,
        }
    }
}

/// The texts of a list of messages.
pub open spec fn texts(messages: Seq<String>) -> Seq<Seq<char>> {
    messages.map_values(|message: String| message@)
}

/// The message for a channel count other than one.
pub open spec fn channel_violation(channel_count: nat) -> Seq<char> {
    "audio file must have exactly 1 track, not "@ + decimal(channel_count)
}

/// The message for a sample rate other than the required one.
pub open spec fn rate_violation(required: nat, sample_rate: nat) -> Seq<char> {
    "audio file must have a sample rate of "@ + decimal(required) + ", not "@ + decimal(
        sample_rate,
    )
}

/// The violations of a buffer, in the order of the checks: first the channel
/// count, which must be one, then the sample rate, where one is required.
pub open spec fn violations(buffer: PcmModel, required_rate: Option<u32>) -> Seq<Seq<char>> {
    let channel = if buffer.channel_count != 1 {
        seq![channel_violation(buffer.channel_count)]
    } else {
        Seq::empty()
    };
    let rate = match required_rate {
        Some(required) if buffer.sample_rate != required => seq![
            rate_violation(required as nat, buffer.sample_rate),
        ],
        _ => Seq::empty(),
    };
    channel + rate
}

/// Every check that fails adds its own message: there are as many violations
/// as failed checks, and none where no check fails.
pub proof fn lemma_every_violation_counted(buffer: PcmModel, required_rate: Option<u32>)
    ensures
        violations(buffer, required_rate).len() == (if buffer.channel_count != 1 {
            1nat
        } else {
            0nat
        }) + (if required_rate is Some && buffer.sample_rate != required_rate->0 {
            1nat
        } else {
            0nat
        }),
{
}

/// A buffer at another rate: the samples resampled, the rest as it was.
pub open spec fn at_rate(buffer: PcmModel, target_rate: nat) -> PcmModel {
    PcmModel {
        samples: resampled(buffer.samples, buffer.sample_rate, target_rate),
        sample_rate: target_rate,
        channel_count: buffer.channel_count,
        format: buffer.format,
    }
}

impl PcmBuffer {
    #[verifier::type_invariant]
    spec fn positive_rate(self) -> bool {
        self.sample_rate > 0
    }

    /// A buffer of the given parts; none where the sample rate is zero.
    pub fn new(
        samples: Vec<i16>,
        sample_rate: u32,
        channel_count: u32,
        format: AudioFormat,
    ) -> (r: Option<PcmBuffer>)
        ensures
            match r {
                Some(buffer) => sample_rate > 0 && buffer@ == (PcmModel {
                    samples: samples@,
                    sample_rate: sample_rate as nat,
                    channel_count: channel_count as nat,
                    format,
                }),
                None => sample_rate == 0,
            },
    {
        if sample_rate == 0 {
            None
        } else {
            Some(PcmBuffer { samples, sample_rate, channel_count, format })
        }
    }

    /// The samples, interleaved where there are several channels.
    pub fn samples(&self) -> (r: &Vec<i16>)
        ensures
            r@ == self@.samples,
    {
        &self.samples
    }

    /// The samples per second and channel.
    pub fn sample_rate(&self) -> (r: u32)
        ensures
            r == self@.sample_rate,
            r > 0,
    {
        proof {
            use_type_invariant(self);
        }
        self.sample_rate
    }

    /// The number of channels.
    pub fn channel_count(&self) -> (r: u32)
        ensures
            r == self@.channel_count,
    {
        self.channel_count
    }

    /// The container format the audio was read from.
    pub fn format(&self) -> (r: AudioFormat)
        ensures
            r == self@.format,
    {
        self.format
    }

    /// Checks the channel count, which must be one, and the sample rate where
    /// one is required. Every violation is reported, not only the first.
    pub fn validate(&self, required_rate: Option<u32>) -> (r: ValidationResult)
        ensures
            r.wf(),
            match r {
                ValidationResult::Valid => violations(self@, required_rate).len() == 0,
                ValidationResult::Invalid(messages) => texts(messages@) == violations(
                    self@,
                    required_rate,
                ),
            },
    {
        let mut messages: Vec<String> = Vec::new();
        if self.channel_count != 1 {
            let mut message = String::from_str("audio file must have exactly 1 track, not ");
            message.append(decimal_string(self.channel_count as u128).as_str());
            messages.push(message);
        }
        match required_rate {
            Some(required) => {
                if self.sample_rate != required {
                    let mut message = String::from_str("audio file must have a sample rate of ");
                    message.append(decimal_string(required as u128).as_str());
                    message.append(", not ");
                    message.append(decimal_string(self.sample_rate as u128).as_str());
                    messages.push(message);
                }
            },
            None => {},
        }
        assert(texts(messages@) =~= violations(self@, required_rate));
        if messages.len() == 0 {
            ValidationResult::Valid
        } else {
            ValidationResult::Invalid(messages)
        }
    }

    /// The buffer at `target_rate`, by linear interpolation. At its own rate
    /// the buffer comes back sample for sample.
    pub fn resample(&self, target_rate: u32) -> (r: PcmBuffer)
        requires
            target_rate > 0,
        ensures
            r@ == at_rate(self@, target_rate as nat),
            target_rate == self@.sample_rate ==> r@ == self@,
    {
        proof {
            use_type_invariant(self);
            lemma_resample_identity(self.samples@, self.sample_rate as nat);
        }
        let samples = if self.sample_rate == target_rate {
            self.samples.clone()
        } else {
            resample_samples(&self.samples, self.sample_rate, target_rate)
        };
        assert(samples@ =~= resampled(self.samples@, self.sample_rate as nat, target_rate as nat));
        PcmBuffer {
            samples,
            sample_rate: target_rate,
            channel_count: self.channel_count,
            format: self.format,
        }
    }

    /// Validates the buffer and brings it to `target_rate`: the violations,
    /// or the resampled buffer.
    pub fn normalize(&self, target_rate: u32) -> (r: Result<PcmBuffer, Vec<String>>)
        requires
            target_rate > 0,
        ensures
            match r {
                Ok(buffer) => self@.channel_count == 1 && buffer@ == at_rate(
                    self@,
                    target_rate as nat,
                ),
                Err(messages) => self@.channel_count != 1 && texts(messages@) == violations(
                    self@,
                    None,
                ),
            },
    {
        let checked = self.validate(None);
        proof {
            let found = violations(self@, None);
            if self@.channel_count != 1 {
                assert(found =~= seq![channel_violation(self@.channel_count)]);
                assert(found.len() == 1);
            } else {
                assert(found =~= Seq::<Seq<char>>::empty());
            }
        }
        match checked {
            ValidationResult::Valid => Ok(self.resample(target_rate)),
            ValidationResult::Invalid(messages) => Err(messages),
        }
    }
}

} // verus!
