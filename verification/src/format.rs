//! The negotiated input configuration and the layout of the file written
//! from it.

use vstd::prelude::*;
use crate::error::AudioError;

verus! {

/// The native sample encoding that a device reports.
#[derive(Debug, Clone, PartialEq, Eq)]
pub enum SampleFormat {
    /// 8-bit signed integers.
    I8,
    /// 16-bit signed integers.
    I16,
    /// 32-bit signed integers.
    I32,
    /// 32-bit floating point.
    F32,
    /// Any other encoding, by the name the device gives it.
    Other(String),
}

/// The encodings that can be captured.
#[derive(Clone, Copy, Debug, PartialEq, Eq, Structural)]
pub enum CaptureFormat {
    I8,
    I16,
    I32,
    F32,
}

/// A device's default input configuration.
#[derive(Debug, Clone, PartialEq, Eq)]
pub struct InputConfig {
    pub channels: u16,
    pub sample_rate: u32,
    pub sample_format: SampleFormat,
}

/// How a waveform file stores a sample.
#[derive(Clone, Copy, Debug, PartialEq, Eq, Structural)]
pub enum WavSampleFormat {
    /// IEEE floating point.
    Float,
    /// Linear PCM integers.
    Int,
}

/// The layout of a waveform file.
#[derive(Clone, Copy, Debug, PartialEq, Eq, Structural)]
pub struct WavSpec {
    pub channels: u16,
    pub sample_rate: u32,
    pub bits_per_sample: u16,
    pub sample_format: WavSampleFormat,
}

/// The file layout for a capture with `channels` channels at `sample_rate`:
/// always 16-bit linear PCM.
pub open spec fn wav_spec_for(channels: u16, sample_rate: u32) -> WavSpec {
    WavSpec { channels, sample_rate, bits_per_sample: 16, sample_format: WavSampleFormat::Int }
}

/// The layout of the file written from a device with this configuration.
///
/// Channel count and sample rate are the device's; the samples are stored as
/// 16-bit linear PCM whatever the device's native encoding is.
pub fn wav_spec_from_config(config: &InputConfig) -> (spec: WavSpec)
    ensures
        spec == wav_spec_for(config.channels, config.sample_rate),
{
    WavSpec {
        channels: config.channels,
        sample_rate: config.sample_rate,
        bits_per_sample: 16,
        sample_format: WavSampleFormat::Int,
    }
}

/// Whether an encoding can be captured, and as which.
pub open spec fn capture_format_of(format: SampleFormat) -> Option<CaptureFormat> {
    match format {
        SampleFormat::I8 => Some(CaptureFormat::I8),
        SampleFormat::I16 => Some(CaptureFormat::I16),
        SampleFormat::I32 => Some(CaptureFormat::I32),
        SampleFormat::F32 => Some(CaptureFormat::F32),
        SampleFormat::Other(_) => None,
    }
}

/// Accepts the four encodings that can be captured and refuses every other
/// one with `UnsupportedFormat`, which carries the encoding's name.
pub fn check_sample_format(format: SampleFormat) -> (r: Result<CaptureFormat, AudioError>)
    ensures
        match format {
            SampleFormat::Other(name) => r == Err::<CaptureFormat, AudioError>(
                AudioError::UnsupportedFormat(name),
            ),
            _ => r == Ok::<CaptureFormat, AudioError>(capture_format_of(format).unwrap()),
        },
{
    match format {
        SampleFormat::I8 => Ok(CaptureFormat::I8),
        SampleFormat::I16 => Ok(CaptureFormat::I16),
        SampleFormat::I32 => Ok(CaptureFormat::I32),
        SampleFormat::F32 => Ok(CaptureFormat::F32),
        SampleFormat::Other(name) => Err(AudioError::UnsupportedFormat(name)),
    }
}

} // verus!
