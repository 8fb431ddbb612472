use voice_core::error::AudioError;
use voice_core::format::{
    check_sample_format, wav_spec_from_config, CaptureFormat, InputConfig, SampleFormat,
    WavSampleFormat, WavSpec,
};

fn config(channels: u16, sample_rate: u32, sample_format: SampleFormat) -> InputConfig {
    InputConfig { channels, sample_rate, sample_format }
}

#[test]
fn file_is_sixteen_bit_pcm_whatever_the_device_speaks() {
    let expected = WavSpec {
        channels: 2,
        sample_rate: 16000,
        bits_per_sample: 16,
        sample_format: WavSampleFormat::Int,
    };
    assert_eq!(wav_spec_from_config(&config(2, 16000, SampleFormat::F32)), expected);
    assert_eq!(wav_spec_from_config(&config(2, 16000, SampleFormat::I8)), expected);
    assert_eq!(wav_spec_from_config(&config(2, 16000, SampleFormat::I32)), expected);
    assert_eq!(wav_spec_from_config(&config(2, 16000, SampleFormat::Other("U16".to_string()))), expected);
}

#[test]
fn file_keeps_channels_and_rate() {
    let spec = wav_spec_from_config(&config(1, 44100, SampleFormat::I16));
    assert_eq!(spec.channels, 1);
    assert_eq!(spec.sample_rate, 44100);
    let wide = wav_spec_from_config(&config(u16::MAX, u32::MAX, SampleFormat::I16));
    assert_eq!(wide.channels, u16::MAX);
    assert_eq!(wide.sample_rate, u32::MAX);
    assert_eq!(wide.bits_per_sample, 16);
}

#[test]
fn four_encodings_can_be_captured() {
    assert_eq!(check_sample_format(SampleFormat::I8), Ok(CaptureFormat::I8));
    assert_eq!(check_sample_format(SampleFormat::I16), Ok(CaptureFormat::I16));
    assert_eq!(check_sample_format(SampleFormat::I32), Ok(CaptureFormat::I32));
    assert_eq!(check_sample_format(SampleFormat::F32), Ok(CaptureFormat::F32));
}

#[test]
fn other_encodings_are_refused_by_name() {
    assert_eq!(
        check_sample_format(SampleFormat::Other("U16".to_string())),
        Err(AudioError::UnsupportedFormat("U16".to_string()))
    );
    assert_eq!(
        check_sample_format(SampleFormat::Other("F64".to_string())),
        Err(AudioError::UnsupportedFormat("F64".to_string()))
    );
}
