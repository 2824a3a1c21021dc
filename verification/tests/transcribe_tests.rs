use nemotron_asr::transcribe::{
    model_download_url, split_into_chunks, validate_wav_format, SampleFormat, WavFormatError, WavSpec,
};

fn good_spec() -> WavSpec {
    WavSpec { channels: 1, sample_rate: 16000, bits_per_sample: 16, sample_format: SampleFormat::Int }
}

#[test]
fn wav_format_accepted() {
    assert_eq!(validate_wav_format(&good_spec()), Ok(()));
}

#[test]
fn wav_format_errors_in_order() {
    let stereo = WavSpec { channels: 2, sample_rate: 44100, ..good_spec() };
    assert_eq!(validate_wav_format(&stereo), Err(WavFormatError::NotMono(2)));
    let fast = WavSpec { sample_rate: 44100, bits_per_sample: 24, ..good_spec() };
    assert_eq!(validate_wav_format(&fast), Err(WavFormatError::WrongSampleRate(44100)));
    let deep = WavSpec { bits_per_sample: 24, sample_format: SampleFormat::Float, ..good_spec() };
    assert_eq!(validate_wav_format(&deep), Err(WavFormatError::WrongBitDepth(24)));
    let float = WavSpec { sample_format: SampleFormat::Float, ..good_spec() };
    assert_eq!(validate_wav_format(&float), Err(WavFormatError::NotIntegerSamples));
}

#[test]
fn download_url_joins_with_one_slash() {
    assert_eq!(
        model_download_url("https://example.org/models/", "m.gguf"),
        "https://example.org/models/m.gguf"
    );
    assert_eq!(
        model_download_url("https://example.org/models", "m.gguf"),
        "https://example.org/models/m.gguf"
    );
    assert_eq!(model_download_url("", "m.gguf"), "/m.gguf");
}

#[test]
fn chunks_cover_the_audio() {
    let samples: Vec<i16> = (0..10).collect();
    let chunks = split_into_chunks(&samples, 4);
    assert_eq!(chunks, vec![vec![0, 1, 2, 3], vec![4, 5, 6, 7], vec![8, 9]]);
    let exact = split_into_chunks(&samples, 5);
    assert_eq!(exact, vec![vec![0, 1, 2, 3, 4], vec![5, 6, 7, 8, 9]]);
    assert!(split_into_chunks(&[], 3).is_empty());
    let whole = split_into_chunks(&samples, 1280);
    assert_eq!(whole, vec![samples.clone()]);
    let rejoined: Vec<i16> = split_into_chunks(&samples, 3).concat();
    assert_eq!(rejoined, samples);
}
