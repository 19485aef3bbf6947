use handy::audio::check_spec;
use handy::audio::decode_samples;
use handy::audio::decode_to_16k_mono;
use handy::audio::save_wav_file;
use handy::audio::verify_wav_file;
use handy::audio::DecodedAudio;
use handy::audio::SampleFormat;
use handy::audio::WavContent;
use handy::audio::WavSpec;
use std::io::Cursor;

fn write_wav(
    spec: hound::WavSpec,
    write: impl FnOnce(&mut hound::WavWriter<&mut Cursor<Vec<u8>>>),
) -> Vec<u8> {
    let mut cursor = Cursor::new(Vec::new());
    {
        let mut writer = hound::WavWriter::new(&mut cursor, spec).unwrap();
        write(&mut writer);
        writer.finalize().unwrap();
    }
    cursor.into_inner()
}

fn int_spec(rate: u32, channels: u16, bits: u16) -> hound::WavSpec {
    hound::WavSpec {
        channels,
        sample_rate: rate,
        bits_per_sample: bits,
        sample_format: hound::SampleFormat::Int,
    }
}

fn decode(bytes: Vec<u8>) -> DecodedAudio {
    match decode_to_16k_mono("a.wav", &bytes).unwrap() {
        WavContent::Decoded(audio) => audio,
        other => panic!("got {other:?}"),
    }
}

fn normalized(audio: &DecodedAudio) -> Vec<f32> {
    audio.words.iter().map(|w| *w as f32 / audio.full_scale() as f32).collect()
}

fn header(channels: u16, sample_rate: u32, bits_per_sample: u16, sample_format: SampleFormat) -> WavSpec {
    WavSpec { channels, sample_rate, bits_per_sample, sample_format }
}

#[test]
fn matches_the_legacy_convention_for_native_files() {
    let values: Vec<i16> = vec![0, 1, -1, 32767, -32768, 1234, -4321];
    let bytes = write_wav(int_spec(16_000, 1, 16), |w| {
        for v in &values {
            w.write_sample(*v).unwrap();
        }
    });
    let decoded = decode(bytes);
    assert!(decoded.is_native());
    let samples = normalized(&decoded);
    assert_eq!(samples.len(), values.len());
    for (got, want) in samples.iter().zip(&values) {
        assert_eq!(*got, *want as f32 / i16::MAX as f32);
    }
}

#[test]
fn reports_the_source_format() {
    let bytes = write_wav(int_spec(44_100, 2, 24), |w| {
        for _ in 0..4410 {
            w.write_sample(0i32).unwrap();
            w.write_sample(0i32).unwrap();
        }
    });
    let decoded = decode(bytes);
    assert_eq!(decoded.source_rate, 44_100);
    assert_eq!(decoded.source_channels, 2);
    assert_eq!(decoded.source_bits, 24);
    assert!(!decoded.is_native());
    let duration_secs = decoded.frames as f64 / decoded.source_rate as f64;
    assert!((duration_secs - 0.1).abs() < 1e-9);
    assert_eq!(decoded.source_description(), "44100 Hz / 2 ch / 24-bit");
    assert_eq!(decoded.full_scale(), 8_388_607);
    assert_eq!(decoded.expected_samples(), 1600);
}

#[test]
fn eight_bit_round_trips_through_hound() {
    // 8-bit WAV is stored unsigned offset-binary; this pins the normalization so
    // a change in that behaviour fails loudly here rather than as quietly wrong
    // audio.
    let bytes = write_wav(int_spec(16_000, 1, 8), |w| {
        for v in [0i8, 127, -128, 64] {
            w.write_sample(v as i32).unwrap();
        }
    });
    let decoded = decode(bytes);
    let samples = normalized(&decoded);
    assert_eq!(samples.len(), 4);
    assert_eq!(samples[0], 0.0);
    assert!((samples[1] - 1.0).abs() < 1e-6);
    assert!(samples[2] < -1.0 + 1e-3);
    assert_eq!(decoded.words, vec![0, 127, -128, 64]);
}

#[test]
fn decodes_32_bit_float() {
    let spec = hound::WavSpec {
        channels: 1,
        sample_rate: 16_000,
        bits_per_sample: 32,
        sample_format: hound::SampleFormat::Float,
    };
    let bytes = write_wav(spec, |w| {
        for v in [0.0f32, 0.5, -0.5, 1.0] {
            w.write_sample(v).unwrap();
        }
    });
    let spec = match decode_to_16k_mono("a.wav", &bytes).unwrap() {
        WavContent::Floats(spec) => spec,
        other => panic!("got {other:?}"),
    };
    let words: Vec<i32> = hound::WavReader::new(&bytes[..])
        .unwrap()
        .into_samples::<f32>()
        .map(|s| s.unwrap().to_bits() as i32)
        .collect();
    let decoded = decode_samples(spec, Ok(words)).unwrap();
    let samples: Vec<f32> = decoded.words.iter().map(|w| f32::from_bits(*w as u32)).collect();
    assert_eq!(samples, vec![0.0, 0.5, -0.5, 1.0]);
    assert_eq!(decoded.sample_format, SampleFormat::Float);
}

#[test]
fn rejects_an_empty_file() {
    let bytes = write_wav(int_spec(16_000, 1, 16), |_| {});
    let err = decode_to_16k_mono("a.wav", &bytes).unwrap_err();
    assert!(err.contains("no audio samples"), "{err}");
    assert_eq!(err, "failed to decode a.wav: WAV contains no audio samples");
}

#[test]
fn single_sample_is_decodable() {
    let bytes = write_wav(int_spec(16_000, 1, 16), |w| {
        w.write_sample(1000i16).unwrap();
    });
    let decoded = decode(bytes);
    assert_eq!(decoded.words.len(), 1);
    assert_eq!(decoded.words, vec![1000]);
}

#[test]
fn frames_keep_their_channels() {
    let bytes = write_wav(int_spec(16_000, 2, 16), |w| {
        for _ in 0..100 {
            w.write_sample(0i16).unwrap();
            w.write_sample(16_000i16).unwrap();
        }
    });
    let decoded = decode(bytes);
    assert_eq!(decoded.frames, 100);
    assert_eq!(decoded.words.len(), 200);
    assert_eq!(&decoded.words[..4], &[0, 16_000, 0, 16_000]);
}

#[test]
fn a_file_that_is_no_wav_is_reported() {
    let err = decode_to_16k_mono("a.txt", b"not a wave file").unwrap_err();
    assert_eq!(err, "cannot read a.txt as WAV: Ill-formed WAVE file: no RIFF tag found");
}

#[test]
fn a_truncated_file_is_reported() {
    let mut bytes = write_wav(int_spec(16_000, 1, 16), |w| {
        for _ in 0..10 {
            w.write_sample(5i16).unwrap();
        }
    });
    bytes.truncate(bytes.len() - 3);
    let err = decode_to_16k_mono("a.wav", &bytes).unwrap_err();
    assert_eq!(err, "failed to decode a.wav: Failed to read enough bytes.");
}

#[test]
fn odd_headers_are_refused() {
    let int = SampleFormat::Int;
    let float = SampleFormat::Float;
    assert!(check_spec(header(1, 16_000, 16, int)).is_ok());
    assert_eq!(check_spec(header(0, 16_000, 16, int)).unwrap_err(), "WAV declares zero channels");
    assert_eq!(
        check_spec(header(1, 3999, 16, int)).unwrap_err(),
        "unsupported sample rate 3999 Hz (expected 4000..=384000)"
    );
    assert!(check_spec(header(1, 4000, 16, int)).is_ok());
    assert!(check_spec(header(1, 384_000, 16, int)).is_ok());
    assert!(check_spec(header(1, 384_001, 16, int)).is_err());
    assert_eq!(
        check_spec(header(1, 16_000, 64, float)).unwrap_err(),
        "unsupported 64-bit float WAV (only 32-bit float is defined)"
    );
    assert_eq!(check_spec(header(1, 16_000, 33, int)).unwrap_err(), "unsupported 33-bit integer WAV");
    assert_eq!(check_spec(header(1, 16_000, 0, int)).unwrap_err(), "unsupported 0-bit integer WAV");
}

#[test]
fn a_partial_frame_is_dropped() {
    let spec = header(2, 48_000, 16, SampleFormat::Int);
    let decoded = decode_samples(spec, Ok(vec![1, 2, 3, 4, 5])).unwrap();
    assert_eq!(decoded.words, vec![1, 2, 3, 4]);
    assert_eq!(decoded.frames, 2);
    assert_eq!(
        decode_samples(spec, Ok(vec![1])).unwrap_err(),
        "WAV contains no audio samples"
    );
    assert_eq!(decode_samples(spec, Err("cut".to_string())).unwrap_err(), "cut");
}

#[test]
fn resampled_lengths_are_exact() {
    for (rate, secs) in [(8_000u32, 1u64), (44_100, 1), (48_000, 1), (48_000, 2), (48_000, 10)] {
        let frames = rate as u64 * secs;
        let decoded = DecodedAudio {
            words: vec![0; frames as usize],
            sample_format: SampleFormat::Int,
            source_rate: rate,
            source_channels: 1,
            source_bits: 16,
            frames,
        };
        assert_eq!(decoded.expected_samples(), 16_000 * secs as u128);
        assert_eq!(decoded.full_scale(), 32_767);
    }
}

#[test]
fn a_saved_recording_reads_back() {
    let bytes = save_wav_file(&[0, 1, -1, 40_000, -40_000]).unwrap();
    assert!(verify_wav_file(&bytes, 5).is_ok());
    assert_eq!(
        verify_wav_file(&bytes, 6).unwrap_err(),
        "WAV sample count mismatch: expected 6, got 5"
    );
    let decoded = decode(bytes);
    assert!(decoded.is_native());
    assert_eq!(decoded.words, vec![0, 1, -1, 32_767, -32_768]);
    assert_eq!(
        verify_wav_file(b"RIFF", 1).unwrap_err(),
        "Failed to read enough bytes."
    );
}
