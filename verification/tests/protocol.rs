use handy::protocol::default_true;
use handy::protocol::read_attachment;
use handy::protocol::read_frame;
use handy::protocol::write_frame;
use handy::protocol::write_frame_with_attachment;
use handy::protocol::AudioEncoding;
use handy::protocol::ErrorCode;
use handy::protocol::LeaseOwner;
use handy::protocol::ReadError;
use handy::protocol::ServerFrame;
use handy::protocol::Stage;
use handy::protocol::StreamBuffer;
use handy::protocol::WaitPolicy;
use handy::protocol::MAX_ATTACHMENT_BYTES;
use handy::protocol::MAX_FRAME_BYTES;

fn ended(bytes: &[u8]) -> StreamBuffer {
    let mut stream = StreamBuffer::new();
    stream.feed(bytes);
    stream.finish();
    stream
}

fn to_words(encoding: AudioEncoding, samples: &[f32]) -> Vec<i32> {
    samples
        .iter()
        .map(|s| match encoding {
            AudioEncoding::PcmF32Le => s.to_bits() as i32,
            AudioEncoding::PcmS16Le => (s * i16::MAX as f32) as i32,
        })
        .collect()
}

fn to_samples(encoding: AudioEncoding, words: &[i32]) -> Vec<f32> {
    words
        .iter()
        .map(|w| match encoding {
            AudioEncoding::PcmF32Le => f32::from_bits(*w as u32),
            AudioEncoding::PcmS16Le => *w as f32 / i16::MAX as f32,
        })
        .collect()
}

#[test]
fn transcript_with_newlines_and_cjk_survives_framing() {
    let text = "line one\nline two\r\n日本語のテキスト\ttab";
    let line = serde_json::to_vec(text).unwrap();
    let mut buf = Vec::new();
    write_frame(&mut buf, &line);
    let mut reader = ended(&buf);
    let read = read_frame(&mut reader).unwrap().unwrap();
    let back: String = serde_json::from_slice(&read).unwrap();
    assert_eq!(back, text);
}

#[test]
fn attachment_rides_the_same_stream_as_the_next_frame() {
    let audio = vec![7u8; 5 * 1024 * 1024];
    let request = format!("{{\"byte_len\":{}}}", audio.len());
    let mut buf = Vec::new();
    write_frame_with_attachment(&mut buf, request.as_bytes(), &audio);
    // A control frame right behind the attachment must still parse.
    write_frame(&mut buf, b"{\"type\":\"cancel\"}");

    let mut reader = ended(&buf);
    let first = read_frame(&mut reader).unwrap().unwrap();
    assert_eq!(first, request.as_bytes());
    let value: serde_json::Value = serde_json::from_slice(&first).unwrap();
    let len = value.get("byte_len").unwrap().as_u64().unwrap();
    assert_eq!(read_attachment(&mut reader, len).unwrap(), audio);
    assert_eq!(
        read_frame(&mut reader).unwrap().unwrap(),
        b"{\"type\":\"cancel\"}"
    );
    assert!(read_frame(&mut reader).unwrap().is_none());
}

#[test]
fn an_unterminated_flood_is_rejected_rather_than_buffered() {
    let flood = vec![b'x'; (MAX_FRAME_BYTES + 10) as usize];
    let mut reader = ended(&flood);
    let err = read_frame(&mut reader).unwrap_err();
    assert!(err.invalid_data());
    assert_eq!(err, ReadError::FrameTooLong);
    assert_eq!(err.message(), "control frame exceeded 1048576 bytes");
    // Only the limit was taken from the stream.
    assert_eq!(reader.available(), 10);
}

#[test]
fn oversized_attachment_is_refused_before_allocating() {
    let mut reader = ended(&[]);
    let err = read_attachment(&mut reader, MAX_ATTACHMENT_BYTES + 1).unwrap_err();
    assert!(err.message().contains("exceeds"), "{}", err.message());
    assert!(err.invalid_data());
    assert_eq!(
        err.message(),
        "attachment of 536870913 bytes exceeds the 536870912 byte limit"
    );
}

#[test]
fn pcm_encodings_round_trip() {
    let samples = vec![0.0f32, 0.5, -0.5, 1.0, -1.0];
    let e = AudioEncoding::PcmF32Le;
    let f32_bytes = e.encode(&to_words(e, &samples));
    assert_eq!(to_samples(e, &e.decode(&f32_bytes)), samples);

    let e = AudioEncoding::PcmS16Le;
    let s16_bytes = e.encode(&to_words(e, &samples));
    let back = to_samples(e, &e.decode(&s16_bytes));
    for (got, want) in back.iter().zip(&samples) {
        assert!((got - want).abs() < 1e-4, "got {got}, want {want}");
    }
}

#[test]
fn s16_encoding_clamps_instead_of_wrapping() {
    // A float slightly over full scale must saturate, not wrap to -32768.
    let e = AudioEncoding::PcmS16Le;
    let bytes = e.encode(&to_words(e, &[1.5, -1.5]));
    let back = to_samples(e, &e.decode(&bytes));
    assert!(back[0] > 0.99, "got {}", back[0]);
    assert!(back[1] < -0.99, "got {}", back[1]);
}

#[test]
fn encodings_have_exact_bytes() {
    let e = AudioEncoding::PcmS16Le;
    assert_eq!(e.bytes_per_sample(), 2);
    assert_eq!(
        e.encode(&[1, -1, 40000, -40000]),
        vec![1, 0, 255, 255, 255, 127, 0, 128]
    );
    assert_eq!(e.decode(&[1, 0, 255, 255, 255, 127, 0, 128]), vec![1, -1, 32767, -32768]);
    let e = AudioEncoding::PcmF32Le;
    assert_eq!(e.bytes_per_sample(), 4);
    assert_eq!(e.encode(&[1.0f32.to_bits() as i32]), 1.0f32.to_le_bytes().to_vec());
    assert_eq!(e.encode(&[i32::MIN]), vec![0, 0, 0, 128]);
    assert_eq!(e.decode(&[0, 0, 0, 128]), vec![i32::MIN]);
}

#[test]
fn an_incomplete_last_sample_is_dropped() {
    assert_eq!(AudioEncoding::PcmF32Le.decode(&[1, 0, 0, 0, 9, 9, 9]), vec![1]);
    assert_eq!(AudioEncoding::PcmS16Le.decode(&[1, 0, 9]), vec![1]);
    let bytes = [1u8, 2, 3, 4, 5, 6, 7];
    let e = AudioEncoding::PcmF32Le;
    assert_eq!(e.encode(&e.decode(&bytes)), bytes[..4].to_vec());
}

#[test]
fn a_line_does_not_depend_on_how_its_bytes_arrive() {
    let mut stream = StreamBuffer::new();
    stream.feed(b"{\"a\":");
    assert_eq!(read_frame(&mut stream), Err(ReadError::Incomplete));
    assert_eq!(stream.available(), 5);
    stream.feed(b"1}\nrest");
    assert_eq!(read_frame(&mut stream), Ok(Some(b"{\"a\":1}".to_vec())));
    assert_eq!(stream.available(), 4);
}

#[test]
fn a_line_that_just_fits_is_read() {
    let mut bytes = vec![b'x'; MAX_FRAME_BYTES as usize - 1];
    bytes.push(b'\n');
    bytes.push(b'y');
    let mut stream = ended(&bytes);
    let line = read_frame(&mut stream).unwrap().unwrap();
    assert_eq!(line.len() as u64, MAX_FRAME_BYTES - 1);
    assert_eq!(stream.available(), 1);
}

#[test]
fn a_peer_that_dies_in_the_middle_is_noticed() {
    let mut stream = ended(b"half a line");
    assert_eq!(read_frame(&mut stream), Err(ReadError::FrameTooLong));
    assert_eq!(read_frame(&mut stream), Ok(None));

    let mut stream = ended(b"abc");
    let err = read_attachment(&mut stream, 4).unwrap_err();
    assert_eq!(err, ReadError::UnexpectedEof);
    assert_eq!(err.message(), "failed to fill whole buffer");
    assert!(!err.invalid_data());
    assert_eq!(read_attachment(&mut stream, 3).unwrap(), b"abc");

    let mut open = StreamBuffer::new();
    open.feed(b"abc");
    let err = read_attachment(&mut open, 4).unwrap_err();
    assert_eq!(err, ReadError::Incomplete);
    assert_eq!(err.message(), "more bytes are needed");
}

#[test]
fn defaults_are_the_kind_ones() {
    assert!(default_true());
    assert_eq!(WaitPolicy::default(), WaitPolicy::Wait { timeout_ms: None });
}

#[test]
fn names_are_spelled_out() {
    assert_eq!(Stage::Queued.label(), "queued");
    assert_eq!(Stage::WaitingForEngine.label(), "waiting for engine");
    assert_eq!(Stage::LoadingModel.label(), "loading model");
    assert_eq!(Stage::Transcribing.label(), "transcribing");
    assert_eq!(Stage::PostProcessing.label(), "post-processing");
    assert_eq!(Stage::SavingHistory.label(), "saving to history");
    assert_eq!(Stage::Pasting.label(), "pasting");
    for code in [
        ErrorCode::ProtocolMismatch,
        ErrorCode::UnsupportedRequest,
        ErrorCode::BadRequest,
        ErrorCode::PayloadTooLarge,
        ErrorCode::Busy,
        ErrorCode::Cancelled,
        ErrorCode::NoModelSelected,
        ErrorCode::ModelNotAvailable,
        ErrorCode::ModelLoadFailed,
        ErrorCode::TranscriptionFailed,
        ErrorCode::IoError,
        ErrorCode::Internal,
        ErrorCode::TooManyClients,
        ErrorCode::Forbidden,
    ] {
        assert_eq!(code.name(), format!("{code:?}"));
    }
    assert!(LeaseOwner::Batch.is_interactive_waiter());
    assert!(!LeaseOwner::Stream.is_interactive_waiter());
    assert!(!LeaseOwner::Cli.is_interactive_waiter());
}

#[test]
fn only_results_and_errors_end_a_request() {
    let error = ServerFrame::Error {
        job_id: None,
        code: ErrorCode::Busy,
        message: String::new(),
    };
    assert!(error.is_terminal());
    assert!(!ServerFrame::Unknown.is_terminal());
    assert!(!ServerFrame::Accepted { job_id: "1-1".to_string() }.is_terminal());
}
