use handy::endpoint::DirCandidate;
use handy::endpoint::EndpointEnv;
use handy::handlers::status;
use handy::handlers::status::AppFacts;
use handy::protocol::AudioEncoding;
use handy::protocol::AudioSource;
use handy::protocol::ClientFrame;
use handy::protocol::ErrorCode;
use handy::protocol::LeaseOwner;
use handy::protocol::ResultBody;
use handy::protocol::ServerFrame;
use handy::protocol::Stage;
use handy::protocol::StreamBuffer;
use handy::protocol::TranscribeRequest;
use handy::protocol::WaitPolicy;
use handy::protocol::MAX_ATTACHMENT_BYTES;
use handy::server::answer;
use handy::server::read_inline_audio;
use handy::server::refuse;
use handy::server::serve_connection;
use handy::server::start;
use handy::server::Admission;
use handy::server::ConnNext;
use handy::server::Event;
use handy::server::HandlerError;
use handy::server::JobContext;
use handy::server::JobIds;
use handy::server::Reader;
use handy::server::ReaderStep;
use handy::server::MAX_CLIENTS;

fn env() -> EndpointEnv {
    EndpointEnv {
        runtime_dir: Some(DirCandidate { path: "/run/user/501".to_string(), is_dir: true }),
        temp_dir: None,
        user_id: 501,
        name: None,
        windows: false,
    }
}

fn inline(byte_len: u64) -> AudioSource {
    AudioSource::Inline {
        encoding: AudioEncoding::PcmS16Le,
        sample_rate: 16_000,
        channels: 1,
        byte_len,
    }
}

fn request(audio: AudioSource, want_progress: bool) -> ClientFrame {
    ClientFrame::Transcribe(Box::new(TranscribeRequest {
        audio,
        source_label: None,
        model: None,
        restore_model: true,
        raw: false,
        post_process: false,
        save_history: false,
        paste: false,
        wait_policy: WaitPolicy::default(),
        want_progress,
        allow_streaming: true,
        want_partials: false,
    }))
}

fn frame(frame: ClientFrame) -> Event {
    Event::Frame(Box::new(frame), None)
}

#[test]
fn the_descriptor_says_what_the_server_speaks() {
    let (descriptor, _) = start(&env(), "0.9.4", 77, Some(501));
    assert_eq!(descriptor.schema, 1);
    assert_eq!(descriptor.protocol, 1);
    assert_eq!(descriptor.min_protocol, 1);
    assert_eq!(descriptor.app_version, "0.9.4");
    assert_eq!(descriptor.pid, 77);
    assert_eq!(descriptor.endpoint, "/run/user/501/handy-501/ipc.sock");
}

#[test]
fn other_users_and_crowds_are_kept_out() {
    let (_, mut accept) = start(&env(), "0.9.4", 77, Some(501));
    assert!(matches!(accept.connect(Some(0)), Admission::Reject));
    for _ in 0..MAX_CLIENTS {
        assert!(matches!(accept.connect(Some(501)), Admission::Serve));
    }
    match accept.connect(Some(501)) {
        Admission::Refuse(ServerFrame::Error { job_id, code, message }) => {
            assert_eq!(job_id, None);
            assert_eq!(code, ErrorCode::TooManyClients);
            assert_eq!(message, "too many CLI connections");
        }
        other => panic!("got {other:?}"),
    }
    assert!(matches!(accept.connect(Some(0)), Admission::Reject));
    accept.disconnected();
    // A peer of unknown identity is let in: the directory is the gatekeeper.
    assert!(matches!(accept.connect(None), Admission::Serve));
}

#[test]
fn a_refusal_says_why() {
    match refuse(ErrorCode::Forbidden, "no") {
        ServerFrame::Error { job_id: None, code: ErrorCode::Forbidden, message } => {
            assert_eq!(message, "no")
        }
        other => panic!("got {other:?}"),
    }
}

#[test]
fn job_ids_are_distinct() {
    let mut ids = JobIds::new(77);
    assert_eq!(ids.next_job_id(), "77-1");
    assert_eq!(ids.next_job_id(), "77-2");
}

#[test]
fn the_greeting_comes_first() {
    let (_, hello) = serve_connection("0.9.4", 77);
    match hello {
        ServerFrame::Hello { protocol, min_protocol, app_version, pid } => {
            assert_eq!((protocol, min_protocol, pid), (1, 1, 77));
            assert_eq!(app_version, "0.9.4");
        }
        other => panic!("got {other:?}"),
    }
}

#[test]
fn cheap_requests_are_answered_inline() {
    let mut ids = JobIds::new(77);
    let (mut conn, _) = serve_connection("0.9.4", 77);
    let step = conn.serve(frame(ClientFrame::Ping), &mut ids, "0.9.4");
    assert!(matches!(step.next, ConnNext::Wait));
    assert_eq!(step.frames.len(), 1);
    match &step.frames[0] {
        ServerFrame::Result { job_id, body: ResultBody::Pong { app_version } } => {
            assert_eq!(job_id, "77-1");
            assert_eq!(app_version, "0.9.4");
        }
        other => panic!("got {other:?}"),
    }
    let step = conn.serve(frame(ClientFrame::Status), &mut ids, "0.9.4");
    assert!(step.frames.is_empty());
    match step.next {
        ConnNext::AnswerStatus { job_id } => assert_eq!(job_id, "77-2"),
        other => panic!("got {other:?}"),
    }
    let step = conn.serve(frame(ClientFrame::Cancel), &mut ids, "0.9.4");
    assert!(step.frames.is_empty() && matches!(step.next, ConnNext::Wait));
}

#[test]
fn an_unknown_request_is_answered_not_dropped() {
    let mut ids = JobIds::new(77);
    let (mut conn, _) = serve_connection("0.9.4", 77);
    let step = conn.serve(frame(ClientFrame::Unknown("teleport".to_string())), &mut ids, "0.9.4");
    assert!(matches!(step.next, ConnNext::Wait));
    match &step.frames[0] {
        ServerFrame::Error { job_id: None, code: ErrorCode::UnsupportedRequest, message } => {
            assert_eq!(
                message,
                "this Handy build does not support that request ('teleport'); update and restart Handy"
            );
        }
        other => panic!("got {other:?}"),
    }
    // Still open.
    let step = conn.serve(frame(ClientFrame::Bye), &mut ids, "0.9.4");
    assert!(matches!(step.next, ConnNext::Close));
    let step = conn.serve(frame(ClientFrame::Ping), &mut ids, "0.9.4");
    assert!(step.frames.is_empty() && matches!(step.next, ConnNext::Close));
}

#[test]
fn a_transcription_is_accepted_and_started() {
    let mut ids = JobIds::new(77);
    let (mut conn, _) = serve_connection("0.9.4", 77);
    let event = Event::Frame(Box::new(request(inline(4), true)), Some(vec![1, 2]));
    let step = conn.serve(event, &mut ids, "0.9.4");
    assert_eq!(step.frames.len(), 2);
    assert!(matches!(&step.frames[0], ServerFrame::Accepted { job_id } if job_id == "77-1"));
    assert!(matches!(
        &step.frames[1],
        ServerFrame::Progress { stage: Stage::Queued, message: None, fraction: None, .. }
    ));
    match step.next {
        ConnNext::StartJob { job, audio, .. } => {
            assert_eq!(job.job_id, "77-1");
            assert!(!job.is_cancelled());
            assert_eq!(audio, Some(vec![1, 2]));
        }
        other => panic!("got {other:?}"),
    }
    // A second request while one is in flight is ignored.
    let step = conn.serve(frame(ClientFrame::Ping), &mut ids, "0.9.4");
    assert!(step.frames.is_empty() && matches!(step.next, ConnNext::Wait));
    let step = conn.serve(frame(ClientFrame::Cancel), &mut ids, "0.9.4");
    assert!(matches!(step.next, ConnNext::CancelJob));
    let step = conn.serve(Event::JobDone, &mut ids, "0.9.4");
    assert!(matches!(step.next, ConnNext::Wait));
    let step = conn.serve(frame(request(inline(4), false)), &mut ids, "0.9.4");
    assert_eq!(step.frames.len(), 1);
}

#[test]
fn a_lost_client_cancels_its_job_and_is_awaited() {
    let mut ids = JobIds::new(77);
    let (mut conn, _) = serve_connection("0.9.4", 77);
    conn.serve(frame(request(inline(4), true)), &mut ids, "0.9.4");
    let step = conn.serve(Event::Closed(None), &mut ids, "0.9.4");
    assert!(matches!(step.next, ConnNext::CancelJob));
    let step = conn.serve(frame(ClientFrame::Ping), &mut ids, "0.9.4");
    assert!(matches!(step.next, ConnNext::Wait));
    let step = conn.serve(Event::JobDone, &mut ids, "0.9.4");
    assert!(matches!(step.next, ConnNext::Close));
}

#[test]
fn a_worker_that_does_not_start_is_reported() {
    let mut ids = JobIds::new(77);
    let (mut conn, _) = serve_connection("0.9.4", 77);
    conn.serve(frame(request(inline(4), true)), &mut ids, "0.9.4");
    let step = conn.serve(Event::JobNotStarted, &mut ids, "0.9.4");
    assert!(matches!(step.next, ConnNext::Close));
    match &step.frames[0] {
        ServerFrame::Error { job_id, code: ErrorCode::Internal, message } => {
            assert_eq!(job_id.as_deref(), Some("77-1"));
            assert_eq!(message, "could not start a transcription worker");
        }
        other => panic!("got {other:?}"),
    }
}

#[test]
fn a_reader_error_is_told_before_closing() {
    let mut ids = JobIds::new(77);
    let (mut conn, _) = serve_connection("0.9.4", 77);
    let err = HandlerError::new(ErrorCode::BadRequest, "why".to_string());
    let step = conn.serve(Event::Closed(Some(err)), &mut ids, "0.9.4");
    assert!(matches!(step.next, ConnNext::Close));
    assert!(matches!(
        &step.frames[0],
        ServerFrame::Error { job_id: None, code: ErrorCode::BadRequest, message } if message == "why"
    ));
    let (mut conn, _) = serve_connection("0.9.4", 77);
    let step = conn.serve(Event::Disconnected, &mut ids, "0.9.4");
    assert!(step.frames.is_empty() && matches!(step.next, ConnNext::Close));
}

#[test]
fn audio_is_read_in_stream_order() {
    let mut reader = Reader::new();
    assert!(matches!(reader.poll(), ReaderStep::NeedBytes));
    reader.feed(b"request\n\x01\x00");
    match reader.poll() {
        ReaderStep::Parse(line) => assert_eq!(line, b"request"),
        other => panic!("got {other:?}"),
    }
    assert!(matches!(reader.parsed(Ok(request(inline(4), true))), ReaderStep::NeedBytes));
    reader.feed(b"\xff\xffnext\n");
    match reader.poll() {
        ReaderStep::Emit(Event::Frame(frame, audio)) => {
            assert!(matches!(*frame, ClientFrame::Transcribe(_)));
            assert_eq!(audio, Some(vec![1, -1]));
        }
        other => panic!("got {other:?}"),
    }
    match reader.poll() {
        ReaderStep::Parse(line) => assert_eq!(line, b"next"),
        other => panic!("got {other:?}"),
    }
    match reader.parsed(Ok(ClientFrame::Ping)) {
        ReaderStep::Emit(Event::Frame(frame, None)) => {
            assert!(matches!(*frame, ClientFrame::Ping))
        }
        other => panic!("got {other:?}"),
    }
    reader.finish();
    assert!(matches!(reader.poll(), ReaderStep::Emit(Event::Closed(None))));
    assert!(matches!(reader.poll(), ReaderStep::Stopped));
}

fn closed_with(step: ReaderStep) -> (ErrorCode, String) {
    match step {
        ReaderStep::Emit(Event::Closed(Some(e))) => (e.code, e.message),
        other => panic!("got {other:?}"),
    }
}

#[test]
fn a_bad_request_ends_the_reader() {
    let mut reader = Reader::new();
    reader.feed(b"nonsense\n");
    reader.poll();
    assert_eq!(
        closed_with(reader.parsed(Err("expected value".to_string()))),
        (ErrorCode::BadRequest, "could not parse request: bad frame: expected value".to_string())
    );
    let mut reader = Reader::new();
    reader.feed(b"cut off");
    reader.finish();
    assert_eq!(
        closed_with(reader.poll()),
        (
            ErrorCode::BadRequest,
            "could not parse request: control frame exceeded 1048576 bytes".to_string()
        )
    );
    let mut reader = Reader::new();
    assert_eq!(
        closed_with(reader.failed("reset")),
        (ErrorCode::BadRequest, "could not parse request: reset".to_string())
    );
    assert!(matches!(reader.failed("again"), ReaderStep::Stopped));
}

#[test]
fn a_lost_payload_is_an_io_error() {
    let mut reader = Reader::new();
    reader.feed(b"request\n\x01");
    reader.poll();
    reader.parsed(Ok(request(inline(4), true)));
    reader.finish();
    assert_eq!(
        closed_with(reader.poll()),
        (ErrorCode::IoError, "reading audio payload: failed to fill whole buffer".to_string())
    );
    let mut reader = Reader::new();
    reader.feed(b"request\n\x01");
    reader.poll();
    reader.parsed(Ok(request(inline(4), true)));
    assert_eq!(
        closed_with(reader.failed("reset")),
        (ErrorCode::IoError, "reading audio payload: reset".to_string())
    );
}

#[test]
fn inline_audio_is_checked_before_it_is_read() {
    let mut stream = StreamBuffer::new();
    stream.feed(&[1, 2, 3, 4]);
    let err = read_inline_audio(&mut stream, &inline(MAX_ATTACHMENT_BYTES + 1)).unwrap_err().unwrap();
    assert_eq!(err.code, ErrorCode::PayloadTooLarge);
    assert_eq!(
        err.message,
        "audio payload of 536870913 bytes exceeds the 536870912 byte limit; use --local for very long files"
    );
    let wrong = AudioSource::Inline {
        encoding: AudioEncoding::PcmS16Le,
        sample_rate: 44_100,
        channels: 2,
        byte_len: 4,
    };
    let err = read_inline_audio(&mut stream, &wrong).unwrap_err().unwrap();
    assert_eq!(err.code, ErrorCode::BadRequest);
    assert_eq!(err.message, "inline audio must be 16000 Hz mono, got 44100 Hz / 2 ch");
    assert_eq!(stream.available(), 4);
    let path = AudioSource::Path { path: "/tmp/a.wav".to_string() };
    assert_eq!(read_inline_audio(&mut stream, &path).unwrap(), None);
    assert!(read_inline_audio(&mut stream, &inline(6)).unwrap_err().is_none());
    assert_eq!(read_inline_audio(&mut stream, &inline(4)).unwrap(), Some(vec![0x0201, 0x0403]));
}

#[test]
fn progress_is_sent_only_where_it_is_wanted() {
    let job = JobContext::new("77-1".to_string(), true);
    match job.progress(Stage::LoadingModel, Some("m".to_string()), 12).unwrap() {
        ServerFrame::Progress { job_id, stage, message, elapsed_ms, fraction } => {
            assert_eq!(job_id, "77-1");
            assert_eq!(stage, Stage::LoadingModel);
            assert_eq!(message.as_deref(), Some("m"));
            assert_eq!(elapsed_ms, 12);
            assert_eq!(fraction, None);
        }
        other => panic!("got {other:?}"),
    }
    let half = 0.5f64.to_bits();
    match job.progress_with_fraction(Stage::Transcribing, None, 1, Some(half)).unwrap() {
        ServerFrame::Progress { fraction, .. } => assert_eq!(fraction, Some(half)),
        other => panic!("got {other:?}"),
    }
    match job.heartbeat(false, true, 5000).unwrap() {
        ServerFrame::Progress { stage, message, fraction, .. } => {
            assert_eq!(stage, Stage::Transcribing);
            assert_eq!(message.as_deref(), Some("a dictation is waiting behind this job"));
            assert_eq!(fraction, None);
        }
        other => panic!("got {other:?}"),
    }
    assert!(matches!(
        job.heartbeat(false, false, 5000),
        Some(ServerFrame::Progress { message: None, .. })
    ));
    assert!(job.heartbeat(true, true, 5000).is_none());
    let quiet = JobContext::new("77-2".to_string(), false);
    assert!(quiet.progress(Stage::Queued, None, 0).is_none());
    assert!(quiet.heartbeat(false, true, 0).is_none());
    match quiet.partial("done", " maybe") {
        ServerFrame::Partial { job_id, committed, tentative } => {
            assert_eq!((job_id.as_str(), committed.as_str(), tentative.as_str()), ("77-2", "done", " maybe"));
        }
        other => panic!("got {other:?}"),
    }
}

#[test]
fn a_cancelled_job_bails_out() {
    let mut job = JobContext::new("77-1".to_string(), true);
    assert!(job.check_cancelled().is_ok());
    job.cancel = true;
    let err = job.check_cancelled().unwrap_err();
    assert_eq!(err.code, ErrorCode::Cancelled);
    assert_eq!(err.message, "job cancelled by the client");
}

#[test]
fn outcomes_become_terminal_frames() {
    let err = HandlerError::new(ErrorCode::Internal, "why".to_string());
    match answer("77-1".to_string(), Err(err)) {
        ServerFrame::Error { job_id, code, message } => {
            assert_eq!(job_id.as_deref(), Some("77-1"));
            assert_eq!(code, ErrorCode::Internal);
            assert_eq!(message, "why");
        }
        other => panic!("got {other:?}"),
    }
    let pong = ResultBody::Pong { app_version: "0.9.4".to_string() };
    assert!(matches!(
        answer("77-1".to_string(), Ok(pong)),
        ServerFrame::Result { job_id, body: ResultBody::Pong { .. } } if job_id == "77-1"
    ));
}

#[test]
fn status_reports_the_app() {
    let facts = AppFacts {
        app_version: "0.9.4".to_string(),
        pid: 77,
        uptime_secs: 9,
        selected_model: "large".to_string(),
        loaded_model: Some("small".to_string()),
        backend: None,
        model_loaded: true,
        engine_busy: Some(LeaseOwner::Cli),
        recording: None,
        streaming: true,
        post_process_enabled: false,
    };
    match status::handle(facts).unwrap() {
        ResultBody::Status(s) => {
            assert_eq!(s.app_version, "0.9.4");
            assert_eq!(s.protocol, 1);
            assert_eq!(s.pid, 77);
            assert_eq!(s.uptime_secs, 9);
            assert_eq!(s.selected_model, "large");
            assert_eq!(s.loaded_model.as_deref(), Some("small"));
            assert_eq!(s.backend, None);
            assert!(s.model_loaded);
            assert_eq!(s.engine_busy, Some(LeaseOwner::Cli));
            assert!(!s.recording);
            assert!(s.streaming);
            assert!(!s.post_process_enabled);
        }
        other => panic!("got {other:?}"),
    }
}
