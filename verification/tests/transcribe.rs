use handy::engine_lease::LeaseError;
use handy::handlers::transcribe::lease_error;
use handy::handlers::transcribe::recording_name;
use handy::handlers::transcribe::JobAction;
use handy::handlers::transcribe::JobStep;
use handy::handlers::transcribe::Phase;
use handy::handlers::transcribe::TranscribeJob;
use handy::protocol::AudioEncoding;
use handy::protocol::AudioSource;
use handy::protocol::ErrorCode;
use handy::protocol::LeaseOwner;
use handy::protocol::ResultBody;
use handy::protocol::Stage;
use handy::protocol::TranscribeRequest;
use handy::protocol::TranscriptBody;
use handy::protocol::WaitPolicy;

fn request() -> TranscribeRequest {
    TranscribeRequest {
        audio: AudioSource::Inline {
            encoding: AudioEncoding::PcmF32Le,
            sample_rate: 16_000,
            channels: 1,
            byte_len: 64_000,
        },
        source_label: Some("rec.wav".to_string()),
        model: None,
        restore_model: true,
        raw: false,
        post_process: false,
        save_history: false,
        paste: false,
        wait_policy: WaitPolicy::default(),
        want_progress: true,
        allow_streaming: true,
        want_partials: false,
    }
}

fn stage(step: &JobStep) -> Option<Stage> {
    step.progress.as_ref().map(|p| p.stage)
}

fn failed(step: JobStep) -> (ErrorCode, String) {
    match step.action {
        JobAction::Finish(Err(e)) => (e.code, e.message),
        other => panic!("got {other:?}"),
    }
}

fn finished(step: JobStep) -> TranscriptBody {
    match step.action {
        JobAction::Finish(Ok(ResultBody::Transcript(t))) => *t,
        other => panic!("got {other:?}"),
    }
}

/// A job that holds the engine, with the given model loaded.
fn with_engine(request: TranscribeRequest, current: Option<&str>, selected: &str, loaded: bool) -> (TranscribeJob, JobStep) {
    let mut job = TranscribeJob::from_socket(request);
    job.start(Some(16_000), false);
    job.engine_claimed(Ok(()), 5, false);
    let step = job.models_found(current.map(|m| m.to_string()), selected.to_string(), loaded);
    (job, step)
}

/// A job whose engine has just produced `text`.
fn after_engine(request: TranscribeRequest, text: &str) -> (TranscribeJob, JobStep) {
    let (mut job, _) = with_engine(request, Some("small"), "small", true);
    job.model_checked(true, false);
    let step = job.streamed(Ok(Some(text.to_string())), 70, Some("metal".to_string()), false);
    (job, step)
}

#[test]
fn a_plain_job_runs_through() {
    let mut job = TranscribeJob::from_socket(request());
    assert_eq!(job.phase(), Phase::New);
    let step = job.start(Some(16_000), false);
    assert_eq!(stage(&step), Some(Stage::WaitingForEngine));
    assert!(matches!(
        step.action,
        JobAction::ClaimEngine { policy: WaitPolicy::Wait { timeout_ms: None } }
    ));
    let step = job.engine_claimed(Ok(()), 5, false);
    assert!(matches!(step.action, JobAction::FindModels));
    let step = job.models_found(Some("small".to_string()), "large".to_string(), true);
    assert!(matches!(&step.action, JobAction::CheckModel { model } if model == "small"));
    let step = job.model_checked(true, false);
    assert_eq!(stage(&step), Some(Stage::Transcribing));
    assert!(matches!(step.action, JobAction::Stream { want_partials: false }));
    let step = job.streamed(Ok(Some("hello".to_string())), 70, Some("metal".to_string()), false);
    // The engine is free before the output pipeline runs.
    assert!(step.release);
    assert_eq!(step.restore, None);
    assert_eq!(stage(&step), None);
    assert!(matches!(
        &step.action,
        JobAction::PostProcess { raw_text, llm: false } if raw_text == "hello"
    ));
    let step = job.post_processed("Hello.".to_string(), None, None);
    assert_eq!(job.phase(), Phase::Done);
    let t = finished(step);
    assert_eq!(t.text, "Hello.");
    assert_eq!(t.raw_text, "hello");
    assert!(t.pipeline_ran && !t.post_processed && !t.post_process_applied);
    assert_eq!(t.model, "small");
    assert_eq!(t.backend.as_deref(), Some("metal"));
    assert_eq!(t.audio_samples, 16_000);
    assert_eq!((t.queue_ms, t.load_ms, t.transcribe_ms), (5, 0, 70));
    assert!(!t.cold_load && t.streamed && !t.pasted);
    assert_eq!(t.history_id, None);
}

#[test]
fn audio_is_resolved_first() {
    let mut job = TranscribeJob::from_socket(request());
    assert_eq!(
        failed(job.start(None, false)),
        (
            ErrorCode::BadRequest,
            "inline audio was declared but no payload followed".to_string()
        )
    );
    let mut job = TranscribeJob::from_socket(request());
    assert_eq!(
        failed(job.start(Some(0), true)),
        (ErrorCode::BadRequest, "the audio payload contained no samples".to_string())
    );
    let mut by_path = request();
    by_path.audio = AudioSource::Path { path: "/tmp/a.wav".to_string() };
    let mut job = TranscribeJob::new(by_path.clone(), true);
    let step = job.start(None, false);
    assert!(matches!(&step.action, JobAction::DecodePath { path } if path == "/tmp/a.wav"));
    assert_eq!(
        failed(job.audio_decoded(Err("unreadable".to_string()), false)),
        (ErrorCode::IoError, "unreadable".to_string())
    );
    let mut job = TranscribeJob::new(by_path, true);
    job.start(Some(3), false);
    let step = job.audio_decoded(Ok(100), false);
    assert!(matches!(step.action, JobAction::ClaimEngine { .. }));
}

#[test]
fn the_socket_opens_no_file() {
    let mut by_path = request();
    by_path.audio = AudioSource::Path { path: "/tmp/a.wav".to_string() };
    let refused = (
        ErrorCode::BadRequest,
        "the server does not open files; send the audio with the request".to_string(),
    );
    let mut job = TranscribeJob::from_socket(by_path.clone());
    assert_eq!(failed(job.start(None, false)), refused);
    assert_eq!(job.phase(), Phase::Done);
    let mut job = TranscribeJob::new(by_path, false);
    assert_eq!(failed(job.start(Some(3), false)), refused);
}

#[test]
fn a_busy_engine_is_reported() {
    let mut fail_fast = request();
    fail_fast.wait_policy = WaitPolicy::FailFast;
    let mut job = TranscribeJob::from_socket(fail_fast);
    let step = job.start(Some(1), false);
    assert!(matches!(step.action, JobAction::ClaimEngine { policy: WaitPolicy::FailFast }));
    let step = job.engine_claimed(Err(LeaseError::Busy(LeaseOwner::Batch)), 0, false);
    assert!(!step.release);
    assert_eq!(
        failed(step),
        (ErrorCode::Busy, "the transcription engine is busy with a dictation".to_string())
    );
    assert_eq!(lease_error(LeaseError::Timeout(None)).code, ErrorCode::Busy);
    assert_eq!(lease_error(LeaseError::Cancelled).code, ErrorCode::Cancelled);
}

#[test]
fn the_model_is_chosen_in_order() {
    let mut asked = request();
    asked.model = Some("tiny".to_string());
    let (_, step) = with_engine(asked, Some("small"), "large", true);
    assert!(matches!(&step.action, JobAction::CheckModel { model } if model == "tiny"));
    let (_, step) = with_engine(request(), None, "large", false);
    assert!(matches!(&step.action, JobAction::CheckModel { model } if model == "large"));
    let (_, step) = with_engine(request(), None, "", false);
    assert!(step.release);
    assert_eq!(
        failed(step),
        (
            ErrorCode::NoModelSelected,
            "no model is selected; pick one in Handy or pass --model".to_string()
        )
    );
    let (mut job, _) = with_engine(request(), Some("small"), "small", true);
    let step = job.model_checked(false, false);
    assert!(step.release);
    assert_eq!(
        failed(step),
        (
            ErrorCode::ModelNotAvailable,
            "unknown model 'small'; run `handy --list-models`".to_string()
        )
    );
}

#[test]
fn an_override_is_loaded_and_restored() {
    let mut asked = request();
    asked.model = Some("tiny".to_string());
    asked.allow_streaming = false;
    let (mut job, _) = with_engine(asked.clone(), Some("small"), "small", true);
    let step = job.model_checked(true, false);
    assert_eq!(stage(&step), Some(Stage::LoadingModel));
    assert_eq!(step.progress.unwrap().message.as_deref(), Some("loading model 'tiny'"));
    assert!(matches!(&step.action, JobAction::LoadModel { model } if model == "tiny"));
    let step = job.model_loaded(Ok(900), false);
    assert!(matches!(step.action, JobAction::Transcribe));
    let step = job.transcribed(Ok("text".to_string()), 70, None, false);
    assert!(step.release);
    assert_eq!(step.restore.as_deref(), Some("small"));
    let t = finished(job.post_processed("text".to_string(), None, None));
    assert!(t.cold_load && !t.streamed);
    assert_eq!((t.load_ms, t.model.as_str()), (900, "tiny"));

    // A load that fails leaves nothing to restore.
    let (mut job, _) = with_engine(asked.clone(), Some("small"), "small", true);
    job.model_checked(true, false);
    let step = job.model_loaded(Err("no memory".to_string()), false);
    assert!(step.release);
    assert_eq!(step.restore, None);
    assert_eq!(
        failed(step),
        (ErrorCode::ModelLoadFailed, "could not load model 'tiny': no memory".to_string())
    );

    // Nor is anything restored where that was not wanted.
    asked.restore_model = false;
    let (mut job, _) = with_engine(asked, Some("small"), "small", true);
    job.model_checked(true, false);
    job.model_loaded(Ok(900), false);
    let step = job.transcribed(Err("engine".to_string()), 70, None, false);
    assert!(step.release);
    assert_eq!(step.restore, None);
    assert_eq!(failed(step), (ErrorCode::TranscriptionFailed, "engine".to_string()));
}

#[test]
fn a_model_that_is_not_resident_is_loaded() {
    let (mut job, _) = with_engine(request(), Some("small"), "small", false);
    let step = job.model_checked(true, false);
    assert!(matches!(&step.action, JobAction::LoadModel { model } if model == "small"));
}

#[test]
fn streaming_may_decline_or_fail() {
    let (mut job, _) = with_engine(request(), Some("small"), "small", true);
    job.model_checked(true, false);
    let step = job.streamed(Ok(None), 1, None, false);
    assert!(!step.release);
    assert!(matches!(step.action, JobAction::Transcribe));

    let (mut job, _) = with_engine(request(), Some("small"), "small", true);
    job.model_checked(true, false);
    let step = job.streamed(Err("stopped".to_string()), 1, None, true);
    assert!(step.release);
    assert_eq!(failed(step), (ErrorCode::Cancelled, "stopped".to_string()));

    let (mut job, _) = with_engine(request(), Some("small"), "small", true);
    job.model_checked(true, false);
    let step = job.streamed(Err("stopped".to_string()), 1, None, false);
    assert_eq!(failed(step), (ErrorCode::TranscriptionFailed, "stopped".to_string()));
}

#[test]
fn cancellation_is_honoured_between_stages() {
    let cancelled = (ErrorCode::Cancelled, "job cancelled by the client".to_string());
    let mut job = TranscribeJob::from_socket(request());
    assert_eq!(failed(job.start(Some(1), true)), cancelled);

    let mut job = TranscribeJob::from_socket(request());
    job.start(Some(1), false);
    let step = job.engine_claimed(Ok(()), 0, true);
    assert!(step.release);
    assert_eq!(failed(step), cancelled);

    let mut asked = request();
    asked.model = Some("tiny".to_string());
    let (mut job, _) = with_engine(asked, Some("small"), "small", true);
    job.model_checked(true, false);
    let step = job.model_loaded(Ok(1), true);
    assert!(step.release);
    assert_eq!(step.restore.as_deref(), Some("small"));
    assert_eq!(failed(step), cancelled);

    let (mut job, _) = with_engine(request(), Some("small"), "small", true);
    job.model_checked(true, false);
    let step = job.streamed(Ok(None), 1, None, true);
    assert!(step.release);
    assert_eq!(failed(step), cancelled);

    let (mut job, _) = with_engine(request(), Some("small"), "small", true);
    job.model_checked(true, false);
    let step = job.streamed(Ok(Some("text".to_string())), 1, None, true);
    assert!(step.release);
    assert_eq!(failed(step), cancelled);
}

#[test]
fn raw_text_skips_the_pipeline() {
    let mut raw = request();
    raw.raw = true;
    let (_, step) = after_engine(raw, "hello");
    assert!(step.release);
    let t = finished(step);
    assert_eq!((t.text.as_str(), t.raw_text.as_str()), ("hello", "hello"));
    assert!(!t.pipeline_ran && !t.post_process_applied);
}

#[test]
fn post_processing_is_requested_and_applied_separately() {
    let mut llm = request();
    llm.post_process = true;
    let (mut job, step) = after_engine(llm.clone(), "hello");
    assert_eq!(stage(&step), Some(Stage::PostProcessing));
    assert!(matches!(step.action, JobAction::PostProcess { llm: true, .. }));
    let t = finished(job.post_processed("hello".to_string(), None, None));
    assert!(t.post_processed && !t.post_process_applied);
    let (mut job, _) = after_engine(llm, "hello");
    let t = finished(job.post_processed("Hi".to_string(), Some("Hi".to_string()), None));
    assert!(t.post_processed && t.post_process_applied);
    // A filter that changed the text is no post-processing.
    let (mut job, _) = after_engine(request(), "hello");
    let t = finished(job.post_processed("Hi".to_string(), Some("Hi".to_string()), None));
    assert!(!t.post_processed && !t.post_process_applied);
}

#[test]
fn history_is_written_verified_and_saved() {
    assert_eq!(recording_name(1700000000123), "handy-cli-1700000000123.wav");
    assert_eq!(recording_name(-5), "handy-cli--5.wav");
    let mut keep = request();
    keep.save_history = true;
    let (mut job, _) = after_engine(keep.clone(), "hello");
    let step = job.post_processed("Hi".to_string(), Some("Hi".to_string()), Some("p".to_string()));
    assert_eq!(stage(&step), Some(Stage::SavingHistory));
    assert!(matches!(step.action, JobAction::ReadClock));
    let step = job.clock_read(42);
    assert!(matches!(&step.action, JobAction::WriteRecording { file_name } if file_name == "handy-cli-42.wav"));
    let step = job.recording_written(true);
    assert!(matches!(
        &step.action,
        JobAction::VerifyRecording { file_name, samples: 16_000 } if file_name == "handy-cli-42.wav"
    ));
    let step = job.recording_verified(true);
    match step.action {
        JobAction::SaveEntry { file_name, raw_text, post_process, post_text, prompt } => {
            assert_eq!(file_name, "handy-cli-42.wav");
            assert_eq!(raw_text, "hello");
            assert!(!post_process);
            assert_eq!(post_text.as_deref(), Some("Hi"));
            assert_eq!(prompt.as_deref(), Some("p"));
        }
        other => panic!("got {other:?}"),
    }
    assert_eq!(finished(job.entry_saved(Some(9))).history_id, Some(9));

    // What cannot be written or read back is not kept, and fails nothing.
    let (mut job, _) = after_engine(keep.clone(), "hello");
    job.post_processed("Hi".to_string(), None, None);
    job.clock_read(42);
    assert_eq!(finished(job.recording_written(false)).history_id, None);
    let (mut job, _) = after_engine(keep, "hello");
    job.post_processed("Hi".to_string(), None, None);
    job.clock_read(42);
    job.recording_written(true);
    let step = job.recording_verified(false);
    assert!(matches!(&step.action, JobAction::RemoveRecording { file_name } if file_name == "handy-cli-42.wav"));
    assert_eq!(finished(job.recording_removed()).history_id, None);
}

#[test]
fn only_text_is_pasted() {
    let mut paste = request();
    paste.paste = true;
    let (mut job, _) = after_engine(paste.clone(), "hello");
    let step = job.post_processed("Hi".to_string(), None, None);
    assert_eq!(stage(&step), Some(Stage::Pasting));
    assert!(matches!(&step.action, JobAction::Paste { text } if text == "Hi"));
    assert!(finished(job.pasted(true)).pasted);
    let (mut job, _) = after_engine(paste.clone(), "hello");
    job.post_processed("Hi".to_string(), None, None);
    assert!(!finished(job.pasted(false)).pasted);
    let (mut job, _) = after_engine(paste, "hello");
    assert!(!finished(job.post_processed(String::new(), None, None)).pasted);
}
