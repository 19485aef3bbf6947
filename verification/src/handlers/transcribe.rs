//! `Transcribe` — run a buffer of audio through the app's loaded engine.
//!
//! The engine lease is what excludes a concurrent dictation. A job is a state
//! machine: each step says what to report, whether to give the engine back, and
//! which piece of work to do next; whoever runs it does that work and hands back
//! how it went, together with whether the client has given the job up meanwhile.

use crate::engine_lease;
use crate::engine_lease::GateView;
use crate::engine_lease::LeaseError;
use crate::protocol::AudioSource;
use crate::protocol::ErrorCode;
use crate::protocol::LeaseOwner;
use crate::protocol::ResultBody;
use crate::protocol::Stage;
use crate::protocol::TranscribeRequest;
use crate::protocol::TranscriptBody;
use crate::protocol::TranscriptView;
use crate::protocol::WaitPolicy;
use crate::server;
use crate::server::HandlerError;
use crate::server::HandlerResult;
use crate::text;
use vstd::prelude::*;

verus! {

// ---------------------------------------------------------------------------
// Model
// ---------------------------------------------------------------------------

/// The work a job is waiting for.
#[derive(Debug, Clone, Copy, PartialEq, Eq, Structural)]
pub enum Phase {
    /// Not started.
    New,
    /// A server-side file is being decoded.
    Audio,
    /// Queued for the engine.
    Engine,
    /// Finding out which models are selected and loaded.
    Models,
    /// Finding out whether the wanted model exists.
    Known,
    /// The wanted model is being loaded.
    Loading,
    /// The streaming engine is running.
    Streaming,
    /// The batch engine is running.
    Batch,
    /// The output pipeline is running.
    PostProcessing,
    /// Reading the clock, to name a recording.
    Naming,
    /// The recording is being written.
    Writing,
    /// The recording is being read back.
    Verifying,
    /// An unreadable recording is being removed.
    Removing,
    /// The history entry is being stored.
    Saving,
    /// The text is being pasted.
    Pasting,
    /// The client has its answer.
    Done,
}

impl Phase {
    /// Whether the engine is held throughout this phase.
    pub open spec fn holds_engine(self) -> bool {
        self is Models || self is Known || self is Loading || self is Streaming || self is Batch
    }

    /// Whether the engine was not claimed yet.
    pub open spec fn before_claim(self) -> bool {
        self is New || self is Audio || self is Engine
    }

    /// Position in the course of a job; every step moves forward.
    pub open spec fn rank(self) -> int {
        match self {
            Phase::New => 0,
            Phase::Audio => 1,
            Phase::Engine => 2,
            Phase::Models => 3,
            Phase::Known => 4,
            Phase::Loading => 5,
            Phase::Streaming => 6,
            Phase::Batch => 7,
            Phase::PostProcessing => 8,
            Phase::Naming => 9,
            Phase::Writing => 10,
            Phase::Verifying => 11,
            Phase::Removing => 12,
            Phase::Saving => 13,
            Phase::Pasting => 14,
            Phase::Done => 15,
        }
    }
}

/// What a job knows.
pub struct JobView {
    pub request: TranscribeRequest,
    /// Whether a file that the request names may be opened here.
    pub read_files: bool,
    pub phase: Phase,
    /// Number of 16 kHz mono samples.
    pub samples: u64,
    /// Whether the engine is held.
    pub held: bool,
    /// Model to load again once the engine is given back.
    pub restore: Option<Seq<char>>,
    pub queue_ms: u64,
    pub load_ms: u64,
    pub transcribe_ms: u64,
    /// Model that was loaded when the job got the engine.
    pub previous: Option<Seq<char>>,
    /// Whether that model is resident.
    pub loaded: bool,
    /// Model the job runs with.
    pub wanted: Seq<char>,
    pub cold_load: bool,
    pub streamed: bool,
    /// What the engine produced.
    pub raw_text: Seq<char>,
    pub backend: Option<Seq<char>>,
    /// What the client gets.
    pub final_text: Seq<char>,
    pub post_text: Option<Seq<char>>,
    pub prompt: Option<Seq<char>>,
    pub file_name: Seq<char>,
    pub history_id: Option<i64>,
}

/// The piece of work that comes next.
pub enum ActionView {
    DecodePath { path: Seq<char> },
    ClaimEngine { policy: WaitPolicy },
    FindModels,
    CheckModel { model: Seq<char> },
    LoadModel { model: Seq<char> },
    Stream { want_partials: bool },
    Transcribe,
    PostProcess { raw_text: Seq<char>, llm: bool },
    ReadClock,
    WriteRecording { file_name: Seq<char> },
    VerifyRecording { file_name: Seq<char>, samples: u64 },
    RemoveRecording { file_name: Seq<char> },
    SaveEntry {
        file_name: Seq<char>,
        raw_text: Seq<char>,
        post_process: bool,
        post_text: Option<Seq<char>>,
        prompt: Option<Seq<char>>,
    },
    Paste { text: Seq<char> },
    Finish(Result<TranscriptView, (ErrorCode, Seq<char>)>),
}

/// What a step asks for, in this order: give the engine back, loading `restore`
/// again where there is one; report `progress`; do `action`.
pub struct OutView {
    pub release: bool,
    pub restore: Option<Seq<char>>,
    pub progress: Option<(Stage, Option<Seq<char>>)>,
    pub action: ActionView,
}

/// A step: what the job knows after it, and what it asks for.
pub struct StepView {
    pub job: JobView,
    pub out: OutView,
}

/// A job on which nothing has happened.
pub open spec fn fresh_job(request: TranscribeRequest, read_files: bool) -> JobView {
    JobView {
        request,
        read_files,
        phase: Phase::New,
        samples: 0,
        held: false,
        restore: None,
        queue_ms: 0,
        load_ms: 0,
        transcribe_ms: 0,
        previous: None,
        loaded: false,
        wanted: Seq::empty(),
        cold_load: false,
        streamed: false,
        raw_text: Seq::empty(),
        backend: None,
        final_text: Seq::empty(),
        post_text: None,
        prompt: None,
        file_name: Seq::empty(),
        history_id: None,
    }
}

/// A step that only asks for the next piece of work.
pub open spec fn go(job: JobView, phase: Phase, action: ActionView) -> StepView {
    StepView {
        job: JobView { phase, ..job },
        out: OutView { release: false, restore: None, progress: None, action },
    }
}

/// A step that reports a stage and asks for the next piece of work.
pub open spec fn report(
    job: JobView,
    phase: Phase,
    stage: Stage,
    message: Option<Seq<char>>,
    action: ActionView,
) -> StepView {
    StepView {
        job: JobView { phase, ..job },
        out: OutView { release: false, restore: None, progress: Some((stage, message)), action },
    }
}

/// `job` after it gave the engine back.
pub open spec fn without_engine(job: JobView) -> JobView {
    JobView { held: false, restore: None, ..job }
}

/// The end of a job that failed. Whatever it held is given back.
pub open spec fn fail(job: JobView, code: ErrorCode, message: Seq<char>) -> StepView {
    StepView {
        job: JobView { phase: Phase::Done, ..without_engine(job) },
        out: OutView {
            release: job.held,
            restore: job.restore,
            progress: None,
            action: ActionView::Finish(Err((code, message))),
        },
    }
}

/// The end of a job whose client gave it up.
pub open spec fn give_up(job: JobView) -> StepView {
    fail(job, ErrorCode::Cancelled, server::cancelled_text())
}

/// What a client is told whose request names a file that is not to be opened.
pub open spec fn no_files_text() -> Seq<char> {
    "the server does not open files; send the audio with the request"@
}

/// The start of a job: inline audio has arrived already. A server-side file is
/// still to be read, which takes an explicit opt-in; without it the request is a
/// bad one.
pub open spec fn started(job: JobView, audio: Option<u64>, cancelled: bool) -> StepView {
    match (job.request.audio, audio) {
        (AudioSource::Inline { .. }, Some(samples)) => with_audio(job, samples, cancelled),
        (AudioSource::Inline { .. }, None) => fail(
            job,
            ErrorCode::BadRequest,
            "inline audio was declared but no payload followed"@,
        ),
        (AudioSource::Path { path }, _) => if job.read_files {
            go(job, Phase::Audio, ActionView::DecodePath { path: path@ })
        } else {
            fail(job, ErrorCode::BadRequest, no_files_text())
        },
    }
}

/// A server-side file was decoded, or could not be.
pub open spec fn decoded(job: JobView, result: Result<u64, Seq<char>>, cancelled: bool) -> StepView {
    match result {
        Ok(samples) => with_audio(job, samples, cancelled),
        Err(e) => fail(job, ErrorCode::IoError, e),
    }
}

/// The audio is there: queue for the engine.
pub open spec fn with_audio(job: JobView, samples: u64, cancelled: bool) -> StepView {
    let next = JobView { samples, ..job };
    if samples == 0 {
        fail(next, ErrorCode::BadRequest, "the audio payload contained no samples"@)
    } else if cancelled {
        give_up(next)
    } else {
        report(
            next,
            Phase::Engine,
            Stage::WaitingForEngine,
            None,
            ActionView::ClaimEngine { policy: job.request.wait_policy },
        )
    }
}

/// The code a client is shown for a lease that was not granted.
pub open spec fn lease_code(err: LeaseError) -> ErrorCode {
    match err {
        LeaseError::Busy(_) => ErrorCode::Busy,
        LeaseError::Timeout(_) => ErrorCode::Busy,
        LeaseError::Cancelled => ErrorCode::Cancelled,
    }
}

/// The engine was granted, or was not.
pub open spec fn claimed(
    job: JobView,
    result: Result<(), LeaseError>,
    queue_ms: u64,
    cancelled: bool,
) -> StepView {
    match result {
        Err(e) => fail(job, lease_code(e), e.text()),
        Ok(()) => {
            let next = JobView { held: true, queue_ms, ..job };
            if cancelled {
                give_up(next)
            } else {
                go(next, Phase::Models, ActionView::FindModels)
            }
        },
    }
}

/// The model a job runs with: the one it asked for, else the loaded one, else
/// the selected one.
pub open spec fn chosen_model(
    asked: Option<Seq<char>>,
    current: Option<Seq<char>>,
    selected: Seq<char>,
) -> Seq<char> {
    match asked {
        Some(id) => id,
        None => match current {
            Some(id) => id,
            None => selected,
        },
    }
}

/// The selected and loaded models are known.
pub open spec fn models_found(
    job: JobView,
    current: Option<Seq<char>>,
    selected: Seq<char>,
    loaded: bool,
) -> StepView {
    let wanted = chosen_model(text::opt_text(job.request.model), current, selected);
    let next = JobView { previous: current, loaded, wanted, ..job };
    if wanted.len() == 0 {
        fail(
            next,
            ErrorCode::NoModelSelected,
            "no model is selected; pick one in Handy or pass --model"@,
        )
    } else {
        go(next, Phase::Known, ActionView::CheckModel { model: wanted })
    }
}

/// Whether the wanted model has to be loaded first.
pub open spec fn needs_load(previous: Option<Seq<char>>, wanted: Seq<char>, loaded: bool) -> bool {
    previous != Some(wanted) || !loaded
}

/// The model to load again afterwards: what the app had loaded, where the job
/// ran with another one and was not told to leave it.
pub open spec fn restore_target(
    previous: Option<Seq<char>>,
    used: Seq<char>,
    enabled: bool,
) -> Option<Seq<char>> {
    if enabled && previous != Some(used) {
        previous
    } else {
        None
    }
}

/// The wanted model exists, or does not.
pub open spec fn model_checked(job: JobView, known: bool, cancelled: bool) -> StepView {
    if !known {
        fail(
            job,
            ErrorCode::ModelNotAvailable,
            "unknown model '"@ + job.wanted + "'; run `handy --list-models`"@,
        )
    } else if needs_load(job.previous, job.wanted, job.loaded) {
        report(
            JobView { cold_load: true, ..job },
            Phase::Loading,
            Stage::LoadingModel,
            Some("loading model '"@ + job.wanted + "'"@),
            ActionView::LoadModel { model: job.wanted },
        )
    } else {
        model_ready(job, cancelled)
    }
}

/// The wanted model was loaded, or could not be.
pub open spec fn model_loaded(
    job: JobView,
    result: Result<u64, Seq<char>>,
    cancelled: bool,
) -> StepView {
    match result {
        Ok(load_ms) => model_ready(JobView { load_ms, ..job }, cancelled),
        Err(e) => fail(
            job,
            ErrorCode::ModelLoadFailed,
            "could not load model '"@ + job.wanted + "': "@ + e,
        ),
    }
}

/// The right model is loaded: transcribe, streaming first where that is allowed.
pub open spec fn model_ready(job: JobView, cancelled: bool) -> StepView {
    let next = JobView {
        restore: restore_target(job.previous, job.wanted, job.request.restore_model),
        ..job
    };
    if cancelled {
        give_up(next)
    } else if job.request.allow_streaming {
        report(
            next,
            Phase::Streaming,
            Stage::Transcribing,
            None,
            ActionView::Stream { want_partials: job.request.want_partials },
        )
    } else {
        report(next, Phase::Batch, Stage::Transcribing, None, ActionView::Transcribe)
    }
}

/// The streaming engine produced text, declined, or failed.
pub open spec fn streamed(
    job: JobView,
    result: Result<Option<Seq<char>>, Seq<char>>,
    transcribe_ms: u64,
    backend: Option<Seq<char>>,
    cancelled: bool,
) -> StepView {
    match result {
        Err(e) => fail(
            job,
            if cancelled {
                ErrorCode::Cancelled
            } else {
                ErrorCode::TranscriptionFailed
            },
            e,
        ),
        Ok(Some(text)) => with_text(
            JobView { streamed: true, ..job },
            text,
            transcribe_ms,
            backend,
            cancelled,
        ),
        Ok(None) => if cancelled {
            give_up(job)
        } else {
            go(job, Phase::Batch, ActionView::Transcribe)
        },
    }
}

/// The batch engine produced text, or failed.
pub open spec fn transcribed(
    job: JobView,
    result: Result<Seq<char>, Seq<char>>,
    transcribe_ms: u64,
    backend: Option<Seq<char>>,
    cancelled: bool,
) -> StepView {
    match result {
        Err(e) => fail(job, ErrorCode::TranscriptionFailed, e),
        Ok(text) => with_text(job, text, transcribe_ms, backend, cancelled),
    }
}

/// The engine is done: it is given back before anything else happens, so that a
/// waiting dictation does not sit through the output pipeline.
pub open spec fn with_text(
    job: JobView,
    text: Seq<char>,
    transcribe_ms: u64,
    backend: Option<Seq<char>>,
    cancelled: bool,
) -> StepView {
    let next = JobView { raw_text: text, transcribe_ms, backend, ..without_engine(job) };
    let step = if cancelled {
        give_up(next)
    } else {
        output(next)
    };
    StepView {
        out: OutView { release: job.held, restore: job.restore, ..step.out },
        ..step
    }
}

/// What becomes of the engine's text: the output pipeline, unless the raw text
/// was asked for.
pub open spec fn output(job: JobView) -> StepView {
    if job.request.raw {
        with_output(job, job.raw_text, None, None)
    } else {
        let action = ActionView::PostProcess {
            raw_text: job.raw_text,
            llm: job.request.post_process,
        };
        if job.request.post_process {
            report(job, Phase::PostProcessing, Stage::PostProcessing, None, action)
        } else {
            go(job, Phase::PostProcessing, action)
        }
    }
}

/// The final text is known: save it where that was asked for.
pub open spec fn with_output(
    job: JobView,
    final_text: Seq<char>,
    post_text: Option<Seq<char>>,
    prompt: Option<Seq<char>>,
) -> StepView {
    let next = JobView { final_text, post_text, prompt, ..job };
    if job.request.save_history {
        report(next, Phase::Naming, Stage::SavingHistory, None, ActionView::ReadClock)
    } else {
        paste_step(next)
    }
}

/// The name of a recording that is made at `millis` after the epoch.
pub open spec fn recording_name_text(millis: int) -> Seq<char> {
    "handy-cli-"@ + text::signed_decimal_text(millis) + ".wav"@
}

/// The clock was read: write the recording.
pub open spec fn clock_read(job: JobView, millis: i64) -> StepView {
    let file_name = recording_name_text(millis as int);
    go(
        JobView { file_name, ..job },
        Phase::Writing,
        ActionView::WriteRecording { file_name },
    )
}

/// The recording was written, or could not be.
pub open spec fn recording_written(job: JobView, ok: bool) -> StepView {
    if ok {
        go(
            job,
            Phase::Verifying,
            ActionView::VerifyRecording { file_name: job.file_name, samples: job.samples },
        )
    } else {
        paste_step(job)
    }
}

/// The recording reads back, or does not.
pub open spec fn recording_verified(job: JobView, ok: bool) -> StepView {
    if ok {
        go(
            job,
            Phase::Saving,
            ActionView::SaveEntry {
                file_name: job.file_name,
                raw_text: job.raw_text,
                post_process: job.request.post_process,
                post_text: job.post_text,
                prompt: job.prompt,
            },
        )
    } else {
        go(job, Phase::Removing, ActionView::RemoveRecording { file_name: job.file_name })
    }
}

/// The history entry was stored under an id, or could not be.
pub open spec fn entry_saved(job: JobView, id: Option<i64>) -> StepView {
    paste_step(JobView { history_id: id, ..job })
}

/// Paste where that was asked for and there is something to paste.
pub open spec fn paste_step(job: JobView) -> StepView {
    if job.request.paste && job.final_text.len() > 0 {
        report(
            job,
            Phase::Pasting,
            Stage::Pasting,
            None,
            ActionView::Paste { text: job.final_text },
        )
    } else {
        finish(job, false)
    }
}

/// The answer of a job that went through.
pub open spec fn transcript(job: JobView, pasted: bool) -> TranscriptView {
    TranscriptView {
        text: job.final_text,
        raw_text: job.raw_text,
        pipeline_ran: !job.request.raw,
        post_processed: job.request.post_process,
        post_process_applied: job.request.post_process && job.post_text is Some,
        model: job.wanted,
        backend: job.backend,
        audio_samples: job.samples,
        queue_ms: job.queue_ms,
        load_ms: job.load_ms,
        transcribe_ms: job.transcribe_ms,
        cold_load: job.cold_load,
        streamed: job.streamed,
        history_id: job.history_id,
        pasted,
    }
}

/// The end of a job that went through.
pub open spec fn finish(job: JobView, pasted: bool) -> StepView {
    go(job, Phase::Done, ActionView::Finish(Ok(transcript(job, pasted))))
}

// ---------------------------------------------------------------------------
// The job
// ---------------------------------------------------------------------------

/// The piece of work that comes next.
#[derive(Debug)]
pub enum JobAction {
    /// Decode the file at `path`; continue with [`TranscribeJob::audio_decoded`].
    DecodePath { path: String },
    /// Claim the engine; continue with [`TranscribeJob::engine_claimed`].
    ClaimEngine { policy: WaitPolicy },
    /// Look up the loaded and the selected model; continue with
    /// [`TranscribeJob::models_found`].
    FindModels,
    /// Look up whether `model` exists; continue with
    /// [`TranscribeJob::model_checked`].
    CheckModel { model: String },
    /// Load `model` without touching the user's persisted selection; continue
    /// with [`TranscribeJob::model_loaded`].
    LoadModel { model: String },
    /// Run the streaming engine; continue with [`TranscribeJob::streamed`].
    Stream { want_partials: bool },
    /// Run the batch engine; continue with [`TranscribeJob::transcribed`].
    Transcribe,
    /// Run the output pipeline; continue with [`TranscribeJob::post_processed`].
    PostProcess { raw_text: String, llm: bool },
    /// Read the clock; continue with [`TranscribeJob::clock_read`].
    ReadClock,
    /// Write the samples as a recording; continue with
    /// [`TranscribeJob::recording_written`].
    WriteRecording { file_name: String },
    /// Read the recording back; continue with
    /// [`TranscribeJob::recording_verified`].
    VerifyRecording { file_name: String, samples: u64 },
    /// Remove the unreadable recording; continue with
    /// [`TranscribeJob::recording_removed`].
    RemoveRecording { file_name: String },
    /// Store a history entry; continue with [`TranscribeJob::entry_saved`].
    SaveEntry {
        file_name: String,
        raw_text: String,
        post_process: bool,
        post_text: Option<String>,
        prompt: Option<String>,
    },
    /// Paste `text`; continue with [`TranscribeJob::pasted`].
    Paste { text: String },
    /// Answer the client; the job is over.
    Finish(HandlerResult),
}

/// Whether an answer is the one that the model gives.
pub open spec fn answers(
    result: HandlerResult,
    view: Result<TranscriptView, (ErrorCode, Seq<char>)>,
) -> bool {
    match (result, view) {
        (Ok(ResultBody::Transcript(body)), Ok(v)) => body@ == v,
        (Err(e), Err(v)) => e.shown() == v,
        _ => false,
    }
}

impl JobAction {
    /// Whether this is the action that the model asks for.
    pub open spec fn is(self, view: ActionView) -> bool {
        match (self, view) {
            (JobAction::DecodePath { path }, ActionView::DecodePath { path: v }) => path@ == v,
            (JobAction::ClaimEngine { policy }, ActionView::ClaimEngine { policy: v }) => policy
                == v,
            (JobAction::FindModels, ActionView::FindModels) => true,
            (JobAction::CheckModel { model }, ActionView::CheckModel { model: v }) => model@ == v,
            (JobAction::LoadModel { model }, ActionView::LoadModel { model: v }) => model@ == v,
            (
                JobAction::Stream { want_partials },
                ActionView::Stream { want_partials: v },
            ) => want_partials == v,
            (JobAction::Transcribe, ActionView::Transcribe) => true,
            (
                JobAction::PostProcess { raw_text, llm },
                ActionView::PostProcess { raw_text: v, llm: w },
            ) => raw_text@ == v && llm == w,
            (JobAction::ReadClock, ActionView::ReadClock) => true,
            (
                JobAction::WriteRecording { file_name },
                ActionView::WriteRecording { file_name: v },
            ) => file_name@ == v,
            (
                JobAction::VerifyRecording { file_name, samples },
                ActionView::VerifyRecording { file_name: v, samples: w },
            ) => file_name@ == v && samples == w,
            (
                JobAction::RemoveRecording { file_name },
                ActionView::RemoveRecording { file_name: v },
            ) => file_name@ == v,
            (
                JobAction::SaveEntry { file_name, raw_text, post_process, post_text, prompt },
                ActionView::SaveEntry {
                    file_name: v,
                    raw_text: w,
                    post_process: x,
                    post_text: y,
                    prompt: z,
                },
            ) => file_name@ == v && raw_text@ == w && post_process == x && text::opt_text(post_text)
                == y && text::opt_text(prompt) == z,
            (JobAction::Paste { text }, ActionView::Paste { text: v }) => text@ == v,
            (JobAction::Finish(result), ActionView::Finish(v)) => answers(result, v),
            _ => false,
        }
    }
}

/// A progress report that a step asks for.
#[derive(Debug)]
pub struct StageReport {
    pub stage: Stage,
    pub message: Option<String>,
}

/// What a step asks for, in the order of the fields.
#[derive(Debug)]
pub struct JobStep {
    /// Give the engine back.
    pub release: bool,
    /// Load this model again, without making the client wait for it.
    pub restore: Option<String>,
    /// Report a stage to the client.
    pub progress: Option<StageReport>,
    /// Do this next.
    pub action: JobAction,
}

impl JobStep {
    /// Whether this is what the model asks for.
    pub open spec fn is(self, view: OutView) -> bool {
        &&& self.release == view.release
        &&& text::opt_text(self.restore) == view.restore
        &&& match (self.progress, view.progress) {
            (Some(p), Some((stage, message))) => p.stage == stage && text::opt_text(p.message)
                == message,
            (None, None) => true,
            _ => false,
        }
        &&& self.action.is(view.action)
    }
}

/// A running transcription.
#[derive(Debug)]
pub struct TranscribeJob {
    request: TranscribeRequest,
    read_files: bool,
    phase: Phase,
    samples: u64,
    held: bool,
    restore: Option<String>,
    queue_ms: u64,
    load_ms: u64,
    transcribe_ms: u64,
    previous: Option<String>,
    loaded: bool,
    wanted: String,
    cold_load: bool,
    streamed: bool,
    raw_text: String,
    backend: Option<String>,
    final_text: String,
    post_text: Option<String>,
    prompt: Option<String>,
    file_name: String,
    history_id: Option<i64>,
}

/// The error a client is shown for a lease that was not granted.
pub fn lease_error(err: LeaseError) -> (r: HandlerError)
    ensures
        r.shown() == (lease_code(err), err.text()),
{
    let code = match err {
        LeaseError::Busy(_) => ErrorCode::Busy,
        LeaseError::Timeout(_) => ErrorCode::Busy,
        LeaseError::Cancelled => ErrorCode::Cancelled,
    };
    HandlerError::new(code, err.message())
}

/// The name of a recording that is made at `millis` after the epoch.
pub fn recording_name(millis: i64) -> (r: String)
    ensures
        r@ == recording_name_text(millis as int),
{
    "handy-cli-".to_owned().concat(text::signed_decimal(millis).as_str()).concat(".wav")
}

impl TranscribeJob {
    /// What the job knows.
    pub closed spec fn view(&self) -> JobView {
        JobView {
            request: self.request,
            read_files: self.read_files,
            phase: self.phase,
            samples: self.samples,
            held: self.held,
            restore: text::opt_text(self.restore),
            queue_ms: self.queue_ms,
            load_ms: self.load_ms,
            transcribe_ms: self.transcribe_ms,
            previous: text::opt_text(self.previous),
            loaded: self.loaded,
            wanted: self.wanted@,
            cold_load: self.cold_load,
            streamed: self.streamed,
            raw_text: self.raw_text@,
            backend: text::opt_text(self.backend),
            final_text: self.final_text@,
            post_text: text::opt_text(self.post_text),
            prompt: text::opt_text(self.prompt),
            file_name: self.file_name@,
            history_id: self.history_id,
        }
    }

    /// A job for a request that came over the socket. It never opens a file that
    /// the caller names, so the socket cannot be used to read files.
    pub fn from_socket(request: TranscribeRequest) -> (r: Self)
        ensures
            r@ == fresh_job(request, false),
    {
        TranscribeJob::new(request, false)
    }

    /// A job for `request`; `read_files` opts into opening a file that it names.
    pub fn new(request: TranscribeRequest, read_files: bool) -> (r: Self)
        ensures
            r@ == fresh_job(request, read_files),
    {
        let r = TranscribeJob {
            request,
            read_files,
            phase: Phase::New,
            samples: 0,
            held: false,
            restore: None,
            queue_ms: 0,
            load_ms: 0,
            transcribe_ms: 0,
            previous: None,
            loaded: false,
            wanted: String::new(),
            cold_load: false,
            streamed: false,
            raw_text: String::new(),
            backend: None,
            final_text: String::new(),
            post_text: None,
            prompt: None,
            file_name: String::new(),
            history_id: None,
        };
        proof {
            reveal_strlit("");
            assert(r.wanted@ =~= Seq::<char>::empty());
        }
        r
    }

    /// What the job is waiting for.
    pub fn phase(&self) -> (r: Phase)
        ensures
            r == self@.phase,
    {
        self.phase
    }

    fn go(&mut self, phase: Phase, action: JobAction) -> (r: JobStep)
        ensures
            final(self)@ == (JobView { phase, ..old(self)@ }),
            r == (JobStep { release: false, restore: None, progress: None, action }),
    {
        self.phase = phase;
        JobStep { release: false, restore: None, progress: None, action }
    }

    fn report(
        &mut self,
        phase: Phase,
        stage: Stage,
        message: Option<String>,
        action: JobAction,
    ) -> (r: JobStep)
        ensures
            final(self)@ == (JobView { phase, ..old(self)@ }),
            r == (JobStep {
                release: false,
                restore: None,
                progress: Some(StageReport { stage, message }),
                action,
            }),
    {
        self.phase = phase;
        JobStep {
            release: false,
            restore: None,
            progress: Some(StageReport { stage, message }),
            action,
        }
    }

    fn fail(&mut self, error: HandlerError) -> (r: JobStep)
        ensures
            final(self)@ == fail(old(self)@, error.code, error.message@).job,
            r.is(fail(old(self)@, error.code, error.message@).out),
    {
        let release = self.held;
        let restore = text::copy_opt(&self.restore);
        self.held = false;
        self.restore = None;
        self.phase = Phase::Done;
        JobStep { release, restore, progress: None, action: JobAction::Finish(Err(error)) }
    }

    fn give_up(&mut self) -> (r: JobStep)
        ensures
            final(self)@ == give_up(old(self)@).job,
            r.is(give_up(old(self)@).out),
    {
        self.fail(
            HandlerError::new(ErrorCode::Cancelled, "job cancelled by the client".to_owned()),
        )
    }

    /// Start the job. `audio` is the number of inline samples that came with the
    /// request, where any did.
    pub fn start(&mut self, audio: Option<u64>, cancelled: bool) -> (r: JobStep)
        requires
            old(self)@.phase == Phase::New,
        ensures
            final(self)@ == started(old(self)@, audio, cancelled).job,
            r.is(started(old(self)@, audio, cancelled).out),
    {
        match &self.request.audio {
            AudioSource::Inline { .. } => match audio {
                Some(samples) => self.with_audio(samples, cancelled),
                None => self.fail(
                    HandlerError::new(
                        ErrorCode::BadRequest,
                        "inline audio was declared but no payload followed".to_owned(),
                    ),
                ),
            },
            AudioSource::Path { path } => {
                if !self.read_files {
                    return self.fail(
                        HandlerError::new(
                            ErrorCode::BadRequest,
                            "the server does not open files; send the audio with the request".to_owned(),
                        ),
                    );
                }
                let path = path.clone();
                self.go(Phase::Audio, JobAction::DecodePath { path })
            },
        }
    }

    /// The server-side file was decoded, or could not be.
    pub fn audio_decoded(&mut self, result: Result<u64, String>, cancelled: bool) -> (r: JobStep)
        requires
            old(self)@.phase == Phase::Audio,
        ensures
            final(self)@ == decoded(old(self)@, said(result), cancelled).job,
            r.is(decoded(old(self)@, said(result), cancelled).out),
    {
        match result {
            Ok(samples) => self.with_audio(samples, cancelled),
            Err(e) => self.fail(HandlerError::new(ErrorCode::IoError, e)),
        }
    }

    fn with_audio(&mut self, samples: u64, cancelled: bool) -> (r: JobStep)
        ensures
            final(self)@ == with_audio(old(self)@, samples, cancelled).job,
            r.is(with_audio(old(self)@, samples, cancelled).out),
    {
        self.samples = samples;
        if samples == 0 {
            self.fail(
                HandlerError::new(
                    ErrorCode::BadRequest,
                    "the audio payload contained no samples".to_owned(),
                ),
            )
        } else if cancelled {
            self.give_up()
        } else {
            let policy = self.request.wait_policy;
            self.report(
                Phase::Engine,
                Stage::WaitingForEngine,
                None,
                JobAction::ClaimEngine { policy },
            )
        }
    }

    /// The engine was granted after `queue_ms`, or was not.
    pub fn engine_claimed(
        &mut self,
        result: Result<(), LeaseError>,
        queue_ms: u64,
        cancelled: bool,
    ) -> (r: JobStep)
        requires
            old(self)@.phase == Phase::Engine,
        ensures
            final(self)@ == claimed(old(self)@, result, queue_ms, cancelled).job,
            r.is(claimed(old(self)@, result, queue_ms, cancelled).out),
    {
        match result {
            Err(e) => {
                let error = lease_error(e);
                self.fail(error)
            },
            Ok(_) => {
                self.held = true;
                self.queue_ms = queue_ms;
                if cancelled {
                    self.give_up()
                } else {
                    self.go(Phase::Models, JobAction::FindModels)
                }
            },
        }
    }

    /// The loaded and the selected model are known.
    pub fn models_found(
        &mut self,
        current: Option<String>,
        selected: String,
        loaded: bool,
    ) -> (r: JobStep)
        requires
            old(self)@.phase == Phase::Models,
        ensures
            final(self)@ == models_found(
                old(self)@,
                text::opt_text(current),
                selected@,
                loaded,
            ).job,
            r.is(models_found(old(self)@, text::opt_text(current), selected@, loaded).out),
    {
        let wanted: String = match &self.request.model {
            Some(id) => id.clone(),
            None => match &current {
                Some(id) => id.clone(),
                None => selected,
            },
        };
        self.previous = current;
        self.loaded = loaded;
        self.wanted = wanted;
        if self.wanted.as_str().is_empty() {
            self.fail(
                HandlerError::new(
                    ErrorCode::NoModelSelected,
                    "no model is selected; pick one in Handy or pass --model".to_owned(),
                ),
            )
        } else {
            let model = self.wanted.clone();
            self.go(Phase::Known, JobAction::CheckModel { model })
        }
    }

    /// The wanted model exists, or does not.
    pub fn model_checked(&mut self, known: bool, cancelled: bool) -> (r: JobStep)
        requires
            old(self)@.phase == Phase::Known,
        ensures
            final(self)@ == model_checked(old(self)@, known, cancelled).job,
            r.is(model_checked(old(self)@, known, cancelled).out),
    {
        if !known {
            let message = "unknown model '".to_owned().concat(self.wanted.as_str()).concat(
                "'; run `handy --list-models`",
            );
            return self.fail(HandlerError::new(ErrorCode::ModelNotAvailable, message));
        }
        let resident = match &self.previous {
            Some(previous) => same_model(previous, &self.wanted),
            None => false,
        };
        if !resident || !self.loaded {
            self.cold_load = true;
            let message = "loading model '".to_owned().concat(self.wanted.as_str()).concat("'");
            let model = self.wanted.clone();
            self.report(
                Phase::Loading,
                Stage::LoadingModel,
                Some(message),
                JobAction::LoadModel { model },
            )
        } else {
            self.model_ready(cancelled)
        }
    }

    /// The wanted model was loaded, within the given milliseconds, or could not
    /// be.
    pub fn model_loaded(&mut self, result: Result<u64, String>, cancelled: bool) -> (r: JobStep)
        requires
            old(self)@.phase == Phase::Loading,
        ensures
            final(self)@ == model_loaded(old(self)@, said(result), cancelled).job,
            r.is(model_loaded(old(self)@, said(result), cancelled).out),
    {
        match result {
            Ok(load_ms) => {
                self.load_ms = load_ms;
                self.model_ready(cancelled)
            },
            Err(e) => {
                let message = "could not load model '".to_owned().concat(
                    self.wanted.as_str(),
                ).concat("': ").concat(e.as_str());
                self.fail(HandlerError::new(ErrorCode::ModelLoadFailed, message))
            },
        }
    }

    fn model_ready(&mut self, cancelled: bool) -> (r: JobStep)
        ensures
            final(self)@ == model_ready(old(self)@, cancelled).job,
            r.is(model_ready(old(self)@, cancelled).out),
    {
        self.restore = match &self.previous {
            Some(previous) => if self.request.restore_model && !same_model(
                previous,
                &self.wanted,
            ) {
                Some(previous.clone())
            } else {
                None
            },
            None => None,
        };
        if cancelled {
            self.give_up()
        } else if self.request.allow_streaming {
            let want_partials = self.request.want_partials;
            self.report(
                Phase::Streaming,
                Stage::Transcribing,
                None,
                JobAction::Stream { want_partials },
            )
        } else {
            self.report(Phase::Batch, Stage::Transcribing, None, JobAction::Transcribe)
        }
    }

    /// The streaming engine produced text, declined, or failed; `transcribe_ms`
    /// counts from when transcribing began.
    pub fn streamed(
        &mut self,
        result: Result<Option<String>, String>,
        transcribe_ms: u64,
        backend: Option<String>,
        cancelled: bool,
    ) -> (r: JobStep)
        requires
            old(self)@.phase == Phase::Streaming,
        ensures
            final(self)@ == streamed(
                old(self)@,
                said_text(result),
                transcribe_ms,
                text::opt_text(backend),
                cancelled,
            ).job,
            r.is(
                streamed(
                    old(self)@,
                    said_text(result),
                    transcribe_ms,
                    text::opt_text(backend),
                    cancelled,
                ).out,
            ),
    {
        match result {
            Err(e) => {
                let code = if cancelled {
                    ErrorCode::Cancelled
                } else {
                    ErrorCode::TranscriptionFailed
                };
                self.fail(HandlerError::new(code, e))
            },
            Ok(Some(text)) => {
                self.streamed = true;
                self.with_text(text, transcribe_ms, backend, cancelled)
            },
            Ok(None) => if cancelled {
                self.give_up()
            } else {
                self.go(Phase::Batch, JobAction::Transcribe)
            },
        }
    }

    /// The batch engine produced text, or failed; `transcribe_ms` counts from
    /// when transcribing began.
    pub fn transcribed(
        &mut self,
        result: Result<String, String>,
        transcribe_ms: u64,
        backend: Option<String>,
        cancelled: bool,
    ) -> (r: JobStep)
        requires
            old(self)@.phase == Phase::Batch,
        ensures
            final(self)@ == transcribed(
                old(self)@,
                both_text(result),
                transcribe_ms,
                text::opt_text(backend),
                cancelled,
            ).job,
            r.is(
                transcribed(
                    old(self)@,
                    both_text(result),
                    transcribe_ms,
                    text::opt_text(backend),
                    cancelled,
                ).out,
            ),
    {
        match result {
            Err(e) => self.fail(HandlerError::new(ErrorCode::TranscriptionFailed, e)),
            Ok(text) => self.with_text(text, transcribe_ms, backend, cancelled),
        }
    }

    fn with_text(
        &mut self,
        text: String,
        transcribe_ms: u64,
        backend: Option<String>,
        cancelled: bool,
    ) -> (r: JobStep)
        ensures
            final(self)@ == with_text(
                old(self)@,
                text@,
                transcribe_ms,
                text::opt_text(backend),
                cancelled,
            ).job,
            r.is(
                with_text(
                    old(self)@,
                    text@,
                    transcribe_ms,
                    text::opt_text(backend),
                    cancelled,
                ).out,
            ),
    {
        let release = self.held;
        let restore = text::copy_opt(&self.restore);
        self.raw_text = text;
        self.transcribe_ms = transcribe_ms;
        self.backend = backend;
        self.held = false;
        self.restore = None;
        let step = if cancelled {
            self.give_up()
        } else {
            self.output()
        };
        JobStep { release, restore, progress: step.progress, action: step.action }
    }

    fn output(&mut self) -> (r: JobStep)
        ensures
            final(self)@ == output(old(self)@).job,
            r.is(output(old(self)@).out),
    {
        let raw_text = self.raw_text.clone();
        if self.request.raw {
            return self.with_output(raw_text, None, None);
        }
        let llm = self.request.post_process;
        let action = JobAction::PostProcess { raw_text, llm };
        if llm {
            self.report(Phase::PostProcessing, Stage::PostProcessing, None, action)
        } else {
            self.go(Phase::PostProcessing, action)
        }
    }

    /// The output pipeline is through: the text it ended with, the text that
    /// post-processing produced, and the prompt that was used for it.
    pub fn post_processed(
        &mut self,
        final_text: String,
        post_text: Option<String>,
        prompt: Option<String>,
    ) -> (r: JobStep)
        requires
            old(self)@.phase == Phase::PostProcessing,
        ensures
            final(self)@ == with_output(
                old(self)@,
                final_text@,
                text::opt_text(post_text),
                text::opt_text(prompt),
            ).job,
            r.is(
                with_output(
                    old(self)@,
                    final_text@,
                    text::opt_text(post_text),
                    text::opt_text(prompt),
                ).out,
            ),
    {
        self.with_output(final_text, post_text, prompt)
    }

    fn with_output(
        &mut self,
        final_text: String,
        post_text: Option<String>,
        prompt: Option<String>,
    ) -> (r: JobStep)
        ensures
            final(self)@ == with_output(
                old(self)@,
                final_text@,
                text::opt_text(post_text),
                text::opt_text(prompt),
            ).job,
            r.is(
                with_output(
                    old(self)@,
                    final_text@,
                    text::opt_text(post_text),
                    text::opt_text(prompt),
                ).out,
            ),
    {
        self.final_text = final_text;
        self.post_text = post_text;
        self.prompt = prompt;
        if self.request.save_history {
            self.report(Phase::Naming, Stage::SavingHistory, None, JobAction::ReadClock)
        } else {
            self.paste_step()
        }
    }

    /// The clock was read, in milliseconds after the epoch.
    pub fn clock_read(&mut self, millis: i64) -> (r: JobStep)
        requires
            old(self)@.phase == Phase::Naming,
        ensures
            final(self)@ == clock_read(old(self)@, millis).job,
            r.is(clock_read(old(self)@, millis).out),
    {
        self.file_name = recording_name(millis);
        let file_name = self.file_name.clone();
        self.go(Phase::Writing, JobAction::WriteRecording { file_name })
    }

    /// The recording was written, or could not be.
    pub fn recording_written(&mut self, ok: bool) -> (r: JobStep)
        requires
            old(self)@.phase == Phase::Writing,
        ensures
            final(self)@ == recording_written(old(self)@, ok).job,
            r.is(recording_written(old(self)@, ok).out),
    {
        if ok {
            let file_name = self.file_name.clone();
            let samples = self.samples;
            self.go(Phase::Verifying, JobAction::VerifyRecording { file_name, samples })
        } else {
            self.paste_step()
        }
    }

    /// The recording reads back, or does not.
    pub fn recording_verified(&mut self, ok: bool) -> (r: JobStep)
        requires
            old(self)@.phase == Phase::Verifying,
        ensures
            final(self)@ == recording_verified(old(self)@, ok).job,
            r.is(recording_verified(old(self)@, ok).out),
    {
        let file_name = self.file_name.clone();
        if ok {
            let raw_text = self.raw_text.clone();
            let post_process = self.request.post_process;
            let post_text = text::copy_opt(&self.post_text);
            let prompt = text::copy_opt(&self.prompt);
            self.go(
                Phase::Saving,
                JobAction::SaveEntry { file_name, raw_text, post_process, post_text, prompt },
            )
        } else {
            self.go(Phase::Removing, JobAction::RemoveRecording { file_name })
        }
    }

    /// The unreadable recording was dealt with.
    pub fn recording_removed(&mut self) -> (r: JobStep)
        requires
            old(self)@.phase == Phase::Removing,
        ensures
            final(self)@ == paste_step(old(self)@).job,
            r.is(paste_step(old(self)@).out),
    {
        self.paste_step()
    }

    /// The history entry was stored under an id, or could not be.
    pub fn entry_saved(&mut self, id: Option<i64>) -> (r: JobStep)
        requires
            old(self)@.phase == Phase::Saving,
        ensures
            final(self)@ == entry_saved(old(self)@, id).job,
            r.is(entry_saved(old(self)@, id).out),
    {
        self.history_id = id;
        self.paste_step()
    }

    fn paste_step(&mut self) -> (r: JobStep)
        ensures
            final(self)@ == paste_step(old(self)@).job,
            r.is(paste_step(old(self)@).out),
    {
        if self.request.paste && !self.final_text.as_str().is_empty() {
            let text = self.final_text.clone();
            self.report(Phase::Pasting, Stage::Pasting, None, JobAction::Paste { text })
        } else {
            self.finish(false)
        }
    }

    /// The text was pasted, or could not be.
    pub fn pasted(&mut self, ok: bool) -> (r: JobStep)
        requires
            old(self)@.phase == Phase::Pasting,
        ensures
            final(self)@ == finish(old(self)@, ok).job,
            r.is(finish(old(self)@, ok).out),
    {
        self.finish(ok)
    }

    fn finish(&mut self, pasted: bool) -> (r: JobStep)
        ensures
            final(self)@ == finish(old(self)@, pasted).job,
            r.is(finish(old(self)@, pasted).out),
    {
        let body = TranscriptBody {
            text: self.final_text.clone(),
            raw_text: self.raw_text.clone(),
            pipeline_ran: !self.request.raw,
            post_processed: self.request.post_process,
            post_process_applied: self.request.post_process && self.post_text.is_some(),
            model: self.wanted.clone(),
            backend: text::copy_opt(&self.backend),
            audio_samples: self.samples,
            queue_ms: self.queue_ms,
            load_ms: self.load_ms,
            transcribe_ms: self.transcribe_ms,
            cold_load: self.cold_load,
            streamed: self.streamed,
            history_id: self.history_id,
            pasted,
        };
        self.go(Phase::Done, JobAction::Finish(Ok(ResultBody::Transcript(Box::new(body)))))
    }
}

/// What a fallible piece of work reported, its error by its text.
pub open spec fn said<T>(result: Result<T, String>) -> Result<T, Seq<char>> {
    match result {
        Ok(t) => Ok(t),
        Err(e) => Err(e@),
    }
}

/// What the batch engine reported, by its texts.
pub open spec fn both_text(result: Result<String, String>) -> Result<Seq<char>, Seq<char>> {
    match result {
        Ok(t) => Ok(t@),
        Err(e) => Err(e@),
    }
}

/// What the streaming engine reported, by its texts.
pub open spec fn said_text(result: Result<Option<String>, String>) -> Result<
    Option<Seq<char>>,
    Seq<char>,
> {
    match result {
        Ok(t) => Ok(text::opt_text(t)),
        Err(e) => Err(e@),
    }
}

fn same_model(a: &String, b: &String) -> (r: bool)
    ensures
        r == (a@ == b@),
{
    text::same_text(a.as_str(), b.as_str())
}

// ---------------------------------------------------------------------------
// Laws
// ---------------------------------------------------------------------------

/// How a piece of work went.
#[allow(inconsistent_fields)]
pub enum JobEvent {
    Start { audio: Option<u64>, cancelled: bool },
    AudioDecoded { result: Result<u64, Seq<char>>, cancelled: bool },
    EngineClaimed { result: Result<(), LeaseError>, queue_ms: u64, cancelled: bool },
    ModelsFound { current: Option<Seq<char>>, selected: Seq<char>, loaded: bool },
    ModelChecked { known: bool, cancelled: bool },
    ModelLoaded { result: Result<u64, Seq<char>>, cancelled: bool },
    Streamed {
        result: Result<Option<Seq<char>>, Seq<char>>,
        transcribe_ms: u64,
        backend: Option<Seq<char>>,
        cancelled: bool,
    },
    Transcribed {
        result: Result<Seq<char>, Seq<char>>,
        transcribe_ms: u64,
        backend: Option<Seq<char>>,
        cancelled: bool,
    },
    PostProcessed {
        final_text: Seq<char>,
        post_text: Option<Seq<char>>,
        prompt: Option<Seq<char>>,
    },
    ClockRead { millis: i64 },
    RecordingWritten { ok: bool },
    RecordingVerified { ok: bool },
    RecordingRemoved,
    EntrySaved { id: Option<i64> },
    Pasted { ok: bool },
}

/// The phase in which a report is waited for.
pub open spec fn awaited_in(event: JobEvent) -> Phase {
    match event {
        JobEvent::Start { .. } => Phase::New,
        JobEvent::AudioDecoded { .. } => Phase::Audio,
        JobEvent::EngineClaimed { .. } => Phase::Engine,
        JobEvent::ModelsFound { .. } => Phase::Models,
        JobEvent::ModelChecked { .. } => Phase::Known,
        JobEvent::ModelLoaded { .. } => Phase::Loading,
        JobEvent::Streamed { .. } => Phase::Streaming,
        JobEvent::Transcribed { .. } => Phase::Batch,
        JobEvent::PostProcessed { .. } => Phase::PostProcessing,
        JobEvent::ClockRead { .. } => Phase::Naming,
        JobEvent::RecordingWritten { .. } => Phase::Writing,
        JobEvent::RecordingVerified { .. } => Phase::Verifying,
        JobEvent::RecordingRemoved => Phase::Removing,
        JobEvent::EntrySaved { .. } => Phase::Saving,
        JobEvent::Pasted { .. } => Phase::Pasting,
    }
}

/// What follows a report that the job is waiting for.
#[verifier::opaque]
pub open spec fn job_step(job: JobView, event: JobEvent) -> StepView {
    match event {
        JobEvent::Start { audio, cancelled } => started(job, audio, cancelled),
        JobEvent::AudioDecoded { result, cancelled } => decoded(job, result, cancelled),
        JobEvent::EngineClaimed { result, queue_ms, cancelled } => claimed(
            job,
            result,
            queue_ms,
            cancelled,
        ),
        JobEvent::ModelsFound { current, selected, loaded } => models_found(
            job,
            current,
            selected,
            loaded,
        ),
        JobEvent::ModelChecked { known, cancelled } => model_checked(job, known, cancelled),
        JobEvent::ModelLoaded { result, cancelled } => model_loaded(job, result, cancelled),
        JobEvent::Streamed { result, transcribe_ms, backend, cancelled } => streamed(
            job,
            result,
            transcribe_ms,
            backend,
            cancelled,
        ),
        JobEvent::Transcribed { result, transcribe_ms, backend, cancelled } => transcribed(
            job,
            result,
            transcribe_ms,
            backend,
            cancelled,
        ),
        JobEvent::PostProcessed { final_text, post_text, prompt } => with_output(
            job,
            final_text,
            post_text,
            prompt,
        ),
        JobEvent::ClockRead { millis } => clock_read(job, millis),
        JobEvent::RecordingWritten { ok } => recording_written(job, ok),
        JobEvent::RecordingVerified { ok } => recording_verified(job, ok),
        JobEvent::RecordingRemoved => paste_step(job),
        JobEvent::EntrySaved { id } => entry_saved(job, id),
        JobEvent::Pasted { ok } => finish(job, ok),
    }
}

/// The step that follows a report; `None` where the job is not waiting for it.
pub open spec fn job_next(job: JobView, event: JobEvent) -> Option<StepView> {
    if job.phase == awaited_in(event) {
        Some(job_step(job, event))
    } else {
        None
    }
}

/// What a job for `request` knows after `events`; reports it does not wait for
/// change nothing.
pub open spec fn job_after(
    request: TranscribeRequest,
    read_files: bool,
    events: Seq<JobEvent>,
) -> JobView
    decreases events.len(),
{
    if events.len() == 0 {
        fresh_job(request, read_files)
    } else {
        let job = job_after(request, read_files, events.drop_last());
        match job_next(job, events.last()) {
            Some(step) => step.job,
            None => job,
        }
    }
}

/// What the `i`-th of `events` made the job ask for.
pub open spec fn asked_at(
    request: TranscribeRequest,
    read_files: bool,
    events: Seq<JobEvent>,
    i: int,
) -> Option<OutView> {
    match job_next(job_after(request, read_files, events.take(i)), events[i]) {
        Some(step) => Some(step.out),
        None => None,
    }
}

/// Whether a report says that the engine was granted.
pub open spec fn grants(job: JobView, event: JobEvent) -> bool {
    job.phase is Engine && (event matches JobEvent::EngineClaimed { result, .. } && result is Ok)
}

/// How often a job got the engine.
pub open spec fn claims(request: TranscribeRequest, read_files: bool, events: Seq<JobEvent>) -> nat
    decreases events.len(),
{
    if events.len() == 0 {
        0
    } else {
        let before = claims(request, read_files, events.drop_last());
        let job = job_after(request, read_files, events.drop_last());
        if grants(job, events.last()) {
            before + 1
        } else {
            before
        }
    }
}

/// How often a job gave the engine back.
pub open spec fn releases(
    request: TranscribeRequest,
    read_files: bool,
    events: Seq<JobEvent>,
) -> nat
    decreases events.len(),
{
    if events.len() == 0 {
        0
    } else {
        let before = releases(request, read_files, events.drop_last());
        let job = job_after(request, read_files, events.drop_last());
        match job_next(job, events.last()) {
            Some(step) => if step.out.release {
                before + 1
            } else {
                before
            },
            None => before,
        }
    }
}

/// What holds of a job throughout.
pub open spec fn job_ok(job: JobView) -> bool {
    let r = job.request.restore_model;
    let running = !(job.phase is Done);
    &&& job.held == job.phase.holds_engine()
    &&& job.restore == (if job.phase is Streaming || job.phase is Batch {
        restore_target(job.previous, job.wanted, r)
    } else {
        None
    })
    &&& running && job.phase.rank() >= Phase::Engine.rank() ==> job.samples > 0
    &&& running && job.phase.rank() >= Phase::Known.rank() ==> job.wanted.len() > 0
    &&& job.phase.rank() < Phase::Loading.rank() ==> !job.cold_load
    &&& running && job.phase.rank() >= Phase::Loading.rank() ==> job.cold_load == needs_load(
        job.previous,
        job.wanted,
        job.loaded,
    )
    &&& job.request.raw ==> !(job.phase is PostProcessing) && job.post_text is None
    &&& running && job.phase.rank() > Phase::PostProcessing.rank() && job.request.raw
        ==> job.final_text == job.raw_text
    &&& running && Phase::PostProcessing.rank() < job.phase.rank() < Phase::Pasting.rank()
        ==> job.request.save_history
    &&& job.history_id is Some ==> job.request.save_history
    &&& job.phase is Pasting ==> job.request.paste && job.final_text.len() > 0
    &&& job.phase is Audio ==> job.read_files
    &&& job.request.audio is Path && !job.read_files ==> job.phase is New || job.phase is Done
    &&& job.load_ms > 0 || job.phase is Loading ==> job.cold_load
    &&& running && job.phase.rank() >= Phase::Known.rank() && job.request.model is Some
        ==> Some(job.wanted) == text::opt_text(job.request.model)
}

/// What a transcript has to do with the job that gave it.
pub open spec fn honest(job: JobView, t: TranscriptView) -> bool {
    &&& t.raw_text == job.raw_text
    &&& t.model == job.wanted && t.model.len() > 0
    &&& job.request.model is Some ==> Some(t.model) == text::opt_text(job.request.model)
    &&& t.audio_samples > 0
    &&& t.pipeline_ran == !job.request.raw
    &&& job.request.raw ==> t.text == t.raw_text && !t.post_process_applied
    &&& t.post_processed == job.request.post_process
    &&& t.post_process_applied ==> job.request.post_process
    &&& t.pasted ==> job.request.paste && t.text.len() > 0
    &&& t.history_id is Some ==> job.request.save_history
    &&& t.cold_load == needs_load(job.previous, job.wanted, job.loaded)
    &&& t.load_ms > 0 ==> t.cold_load
}

/// What holds of every step; `granted` says whether it got the engine.
#[verifier::opaque]
pub open spec fn step_ok(job: JobView, step: StepView, granted: bool) -> bool {
    let next = step.job;
    let out = step.out;
    let held_before: int = if job.held {
        1
    } else {
        0
    };
    let held_after: int = if next.held {
        1
    } else {
        0
    };
    &&& next.request == job.request
    &&& next.read_files == job.read_files
    &&& job_ok(next)
    &&& out.action matches ActionView::DecodePath { path } ==> job.read_files && (job.request.audio
        matches AudioSource::Path { path: named } && path == named@)
    &&& job.request.audio is Path && !job.read_files ==> out.action == ActionView::Finish(
        Err((ErrorCode::BadRequest, no_files_text())),
    )
    &&& job.phase.rank() < next.phase.rank() <= Phase::Done.rank()
    &&& next.phase is Done <==> out.action is Finish
    &&& held_before + (if granted {
        1int
    } else {
        0int
    }) == held_after + (if out.release {
        1int
    } else {
        0int
    })
    &&& out.restore is Some ==> out.release && job.request.restore_model && out.restore
        == next.previous && next.previous != Some(next.wanted)
    &&& out.release && (job.phase is Streaming || job.phase is Batch) ==> out.restore
        == restore_target(job.previous, job.wanted, job.request.restore_model)
    &&& out.action matches ActionView::Paste { text } ==> job.request.paste && text
        == next.final_text && text.len() > 0
    &&& out.action matches ActionView::Finish(result) ==> (result matches Ok(t) ==> honest(next, t))
}

proof fn lemma_paste_step_ok(job: JobView)
    requires
        job_ok(job),
        job.phase.rank() < Phase::Pasting.rank(),
        job.phase.rank() > Phase::PostProcessing.rank(),
    ensures
        step_ok(job, paste_step(job), false),
{
    reveal(step_ok);
}

proof fn lemma_with_output_ok(
    job: JobView,
    final_text: Seq<char>,
    post_text: Option<Seq<char>>,
    prompt: Option<Seq<char>>,
)
    requires
        job_ok(job),
        job.phase is PostProcessing,
    ensures
        step_ok(job, with_output(job, final_text, post_text, prompt), false),
{
    reveal(step_ok);
}

proof fn lemma_with_text_ok(
    job: JobView,
    text: Seq<char>,
    transcribe_ms: u64,
    backend: Option<Seq<char>>,
    cancelled: bool,
)
    requires
        job_ok(job),
        job.phase is Streaming || job.phase is Batch,
    ensures
        step_ok(job, with_text(job, text, transcribe_ms, backend, cancelled), false),
{
    reveal(step_ok);
    let next = JobView { raw_text: text, transcribe_ms, backend, ..without_engine(job) };
    if !cancelled && job.request.raw {
        assert(with_output(next, text, None, None).job.final_text == text);
    }
}

proof fn lemma_started_ok(job: JobView, audio: Option<u64>, cancelled: bool)
    requires
        job_ok(job),
        job.phase is New,
    ensures
        step_ok(job, started(job, audio, cancelled), false),
{
    reveal(step_ok);
}

proof fn lemma_decoded_ok(job: JobView, result: Result<u64, Seq<char>>, cancelled: bool)
    requires
        job_ok(job),
        job.phase is Audio,
    ensures
        step_ok(job, decoded(job, result, cancelled), false),
{
    reveal(step_ok);
}

proof fn lemma_claimed_ok(
    job: JobView,
    result: Result<(), LeaseError>,
    queue_ms: u64,
    cancelled: bool,
)
    requires
        job_ok(job),
        job.phase is Engine,
    ensures
        step_ok(job, claimed(job, result, queue_ms, cancelled), result is Ok),
{
    reveal(step_ok);
}

proof fn lemma_models_found_ok(
    job: JobView,
    current: Option<Seq<char>>,
    selected: Seq<char>,
    loaded: bool,
)
    requires
        job_ok(job),
        job.phase is Models,
    ensures
        step_ok(job, models_found(job, current, selected, loaded), false),
{
    reveal(step_ok);
}

proof fn lemma_model_checked_ok(job: JobView, known: bool, cancelled: bool)
    requires
        job_ok(job),
        job.phase is Known,
    ensures
        step_ok(job, model_checked(job, known, cancelled), false),
{
    reveal(step_ok);
}

proof fn lemma_model_loaded_ok(job: JobView, result: Result<u64, Seq<char>>, cancelled: bool)
    requires
        job_ok(job),
        job.phase is Loading,
    ensures
        step_ok(job, model_loaded(job, result, cancelled), false),
{
    reveal(step_ok);
}

proof fn lemma_streamed_ok(
    job: JobView,
    result: Result<Option<Seq<char>>, Seq<char>>,
    transcribe_ms: u64,
    backend: Option<Seq<char>>,
    cancelled: bool,
)
    requires
        job_ok(job),
        job.phase is Streaming,
    ensures
        step_ok(job, streamed(job, result, transcribe_ms, backend, cancelled), false),
{
    reveal(step_ok);
    if let Ok(Some(text)) = result {
        lemma_with_text_ok(
            JobView { streamed: true, ..job },
            text,
            transcribe_ms,
            backend,
            cancelled,
        );
    }
}

proof fn lemma_transcribed_ok(
    job: JobView,
    result: Result<Seq<char>, Seq<char>>,
    transcribe_ms: u64,
    backend: Option<Seq<char>>,
    cancelled: bool,
)
    requires
        job_ok(job),
        job.phase is Batch,
    ensures
        step_ok(job, transcribed(job, result, transcribe_ms, backend, cancelled), false),
{
    if let Ok(text) = result {
        lemma_with_text_ok(job, text, transcribe_ms, backend, cancelled);
    } else {
        reveal(step_ok);
    }
}

proof fn lemma_recording_ok(job: JobView, millis: i64, ok: bool, id: Option<i64>)
    requires
        job_ok(job),
    ensures
        job.phase is Naming ==> step_ok(job, clock_read(job, millis), false),
        job.phase is Writing ==> step_ok(job, recording_written(job, ok), false),
        job.phase is Verifying ==> step_ok(job, recording_verified(job, ok), false),
        job.phase is Saving ==> step_ok(job, entry_saved(job, id), false),
        job.phase is Pasting ==> step_ok(job, finish(job, ok), false),
{
    reveal(step_ok);
    if job.phase is Writing {
        lemma_paste_step_ok(job);
    }
    if job.phase is Saving {
        lemma_paste_step_ok(JobView { history_id: id, ..job });
    }
}

proof fn lemma_step_ok(job: JobView, event: JobEvent)
    requires
        job_ok(job),
        job_next(job, event) is Some,
    ensures
        step_ok(job, job_next(job, event)->0, grants(job, event)),
{
    reveal(job_step);
    match event {
        JobEvent::Start { audio, cancelled } => lemma_started_ok(job, audio, cancelled),
        JobEvent::AudioDecoded { result, cancelled } => lemma_decoded_ok(job, result, cancelled),
        JobEvent::EngineClaimed { result, queue_ms, cancelled } => lemma_claimed_ok(
            job,
            result,
            queue_ms,
            cancelled,
        ),
        JobEvent::ModelsFound { current, selected, loaded } => lemma_models_found_ok(
            job,
            current,
            selected,
            loaded,
        ),
        JobEvent::ModelChecked { known, cancelled } => lemma_model_checked_ok(
            job,
            known,
            cancelled,
        ),
        JobEvent::ModelLoaded { result, cancelled } => lemma_model_loaded_ok(
            job,
            result,
            cancelled,
        ),
        JobEvent::Streamed { result, transcribe_ms, backend, cancelled } => lemma_streamed_ok(
            job,
            result,
            transcribe_ms,
            backend,
            cancelled,
        ),
        JobEvent::Transcribed { result, transcribe_ms, backend, cancelled } =>
        lemma_transcribed_ok(job, result, transcribe_ms, backend, cancelled),
        JobEvent::PostProcessed { final_text, post_text, prompt } => lemma_with_output_ok(
            job,
            final_text,
            post_text,
            prompt,
        ),
        JobEvent::ClockRead { millis } => lemma_recording_ok(job, millis, true, None),
        JobEvent::RecordingWritten { ok } => lemma_recording_ok(job, 0, ok, None),
        JobEvent::RecordingVerified { ok } => lemma_recording_ok(job, 0, ok, None),
        JobEvent::RecordingRemoved => lemma_paste_step_ok(job),
        JobEvent::EntrySaved { id } => lemma_recording_ok(job, 0, true, id),
        JobEvent::Pasted { ok } => lemma_recording_ok(job, 0, ok, None),
    }
}

proof fn lemma_job_ok(request: TranscribeRequest, read_files: bool, events: Seq<JobEvent>)
    ensures
        job_after(request, read_files, events).request == request,
        job_after(request, read_files, events).read_files == read_files,
        job_ok(job_after(request, read_files, events)),
    decreases events.len(),
{
    if events.len() > 0 {
        lemma_job_ok(request, read_files, events.drop_last());
        let job = job_after(request, read_files, events.drop_last());
        if job_next(job, events.last()) is Some {
            lemma_step_ok(job, events.last());
            reveal(step_ok);
        }
    }
}

/// The step at `i` and the state on both of its sides.
proof fn lemma_asked_at(request: TranscribeRequest, read_files: bool, events: Seq<JobEvent>, i: int)
    requires
        0 <= i < events.len(),
        asked_at(request, read_files, events, i) is Some,
    ensures
        ({
            let job = job_after(request, read_files, events.take(i));
            let step = job_next(job, events[i]);
            &&& step is Some
            &&& asked_at(request, read_files, events, i) == Some((step->0).out)
            &&& job_after(request, read_files, events.take(i + 1)) == (step->0).job
            &&& job.request == request
            &&& job.read_files == read_files
            &&& step_ok(job, step->0, grants(job, events[i]))
        }),
{
    lemma_job_ok(request, read_files, events.take(i));
    assert(events.take(i + 1).drop_last() =~= events.take(i));
    lemma_step_ok(job_after(request, read_files, events.take(i)), events[i]);
}

/// The engine is held exactly while the job needs it: from when it was granted
/// until text was produced or the job failed. In particular nothing of the
/// output pipeline, the history or the pasting makes a dictation wait.
pub proof fn law_the_engine_is_held_only_while_used(
    request: TranscribeRequest,
    read_files: bool,
    events: Seq<JobEvent>,
)
    ensures
        job_after(request, read_files, events).held == job_after(
            request,
            read_files,
            events,
        ).phase.holds_engine(),
{
    lemma_job_ok(request, read_files, events);
}

/// A job gets the engine at most once, and gives it back exactly as often as it
/// got it: whatever happens, a job that is over holds nothing.
pub proof fn law_the_engine_is_given_back_once(
    request: TranscribeRequest,
    read_files: bool,
    events: Seq<JobEvent>,
)
    ensures
        claims(request, read_files, events) <= 1,
        job_after(request, read_files, events).phase.before_claim() ==> claims(
            request,
            read_files,
            events,
        ) == 0,
        releases(request, read_files, events) + (if job_after(request, read_files, events).held {
            1nat
        } else {
            0nat
        }) == claims(request, read_files, events),
        job_after(request, read_files, events).phase is Done ==> releases(
            request,
            read_files,
            events,
        ) == claims(request, read_files, events),
    decreases events.len(),
{
    lemma_job_ok(request, read_files, events);
    if events.len() > 0 {
        law_the_engine_is_given_back_once(request, read_files, events.drop_last());
        lemma_job_ok(request, read_files, events.drop_last());
        let job = job_after(request, read_files, events.drop_last());
        if job_next(job, events.last()) is Some {
            lemma_step_ok(job, events.last());
            reveal(step_ok);
        }
    }
}

/// A job loads a model again only when it gives the engine back, only when it
/// was allowed to, and only the model that was loaded before and that it did
/// not itself run with. A job that got as far as running a model always does so.
pub proof fn law_the_previous_model_is_restored(
    request: TranscribeRequest,
    read_files: bool,
    events: Seq<JobEvent>,
    i: int,
)
    requires
        0 <= i < events.len(),
        asked_at(request, read_files, events, i) is Some,
    ensures
        ({
            let before = job_after(request, read_files, events.take(i));
            let after = job_after(request, read_files, events.take(i + 1));
            let out = asked_at(request, read_files, events, i)->0;
            &&& out.restore is Some ==> out.release && request.restore_model && out.restore
                == after.previous && after.previous != Some(after.wanted)
            &&& out.release && (before.phase is Streaming || before.phase is Batch) ==> out.restore
                == restore_target(before.previous, before.wanted, request.restore_model)
        }),
{
    lemma_asked_at(request, read_files, events, i);
    reveal(step_ok);
}

/// Nothing is pasted that was not asked for, and never an empty text.
pub proof fn law_only_text_is_pasted(
    request: TranscribeRequest,
    read_files: bool,
    events: Seq<JobEvent>,
    i: int,
)
    requires
        0 <= i < events.len(),
        asked_at(request, read_files, events, i) is Some,
        (asked_at(request, read_files, events, i)->0).action is Paste,
    ensures
        request.paste,
        (asked_at(request, read_files, events, i)->0).action == (ActionView::Paste {
            text: job_after(request, read_files, events.take(i + 1)).final_text,
        }),
        job_after(request, read_files, events.take(i + 1)).final_text.len() > 0,
{
    lemma_asked_at(request, read_files, events, i);
    reveal(step_ok);
}

/// Whether a report says that the client has given the job up, at a point where
/// nothing else went wrong.
pub open spec fn given_up(job: JobView, event: JobEvent) -> bool {
    match event {
        JobEvent::Start { audio, cancelled } => cancelled && audio is Some && audio->0 > 0
            && job.request.audio is Inline,
        JobEvent::AudioDecoded { result, cancelled } => cancelled && result is Ok && result->Ok_0
            > 0,
        JobEvent::EngineClaimed { result, cancelled, .. } => cancelled && result is Ok,
        JobEvent::ModelChecked { known, cancelled } => cancelled && known && !needs_load(
            job.previous,
            job.wanted,
            job.loaded,
        ),
        JobEvent::ModelLoaded { result, cancelled } => cancelled && result is Ok,
        JobEvent::Streamed { cancelled, .. } => cancelled,
        JobEvent::Transcribed { result, cancelled, .. } => cancelled && result is Ok,
        _ => false,
    }
}

/// Cancellation is honoured at every point up to the engine's result: the job
/// ends as cancelled, and gives the engine back if it holds it.
pub proof fn law_cancellation_ends_the_job(job: JobView, event: JobEvent)
    requires
        job_next(job, event) is Some,
        given_up(job, event),
    ensures
        ({
            let step = job_next(job, event)->0;
            &&& step.job.phase is Done
            &&& !step.job.held
            &&& step.out.action matches ActionView::Finish(result)
            &&& result matches Err((code, message))
            &&& code == ErrorCode::Cancelled
        }),
{
    reveal(job_step);
    match event {
        JobEvent::Start { .. } => {},
        JobEvent::AudioDecoded { .. } => {},
        JobEvent::EngineClaimed { .. } => {},
        JobEvent::ModelChecked { .. } => {},
        JobEvent::ModelLoaded { .. } => {},
        JobEvent::Streamed { .. } => {},
        JobEvent::Transcribed { .. } => {},
        _ => {},
    }
}

/// Every step moves a job forward, so it ends after at most fifteen of them, and
/// an answer is given exactly when it ends.
pub proof fn law_a_job_ends(
    request: TranscribeRequest,
    read_files: bool,
    events: Seq<JobEvent>,
    i: int,
)
    requires
        0 <= i < events.len(),
        asked_at(request, read_files, events, i) is Some,
    ensures
        job_after(request, read_files, events.take(i)).phase.rank() < job_after(
            request,
            read_files,
            events.take(i + 1),
        ).phase.rank() <= 15,
        job_after(request, read_files, events.take(i + 1)).phase is Done <==> (asked_at(
            request,
            read_files,
            events,
            i,
        )->0).action is Finish,
{
    lemma_asked_at(request, read_files, events, i);
    reveal(step_ok);
}

/// A file that a request names is opened only where that was opted into. Without
/// that, as over the socket, nothing is opened at all: such a request is answered
/// as a bad one, and that is all that happens.
pub proof fn law_no_file_is_opened_unasked(
    request: TranscribeRequest,
    read_files: bool,
    events: Seq<JobEvent>,
    i: int,
)
    requires
        0 <= i < events.len(),
        asked_at(request, read_files, events, i) is Some,
    ensures
        ({
            let action = (asked_at(request, read_files, events, i)->0).action;
            &&& action matches ActionView::DecodePath { path } ==> read_files && (request.audio
                matches AudioSource::Path { path: named } && path == named@)
            &&& request.audio is Path && !read_files ==> action == ActionView::Finish(
                Err((ErrorCode::BadRequest, no_files_text())),
            )
        }),
{
    lemma_asked_at(request, read_files, events, i);
    reveal(step_ok);
}

/// A job that does not wait is told at once that the engine is in use, and by
/// whom: taking an engine that somebody holds fails, and that failure ends the job
/// as busy.
pub proof fn law_a_busy_engine_ends_the_job(
    job: JobView,
    gate: GateView,
    queue_ms: u64,
    cancelled: bool,
)
    requires
        job.phase is Engine,
        gate.owner is Some,
    ensures
        ({
            let refused = engine_lease::try_outcome(gate, LeaseOwner::Cli);
            &&& refused matches Err(e)
            &&& e == LeaseError::Busy(gate.owner->0)
            &&& claimed(job, Err(e), queue_ms, cancelled).out.action == ActionView::Finish(
                Err((ErrorCode::Busy, e.text())),
            )
        }),
{
}

/// A job that is over does nothing more.
pub proof fn law_a_finished_job_is_silent(job: JobView, event: JobEvent)
    requires
        job.phase is Done,
    ensures
        job_next(job, event) is None,
{
}

/// A transcript says what happened: it holds the engine's own text, and nothing
/// else where the raw text was asked for; it names the model that was asked for,
/// where one was; it reports a model load exactly where one was needed, and time
/// spent on one only then; and it reports post-processing as asked for exactly
/// where it was, and as applied only then.
pub proof fn law_a_transcript_is_honest(
    request: TranscribeRequest,
    read_files: bool,
    events: Seq<JobEvent>,
    i: int,
)
    requires
        0 <= i < events.len(),
        asked_at(request, read_files, events, i) is Some,
        (asked_at(request, read_files, events, i)->0).action matches ActionView::Finish(result)
            && result is Ok,
    ensures
        job_after(request, read_files, events.take(i + 1)).request == request,
        honest(
            job_after(request, read_files, events.take(i + 1)),
            (asked_at(request, read_files, events, i)->0).action->Finish_0->Ok_0,
        ),
{
    lemma_asked_at(request, read_files, events, i);
    reveal(step_ok);
}

// ---------------------------------------------------------------------------
// What a job was told, and what it makes of it
// ---------------------------------------------------------------------------

/// What the engine reported.
pub struct EngineReport {
    pub text: Seq<char>,
    pub transcribe_ms: u64,
    pub backend: Option<Seq<char>>,
    /// Whether it was the streaming engine.
    pub streamed: bool,
}

/// What the output pipeline reported.
pub struct OutputReport {
    pub final_text: Seq<char>,
    pub post_text: Option<Seq<char>>,
    pub prompt: Option<Seq<char>>,
}

/// What the app reported of its models.
pub struct ModelReport {
    pub current: Option<Seq<char>>,
    pub selected: Seq<char>,
    pub loaded: bool,
}

/// What a job was told so far.
pub struct Heard {
    pub samples: Option<u64>,
    pub queue_ms: Option<u64>,
    pub models: Option<ModelReport>,
    pub load_ms: Option<u64>,
    pub engine: Option<EngineReport>,
    pub output: Option<OutputReport>,
    pub millis: Option<i64>,
    pub entry: Option<i64>,
    pub pasted: bool,
}

/// The text that a report of an engine carries.
pub open spec fn engine_report(event: JobEvent) -> Option<EngineReport> {
    match event {
        JobEvent::Streamed { result: Ok(Some(text)), transcribe_ms, backend, .. } => Some(
            EngineReport { text, transcribe_ms, backend, streamed: true },
        ),
        JobEvent::Transcribed { result: Ok(text), transcribe_ms, backend, .. } => Some(
            EngineReport { text, transcribe_ms, backend, streamed: false },
        ),
        _ => None,
    }
}

/// What was heard, with one more report.
pub open spec fn with_report(h: Heard, event: JobEvent) -> Heard {
    match event {
        JobEvent::Start { audio: Some(n), .. } => Heard { samples: Some(n), ..h },
        JobEvent::AudioDecoded { result: Ok(n), .. } => Heard { samples: Some(n), ..h },
        JobEvent::EngineClaimed { result: Ok(_), queue_ms, .. } => Heard {
            queue_ms: Some(queue_ms),
            ..h
        },
        JobEvent::ModelsFound { current, selected, loaded } => Heard {
            models: Some(ModelReport { current, selected, loaded }),
            ..h
        },
        JobEvent::ModelLoaded { result: Ok(ms), .. } => Heard { load_ms: Some(ms), ..h },
        JobEvent::Streamed { .. } | JobEvent::Transcribed { .. } => if engine_report(
            event,
        ) is Some {
            Heard { engine: engine_report(event), ..h }
        } else {
            h
        },
        JobEvent::PostProcessed { final_text, post_text, prompt } => Heard {
            output: Some(OutputReport { final_text, post_text, prompt }),
            ..h
        },
        JobEvent::ClockRead { millis } => Heard { millis: Some(millis), ..h },
        JobEvent::EntrySaved { id } => Heard { entry: id, ..h },
        JobEvent::Pasted { ok } => Heard { pasted: ok, ..h },
        _ => h,
    }
}

/// What a job was told by those of `events` that it was waiting for.
pub open spec fn heard_by(
    request: TranscribeRequest,
    read_files: bool,
    events: Seq<JobEvent>,
) -> Heard
    decreases events.len(),
{
    if events.len() == 0 {
        Heard {
            samples: None,
            queue_ms: None,
            models: None,
            load_ms: None,
            engine: None,
            output: None,
            millis: None,
            entry: None,
            pasted: false,
        }
    } else {
        let before = heard_by(request, read_files, events.drop_last());
        let job = job_after(request, read_files, events.drop_last());
        if job_next(job, events.last()) is Some {
            with_report(before, events.last())
        } else {
            before
        }
    }
}

/// Whether a job remembers what it was told up to the loading of its model.
#[verifier::opaque]
spec fn knows_setting(job: JobView, h: Heard) -> bool {
    let asked = text::opt_text(job.request.model);
    &&& h.samples == Some(job.samples)
    &&& h.queue_ms == Some(job.queue_ms)
    &&& h.models matches Some(m)
    &&& job.previous == m.current
    &&& job.loaded == m.loaded
    &&& asked matches Some(id) ==> job.wanted == id
    &&& asked is None ==> (m.current matches Some(id) ==> job.wanted == id)
    &&& asked is None && m.current is None ==> job.wanted == m.selected
    &&& job.cold_load == (h.load_ms is Some)
    &&& job.load_ms == (if h.load_ms is Some {
        h.load_ms->0
    } else {
        0
    })
}

/// Whether a job remembers what the engine reported.
spec fn knows_text(job: JobView, h: Heard) -> bool {
    h.engine == Some(
        EngineReport {
            text: job.raw_text,
            transcribe_ms: job.transcribe_ms,
            backend: job.backend,
            streamed: job.streamed,
        },
    )
}

/// Whether a job remembers what became of the text.
spec fn knows_output(job: JobView, h: Heard) -> bool {
    if job.request.raw {
        h.output is None && job.final_text == job.raw_text && job.post_text is None && job.prompt
            is None
    } else {
        h.output == Some(
            OutputReport {
                final_text: job.final_text,
                post_text: job.post_text,
                prompt: job.prompt,
            },
        )
    }
}

/// Whether a job remembers the name of its recording.
spec fn knows_name(job: JobView, h: Heard) -> bool {
    h.millis matches Some(m) && job.file_name == "handy-cli-"@ + text::signed_decimal_text(
        m as int,
    ) + ".wav"@
}

/// Whether a job was told nothing from the engine's text on.
spec fn no_text_yet(job: JobView, h: Heard) -> bool {
    h.engine is None && !job.streamed && h.output is None && h.entry is None && job.history_id
        is None && !h.pasted
}

/// Whether a running job remembers what it was told.
#[verifier::opaque]
spec fn remembers(job: JobView, h: Heard) -> bool {
    let asked = text::opt_text(job.request.model);
    match job.phase {
        Phase::New | Phase::Audio => no_text_yet(job, h) && h.load_ms is None && job.load_ms == 0,
        Phase::Engine => no_text_yet(job, h) && h.load_ms is None && job.load_ms == 0 && h.samples
            == Some(job.samples),
        Phase::Models => no_text_yet(job, h) && h.load_ms is None && job.load_ms == 0 && h.samples
            == Some(job.samples) && h.queue_ms == Some(job.queue_ms),
        Phase::Known => no_text_yet(job, h) && knows_setting(job, h),
        Phase::Loading => no_text_yet(job, h) && h.load_ms is None && knows_setting(
            JobView { cold_load: false, ..job },
            h,
        ),
        Phase::Streaming => no_text_yet(job, h) && knows_setting(job, h)
            && job.request.allow_streaming,
        Phase::Batch => no_text_yet(job, h) && knows_setting(job, h),
        Phase::PostProcessing => knows_setting(job, h) && knows_text(job, h) && h.output is None
            && h.entry is None && job.history_id is None && !h.pasted && !job.request.raw,
        Phase::Naming => knows_setting(job, h) && knows_text(job, h) && knows_output(job, h)
            && h.entry is None && job.history_id is None && !h.pasted,
        Phase::Writing | Phase::Verifying | Phase::Removing | Phase::Saving => knows_setting(job, h)
            && knows_text(job, h) && knows_output(job, h) && knows_name(job, h) && h.entry is None
            && job.history_id is None && !h.pasted,
        Phase::Pasting => knows_setting(job, h) && knows_text(job, h) && knows_output(job, h)
            && job.history_id == h.entry && !h.pasted,
        Phase::Done => true,
    }
}

/// The text that the user gets: the engine's own where it was asked for, else what
/// the output pipeline made of it.
pub open spec fn text_for_user(request: TranscribeRequest, h: Heard) -> Seq<char> {
    if request.raw {
        (h.engine->0).text
    } else {
        (h.output->0).final_text
    }
}

/// Whether a model is the one that a request is about: the one it names, else the
/// loaded one, else the selected one.
pub open spec fn right_model(request: TranscribeRequest, h: Heard, model: Seq<char>) -> bool {
    &&& h.models matches Some(m)
    &&& request.model matches Some(id) ==> model == id@
    &&& request.model is None ==> (m.current matches Some(id) ==> model == id)
    &&& request.model is None && m.current is None ==> model == m.selected
}

/// Whether a transcript repeats what the job was told.
#[verifier::opaque]
spec fn repeats(request: TranscribeRequest, h: Heard, t: TranscriptView) -> bool {
    &&& h.engine matches Some(e)
    &&& t.raw_text == e.text
    &&& t.transcribe_ms == e.transcribe_ms
    &&& t.backend == e.backend
    &&& t.streamed == e.streamed
    &&& request.raw || h.output is Some
    &&& t.text == text_for_user(request, h)
    &&& t.pipeline_ran == !request.raw
    &&& t.post_processed == request.post_process
    &&& t.post_process_applied == (request.post_process && !request.raw && (
    h.output->0).post_text is Some)
    &&& right_model(request, h, t.model)
    &&& Some(t.audio_samples) == h.samples
    &&& Some(t.queue_ms) == h.queue_ms
    &&& t.cold_load == (h.load_ms is Some)
    &&& t.load_ms == (if h.load_ms is Some {
        h.load_ms->0
    } else {
        0
    })
    &&& t.history_id == h.entry
    &&& t.pasted == h.pasted
}

/// Whether what a step asks for goes by what the job was told.
#[verifier::opaque]
spec fn goes_by(request: TranscribeRequest, h: Heard, out: OutView) -> bool {
    let recording = match h.millis {
        Some(m) => "handy-cli-"@ + text::signed_decimal_text(m as int) + ".wav"@,
        None => Seq::empty(),
    };
    match out.action {
        ActionView::DecodePath { .. } => out.progress is None,
        ActionView::ClaimEngine { policy } => policy == request.wait_policy && h.samples is Some
            && h.samples->0 > 0 && out.progress == Some(
            (Stage::WaitingForEngine, None::<Seq<char>>),
        ),
        ActionView::FindModels => out.progress is None,
        ActionView::CheckModel { model } => right_model(request, h, model) && model.len() > 0
            && out.progress is None,
        ActionView::LoadModel { model } => {
            &&& right_model(request, h, model)
            &&& !((h.models->0).loaded && (h.models->0).current == Some(model))
            &&& out.progress == Some(
                (Stage::LoadingModel, Some("loading model '"@ + model + "'"@)),
            )
        },
        ActionView::Stream { want_partials } => request.allow_streaming && want_partials
            == request.want_partials && out.progress == Some(
            (Stage::Transcribing, None::<Seq<char>>),
        ),
        ActionView::Transcribe => out.progress == (if request.allow_streaming {
            None
        } else {
            Some((Stage::Transcribing, None::<Seq<char>>))
        }),
        ActionView::PostProcess { raw_text, llm } => {
            &&& !request.raw
            &&& h.engine matches Some(e)
            &&& raw_text == e.text
            &&& llm == request.post_process
            &&& out.progress == (if llm {
                Some((Stage::PostProcessing, None::<Seq<char>>))
            } else {
                None
            })
        },
        ActionView::ReadClock => request.save_history && out.progress == Some(
            (Stage::SavingHistory, None::<Seq<char>>),
        ),
        ActionView::WriteRecording { file_name } => h.millis is Some && file_name == recording,
        ActionView::VerifyRecording { file_name, samples } => file_name == recording && h.samples
            == Some(samples),
        ActionView::RemoveRecording { file_name } => file_name == recording,
        ActionView::SaveEntry { file_name, raw_text, post_process, post_text, prompt } => {
            &&& file_name == recording
            &&& h.engine matches Some(e)
            &&& raw_text == e.text
            &&& post_process == request.post_process
            &&& post_text == (if request.raw {
                None
            } else {
                (h.output->0).post_text
            })
            &&& prompt == (if request.raw {
                None
            } else {
                (h.output->0).prompt
            })
        },
        ActionView::Paste { text } => request.paste && h.engine is Some && text == text_for_user(
            request,
            h,
        ) && text.len() > 0 && out.progress == Some((Stage::Pasting, None::<Seq<char>>)),
        ActionView::Finish(Ok(t)) => repeats(request, h, t) && (out.progress is None),
        ActionView::Finish(Err(_)) => out.progress is None,
    }
}

/// Whether a step remembers what the job was told, and goes by it.
spec fn follows(job: JobView, told: Heard, step: StepView) -> bool {
    &&& !(step.job.phase is Done) ==> remembers(step.job, told)
    &&& goes_by(job.request, told, step.out)
}

proof fn lemma_setting_stays(a: JobView, b: JobView, h: Heard, k: Heard)
    requires
        knows_setting(a, h),
        b.request == a.request && b.samples == a.samples && b.queue_ms == a.queue_ms && b.previous
            == a.previous && b.loaded == a.loaded && b.wanted == a.wanted && b.cold_load
            == a.cold_load && b.load_ms == a.load_ms,
        k.samples == h.samples && k.queue_ms == h.queue_ms && k.models == h.models && k.load_ms
            == h.load_ms,
    ensures
        knows_setting(b, k),
{
    reveal(knows_setting);
}

proof fn lemma_finish_follows(job: JobView, h: Heard, pasted: bool)
    requires
        knows_setting(job, h),
        knows_text(job, h),
        knows_output(job, h),
        job.history_id == h.entry,
        pasted == h.pasted,
    ensures
        follows(job, h, finish(job, pasted)),
{
    reveal(knows_setting);
    reveal(goes_by);
    reveal(repeats);
}

proof fn lemma_paste_step_follows(job: JobView, h: Heard)
    requires
        knows_setting(job, h),
        knows_text(job, h),
        knows_output(job, h),
        job.history_id == h.entry,
        !h.pasted,
    ensures
        follows(job, h, paste_step(job)),
{
    if job.request.paste && job.final_text.len() > 0 {
        lemma_setting_stays(job, JobView { phase: Phase::Pasting, ..job }, h, h);
        reveal(remembers);
        reveal(goes_by);
    } else {
        lemma_finish_follows(job, h, false);
    }
}

proof fn lemma_with_output_step_follows(
    job: JobView,
    h: Heard,
    final_text: Seq<char>,
    post_text: Option<Seq<char>>,
    prompt: Option<Seq<char>>,
)
    requires
        knows_setting(job, h),
        knows_text(job, h),
        knows_output(JobView { final_text, post_text, prompt, ..job }, h),
        h.entry is None && job.history_id is None && !h.pasted,
    ensures
        follows(job, h, with_output(job, final_text, post_text, prompt)),
{
    let next = JobView { final_text, post_text, prompt, ..job };
    lemma_setting_stays(job, next, h, h);
    if job.request.save_history {
        lemma_setting_stays(job, JobView { phase: Phase::Naming, ..next }, h, h);
        reveal(remembers);
        reveal(goes_by);
    } else {
        lemma_paste_step_follows(next, h);
    }
}

proof fn lemma_with_text_follows(
    job: JobView,
    h: Heard,
    text: Seq<char>,
    transcribe_ms: u64,
    backend: Option<Seq<char>>,
    cancelled: bool,
)
    requires
        knows_setting(job, h),
        h.engine == Some(EngineReport { text, transcribe_ms, backend, streamed: job.streamed }),
        h.output is None && h.entry is None && job.history_id is None && !h.pasted,
    ensures
        follows(job, h, with_text(job, text, transcribe_ms, backend, cancelled)),
{
    let next = JobView { raw_text: text, transcribe_ms, backend, ..without_engine(job) };
    lemma_setting_stays(job, next, h, h);
    reveal(goes_by);
    if !cancelled {
        if job.request.raw {
            lemma_with_output_step_follows(next, h, text, None, None);
        } else {
            lemma_setting_stays(job, JobView { phase: Phase::PostProcessing, ..next }, h, h);
            reveal(remembers);
        }
    }
}

proof fn lemma_model_ready_follows(job: JobView, h: Heard, cancelled: bool)
    requires
        knows_setting(job, h),
        no_text_yet(job, h),
    ensures
        follows(job, h, model_ready(job, cancelled)),
{
    let next = model_ready(job, cancelled).job;
    if !cancelled {
        lemma_setting_stays(job, next, h, h);
        reveal(remembers);
    }
    reveal(goes_by);
}

proof fn lemma_start_follows(job: JobView, h: Heard, event: JobEvent)
    requires
        job_ok(job),
        remembers(job, h),
        job_next(job, event) is Some,
        event is Start,
    ensures
        follows(job, with_report(h, event), job_next(job, event)->0),
{
    if let JobEvent::Start { audio, cancelled } = event {
        assert(job_next(job, event) == Some(started(job, audio, cancelled))) by {
            reveal(job_step);
        }
    }
    reveal(remembers);
    reveal(goes_by);
}

proof fn lemma_audio_decoded_follows(job: JobView, h: Heard, event: JobEvent)
    requires
        job_ok(job),
        remembers(job, h),
        job_next(job, event) is Some,
        event is AudioDecoded,
    ensures
        follows(job, with_report(h, event), job_next(job, event)->0),
{
    if let JobEvent::AudioDecoded { result, cancelled } = event {
        assert(job_next(job, event) == Some(decoded(job, result, cancelled))) by {
            reveal(job_step);
        }
    }
    reveal(remembers);
    reveal(goes_by);
}

proof fn lemma_engine_claimed_follows(job: JobView, h: Heard, event: JobEvent)
    requires
        job_ok(job),
        remembers(job, h),
        job_next(job, event) is Some,
        event is EngineClaimed,
    ensures
        follows(job, with_report(h, event), job_next(job, event)->0),
{
    if let JobEvent::EngineClaimed { result, queue_ms, cancelled } = event {
        assert(job_next(job, event) == Some(claimed(job, result, queue_ms, cancelled))) by {
            reveal(job_step);
        }
    }
    reveal(remembers);
    reveal(goes_by);
}

proof fn lemma_models_found_follows(job: JobView, h: Heard, event: JobEvent)
    requires
        job_ok(job),
        remembers(job, h),
        job_next(job, event) is Some,
        event is ModelsFound,
    ensures
        follows(job, with_report(h, event), job_next(job, event)->0),
{
    if let JobEvent::ModelsFound { current, selected, loaded } = event {
        assert(job_next(job, event) == Some(models_found(job, current, selected, loaded))) by {
            reveal(job_step);
        }
    }
    reveal(remembers);
    reveal(goes_by);
    reveal(knows_setting);
}

proof fn lemma_model_checked_follows(job: JobView, h: Heard, event: JobEvent)
    requires
        job_ok(job),
        remembers(job, h),
        job_next(job, event) is Some,
        event is ModelChecked,
    ensures
        follows(job, with_report(h, event), job_next(job, event)->0),
{
    if let JobEvent::ModelChecked { known, cancelled } = event {
        assert(job_next(job, event) == Some(model_checked(job, known, cancelled))) by {
            reveal(job_step);
        }
    }
    reveal(remembers);
    if let JobEvent::ModelChecked { known, cancelled } = event {
        if known && !needs_load(job.previous, job.wanted, job.loaded) {
            lemma_model_ready_follows(job, h, cancelled);
        } else {
            reveal(goes_by);
            reveal(knows_setting);
        }
    }
}

proof fn lemma_model_loaded_follows(job: JobView, h: Heard, event: JobEvent)
    requires
        job_ok(job),
        remembers(job, h),
        job_next(job, event) is Some,
        event is ModelLoaded,
    ensures
        follows(job, with_report(h, event), job_next(job, event)->0),
{
    if let JobEvent::ModelLoaded { result, cancelled } = event {
        assert(job_next(job, event) == Some(model_loaded(job, result, cancelled))) by {
            reveal(job_step);
        }
    }
    reveal(remembers);
    if let JobEvent::ModelLoaded { result, cancelled } = event {
        if let Ok(load_ms) = result {
            reveal(knows_setting);
            lemma_model_ready_follows(
                JobView { load_ms, ..job },
                with_report(h, event),
                cancelled,
            );
        } else {
            reveal(goes_by);
        }
    }
}

proof fn lemma_streamed_follows(job: JobView, h: Heard, event: JobEvent)
    requires
        job_ok(job),
        remembers(job, h),
        job_next(job, event) is Some,
        event is Streamed,
    ensures
        follows(job, with_report(h, event), job_next(job, event)->0),
{
    if let JobEvent::Streamed { result, transcribe_ms, backend, cancelled } = event {
        assert(job_next(job, event) == Some(streamed(job, result, transcribe_ms, backend, cancelled))) by {
            reveal(job_step);
        }
    }
    reveal(remembers);
    if let JobEvent::Streamed { result, transcribe_ms, backend, cancelled } = event {
        let told = with_report(h, event);
        if let Ok(Some(text)) = result {
            let next = JobView { streamed: true, ..job };
            lemma_setting_stays(job, next, h, told);
            lemma_with_text_follows(next, told, text, transcribe_ms, backend, cancelled);
        } else {
            lemma_setting_stays(job, JobView { phase: Phase::Batch, ..job }, h, told);
            reveal(goes_by);
        }
    }
}

proof fn lemma_transcribed_follows(job: JobView, h: Heard, event: JobEvent)
    requires
        job_ok(job),
        remembers(job, h),
        job_next(job, event) is Some,
        event is Transcribed,
    ensures
        follows(job, with_report(h, event), job_next(job, event)->0),
{
    if let JobEvent::Transcribed { result, transcribe_ms, backend, cancelled } = event {
        assert(job_next(job, event) == Some(transcribed(job, result, transcribe_ms, backend, cancelled))) by {
            reveal(job_step);
        }
    }
    reveal(remembers);
    if let JobEvent::Transcribed { result, transcribe_ms, backend, cancelled } = event {
        let told = with_report(h, event);
        if let Ok(text) = result {
            lemma_setting_stays(job, job, h, told);
            lemma_with_text_follows(job, told, text, transcribe_ms, backend, cancelled);
        } else {
            reveal(goes_by);
        }
    }
}

proof fn lemma_post_processed_follows(job: JobView, h: Heard, event: JobEvent)
    requires
        job_ok(job),
        remembers(job, h),
        job_next(job, event) is Some,
        event is PostProcessed,
    ensures
        follows(job, with_report(h, event), job_next(job, event)->0),
{
    if let JobEvent::PostProcessed { final_text, post_text, prompt } = event {
        assert(job_next(job, event) == Some(with_output(job, final_text, post_text, prompt))) by {
            reveal(job_step);
        }
    }
    reveal(remembers);
    if let JobEvent::PostProcessed { final_text, post_text, prompt } = event {
        let told = with_report(h, event);
        lemma_setting_stays(job, job, h, told);
        lemma_with_output_step_follows(job, told, final_text, post_text, prompt);
    }
}

proof fn lemma_clock_read_follows(job: JobView, h: Heard, event: JobEvent)
    requires
        job_ok(job),
        remembers(job, h),
        job_next(job, event) is Some,
        event is ClockRead,
    ensures
        follows(job, with_report(h, event), job_next(job, event)->0),
{
    if let JobEvent::ClockRead { millis } = event {
        assert(job_next(job, event) == Some(clock_read(job, millis))) by {
            reveal(job_step);
        }
    }
    reveal(remembers);
    reveal(goes_by);
    lemma_setting_stays(job, (job_next(job, event)->0).job, h, with_report(h, event));
}

proof fn lemma_recording_written_follows(job: JobView, h: Heard, event: JobEvent)
    requires
        job_ok(job),
        remembers(job, h),
        job_next(job, event) is Some,
        event is RecordingWritten,
    ensures
        follows(job, with_report(h, event), job_next(job, event)->0),
{
    if let JobEvent::RecordingWritten { ok } = event {
        assert(job_next(job, event) == Some(recording_written(job, ok))) by {
            reveal(job_step);
        }
    }
    reveal(remembers);
    if let JobEvent::RecordingWritten { ok } = event {
        if ok {
            lemma_setting_stays(job, (job_next(job, event)->0).job, h, h);
            reveal(goes_by);
            reveal(knows_setting);
        } else {
            lemma_paste_step_follows(job, h);
        }
    }
}

proof fn lemma_recording_verified_follows(job: JobView, h: Heard, event: JobEvent)
    requires
        job_ok(job),
        remembers(job, h),
        job_next(job, event) is Some,
        event is RecordingVerified,
    ensures
        follows(job, with_report(h, event), job_next(job, event)->0),
{
    if let JobEvent::RecordingVerified { ok } = event {
        assert(job_next(job, event) == Some(recording_verified(job, ok))) by {
            reveal(job_step);
        }
    }
    reveal(remembers);
    reveal(goes_by);
    lemma_setting_stays(job, (job_next(job, event)->0).job, h, h);
}

proof fn lemma_recording_removed_follows(job: JobView, h: Heard, event: JobEvent)
    requires
        job_ok(job),
        remembers(job, h),
        job_next(job, event) is Some,
        event is RecordingRemoved,
    ensures
        follows(job, with_report(h, event), job_next(job, event)->0),
{
    if let JobEvent::RecordingRemoved = event {
        assert(job_next(job, event) == Some(paste_step(job))) by {
            reveal(job_step);
        }
    }
    reveal(remembers);
    lemma_paste_step_follows(job, h);
}

proof fn lemma_entry_saved_follows(job: JobView, h: Heard, event: JobEvent)
    requires
        job_ok(job),
        remembers(job, h),
        job_next(job, event) is Some,
        event is EntrySaved,
    ensures
        follows(job, with_report(h, event), job_next(job, event)->0),
{
    if let JobEvent::EntrySaved { id } = event {
        assert(job_next(job, event) == Some(entry_saved(job, id))) by {
            reveal(job_step);
        }
    }
    reveal(remembers);
    if let JobEvent::EntrySaved { id } = event {
        let next = JobView { history_id: id, ..job };
        lemma_setting_stays(job, next, h, with_report(h, event));
        lemma_paste_step_follows(next, with_report(h, event));
    }
}

proof fn lemma_pasted_follows(job: JobView, h: Heard, event: JobEvent)
    requires
        job_ok(job),
        remembers(job, h),
        job_next(job, event) is Some,
        event is Pasted,
    ensures
        follows(job, with_report(h, event), job_next(job, event)->0),
{
    if let JobEvent::Pasted { ok } = event {
        assert(job_next(job, event) == Some(finish(job, ok))) by {
            reveal(job_step);
        }
    }
    reveal(remembers);
    if let JobEvent::Pasted { ok } = event {
        lemma_setting_stays(job, job, h, with_report(h, event));
        lemma_finish_follows(job, with_report(h, event), ok);
    }
}

proof fn lemma_follows(job: JobView, h: Heard, event: JobEvent)
    requires
        job_ok(job),
        remembers(job, h),
        job_next(job, event) is Some,
    ensures
        follows(job, with_report(h, event), job_next(job, event)->0),
{
    match event {
        JobEvent::Start { .. } => lemma_start_follows(job, h, event),
        JobEvent::AudioDecoded { .. } => lemma_audio_decoded_follows(job, h, event),
        JobEvent::EngineClaimed { .. } => lemma_engine_claimed_follows(job, h, event),
        JobEvent::ModelsFound { .. } => lemma_models_found_follows(job, h, event),
        JobEvent::ModelChecked { .. } => lemma_model_checked_follows(job, h, event),
        JobEvent::ModelLoaded { .. } => lemma_model_loaded_follows(job, h, event),
        JobEvent::Streamed { .. } => lemma_streamed_follows(job, h, event),
        JobEvent::Transcribed { .. } => lemma_transcribed_follows(job, h, event),
        JobEvent::PostProcessed { .. } => lemma_post_processed_follows(job, h, event),
        JobEvent::ClockRead { .. } => lemma_clock_read_follows(job, h, event),
        JobEvent::RecordingWritten { .. } => lemma_recording_written_follows(job, h, event),
        JobEvent::RecordingVerified { .. } => lemma_recording_verified_follows(job, h, event),
        JobEvent::RecordingRemoved => lemma_recording_removed_follows(job, h, event),
        JobEvent::EntrySaved { .. } => lemma_entry_saved_follows(job, h, event),
        JobEvent::Pasted { .. } => lemma_pasted_follows(job, h, event),
    }
}

proof fn lemma_history(request: TranscribeRequest, read_files: bool, events: Seq<JobEvent>)
    ensures
        remembers(
            job_after(request, read_files, events),
            heard_by(request, read_files, events),
        ),
    decreases events.len(),
{
    if events.len() == 0 {
        reveal(remembers);
    } else {
        lemma_history(request, read_files, events.drop_last());
        lemma_job_ok(request, read_files, events.drop_last());
        let job = job_after(request, read_files, events.drop_last());
        let h = heard_by(request, read_files, events.drop_last());
        if job_next(job, events.last()) is Some {
            lemma_follows(job, h, events.last());
            if (job_next(job, events.last())->0).job.phase is Done {
                reveal(remembers);
            }
        }
    }
}

/// A transcript that goes by what was heard repeats it.
proof fn lemma_transcript_repeats(
    request: TranscribeRequest,
    h: Heard,
    out: OutView,
    t: TranscriptView,
)
    requires
        goes_by(request, h, out),
        out.action == ActionView::Finish(Ok(t)),
    ensures
        repeats(request, h, t),
{
    reveal(goes_by);
}

/// What a step asks for goes by what the job was told up to it.
proof fn lemma_asked_goes_by(
    request: TranscribeRequest,
    read_files: bool,
    events: Seq<JobEvent>,
    i: int,
)
    requires
        0 <= i < events.len(),
        asked_at(request, read_files, events, i) is Some,
    ensures
        goes_by(
            request,
            heard_by(request, read_files, events.take(i + 1)),
            asked_at(request, read_files, events, i)->0,
        ),
{
    let before = events.take(i);
    assert(events.take(i + 1).drop_last() =~= before);
    assert(events.take(i + 1).last() == events[i]);
    lemma_history(request, read_files, before);
    lemma_job_ok(request, read_files, before);
    lemma_follows(
        job_after(request, read_files, before),
        heard_by(request, read_files, before),
        events[i],
    );
}

proof fn lemma_phases_only_rise(
    request: TranscribeRequest,
    read_files: bool,
    events: Seq<JobEvent>,
    i: int,
    j: int,
)
    requires
        0 <= i <= j <= events.len(),
    ensures
        job_after(request, read_files, events.take(i)).phase.rank() <= job_after(
            request,
            read_files,
            events.take(j),
        ).phase.rank(),
    decreases j - i,
{
    if i < j {
        lemma_phases_only_rise(request, read_files, events, i, j - 1);
        assert(events.take(j).drop_last() =~= events.take(j - 1));
        assert(events.take(j).last() == events[j - 1]);
        if asked_at(request, read_files, events, j - 1) is Some {
            law_a_job_ends(request, read_files, events, j - 1);
        }
    }
}

/// Whether what `event` reported is still what was heard.
spec fn kept(event: JobEvent, h: Heard) -> bool {
    match event {
        JobEvent::Start { audio: Some(n), .. } => h.samples == Some(n),
        JobEvent::AudioDecoded { result: Ok(n), .. } => h.samples == Some(n),
        JobEvent::EngineClaimed { result: Ok(_), queue_ms, .. } => h.queue_ms == Some(queue_ms),
        JobEvent::ModelsFound { current, selected, loaded } => h.models == Some(
            ModelReport { current, selected, loaded },
        ),
        JobEvent::ModelLoaded { result: Ok(ms), .. } => h.load_ms == Some(ms),
        JobEvent::Streamed { .. } | JobEvent::Transcribed { .. } => engine_report(event) is Some
            ==> h.engine == engine_report(event),
        JobEvent::PostProcessed { final_text, post_text, prompt } => h.output == Some(
            OutputReport { final_text, post_text, prompt },
        ),
        JobEvent::ClockRead { millis } => h.millis == Some(millis),
        JobEvent::EntrySaved { id } => h.entry == id,
        JobEvent::Pasted { ok } => h.pasted == ok,
        _ => true,
    }
}

/// An engine's text and inline audio lead past every phase in which the same thing
/// could be reported once more.
proof fn lemma_reported_once(job: JobView, event: JobEvent)
    requires
        job_next(job, event) is Some,
        engine_report(event) is Some || (event is Start && job.request.audio is Inline),
    ensures
        engine_report(event) is Some ==> (job_next(job, event)->0).job.phase.rank()
            >= Phase::PostProcessing.rank(),
        event is Start ==> (job_next(job, event)->0).job.phase.rank() >= Phase::Engine.rank(),
{
    match event {
        JobEvent::Start { audio, cancelled } => {
            assert(job_next(job, event) == Some(started(job, audio, cancelled))) by {
                reveal(job_step);
            }
        },
        JobEvent::Streamed { result, transcribe_ms, backend, cancelled } => {
            assert(job_next(job, event) == Some(
                streamed(job, result, transcribe_ms, backend, cancelled),
            )) by {
                reveal(job_step);
            }
        },
        JobEvent::Transcribed { result, transcribe_ms, backend, cancelled } => {
            assert(job_next(job, event) == Some(
                transcribed(job, result, transcribe_ms, backend, cancelled),
            )) by {
                reveal(job_step);
            }
        },
        _ => {},
    }
}

/// A report of another kind leaves what was heard of this one.
proof fn lemma_kept_beside(event: JobEvent, after: int, h: Heard, later: JobEvent)
    requires
        kept(event, h),
        awaited_in(later).rank() >= after,
        after > awaited_in(event).rank(),
        engine_report(event) is Some ==> after >= Phase::PostProcessing.rank(),
        event is Start ==> after >= Phase::Engine.rank(),
    ensures
        kept(event, with_report(h, later)),
{
}

/// What was reported once is not overwritten later.
proof fn lemma_kept(
    request: TranscribeRequest,
    read_files: bool,
    events: Seq<JobEvent>,
    j: int,
    i: int,
)
    requires
        0 <= j <= i < events.len(),
        asked_at(request, read_files, events, j) is Some,
        events[j] is Start ==> request.audio is Inline,
    ensures
        kept(events[j], heard_by(request, read_files, events.take(i + 1))),
    decreases i - j,
{
    assert(events.take(i + 1).drop_last() =~= events.take(i));
    assert(events.take(i + 1).last() == events[i]);
    if j < i {
        lemma_kept(request, read_files, events, j, i - 1);
        let h = heard_by(request, read_files, events.take(i));
        assert(events.take(i) =~= events.take((i - 1) + 1));
        if asked_at(request, read_files, events, i) is Some {
            let job = job_after(request, read_files, events.take(j));
            law_a_job_ends(request, read_files, events, j);
            lemma_asked_at(request, read_files, events, j);
            if engine_report(events[j]) is Some || events[j] is Start {
                lemma_reported_once(job, events[j]);
            }
            lemma_phases_only_rise(request, read_files, events, j + 1, i);
            lemma_kept_beside(
                events[j],
                job_after(request, read_files, events.take(j + 1)).phase.rank(),
                h,
                events[i],
            );
        }
    }
}

proof fn lemma_somebody_said_it(
    request: TranscribeRequest,
    read_files: bool,
    events: Seq<JobEvent>,
    n: int,
)
    requires
        0 <= n <= events.len(),
        heard_by(request, read_files, events.take(n)).engine is Some,
    ensures
        exists|j: int|
            0 <= j < n && #[trigger] asked_at(request, read_files, events, j) is Some
                && engine_report(events[j]) == heard_by(
                request,
                read_files,
                events.take(n),
            ).engine,
    decreases n,
{
    if n > 0 {
        assert(events.take(n).drop_last() =~= events.take(n - 1));
        assert(events.take(n).last() == events[n - 1]);
        if asked_at(request, read_files, events, n - 1) is Some && engine_report(
            events[n - 1],
        ) is Some {
        } else {
            lemma_somebody_said_it(request, read_files, events, n - 1);
        }
    }
}

/// What was heard of a model load, a history entry or a paste was reported.
proof fn lemma_somebody_did_it(
    request: TranscribeRequest,
    read_files: bool,
    events: Seq<JobEvent>,
    n: int,
)
    requires
        0 <= n <= events.len(),
    ensures
        ({
            let h = heard_by(request, read_files, events.take(n));
            &&& h.load_ms is Some ==> exists|k: int|
                0 <= k < n && #[trigger] asked_at(request, read_files, events, k) is Some
                    && events[k] is ModelLoaded
            &&& h.entry is Some ==> exists|k: int|
                0 <= k < n && #[trigger] asked_at(request, read_files, events, k) is Some
                    && events[k] == (JobEvent::EntrySaved { id: h.entry })
            &&& h.pasted ==> exists|k: int|
                0 <= k < n && #[trigger] asked_at(request, read_files, events, k) is Some
                    && events[k] == (JobEvent::Pasted { ok: true })
        }),
    decreases n,
{
    if n > 0 {
        assert(events.take(n).drop_last() =~= events.take(n - 1));
        assert(events.take(n).last() == events[n - 1]);
        lemma_somebody_did_it(request, read_files, events, n - 1);
        let before = heard_by(request, read_files, events.take(n - 1));
        if asked_at(request, read_files, events, n - 1) is Some {
            assert(heard_by(request, read_files, events.take(n)) == with_report(
                before,
                events[n - 1],
            ));
        } else {
            assert(heard_by(request, read_files, events.take(n)) == before);
        }
    }
}

/// A transcript's raw text is the text that the engine reported, and so are its
/// backend, its duration and whether it was streamed: some report of an engine
/// carries exactly these, and it is the batch engine's or the streaming one's as
/// the transcript says. Where the raw text was asked for, it is also what the user
/// gets; else exactly it is handed to the output pipeline.
pub proof fn law_the_transcript_is_what_the_engine_said(
    request: TranscribeRequest,
    read_files: bool,
    events: Seq<JobEvent>,
    i: int,
    t: TranscriptView,
)
    requires
        0 <= i < events.len(),
        asked_at(request, read_files, events, i) is Some,
        (asked_at(request, read_files, events, i)->0).action == ActionView::Finish(Ok(t)),
    ensures
        request.raw ==> t.text == t.raw_text,
        exists|j: int|
            0 <= j <= i && (#[trigger] asked_at(request, read_files, events, j) matches Some(out) && {
                &&& match events[j] {
                    JobEvent::Transcribed { result: Ok(text), transcribe_ms, backend, .. } => {
                        t.raw_text == text && t.transcribe_ms == transcribe_ms && t.backend
                            == backend && !t.streamed
                    },
                    JobEvent::Streamed { result: Ok(Some(text)), transcribe_ms, backend, .. } => {
                        t.raw_text == text && t.transcribe_ms == transcribe_ms && t.backend
                            == backend && t.streamed
                    },
                    _ => false,
                }
                &&& !request.raw ==> out.action == (ActionView::PostProcess {
                    raw_text: t.raw_text,
                    llm: request.post_process,
                })
            }),
{
    lemma_asked_goes_by(request, read_files, events, i);
    lemma_transcript_repeats(
        request,
        heard_by(request, read_files, events.take(i + 1)),
        asked_at(request, read_files, events, i)->0,
        t,
    );
    reveal(repeats);
    lemma_somebody_said_it(request, read_files, events, i + 1);
    let h = heard_by(request, read_files, events.take(i + 1));
    let j = choose|j: int|
        0 <= j < i + 1 && #[trigger] asked_at(request, read_files, events, j) is Some
            && engine_report(events[j]) == h.engine;
    let out = asked_at(request, read_files, events, j)->0;
    if !request.raw {
        lemma_the_text_goes_on(request, read_files, events, j);
        if out.action is Finish {
            law_a_job_ends(request, read_files, events, j);
            if j < i {
                lemma_phases_only_rise(request, read_files, events, j + 1, i);
                law_a_job_ends(request, read_files, events, i);
            }
        }
    }
}

/// An engine's report is followed by the output pipeline, unless the raw text was
/// asked for or the job was given up.
proof fn lemma_the_text_goes_on(
    request: TranscribeRequest,
    read_files: bool,
    events: Seq<JobEvent>,
    j: int,
)
    requires
        0 <= j < events.len(),
        asked_at(request, read_files, events, j) is Some,
        engine_report(events[j]) is Some,
        !request.raw,
    ensures
        ({
            let out = asked_at(request, read_files, events, j)->0;
            ||| out.action == (ActionView::PostProcess {
                raw_text: (engine_report(events[j])->0).text,
                llm: request.post_process,
            })
            ||| out.action matches ActionView::Finish(result) && result is Err
        }),
{
    let job = job_after(request, read_files, events.take(j));
    lemma_job_ok(request, read_files, events.take(j));
    match events[j] {
        JobEvent::Streamed { result, transcribe_ms, backend, cancelled } => {
            assert(job_next(job, events[j]) == Some(
                streamed(job, result, transcribe_ms, backend, cancelled),
            )) by {
                reveal(job_step);
            }
        },
        JobEvent::Transcribed { result, transcribe_ms, backend, cancelled } => {
            assert(job_next(job, events[j]) == Some(
                transcribed(job, result, transcribe_ms, backend, cancelled),
            )) by {
                reveal(job_step);
            }
        },
        _ => {},
    }
}

/// A transcript repeats every report of its job: however a piece of work went is
/// what the transcript says of it.
pub proof fn law_a_transcript_repeats_its_reports(
    request: TranscribeRequest,
    read_files: bool,
    events: Seq<JobEvent>,
    j: int,
    i: int,
    t: TranscriptView,
)
    requires
        0 <= j <= i < events.len(),
        asked_at(request, read_files, events, j) is Some,
        asked_at(request, read_files, events, i) is Some,
        (asked_at(request, read_files, events, i)->0).action == ActionView::Finish(Ok(t)),
    ensures
        t.pipeline_ran == !request.raw,
        t.post_processed == request.post_process,
        t.cold_load || t.load_ms == 0,
        t.cold_load ==> exists|k: int|
            0 <= k <= i && #[trigger] asked_at(request, read_files, events, k) is Some
                && events[k] is ModelLoaded,
        t.history_id is Some ==> exists|k: int|
            0 <= k <= i && #[trigger] asked_at(request, read_files, events, k) is Some && events[k]
                == (JobEvent::EntrySaved { id: t.history_id }),
        t.pasted ==> exists|k: int|
            0 <= k <= i && #[trigger] asked_at(request, read_files, events, k) is Some && events[k]
                == (JobEvent::Pasted { ok: true }),
        match events[j] {
            JobEvent::Start { audio: Some(n), .. } => request.audio is Inline ==> t.audio_samples
                == n,
            JobEvent::AudioDecoded { result: Ok(n), .. } => t.audio_samples == n,
            JobEvent::EngineClaimed { result: Ok(_), queue_ms, .. } => t.queue_ms == queue_ms,
            JobEvent::ModelsFound { current, selected, .. } => {
                &&& request.model matches Some(id) ==> t.model == id@
                &&& request.model is None && current is Some ==> t.model == current->0
                &&& request.model is None && current is None ==> t.model == selected
            },
            JobEvent::ModelLoaded { result: Ok(ms), .. } => t.cold_load && t.load_ms == ms,
            JobEvent::Transcribed { result: Ok(text), .. } => t.raw_text == text && !t.streamed,
            JobEvent::Streamed { result: Ok(Some(text)), .. } => t.raw_text == text && t.streamed,
            JobEvent::PostProcessed { final_text, post_text, .. } => !request.raw
                ==> t.text == final_text && t.post_process_applied == (request.post_process
                && post_text is Some),
            JobEvent::EntrySaved { id } => t.history_id == id,
            JobEvent::Pasted { ok } => t.pasted == ok,
            _ => true,
        },
{
    lemma_asked_goes_by(request, read_files, events, i);
    lemma_transcript_repeats(
        request,
        heard_by(request, read_files, events.take(i + 1)),
        asked_at(request, read_files, events, i)->0,
        t,
    );
    reveal(repeats);
    lemma_somebody_did_it(request, read_files, events, i + 1);
    if !(events[j] is Start && request.audio is Path) {
        lemma_kept(request, read_files, events, j, i);
    }
}

/// The work that a job asks for goes by its request and by what was reported: the
/// model that the request is about is the one that is looked up and loaded, the
/// engine's text is the one that is processed and stored, the text that is pasted
/// is the one for the user, and a recording keeps its name and its samples.
pub proof fn law_work_goes_by_the_reports(
    request: TranscribeRequest,
    read_files: bool,
    events: Seq<JobEvent>,
    j: int,
    i: int,
)
    requires
        0 <= j <= i < events.len(),
        asked_at(request, read_files, events, j) is Some,
        asked_at(request, read_files, events, i) is Some,
    ensures
        match (events[j], (asked_at(request, read_files, events, i)->0).action) {
            (
                JobEvent::ModelsFound { current, selected, .. },
                ActionView::CheckModel { model },
            ) => {
                &&& model.len() > 0
                &&& request.model matches Some(id) ==> model == id@
                &&& request.model is None && current is Some ==> model == current->0
                &&& request.model is None && current is None ==> model == selected
            },
            (
                JobEvent::ModelsFound { current, selected, loaded },
                ActionView::LoadModel { model },
            ) => {
                &&& !(loaded && current == Some(model))
                &&& request.model matches Some(id) ==> model == id@
                &&& request.model is None && current is Some ==> model == current->0
                &&& request.model is None && current is None ==> model == selected
            },
            (
                JobEvent::Transcribed { result: Ok(text), .. },
                ActionView::SaveEntry { raw_text, .. },
            ) => raw_text == text,
            (
                JobEvent::Streamed { result: Ok(Some(text)), .. },
                ActionView::SaveEntry { raw_text, .. },
            ) => raw_text == text,
            (
                JobEvent::PostProcessed { post_text, prompt, .. },
                ActionView::SaveEntry { post_text: p, prompt: q, .. },
            ) => !request.raw ==> p == post_text && q == prompt,
            (
                JobEvent::Transcribed { result: Ok(text), .. },
                ActionView::Paste { text: pasted },
            ) => request.raw ==> pasted == text,
            (
                JobEvent::Streamed { result: Ok(Some(text)), .. },
                ActionView::Paste { text: pasted },
            ) => request.raw ==> pasted == text,
            (JobEvent::PostProcessed { final_text, .. }, ActionView::Paste { text: pasted }) =>
            !request.raw ==> pasted == final_text,
            (JobEvent::ClockRead { millis }, ActionView::WriteRecording { file_name })
            | (JobEvent::ClockRead { millis }, ActionView::VerifyRecording { file_name, .. })
            | (JobEvent::ClockRead { millis }, ActionView::RemoveRecording { file_name })
            | (JobEvent::ClockRead { millis }, ActionView::SaveEntry { file_name, .. }) => file_name
                == "handy-cli-"@ + text::signed_decimal_text(millis as int) + ".wav"@,
            (
                JobEvent::Start { audio: Some(n), .. },
                ActionView::VerifyRecording { samples, .. },
            ) => request.audio is Inline ==> samples == n,
            (
                JobEvent::AudioDecoded { result: Ok(n), .. },
                ActionView::VerifyRecording { samples, .. },
            ) => samples == n,
            _ => true,
        },
        match (asked_at(request, read_files, events, i)->0).action {
            ActionView::ClaimEngine { policy } => policy == request.wait_policy,
            ActionView::Stream { want_partials } => request.allow_streaming && want_partials
                == request.want_partials,
            ActionView::PostProcess { llm, .. } => !request.raw && llm == request.post_process,
            ActionView::ReadClock => request.save_history,
            ActionView::SaveEntry { post_process, post_text, prompt, .. } => post_process
                == request.post_process && (request.raw ==> post_text is None && prompt is None),
            ActionView::Paste { text } => request.paste && text.len() > 0,
            _ => true,
        },
{
    lemma_asked_goes_by(request, read_files, events, i);
    reveal(goes_by);
    if !(events[j] is Start && request.audio is Path) {
        lemma_kept(request, read_files, events, j, i);
    }
}

/// Whether a step ends the job with this error.
pub open spec fn ends_with(out: OutView, code: ErrorCode, message: Seq<char>) -> bool {
    out.action == ActionView::Finish(Err((code, message))) && out.progress is None
}

/// How audio leads to the engine: audio that is there is queued for with the
/// client's own patience; none, or nothing in it, is a bad request; a file is
/// opened only where that is allowed; one that cannot be read fails with the
/// reader's words; a client that gave up is told so.
pub proof fn law_audio_leads_to_the_engine(
    job: JobView,
    audio: Option<u64>,
    result: Result<u64, Seq<char>>,
    cancelled: bool,
)
    ensures
        job.phase is New ==> ({
            let out = (job_next(job, JobEvent::Start { audio, cancelled })->0).out;
            match (job.request.audio, audio) {
                (AudioSource::Path { path }, _) => if job.read_files {
                    out.action == (ActionView::DecodePath { path: path@ })
                } else {
                    ends_with(
                        out,
                        ErrorCode::BadRequest,
                        "the server does not open files; send the audio with the request"@,
                    )
                },
                (_, None) => ends_with(
                    out,
                    ErrorCode::BadRequest,
                    "inline audio was declared but no payload followed"@,
                ),
                (_, Some(n)) => if n == 0 {
                    ends_with(
                        out,
                        ErrorCode::BadRequest,
                        "the audio payload contained no samples"@,
                    )
                } else if cancelled {
                    ends_with(out, ErrorCode::Cancelled, server::cancelled_text())
                } else {
                    out.action == (ActionView::ClaimEngine { policy: job.request.wait_policy })
                        && out.progress == Some((Stage::WaitingForEngine, None::<Seq<char>>))
                },
            }
        }),
        job.phase is Audio ==> ({
            let out = (job_next(job, JobEvent::AudioDecoded { result, cancelled })->0).out;
            match result {
                Err(e) => ends_with(out, ErrorCode::IoError, e),
                Ok(n) => if n == 0 {
                    ends_with(
                        out,
                        ErrorCode::BadRequest,
                        "the audio payload contained no samples"@,
                    )
                } else if cancelled {
                    ends_with(out, ErrorCode::Cancelled, server::cancelled_text())
                } else {
                    out.action == (ActionView::ClaimEngine { policy: job.request.wait_policy })
                        && out.progress == Some((Stage::WaitingForEngine, None::<Seq<char>>))
                },
            }
        }),
{
    if job.phase is New {
        let event = JobEvent::Start { audio, cancelled };
        assert(job_next(job, event) == Some(started(job, audio, cancelled))) by {
            reveal(job_step);
        }
    } else if job.phase is Audio {
        let event = JobEvent::AudioDecoded { result, cancelled };
        assert(job_next(job, event) == Some(decoded(job, result, cancelled))) by {
            reveal(job_step);
        }
    }
}

/// How the engine leads to a model: a granted engine is used, and one that was not
/// granted ends the job with the reason; a model is looked up unless none is
/// asked for, loaded or selected; an unknown one ends the job with its name.
pub proof fn law_the_engine_leads_to_a_model(
    job: JobView,
    result: Result<(), LeaseError>,
    queue_ms: u64,
    current: Option<Seq<char>>,
    selected: Seq<char>,
    loaded: bool,
    cancelled: bool,
)
    ensures
        job.phase is Engine ==> ({
            let event = JobEvent::EngineClaimed { result, queue_ms, cancelled };
            let out = (job_next(job, event)->0).out;
            match result {
                Ok(_) => if cancelled {
                    ends_with(out, ErrorCode::Cancelled, server::cancelled_text())
                } else {
                    out.action is FindModels && out.progress is None && !out.release
                },
                Err(LeaseError::Cancelled) => ends_with(
                    out,
                    ErrorCode::Cancelled,
                    LeaseError::Cancelled.text(),
                ),
                Err(e) => ends_with(out, ErrorCode::Busy, e.text()),
            }
        }),
        job.phase is Models ==> ({
            let out = (job_next(job, JobEvent::ModelsFound { current, selected, loaded })->0).out;
            if job.request.model is None && current is None && selected.len() == 0 {
                ends_with(
                    out,
                    ErrorCode::NoModelSelected,
                    "no model is selected; pick one in Handy or pass --model"@,
                )
            } else if job.request.model matches Some(id) && id@.len() > 0 {
                out.action == (ActionView::CheckModel { model: (job.request.model->0)@ })
            } else if job.request.model is None && current is None {
                out.action == (ActionView::CheckModel { model: selected })
            } else if job.request.model is None && (current->0).len() > 0 {
                out.action == (ActionView::CheckModel { model: current->0 })
            } else {
                ends_with(
                    out,
                    ErrorCode::NoModelSelected,
                    "no model is selected; pick one in Handy or pass --model"@,
                )
            }
        }),
        job.phase is Known ==> ({
            let out = (job_next(job, JobEvent::ModelChecked { known: false, cancelled })->0).out;
            ends_with(
                out,
                ErrorCode::ModelNotAvailable,
                "unknown model '"@ + job.wanted + "'; run `handy --list-models`"@,
            )
        }),
{
    if job.phase is Engine {
        let event = JobEvent::EngineClaimed { result, queue_ms, cancelled };
        assert(job_next(job, event) == Some(claimed(job, result, queue_ms, cancelled))) by {
            reveal(job_step);
        }
    } else if job.phase is Models {
        let event = JobEvent::ModelsFound { current, selected, loaded };
        assert(job_next(job, event) == Some(models_found(job, current, selected, loaded))) by {
            reveal(job_step);
        }
    } else if job.phase is Known {
        let event = JobEvent::ModelChecked { known: false, cancelled };
        assert(job_next(job, event) == Some(model_checked(job, false, cancelled))) by {
            reveal(job_step);
        }
    }
}

/// How a model leads to text: a resident model is used as it is and any other one
/// is loaded first; the streaming engine is tried where the request allows it, and
/// the batch engine otherwise or where the streaming one declines; what cannot be
/// loaded or transcribed ends the job with the reason.
pub proof fn law_a_model_leads_to_text(
    job: JobView,
    loading: Result<u64, Seq<char>>,
    cancelled: bool,
)
    ensures
        job.phase is Known ==> ({
            let out = (job_next(job, JobEvent::ModelChecked { known: true, cancelled })->0).out;
            if !(job.loaded && job.previous == Some(job.wanted)) {
                out.action == (ActionView::LoadModel { model: job.wanted }) && out.progress == Some(
                    (Stage::LoadingModel, Some("loading model '"@ + job.wanted + "'"@)),
                )
            } else if cancelled {
                ends_with(out, ErrorCode::Cancelled, server::cancelled_text())
            } else {
                &&& job.request.allow_streaming ==> out.action == (ActionView::Stream {
                    want_partials: job.request.want_partials,
                })
                &&& !job.request.allow_streaming ==> out.action is Transcribe
                &&& out.progress == Some((Stage::Transcribing, None::<Seq<char>>))
            }
        }),
        job.phase is Loading ==> ({
            let out = (job_next(job, JobEvent::ModelLoaded { result: loading, cancelled })->0).out;
            match loading {
                Err(e) => ends_with(
                    out,
                    ErrorCode::ModelLoadFailed,
                    "could not load model '"@ + job.wanted + "': "@ + e,
                ),
                Ok(_) => if cancelled {
                    ends_with(out, ErrorCode::Cancelled, server::cancelled_text())
                } else {
                    &&& job.request.allow_streaming ==> out.action == (ActionView::Stream {
                        want_partials: job.request.want_partials,
                    })
                    &&& !job.request.allow_streaming ==> out.action is Transcribe
                    &&& out.progress == Some((Stage::Transcribing, None::<Seq<char>>))
                },
            }
        }),
{
    if job.phase is Known {
        let event = JobEvent::ModelChecked { known: true, cancelled };
        assert(job_next(job, event) == Some(model_checked(job, true, cancelled))) by {
            reveal(job_step);
        }
    } else if job.phase is Loading {
        let event = JobEvent::ModelLoaded { result: loading, cancelled };
        assert(job_next(job, event) == Some(model_loaded(job, loading, cancelled))) by {
            reveal(job_step);
        }
    }
}

/// How an engine's report leads on: text goes to the output pipeline, or straight
/// out where the raw text was asked for; a streaming engine that declines leaves
/// the audio to the batch engine; a failure ends the job with the engine's words.
pub proof fn law_text_leads_to_output(
    job: JobView,
    streaming: Result<Option<Seq<char>>, Seq<char>>,
    batch: Result<Seq<char>, Seq<char>>,
    transcribe_ms: u64,
    backend: Option<Seq<char>>,
    cancelled: bool,
)
    ensures
        job.phase is Streaming ==> ({
            let event = JobEvent::Streamed { result: streaming, transcribe_ms, backend, cancelled };
            let out = (job_next(job, event)->0).out;
            match streaming {
                Err(e) => if cancelled {
                    ends_with(out, ErrorCode::Cancelled, e)
                } else {
                    ends_with(out, ErrorCode::TranscriptionFailed, e)
                },
                Ok(None) => if cancelled {
                    ends_with(out, ErrorCode::Cancelled, server::cancelled_text())
                } else {
                    out.action is Transcribe && !out.release
                },
                Ok(Some(text)) => leads_to_output(job, text, cancelled, out),
            }
        }),
        job.phase is Batch ==> ({
            let event = JobEvent::Transcribed { result: batch, transcribe_ms, backend, cancelled };
            let out = (job_next(job, event)->0).out;
            match batch {
                Err(e) => ends_with(out, ErrorCode::TranscriptionFailed, e),
                Ok(text) => leads_to_output(job, text, cancelled, out),
            }
        }),
{
    if job.phase is Streaming {
        let event = JobEvent::Streamed { result: streaming, transcribe_ms, backend, cancelled };
        assert(job_next(job, event) == Some(streamed(job, streaming, transcribe_ms, backend, cancelled))) by {
            reveal(job_step);
        }
    } else if job.phase is Batch {
        let event = JobEvent::Transcribed { result: batch, transcribe_ms, backend, cancelled };
        assert(job_next(job, event) == Some(transcribed(job, batch, transcribe_ms, backend, cancelled))) by {
            reveal(job_step);
        }
    }
}

/// Whether a step takes `text` to where it has to go next.
pub open spec fn leads_to_output(
    job: JobView,
    text: Seq<char>,
    cancelled: bool,
    out: OutView,
) -> bool {
    if cancelled {
        ends_with(out, ErrorCode::Cancelled, server::cancelled_text())
    } else if !job.request.raw {
        out.action == (ActionView::PostProcess { raw_text: text, llm: job.request.post_process })
            && (out.progress is Some <==> job.request.post_process) && (out.progress
            is Some ==> out.progress == Some((Stage::PostProcessing, None::<Seq<char>>)))
    } else {
        leads_out(job.request, text, job.request.save_history, out)
    }
}

/// Whether a step takes the text for the user to the history, where that is still
/// to come, else to the clipboard, where that was asked for and there is some, else
/// to the client.
pub open spec fn leads_out(
    request: TranscribeRequest,
    text: Seq<char>,
    history: bool,
    out: OutView,
) -> bool {
    if history {
        out.action is ReadClock && out.progress == Some((Stage::SavingHistory, None::<Seq<char>>))
    } else if request.paste && text.len() > 0 {
        out.action == (ActionView::Paste { text }) && out.progress == Some(
            (Stage::Pasting, None::<Seq<char>>),
        )
    } else {
        out.progress is None && (out.action matches ActionView::Finish(result) && (result matches Ok(t)
            && t.text == text && !t.pasted))
    }
}

proof fn lemma_paste_step_leads_out(job: JobView)
    ensures
        leads_out(job.request, job.final_text, false, paste_step(job).out),
{
}

/// The output is stored where that was asked for; else it is pasted where that was
/// asked for; the client gets it in every case.
pub proof fn law_output_leads_out(
    job: JobView,
    final_text: Seq<char>,
    post_text: Option<Seq<char>>,
    prompt: Option<Seq<char>>,
)
    requires
        job.phase is PostProcessing,
    ensures
        leads_out(
            job.request,
            final_text,
            job.request.save_history,
            (job_next(job, JobEvent::PostProcessed { final_text, post_text, prompt })->0).out,
        ),
{
    let event = JobEvent::PostProcessed { final_text, post_text, prompt };
    assert(job_next(job, event) == Some(with_output(job, final_text, post_text, prompt))) by {
        reveal(job_step);
    }
    lemma_paste_step_leads_out(JobView { final_text, post_text, prompt, ..job });
}

/// A recording is written as soon as it has a name.
pub proof fn law_a_named_recording_is_written(job: JobView, millis: i64)
    requires
        job.phase is Naming,
    ensures
        ({
            let out = (job_next(job, JobEvent::ClockRead { millis })->0).out;
            out.action is WriteRecording
        }),
{
    let event = JobEvent::ClockRead { millis };
    assert(job_next(job, event) == Some(clock_read(job, millis))) by {
        reveal(job_step);
    }
}

/// A recording that was written is read back, by its name and with all of its samples;
/// one that could not be costs the history entry and nothing else.
pub proof fn law_a_written_recording_is_read_back(job: JobView, ok: bool)
    requires
        job.phase is Writing,
    ensures
        ({
            let out = (job_next(job, JobEvent::RecordingWritten { ok })->0).out;
            &&& ok ==> out.action == (ActionView::VerifyRecording {
                file_name: job.file_name,
                samples: job.samples,
            })
            &&& !ok ==> leads_out(job.request, job.final_text, false, out)
        }),
{
    let event = JobEvent::RecordingWritten { ok };
    assert(job_next(job, event) == Some(recording_written(job, ok))) by {
        reveal(job_step);
    }
    lemma_paste_step_leads_out(job);
}

/// A recording is entered into the history exactly where it reads back; any other one
/// is removed.
pub proof fn law_a_readable_recording_is_entered(job: JobView, ok: bool)
    requires
        job.phase is Verifying,
    ensures
        ({
            let out = (job_next(job, JobEvent::RecordingVerified { ok })->0).out;
            &&& ok ==> out.action is SaveEntry
            &&& !ok ==> out.action == (ActionView::RemoveRecording { file_name: job.file_name })
        }),
{
    let event = JobEvent::RecordingVerified { ok };
    assert(job_next(job, event) == Some(recording_verified(job, ok))) by {
        reveal(job_step);
    }
}

/// A recording that had to be removed costs the history entry and nothing else.
pub proof fn law_a_removed_recording_costs_no_text(job: JobView)
    requires
        job.phase is Removing,
    ensures
        ({
            let out = (job_next(job, JobEvent::RecordingRemoved)->0).out;
            leads_out(job.request, job.final_text, false, out)
        }),
{
    let event = JobEvent::RecordingRemoved;
    assert(job_next(job, event) == Some(paste_step(job))) by {
        reveal(job_step);
    }
    lemma_paste_step_leads_out(job);
}

/// Once the entry is stored, or could not be, the text goes on to the user.
pub proof fn law_an_entry_leads_out(job: JobView, id: Option<i64>)
    requires
        job.phase is Saving,
    ensures
        ({
            let out = (job_next(job, JobEvent::EntrySaved { id })->0).out;
            leads_out(job.request, job.final_text, false, out)
        }),
{
    let event = JobEvent::EntrySaved { id };
    assert(job_next(job, event) == Some(entry_saved(job, id))) by {
        reveal(job_step);
    }
    lemma_paste_step_leads_out(JobView { history_id: id, ..job });
}

/// However pasting went, the client gets its text, and is told how it went.
pub proof fn law_a_paste_ends_the_job(job: JobView, ok: bool)
    requires
        job.phase is Pasting,
    ensures
        ({
            let out = (job_next(job, JobEvent::Pasted { ok })->0).out;
            out.action matches ActionView::Finish(result) && (result matches Ok(t) && t.pasted == ok
                && t.text == job.final_text)
        }),
{
    let event = JobEvent::Pasted { ok };
    assert(job_next(job, event) == Some(finish(job, ok))) by {
        reveal(job_step);
    }
}

/// An action that stands for one of the model's carries the same values.
pub proof fn law_an_action_carries_its_values(action: JobAction, view: ActionView)
    requires
        action.is(view),
    ensures
        match action {
            JobAction::DecodePath { path } => view == (ActionView::DecodePath { path: path@ }),
            JobAction::ClaimEngine { policy } => view == (ActionView::ClaimEngine { policy }),
            JobAction::FindModels => view is FindModels,
            JobAction::CheckModel { model } => view == (ActionView::CheckModel { model: model@ }),
            JobAction::LoadModel { model } => view == (ActionView::LoadModel { model: model@ }),
            JobAction::Stream { want_partials } => view == (ActionView::Stream { want_partials }),
            JobAction::Transcribe => view is Transcribe,
            JobAction::PostProcess { raw_text, llm } => view == (ActionView::PostProcess {
                raw_text: raw_text@,
                llm,
            }),
            JobAction::ReadClock => view is ReadClock,
            JobAction::WriteRecording { file_name } => view == (ActionView::WriteRecording {
                file_name: file_name@,
            }),
            JobAction::VerifyRecording { file_name, samples } => view == (
            ActionView::VerifyRecording { file_name: file_name@, samples }),
            JobAction::RemoveRecording { file_name } => view == (ActionView::RemoveRecording {
                file_name: file_name@,
            }),
            JobAction::SaveEntry { file_name, raw_text, post_process, post_text, prompt } => {
                &&& view matches ActionView::SaveEntry {
                    file_name: f,
                    raw_text: r,
                    post_process: p,
                    post_text: x,
                    prompt: q,
                }
                &&& f == file_name@ && r == raw_text@ && p == post_process
                &&& (x is Some) == (post_text is Some) && (x is Some ==> x->0 == (post_text->0)@)
                &&& (q is Some) == (prompt is Some) && (q is Some ==> q->0 == (prompt->0)@)
            },
            JobAction::Paste { text } => view == (ActionView::Paste { text: text@ }),
            JobAction::Finish(Err(e)) => view == ActionView::Finish(Err((e.code, e.message@))),
            JobAction::Finish(Ok(ResultBody::Transcript(b))) => {
                &&& view matches ActionView::Finish(Ok(t))
                &&& t.text == b.text@ && t.raw_text == b.raw_text@
                &&& t.pipeline_ran == b.pipeline_ran && t.post_processed == b.post_processed
                &&& t.post_process_applied == b.post_process_applied
                &&& t.model == b.model@
                &&& (t.backend is Some) == (b.backend is Some) && (t.backend is Some
                    ==> t.backend->0 == (b.backend->0)@)
                &&& t.audio_samples == b.audio_samples && t.queue_ms == b.queue_ms
                &&& t.load_ms == b.load_ms && t.transcribe_ms == b.transcribe_ms
                &&& t.cold_load == b.cold_load && t.streamed == b.streamed
                &&& t.history_id == b.history_id && t.pasted == b.pasted
            },
            JobAction::Finish(Ok(_)) => false,
        },
{
}

/// A step that stands for one of the model's asks for the same things.
pub proof fn law_a_step_asks_for_the_same(step: JobStep, view: OutView)
    requires
        step.is(view),
    ensures
        step.release == view.release,
        match step.restore {
            Some(id) => view.restore == Some(id@),
            None => view.restore is None,
        },
        match step.progress {
            Some(p) => {
                &&& view.progress matches Some(told)
                &&& told.0 == p.stage
                &&& (told.1 is Some) == (p.message is Some)
                &&& told.1 is Some ==> told.1->0 == (p.message->0)@
            },
            None => view.progress is None,
        },
        step.action.is(view.action),
{
}

/// What the engines and the disk report is taken as it is: a success with its value,
/// a failure with its words.
pub proof fn law_reports_are_taken_as_they_are(
    count: Result<u64, String>,
    batch: Result<String, String>,
    streaming: Result<Option<String>, String>,
)
    ensures
        match count {
            Ok(n) => said(count) == Ok::<u64, Seq<char>>(n),
            Err(e) => said(count) == Err::<u64, Seq<char>>(e@),
        },
        match batch {
            Ok(t) => both_text(batch) == Ok::<Seq<char>, Seq<char>>(t@),
            Err(e) => both_text(batch) == Err::<Seq<char>, Seq<char>>(e@),
        },
        match streaming {
            Ok(Some(t)) => said_text(streaming) == Ok::<Option<Seq<char>>, Seq<char>>(Some(t@)),
            Ok(None) => said_text(streaming) == Ok::<Option<Seq<char>>, Seq<char>>(None),
            Err(e) => said_text(streaming) == Err::<Option<Seq<char>>, Seq<char>>(e@),
        },
{
}

/// A job begins with its own request and nothing else: it waits to be started, holds
/// no engine, and opens files only where that was allowed.
pub proof fn law_a_job_begins_with_its_request(request: TranscribeRequest, read_files: bool)
    ensures
        ({
            let job = job_after(request, read_files, Seq::empty());
            &&& job.request == request
            &&& job.read_files == read_files
            &&& job.phase is New
            &&& !job.held && job.restore is None
            &&& !job.cold_load && !job.streamed && job.history_id is None
            &&& job.raw_text.len() == 0 && job.final_text.len() == 0
        }),
{
}

/// A recording is named after the time at which it is made, so two of different
/// times never share a name.
pub proof fn law_recordings_have_names_of_their_own(a: i64, b: i64)
    requires
        recording_name_text(a as int) == recording_name_text(b as int),
        a >= 0,
        b >= 0,
    ensures
        a == b,
{
    reveal_strlit("handy-cli-");
    reveal_strlit(".wav");
    let na = text::decimal_text(a as nat);
    let nb = text::decimal_text(b as nat);
    assert(recording_name_text(a as int).len() == 10 + na.len() + 4);
    assert(recording_name_text(b as int).len() == 10 + nb.len() + 4);
    assert(recording_name_text(a as int).subrange(10, (10 + na.len()) as int) =~= na);
    assert(recording_name_text(b as int).subrange(10, (10 + nb.len()) as int) =~= nb);
    text::lemma_decimal_injective(a as nat, b as nat);
}

/// Nothing that comes before the models are looked up says anything of them.
proof fn lemma_models_stay_at_first(job: JobView, event: JobEvent)
    requires
        job_next(job, event) is Some,
        event is Start || event is AudioDecoded || event is EngineClaimed,
    ensures
        (job_next(job, event)->0).job.previous == job.previous,
        (job_next(job, event)->0).job.loaded == job.loaded,
{
    match event {
        JobEvent::Start { audio, cancelled } => {
            assert(job_next(job, event) == Some(
                started(job, audio, cancelled),
            )) by {
                reveal(job_step);
            }
        },
        JobEvent::AudioDecoded { result, cancelled } => {
            assert(job_next(job, event) == Some(
                decoded(job, result, cancelled),
            )) by {
                reveal(job_step);
            }
        },
        JobEvent::EngineClaimed { result, queue_ms, cancelled } => {
            assert(job_next(job, event) == Some(
                claimed(job, result, queue_ms, cancelled),
            )) by {
                reveal(job_step);
            }
        },
        _ => {},
    }
}

/// Loading a model does not change what was found.
proof fn lemma_models_stay_while_loading(job: JobView, event: JobEvent)
    requires
        job_next(job, event) is Some,
        event is ModelChecked || event is ModelLoaded,
    ensures
        (job_next(job, event)->0).job.previous == job.previous,
        (job_next(job, event)->0).job.loaded == job.loaded,
{
    match event {
        JobEvent::ModelChecked { known, cancelled } => {
            assert(job_next(job, event) == Some(
                model_checked(job, known, cancelled),
            )) by {
                reveal(job_step);
            }
        },
        JobEvent::ModelLoaded { result, cancelled } => {
            assert(job_next(job, event) == Some(
                model_loaded(job, result, cancelled),
            )) by {
                reveal(job_step);
            }
        },
        _ => {},
    }
}

/// Neither does transcribing.
proof fn lemma_models_stay_while_transcribing(job: JobView, event: JobEvent)
    requires
        job_next(job, event) is Some,
        event is Streamed || event is Transcribed,
    ensures
        (job_next(job, event)->0).job.previous == job.previous,
        (job_next(job, event)->0).job.loaded == job.loaded,
{
    match event {
        JobEvent::Streamed { result, transcribe_ms, backend, cancelled } => {
            assert(job_next(job, event) == Some(
                streamed(job, result, transcribe_ms, backend, cancelled),
            )) by {
                reveal(job_step);
            }
        },
        JobEvent::Transcribed { result, transcribe_ms, backend, cancelled } => {
            assert(job_next(job, event) == Some(
                transcribed(job, result, transcribe_ms, backend, cancelled),
            )) by {
                reveal(job_step);
            }
        },
        _ => {},
    }
}

/// Neither does naming, writing and checking a recording.
proof fn lemma_models_stay_while_saving(job: JobView, event: JobEvent)
    requires
        job_next(job, event) is Some,
        event is ClockRead || event is RecordingWritten || event is RecordingVerified,
    ensures
        (job_next(job, event)->0).job.previous == job.previous,
        (job_next(job, event)->0).job.loaded == job.loaded,
{
    match event {
        JobEvent::ClockRead { millis } => {
            assert(job_next(job, event) == Some(
                clock_read(job, millis),
            )) by {
                reveal(job_step);
            }
        },
        JobEvent::RecordingWritten { ok } => {
            assert(job_next(job, event) == Some(
                recording_written(job, ok),
            )) by {
                reveal(job_step);
            }
        },
        JobEvent::RecordingVerified { ok } => {
            assert(job_next(job, event) == Some(
                recording_verified(job, ok),
            )) by {
                reveal(job_step);
            }
        },
        _ => {},
    }
}

/// Neither does what is done with the text.
proof fn lemma_models_stay_at_last(job: JobView, event: JobEvent)
    requires
        job_next(job, event) is Some,
        event is PostProcessed || event is RecordingRemoved || event is EntrySaved || event is Pasted,
    ensures
        (job_next(job, event)->0).job.previous == job.previous,
        (job_next(job, event)->0).job.loaded == job.loaded,
{
    match event {
        JobEvent::PostProcessed { final_text, post_text, prompt } => {
            assert(job_next(job, event) == Some(
                with_output(job, final_text, post_text, prompt),
            )) by {
                reveal(job_step);
            }
        },
        JobEvent::RecordingRemoved => {
            assert(job_next(job, event) == Some(
                paste_step(job),
            )) by {
                reveal(job_step);
            }
        },
        JobEvent::EntrySaved { id } => {
            assert(job_next(job, event) == Some(
                entry_saved(job, id),
            )) by {
                reveal(job_step);
            }
        },
        JobEvent::Pasted { ok } => {
            assert(job_next(job, event) == Some(
                finish(job, ok),
            )) by {
                reveal(job_step);
            }
        },
        _ => {},
    }
}

/// What was found of the models is changed by no other report.
proof fn lemma_models_stay(job: JobView, event: JobEvent)
    requires
        job_next(job, event) is Some,
        !(event is ModelsFound),
    ensures
        (job_next(job, event)->0).job.previous == job.previous,
        (job_next(job, event)->0).job.loaded == job.loaded,
{
    if event is Start || event is AudioDecoded || event is EngineClaimed {
        lemma_models_stay_at_first(job, event);
    } else if event is ModelChecked || event is ModelLoaded {
        lemma_models_stay_while_loading(job, event);
    } else if event is Streamed || event is Transcribed {
        lemma_models_stay_while_transcribing(job, event);
    } else if event is ClockRead || event is RecordingWritten || event is RecordingVerified {
        lemma_models_stay_while_saving(job, event);
    } else {
        lemma_models_stay_at_last(job, event);
    }
}

proof fn lemma_models_are_remembered(
    request: TranscribeRequest,
    read_files: bool,
    events: Seq<JobEvent>,
    j: int,
    n: int,
)
    requires
        0 <= j < n <= events.len(),
        asked_at(request, read_files, events, j) is Some,
        events[j] is ModelsFound,
    ensures
        ({
            let job = job_after(request, read_files, events.take(n));
            events[j] matches JobEvent::ModelsFound { current, loaded, .. } && job.previous
                == current && job.loaded == loaded
        }),
    decreases n,
{
    assert(events.take(n).drop_last() =~= events.take(n - 1));
    assert(events.take(n).last() == events[n - 1]);
    let before = job_after(request, read_files, events.take(n - 1));
    if n == j + 1 {
        match events[j] {
            JobEvent::ModelsFound { current, selected, loaded } => {
                assert(job_next(before, events[j]) == Some(
                    models_found(before, current, selected, loaded),
                )) by {
                    reveal(job_step);
                }
            },
            _ => {},
        }
    } else {
        lemma_models_are_remembered(request, read_files, events, j, n - 1);
        if job_next(before, events[n - 1]) is Some {
            law_a_job_ends(request, read_files, events, j);
            lemma_phases_only_rise(request, read_files, events, j + 1, n - 1);
            lemma_models_stay(before, events[n - 1]);
        }
    }
}

/// A model is loaded exactly where it has to be: a transcript reports a load if and
/// only if the model it was made with was not the one found loaded.
pub proof fn law_a_model_is_loaded_where_it_has_to_be(
    request: TranscribeRequest,
    read_files: bool,
    events: Seq<JobEvent>,
    j: int,
    i: int,
    t: TranscriptView,
)
    requires
        0 <= j < i < events.len(),
        asked_at(request, read_files, events, j) is Some,
        asked_at(request, read_files, events, i) is Some,
        (asked_at(request, read_files, events, i)->0).action == ActionView::Finish(Ok(t)),
    ensures
        events[j] matches JobEvent::ModelsFound { current, loaded, .. } ==> (t.cold_load <==> !(
        loaded && current == Some(t.model))),
{
    if events[j] is ModelsFound {
        lemma_models_are_remembered(request, read_files, events, j, i + 1);
        law_a_transcript_is_honest(request, read_files, events, i);
    }
}

} // verus!
