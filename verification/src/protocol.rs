//! Wire format for the CLI control socket.
//!
//! Newline-delimited JSON: one UTF-8 object per line. A frame that carries bulk
//! audio declares its byte length inside the frame itself
//! ([`AudioSource::Inline`]); those raw bytes follow immediately after the
//! frame's newline, before the next JSON line. There is exactly one authority
//! on how many bytes to read.
//!
//! This module holds the frames, the framing and the sample encodings. Turning
//! a frame into its JSON line and back is the business of whoever owns the
//! socket.

use crate::text;
use vstd::prelude::*;

verus! {

/// Current wire version. Bump only for a breaking change.
pub const PROTOCOL_VERSION: u32 = 1;

/// Oldest client this server still speaks to.
pub const MIN_PROTOCOL_VERSION: u32 = 1;

/// Largest inline audio payload accepted, ~2.3 hours of 16 kHz mono samples of
/// four bytes.
pub const MAX_ATTACHMENT_BYTES: u64 = 512 * 1024 * 1024;

/// Largest JSON control line accepted. Guards against a peer that opens a
/// connection and streams bytes without ever sending a newline.
pub const MAX_FRAME_BYTES: u64 = 1024 * 1024;

// ---------------------------------------------------------------------------
// Frames
// ---------------------------------------------------------------------------

/// A request.
#[derive(Debug, Clone)]
pub enum ClientFrame {
    /// Liveness check.
    Ping,
    /// What is the app doing right now.
    Status,
    /// Transcribe a buffer of audio.
    Transcribe(Box<TranscribeRequest>),
    /// Abandon the in-flight job on this connection.
    Cancel,
    /// Graceful close.
    Bye,
    /// A request kind this build does not know, by its name. Answered, not dropped.
    Unknown(String),
}

/// A reply.
#[allow(inconsistent_fields)]
#[derive(Debug, Clone)]
pub enum ServerFrame {
    /// Sent immediately on accept, before the server reads anything, so version
    /// skew surfaces before any work is done.
    Hello { protocol: u32, min_protocol: u32, app_version: String, pid: u32 },
    /// The request was understood and queued.
    Accepted { job_id: String },
    /// Liveness heartbeat and stage transitions for a running job. The
    /// completion fraction, where one was measured, is the bit pattern of an
    /// IEEE double between zero and one.
    Progress {
        job_id: String,
        stage: Stage,
        message: Option<String>,
        elapsed_ms: u64,
        fraction: Option<u64>,
    },
    /// Text decoded so far, for a client that asked for it.
    Partial { job_id: String, committed: String, tentative: String },
    /// Terminal success frame.
    Result { job_id: String, body: ResultBody },
    /// Terminal failure frame.
    Error { job_id: Option<String>, code: ErrorCode, message: String },
    /// A frame kind this build does not know. Skipped by the client.
    Unknown,
}

impl ServerFrame {
    /// Whether this frame ends a request.
    pub open spec fn terminal(self) -> bool {
        self is Result || self is Error
    }

    /// Whether this frame ends a request.
    pub fn is_terminal(&self) -> (r: bool)
        ensures
            r == self.terminal(),
    {
        match self {
            ServerFrame::Result { .. } => true,
            ServerFrame::Error { .. } => true,
            _ => false,
        }
    }
}

// ---------------------------------------------------------------------------
// Payloads
// ---------------------------------------------------------------------------

/// What to transcribe and what to do with the result.
#[derive(Debug, Clone)]
pub struct TranscribeRequest {
    pub audio: AudioSource,
    /// Where the audio came from. Used for logs, history titles, and error
    /// messages; the server never opens it.
    pub source_label: Option<String>,
    /// Load this model for the job instead of the one currently loaded. Not
    /// persisted; the previous model is restored afterwards.
    pub model: Option<String>,
    /// Restore the previously loaded model after a `model` override.
    pub restore_model: bool,
    /// Return the engine's output untouched: no conversion, no command filter,
    /// no LLM.
    pub raw: bool,
    /// Additionally run LLM post-processing over the transcript.
    pub post_process: bool,
    /// Record the result in the app's transcription history.
    pub save_history: bool,
    /// Paste the result into the focused window.
    pub paste: bool,
    /// What to do when the engine is busy.
    pub wait_policy: WaitPolicy,
    /// Send `Progress` frames while the job runs.
    pub want_progress: bool,
    /// Use the streaming engine when the model supports it.
    pub allow_streaming: bool,
    /// Send `Partial` frames while the job streams.
    pub want_partials: bool,
}

/// The value of a boolean field that an older peer leaves out and that is on
/// unless switched off.
pub fn default_true() -> (r: bool)
    ensures
        r,
{
    true
}

/// Where the audio of a request is.
#[derive(Debug, Clone)]
pub enum AudioSource {
    /// Audio bytes follow this frame. The client decodes the file, so the
    /// server never opens a caller-supplied path.
    Inline { encoding: AudioEncoding, sample_rate: u32, channels: u16, byte_len: u64 },
    /// Server-side read. Reserved for files the app itself owns and for an
    /// explicit opt-in.
    Path { path: String },
}

/// What a client wants done when the engine is already in use.
#[derive(Debug, Clone, Copy, PartialEq, Eq, Structural)]
pub enum WaitPolicy {
    /// Fail immediately with [`ErrorCode::Busy`].
    FailFast,
    /// Queue for the engine, optionally giving up after `timeout_ms`.
    Wait { timeout_ms: Option<u64> },
}

impl Default for WaitPolicy {
    /// Waiting is the kind default: the engine is usually free, and when it is
    /// not the wait is bounded by one in-flight job.
    fn default() -> (r: Self)
        ensures
            r == (WaitPolicy::Wait { timeout_ms: None }),
    {
        WaitPolicy::Wait { timeout_ms: None }
    }
}

/// The payload of a terminal success frame.
#[derive(Debug, Clone)]
pub enum ResultBody {
    Pong { app_version: String },
    Status(Box<StatusBody>),
    Transcript(Box<TranscriptBody>),
}

/// The outcome of a transcription.
#[derive(Debug, Clone)]
pub struct TranscriptBody {
    /// Final text, after whatever pipeline ran.
    pub text: String,
    /// Text as the engine produced it.
    pub raw_text: String,
    /// Whether conversion and the command filter ran.
    pub pipeline_ran: bool,
    /// Whether LLM post-processing was requested.
    pub post_processed: bool,
    /// Whether LLM post-processing actually produced text. The pipeline falls
    /// back when a provider fails, so "requested" and "applied" are genuinely
    /// different answers.
    pub post_process_applied: bool,
    pub model: String,
    pub backend: Option<String>,
    /// Number of 16 kHz mono samples transcribed; with `transcribe_ms` it gives
    /// the audio duration and the real-time factor.
    pub audio_samples: u64,
    /// Time spent queued for the engine.
    pub queue_ms: u64,
    /// Time spent loading a model, if one had to be loaded.
    pub load_ms: u64,
    pub transcribe_ms: u64,
    /// True when the model was not resident and had to be loaded for this job.
    pub cold_load: bool,
    /// Whether the streaming engine produced the text.
    pub streamed: bool,
    pub history_id: Option<i64>,
    pub pasted: bool,
}

/// What the running app is doing.
#[derive(Debug, Clone)]
pub struct StatusBody {
    pub app_version: String,
    pub protocol: u32,
    pub pid: u32,
    pub uptime_secs: u64,
    pub selected_model: String,
    pub loaded_model: Option<String>,
    pub backend: Option<String>,
    pub model_loaded: bool,
    pub engine_busy: Option<LeaseOwner>,
    pub recording: bool,
    pub streaming: bool,
    pub post_process_enabled: bool,
}

/// Where a running job is.
#[derive(Debug, Clone, Copy, PartialEq, Eq, Structural)]
pub enum Stage {
    Queued,
    WaitingForEngine,
    LoadingModel,
    Transcribing,
    PostProcessing,
    SavingHistory,
    Pasting,
}

impl Stage {
    /// Short label for a progress line on stderr.
    pub open spec fn text(self) -> Seq<char> {
        match self {
            Stage::Queued => "queued"@,
            Stage::WaitingForEngine => "waiting for engine"@,
            Stage::LoadingModel => "loading model"@,
            Stage::Transcribing => "transcribing"@,
            Stage::PostProcessing => "post-processing"@,
            Stage::SavingHistory => "saving to history"@,
            Stage::Pasting => "pasting"@,
        }
    }

    /// Short label for a progress line on stderr.
    pub fn label(self) -> (r: &'static str)
        ensures
            r@ == self.text(),
    {
        match self {
            Stage::Queued => "queued",
            Stage::WaitingForEngine => "waiting for engine",
            Stage::LoadingModel => "loading model",
            Stage::Transcribing => "transcribing",
            Stage::PostProcessing => "post-processing",
            Stage::SavingHistory => "saving to history",
            Stage::Pasting => "pasting",
        }
    }
}

/// Why a request failed.
#[derive(Debug, Clone, Copy, PartialEq, Eq, Structural)]
pub enum ErrorCode {
    ProtocolMismatch,
    UnsupportedRequest,
    BadRequest,
    PayloadTooLarge,
    Busy,
    Cancelled,
    NoModelSelected,
    ModelNotAvailable,
    ModelLoadFailed,
    TranscriptionFailed,
    IoError,
    Internal,
    TooManyClients,
    Forbidden,
}

impl ErrorCode {
    /// The name of the code, as it is spelled here.
    pub open spec fn text(self) -> Seq<char> {
        match self {
            ErrorCode::ProtocolMismatch => "ProtocolMismatch"@,
            ErrorCode::UnsupportedRequest => "UnsupportedRequest"@,
            ErrorCode::BadRequest => "BadRequest"@,
            ErrorCode::PayloadTooLarge => "PayloadTooLarge"@,
            ErrorCode::Busy => "Busy"@,
            ErrorCode::Cancelled => "Cancelled"@,
            ErrorCode::NoModelSelected => "NoModelSelected"@,
            ErrorCode::ModelNotAvailable => "ModelNotAvailable"@,
            ErrorCode::ModelLoadFailed => "ModelLoadFailed"@,
            ErrorCode::TranscriptionFailed => "TranscriptionFailed"@,
            ErrorCode::IoError => "IoError"@,
            ErrorCode::Internal => "Internal"@,
            ErrorCode::TooManyClients => "TooManyClients"@,
            ErrorCode::Forbidden => "Forbidden"@,
        }
    }

    /// The name of the code, as it is spelled here.
    pub fn name(self) -> (r: &'static str)
        ensures
            r@ == self.text(),
    {
        match self {
            ErrorCode::ProtocolMismatch => "ProtocolMismatch",
            ErrorCode::UnsupportedRequest => "UnsupportedRequest",
            ErrorCode::BadRequest => "BadRequest",
            ErrorCode::PayloadTooLarge => "PayloadTooLarge",
            ErrorCode::Busy => "Busy",
            ErrorCode::Cancelled => "Cancelled",
            ErrorCode::NoModelSelected => "NoModelSelected",
            ErrorCode::ModelNotAvailable => "ModelNotAvailable",
            ErrorCode::ModelLoadFailed => "ModelLoadFailed",
            ErrorCode::TranscriptionFailed => "TranscriptionFailed",
            ErrorCode::IoError => "IoError",
            ErrorCode::Internal => "Internal",
            ErrorCode::TooManyClients => "TooManyClients",
            ErrorCode::Forbidden => "Forbidden",
        }
    }
}

// ---------------------------------------------------------------------------
// What the frames say
// ---------------------------------------------------------------------------

/// The answer to a transcription that went through.
pub struct TranscriptView {
    pub text: Seq<char>,
    pub raw_text: Seq<char>,
    pub pipeline_ran: bool,
    pub post_processed: bool,
    pub post_process_applied: bool,
    pub model: Seq<char>,
    pub backend: Option<Seq<char>>,
    pub audio_samples: u64,
    pub queue_ms: u64,
    pub load_ms: u64,
    pub transcribe_ms: u64,
    pub cold_load: bool,
    pub streamed: bool,
    pub history_id: Option<i64>,
    pub pasted: bool,
}

/// The answer to a status request.
pub struct StatusView {
    pub app_version: Seq<char>,
    pub protocol: u32,
    pub pid: u32,
    pub uptime_secs: u64,
    pub selected_model: Seq<char>,
    pub loaded_model: Option<Seq<char>>,
    pub backend: Option<Seq<char>>,
    pub model_loaded: bool,
    pub engine_busy: Option<LeaseOwner>,
    pub recording: bool,
    pub streaming: bool,
    pub post_process_enabled: bool,
}

/// The payload of a terminal success frame.
pub enum BodyView {
    Pong { app_version: Seq<char> },
    Status(StatusView),
    Transcript(TranscriptView),
}

/// A reply.
#[allow(inconsistent_fields)]
pub enum FrameView {
    Hello { protocol: u32, min_protocol: u32, app_version: Seq<char>, pid: u32 },
    Accepted { job_id: Seq<char> },
    Progress {
        job_id: Seq<char>,
        stage: Stage,
        message: Option<Seq<char>>,
        elapsed_ms: u64,
        fraction: Option<u64>,
    },
    Partial { job_id: Seq<char>, committed: Seq<char>, tentative: Seq<char> },
    Result { job_id: Seq<char>, body: BodyView },
    Error { job_id: Option<Seq<char>>, code: ErrorCode, message: Seq<char> },
    Unknown,
}

impl TranscriptBody {
    /// What the transcript says.
    pub open spec fn view(&self) -> TranscriptView {
        TranscriptView {
            text: self.text@,
            raw_text: self.raw_text@,
            pipeline_ran: self.pipeline_ran,
            post_processed: self.post_processed,
            post_process_applied: self.post_process_applied,
            model: self.model@,
            backend: text::opt_text(self.backend),
            audio_samples: self.audio_samples,
            queue_ms: self.queue_ms,
            load_ms: self.load_ms,
            transcribe_ms: self.transcribe_ms,
            cold_load: self.cold_load,
            streamed: self.streamed,
            history_id: self.history_id,
            pasted: self.pasted,
        }
    }
}

impl StatusBody {
    /// What the status says.
    pub open spec fn view(&self) -> StatusView {
        StatusView {
            app_version: self.app_version@,
            protocol: self.protocol,
            pid: self.pid,
            uptime_secs: self.uptime_secs,
            selected_model: self.selected_model@,
            loaded_model: text::opt_text(self.loaded_model),
            backend: text::opt_text(self.backend),
            model_loaded: self.model_loaded,
            engine_busy: self.engine_busy,
            recording: self.recording,
            streaming: self.streaming,
            post_process_enabled: self.post_process_enabled,
        }
    }
}

impl ResultBody {
    /// What the payload says.
    pub open spec fn view(&self) -> BodyView {
        match *self {
            ResultBody::Pong { app_version } => BodyView::Pong { app_version: app_version@ },
            ResultBody::Status(body) => BodyView::Status(body@),
            ResultBody::Transcript(body) => BodyView::Transcript(body@),
        }
    }
}

impl ServerFrame {
    /// What the frame says.
    pub open spec fn view(&self) -> FrameView {
        match *self {
            ServerFrame::Hello { protocol, min_protocol, app_version, pid } => FrameView::Hello {
                protocol,
                min_protocol,
                app_version: app_version@,
                pid,
            },
            ServerFrame::Accepted { job_id } => FrameView::Accepted { job_id: job_id@ },
            ServerFrame::Progress { job_id, stage, message, elapsed_ms, fraction } =>
            FrameView::Progress {
                job_id: job_id@,
                stage,
                message: text::opt_text(message),
                elapsed_ms,
                fraction,
            },
            ServerFrame::Partial { job_id, committed, tentative } => FrameView::Partial {
                job_id: job_id@,
                committed: committed@,
                tentative: tentative@,
            },
            ServerFrame::Result { job_id, body } => FrameView::Result {
                job_id: job_id@,
                body: body@,
            },
            ServerFrame::Error { job_id, code, message } => FrameView::Error {
                job_id: text::opt_text(job_id),
                code,
                message: message@,
            },
            ServerFrame::Unknown => FrameView::Unknown,
        }
    }
}

// ---------------------------------------------------------------------------
// Sample encodings
// ---------------------------------------------------------------------------

/// How the samples of an inline recording are laid out.
///
/// A sample is held here as one `i32` word: for [`AudioEncoding::PcmF32Le`] the
/// bit pattern of the float, for [`AudioEncoding::PcmS16Le`] the amplitude
/// scaled to 16 bits.
#[derive(Debug, Clone, Copy, PartialEq, Eq, Structural)]
pub enum AudioEncoding {
    /// Little-endian 32-bit float, exactly what the engines consume.
    PcmF32Le,
    /// Little-endian signed 16-bit. Half the bytes, at 16-bit fidelity.
    PcmS16Le,
}

/// The two's complement reading of `u` in a word of `2 * half` values.
pub open spec fn signed(u: int, half: int) -> int {
    if u < half {
        u
    } else {
        u - 2 * half
    }
}

/// The two's complement pattern of `w` in a word of `2 * half` values.
pub open spec fn unsigned(w: int, half: int) -> int {
    if w < 0 {
        w + 2 * half
    } else {
        w
    }
}

/// `w` held inside the range of a signed 16-bit amplitude.
pub open spec fn clamped(w: int) -> int {
    if w < -0x8000 {
        -0x8000
    } else if w > 0x7fff {
        0x7fff
    } else {
        w
    }
}

/// The `k`-th byte of `u`, lowest first.
pub open spec fn le_byte(u: int, k: int) -> int {
    if k == 0 {
        u % 0x100
    } else if k == 1 {
        u / 0x100 % 0x100
    } else if k == 2 {
        u / 0x1_0000 % 0x100
    } else {
        u / 0x100_0000 % 0x100
    }
}

/// The unsigned number in the two bytes from `at` on, lowest first.
pub open spec fn le_pair(b: Seq<u8>, at: int) -> int {
    b[at] + 0x100 * b[at + 1]
}

/// The unsigned number in the four bytes from `at` on, lowest first.
pub open spec fn le_quad(b: Seq<u8>, at: int) -> int {
    b[at] + 0x100 * b[at + 1] + 0x1_0000 * b[at + 2] + 0x100_0000 * b[at + 3]
}

impl AudioEncoding {
    /// Bytes that one sample takes.
    pub open spec fn width(self) -> int {
        match self {
            AudioEncoding::PcmF32Le => 4,
            AudioEncoding::PcmS16Le => 2,
        }
    }

    /// The word that survives encoding `w`: itself, or its clamped amplitude.
    pub open spec fn stored(self, w: int) -> int {
        match self {
            AudioEncoding::PcmF32Le => w,
            AudioEncoding::PcmS16Le => clamped(w),
        }
    }

    /// The words that `bytes` hold; an incomplete last sample is left out.
    pub open spec fn words(self, bytes: Seq<u8>) -> Seq<i32> {
        match self {
            AudioEncoding::PcmF32Le => Seq::new(
                (bytes.len() / 4) as nat,
                |i: int| signed(le_quad(bytes, 4 * i), 0x8000_0000) as i32,
            ),
            AudioEncoding::PcmS16Le => Seq::new(
                (bytes.len() / 2) as nat,
                |i: int| signed(le_pair(bytes, 2 * i), 0x8000) as i32,
            ),
        }
    }

    /// The bytes that hold `words`.
    pub open spec fn bytes(self, words: Seq<i32>) -> Seq<u8> {
        match self {
            AudioEncoding::PcmF32Le => Seq::new(
                4 * words.len(),
                |j: int| le_byte(unsigned(words[j / 4] as int, 0x8000_0000), j % 4) as u8,
            ),
            AudioEncoding::PcmS16Le => Seq::new(
                2 * words.len(),
                |j: int| le_byte(unsigned(clamped(words[j / 2] as int), 0x8000), j % 2) as u8,
            ),
        }
    }

    /// Bytes that one sample takes.
    pub fn bytes_per_sample(self) -> (r: usize)
        ensures
            r == self.width(),
    {
        match self {
            AudioEncoding::PcmF32Le => 4,
            AudioEncoding::PcmS16Le => 2,
        }
    }

    /// Decode a raw little-endian buffer into sample words.
    pub fn decode(self, bytes: &[u8]) -> (r: Vec<i32>)
        ensures
            r@ == self.words(bytes@),
    {
        let mut out: Vec<i32> = Vec::new();
        let mut at: usize = 0;
        match self {
            AudioEncoding::PcmF32Le => {
                while bytes.len() - at >= 4
                    invariant
                        self == AudioEncoding::PcmF32Le,
                        at == 4 * out.len(),
                        at <= bytes.len(),
                        out.len() <= self.words(bytes@).len(),
                        out@ =~= self.words(bytes@).take(out.len() as int),
                    decreases bytes.len() - at,
                {
                    let u: u32 = bytes[at] as u32 + 0x100 * (bytes[at + 1] as u32) + 0x1_0000 * (
                    bytes[at + 2] as u32) + 0x100_0000 * (bytes[at + 3] as u32);
                    let w: i32 = if u < 0x8000_0000 {
                        u as i32
                    } else {
                        -((0xffff_ffff - u) as i32) - 1
                    };
                    out.push(w);
                    at = at + 4;
                }
            },
            AudioEncoding::PcmS16Le => {
                while bytes.len() - at >= 2
                    invariant
                        self == AudioEncoding::PcmS16Le,
                        at == 2 * out.len(),
                        at <= bytes.len(),
                        out.len() <= self.words(bytes@).len(),
                        out@ =~= self.words(bytes@).take(out.len() as int),
                    decreases bytes.len() - at,
                {
                    let u: i32 = bytes[at] as i32 + 0x100 * (bytes[at + 1] as i32);
                    let w: i32 = if u < 0x8000 {
                        u
                    } else {
                        u - 0x1_0000
                    };
                    out.push(w);
                    at = at + 2;
                }
            },
        }
        out
    }

    /// Encode sample words into a raw little-endian buffer. Amplitudes that do
    /// not fit 16 bits are clamped rather than wrapped.
    pub fn encode(self, samples: &[i32]) -> (r: Vec<u8>)
        ensures
            r@ == self.bytes(samples@),
    {
        let mut out: Vec<u8> = Vec::new();
        let mut i: usize = 0;
        match self {
            AudioEncoding::PcmF32Le => {
                while i < samples.len()
                    invariant
                        self == AudioEncoding::PcmF32Le,
                        i <= samples.len(),
                        out@ =~= self.bytes(samples@).take(4 * i),
                    decreases samples.len() - i,
                {
                    let w: i32 = samples[i];
                    let u: u32 = if w < 0 {
                        0xffff_ffff - (-(w + 1)) as u32
                    } else {
                        w as u32
                    };
                    out.push((u % 0x100) as u8);
                    out.push((u / 0x100 % 0x100) as u8);
                    out.push((u / 0x1_0000 % 0x100) as u8);
                    out.push((u / 0x100_0000 % 0x100) as u8);
                    i = i + 1;
                }
            },
            AudioEncoding::PcmS16Le => {
                while i < samples.len()
                    invariant
                        self == AudioEncoding::PcmS16Le,
                        i <= samples.len(),
                        out@ =~= self.bytes(samples@).take(2 * i),
                    decreases samples.len() - i,
                {
                    let w: i32 = samples[i];
                    let c: i32 = if w < -0x8000 {
                        -0x8000
                    } else if w > 0x7fff {
                        0x7fff
                    } else {
                        w
                    };
                    let u: u32 = if c < 0 {
                        (c + 0x1_0000) as u32
                    } else {
                        c as u32
                    };
                    out.push((u % 0x100) as u8);
                    out.push((u / 0x100 % 0x100) as u8);
                    i = i + 1;
                }
            },
        }
        out
    }
}

proof fn lemma_four_bytes_hold_a_word(u: int)
    requires
        0 <= u < 0x1_0000_0000,
    ensures
        le_byte(u, 0) + 0x100 * le_byte(u, 1) + 0x1_0000 * le_byte(u, 2) + 0x100_0000 * le_byte(
            u,
            3,
        ) == u,
{
    let a = u / 0x100;
    let b = a / 0x100;
    assert(u / 0x1_0000 == b);
    assert(u / 0x100_0000 == b / 0x100);
    assert(b / 0x100 % 0x100 == b / 0x100);
}

/// Decoding gives back what was encoded: every float bit for bit, and every
/// amplitude after clamping.
pub proof fn law_encoding_round_trips(encoding: AudioEncoding, words: Seq<i32>)
    ensures
        encoding.words(encoding.bytes(words)).len() == words.len(),
        forall|i: int|
            0 <= i < words.len() ==> #[trigger] encoding.words(encoding.bytes(words))[i]
                == encoding.stored(words[i] as int),
{
    let b = encoding.bytes(words);
    assert forall|i: int| 0 <= i < words.len() implies #[trigger] encoding.words(b)[i]
        == encoding.stored(words[i] as int) by {
        match encoding {
            AudioEncoding::PcmF32Le => {
                let u = unsigned(words[i] as int, 0x8000_0000);
                lemma_four_bytes_hold_a_word(u);
                assert forall|k: int| 0 <= k < 4 implies b[4 * i + k] == #[trigger] le_byte(
                    u,
                    k,
                ) by {
                    assert((4 * i + k) / 4 == i && (4 * i + k) % 4 == k);
                }
                assert(b[4 * i + 0] == le_byte(u, 0));
                assert(le_quad(b, 4 * i) == u);
            },
            AudioEncoding::PcmS16Le => {
                let u = unsigned(clamped(words[i] as int), 0x8000);
                assert(b[2 * i] == u % 0x100);
                assert(b[2 * i + 1] == u / 0x100 % 0x100);
                assert(le_pair(b, 2 * i) == u);
            },
        }
    }
}

/// Encoding gives back the bytes that were decoded, but for an incomplete last
/// sample.
pub proof fn law_decoding_round_trips(encoding: AudioEncoding, bytes: Seq<u8>)
    ensures
        encoding.bytes(encoding.words(bytes)) == bytes.take(
            bytes.len() - bytes.len() % (encoding.width() as nat),
        ),
{
    let w = encoding.words(bytes);
    let whole = bytes.take(bytes.len() - bytes.len() % (encoding.width() as nat));
    assert forall|j: int| 0 <= j < whole.len() implies #[trigger] encoding.bytes(w)[j]
        == whole[j] by {
        match encoding {
            AudioEncoding::PcmF32Le => {
                let i = j / 4;
                let u = le_quad(bytes, 4 * i);
                assert(unsigned(w[i] as int, 0x8000_0000) == u);
                assert(u % 0x100 == bytes[4 * i]);
                assert(u / 0x100 % 0x100 == bytes[4 * i + 1]);
                assert(u / 0x1_0000 % 0x100 == bytes[4 * i + 2]);
                assert(u / 0x100_0000 % 0x100 == bytes[4 * i + 3]);
            },
            AudioEncoding::PcmS16Le => {
                let i = j / 2;
                let u = le_pair(bytes, 2 * i);
                assert(unsigned(clamped(w[i] as int), 0x8000) == u);
                assert(u % 0x100 == bytes[2 * i]);
                assert(u / 0x100 % 0x100 == bytes[2 * i + 1]);
            },
        }
    }
    assert(encoding.bytes(w) =~= whole);
}

/// Who is using, or wants to use, the transcription engine.
#[derive(Debug, Clone, Copy, PartialEq, Eq, Structural)]
pub enum LeaseOwner {
    /// A dictation's final transcription. A person is waiting for it.
    Batch,
    /// Live preview while a dictation is being recorded.
    Stream,
    /// A job sent over the control socket.
    Cli,
}

impl LeaseOwner {
    /// Whether a person is waiting on this owner's result.
    pub open spec fn interactive(self) -> bool {
        self is Batch
    }

    /// How this owner is named in messages.
    pub open spec fn text(self) -> Seq<char> {
        match self {
            LeaseOwner::Batch => "dictation"@,
            LeaseOwner::Stream => "live preview"@,
            LeaseOwner::Cli => "CLI job"@,
        }
    }

    /// Whether a person is waiting on this owner's result.
    pub fn is_interactive_waiter(self) -> (r: bool)
        ensures
            r == self.interactive(),
    {
        match self {
            LeaseOwner::Batch => true,
            LeaseOwner::Stream => false,
            LeaseOwner::Cli => false,
        }
    }

    /// How this owner is named in messages.
    pub fn label(self) -> (r: &'static str)
        ensures
            r@ == self.text(),
    {
        match self {
            LeaseOwner::Batch => "dictation",
            LeaseOwner::Stream => "live preview",
            LeaseOwner::Cli => "CLI job",
        }
    }
}

// ---------------------------------------------------------------------------
// Codec
// ---------------------------------------------------------------------------

/// The byte that ends a control line.
pub const NEWLINE: u8 = 10;

/// Why a read from the stream gave nothing.
#[derive(Debug, Clone, Copy, PartialEq, Eq, Structural)]
pub enum ReadError {
    /// More bytes have to arrive first; nothing was consumed.
    Incomplete,
    /// The control line does not end within [`MAX_FRAME_BYTES`], or the peer
    /// went away in the middle of it.
    FrameTooLong,
    /// The declared attachment is over [`MAX_ATTACHMENT_BYTES`].
    AttachmentTooLong { len: u64 },
    /// The peer went away in the middle of an attachment.
    UnexpectedEof,
}

impl ReadError {
    /// Whether the peer sent something that cannot be read at all.
    pub open spec fn is_invalid_data(self) -> bool {
        self is FrameTooLong || self is AttachmentTooLong
    }

    /// What the error says.
    pub open spec fn text(self) -> Seq<char> {
        match self {
            ReadError::Incomplete => "more bytes are needed"@,
            ReadError::FrameTooLong => "control frame exceeded "@ + text::decimal_text(
                MAX_FRAME_BYTES as nat,
            ) + " bytes"@,
            ReadError::AttachmentTooLong { len } => "attachment of "@ + text::decimal_text(len as nat)
                + " bytes exceeds the "@ + text::decimal_text(MAX_ATTACHMENT_BYTES as nat)
                + " byte limit"@,
            ReadError::UnexpectedEof => "failed to fill whole buffer"@,
        }
    }

    /// Whether the peer sent something that cannot be read at all.
    pub fn invalid_data(self) -> (r: bool)
        ensures
            r == self.is_invalid_data(),
    {
        match self {
            ReadError::FrameTooLong => true,
            ReadError::AttachmentTooLong { .. } => true,
            _ => false,
        }
    }

    /// What the error says.
    pub fn message(self) -> (r: String)
        ensures
            r@ == self.text(),
    {
        match self {
            ReadError::Incomplete => "more bytes are needed".to_owned(),
            ReadError::FrameTooLong => "control frame exceeded ".to_owned().concat(
                text::decimal(MAX_FRAME_BYTES).as_str(),
            ).concat(" bytes"),
            ReadError::AttachmentTooLong { len } => "attachment of ".to_owned().concat(
                text::decimal(len).as_str(),
            ).concat(" bytes exceeds the ").concat(text::decimal(MAX_ATTACHMENT_BYTES).as_str()).concat(
                " byte limit",
            ),
            ReadError::UnexpectedEof => "failed to fill whole buffer".to_owned(),
        }
    }
}

/// How many bytes of `s` come before its first newline; all of them where it
/// has none.
pub open spec fn line_length(s: Seq<u8>) -> int
    decreases s.len(),
{
    if s.len() == 0 || s[0] == NEWLINE {
        0
    } else {
        1 + line_length(s.drop_first())
    }
}

/// The part of the pending bytes in which a control line has to end.
pub open spec fn line_window(pending: Seq<u8>) -> Seq<u8> {
    if pending.len() > MAX_FRAME_BYTES {
        pending.take(MAX_FRAME_BYTES as int)
    } else {
        pending
    }
}

/// What reading a control line gives: the line without its newline, or `None`
/// where the peer closed cleanly.
pub open spec fn frame_read(pending: Seq<u8>, ended: bool) -> Result<Option<Seq<u8>>, ReadError> {
    let window = line_window(pending);
    let n = line_length(window);
    if n < window.len() {
        Ok(Some(window.take(n)))
    } else if window.len() == MAX_FRAME_BYTES {
        Err(ReadError::FrameTooLong)
    } else if !ended {
        Err(ReadError::Incomplete)
    } else if window.len() == 0 {
        Ok(None)
    } else {
        Err(ReadError::FrameTooLong)
    }
}

/// How many bytes reading a control line consumes.
pub open spec fn frame_consumed(pending: Seq<u8>, ended: bool) -> int {
    let window = line_window(pending);
    match frame_read(pending, ended) {
        Ok(Some(line)) => line.len() as int + 1,
        Ok(None) => 0,
        Err(ReadError::FrameTooLong) => window.len() as int,
        Err(_) => 0,
    }
}

/// What reading an attachment of `len` bytes gives.
pub open spec fn attachment_read(pending: Seq<u8>, ended: bool, len: u64) -> Result<
    Seq<u8>,
    ReadError,
> {
    if len > MAX_ATTACHMENT_BYTES {
        Err(ReadError::AttachmentTooLong { len })
    } else if len <= pending.len() {
        Ok(pending.take(len as int))
    } else if ended {
        Err(ReadError::UnexpectedEof)
    } else {
        Err(ReadError::Incomplete)
    }
}

/// Bytes of one connection that have arrived and were not read yet.
#[derive(Debug)]
pub struct StreamBuffer {
    buf: Vec<u8>,
    pos: usize,
    eof: bool,
}

impl StreamBuffer {
    /// The read position lies within the buffer.
    pub closed spec fn wf(&self) -> bool {
        self.pos <= self.buf.len()
    }

    /// The bytes that are still to be read.
    pub closed spec fn pending(&self) -> Seq<u8> {
        self.buf@.skip(self.pos as int)
    }

    /// Whether the peer has closed its side.
    pub closed spec fn ended(&self) -> bool {
        self.eof
    }

    /// A stream on which nothing has arrived.
    pub fn new() -> (r: Self)
        ensures
            r.wf(),
            r.pending() == Seq::<u8>::empty(),
            !r.ended(),
    {
        StreamBuffer { buf: Vec::new(), pos: 0, eof: false }
    }

    /// Take in bytes that arrived.
    pub fn feed(&mut self, bytes: &[u8])
        requires
            old(self).wf(),
        ensures
            final(self).wf(),
            final(self).pending() == old(self).pending() + bytes@,
            final(self).ended() == old(self).ended(),
    {
        if self.pos > 0 {
            self.buf = self.buf.split_off(self.pos);
            self.pos = 0;
        }
        assert(self.buf@ =~= old(self).pending());
        append(&mut self.buf, bytes);
        assert(self.pending() =~= old(self).pending() + bytes@);
    }

    /// Take in that the peer closed its side.
    pub fn finish(&mut self)
        requires
            old(self).wf(),
        ensures
            final(self).wf(),
            final(self).pending() == old(self).pending(),
            final(self).ended(),
    {
        self.eof = true;
    }

    /// Number of bytes that are still to be read.
    pub fn available(&self) -> (r: usize)
        requires
            self.wf(),
        ensures
            r == self.pending().len(),
    {
        self.buf.len() - self.pos
    }

    /// Remove the next `n` bytes and return them.
    fn take_front(&mut self, n: usize) -> (r: Vec<u8>)
        requires
            old(self).wf(),
            n <= old(self).pending().len(),
        ensures
            final(self).wf(),
            final(self).ended() == old(self).ended(),
            r@ == old(self).pending().take(n as int),
            final(self).pending() == old(self).pending().skip(n as int),
    {
        let start: usize = self.pos;
        let mut out: Vec<u8> = Vec::new();
        let mut i: usize = 0;
        while i < n
            invariant
                i <= n,
                start + n <= self.buf.len(),
                *self == *old(self),
                start == self.pos,
                self.wf(),
                out@ =~= self.pending().take(i as int),
            decreases n - i,
        {
            out.push(self.buf[start + i]);
            i = i + 1;
        }
        self.pos = start + n;
        assert(self.pending() =~= old(self).pending().skip(n as int));
        out
    }
}

proof fn lemma_line_length(s: Seq<u8>, n: int)
    requires
        0 <= n <= s.len(),
        forall|i: int| 0 <= i < n ==> s[i] != NEWLINE,
        n < s.len() ==> s[n] == NEWLINE,
    ensures
        line_length(s) == n,
    decreases n,
{
    if n > 0 {
        lemma_line_length(s.drop_first(), n - 1);
    }
}

proof fn lemma_line_length_is_first(s: Seq<u8>)
    ensures
        0 <= line_length(s) <= s.len(),
        line_length(s) < s.len() ==> s[line_length(s)] == NEWLINE,
        forall|i: int| 0 <= i < line_length(s) ==> s[i] != NEWLINE,
    decreases s.len(),
{
    if s.len() > 0 && s[0] != NEWLINE {
        lemma_line_length_is_first(s.drop_first());
        assert forall|i: int| 0 <= i < line_length(s) implies s[i] != NEWLINE by {
            if i > 0 {
                assert(s[i] == s.drop_first()[i - 1]);
            }
        }
    }
}

/// A read consumes no more than what is pending.
pub proof fn lemma_frame_consumed(pending: Seq<u8>, ended: bool)
    ensures
        0 <= frame_consumed(pending, ended) <= pending.len(),
{
    lemma_line_length_is_first(line_window(pending));
}

/// Append `line` to `out` as one control line.
pub fn write_frame(out: &mut Vec<u8>, line: &[u8])
    requires
        !line@.contains(NEWLINE),
    ensures
        final(out)@ == old(out)@ + line@ + seq![NEWLINE],
{
    append(out, line);
    out.push(NEWLINE);
}

/// Append `line` to `out` as one control line, and `attachment` immediately
/// after its newline. The line must itself declare `attachment.len()` so the
/// peer knows to read it.
pub fn write_frame_with_attachment(out: &mut Vec<u8>, line: &[u8], attachment: &[u8])
    requires
        !line@.contains(NEWLINE),
    ensures
        final(out)@ == old(out)@ + line@ + seq![NEWLINE] + attachment@,
{
    append(out, line);
    out.push(NEWLINE);
    append(out, attachment);
}

fn append(out: &mut Vec<u8>, bytes: &[u8])
    ensures
        final(out)@ == old(out)@ + bytes@,
{
    let mut i: usize = 0;
    while i < bytes.len()
        invariant
            i <= bytes.len(),
            out@ =~= old(out)@ + bytes@.take(i as int),
        decreases bytes.len() - i,
    {
        out.push(bytes[i]);
        i = i + 1;
    }
}

/// Read one control line, without its newline. `Ok(None)` means the peer closed
/// cleanly. The line is bounded, so a peer that never sends a newline cannot
/// exhaust memory.
pub fn read_frame(r: &mut StreamBuffer) -> (res: Result<Option<Vec<u8>>, ReadError>)
    requires
        old(r).wf(),
    ensures
        final(r).wf(),
        final(r).ended() == old(r).ended(),
        final(r).pending() == old(r).pending().skip(
            frame_consumed(old(r).pending(), old(r).ended()),
        ),
        match res {
            Ok(Some(line)) => frame_read(old(r).pending(), old(r).ended()) == Ok::<
                Option<Seq<u8>>,
                ReadError,
            >(Some(line@)),
            Ok(None) => frame_read(old(r).pending(), old(r).ended()) == Ok::<
                Option<Seq<u8>>,
                ReadError,
            >(None),
            Err(e) => frame_read(old(r).pending(), old(r).ended()) == Err::<
                Option<Seq<u8>>,
                ReadError,
            >(e),
        },
{
    let all: usize = r.available();
    let limit: usize = if all as u64 > MAX_FRAME_BYTES {
        MAX_FRAME_BYTES as usize
    } else {
        all
    };
    let ghost window = line_window(r.pending());
    let mut n: usize = 0;
    while n < limit && r.buf[r.pos + n] != NEWLINE
        invariant
            n <= limit,
            limit == window.len(),
            limit <= r.pending().len(),
            window == line_window(r.pending()),
            r.wf(),
            *r == *old(r),
            forall|i: int| 0 <= i < n ==> window[i] != NEWLINE,
        decreases limit - n,
    {
        n = n + 1;
    }
    proof {
        lemma_line_length(window, n as int);
        assert(r.pending().skip(0) =~= r.pending());
    }
    if n < limit {
        let line: Vec<u8> = r.take_front(n);
        assert(r.pending().len() > 0);
        let ghost tail = r.pending();
        r.pos = r.pos + 1;
        assert(r.pending() =~= tail.skip(1));
        assert(line@ =~= window.take(n as int));
        assert(r.pending() =~= old(r).pending().skip(n + 1));
        Ok(Some(line))
    } else if limit as u64 == MAX_FRAME_BYTES {
        r.pos = r.pos + limit;
        assert(r.pending() =~= old(r).pending().skip(limit as int));
        Err(ReadError::FrameTooLong)
    } else if !r.eof {
        Err(ReadError::Incomplete)
    } else if limit == 0 {
        Ok(None)
    } else {
        r.pos = r.pos + limit;
        assert(r.pending() =~= old(r).pending().skip(limit as int));
        Err(ReadError::FrameTooLong)
    }
}

/// Read exactly `len` attachment bytes following a frame.
pub fn read_attachment(r: &mut StreamBuffer, len: u64) -> (res: Result<Vec<u8>, ReadError>)
    requires
        old(r).wf(),
    ensures
        final(r).wf(),
        final(r).ended() == old(r).ended(),
        match res {
            Ok(bytes) => attachment_read(old(r).pending(), old(r).ended(), len) == Ok::<
                Seq<u8>,
                ReadError,
            >(bytes@) && final(r).pending() == old(r).pending().skip(len as int),
            Err(e) => attachment_read(old(r).pending(), old(r).ended(), len) == Err::<
                Seq<u8>,
                ReadError,
            >(e) && final(r).pending() == old(r).pending(),
        },
{
    if len > MAX_ATTACHMENT_BYTES {
        return Err(ReadError::AttachmentTooLong { len });
    }
    if r.available() as u64 >= len {
        Ok(r.take_front(len as usize))
    } else if r.eof {
        Err(ReadError::UnexpectedEof)
    } else {
        Err(ReadError::Incomplete)
    }
}

/// A line that was written is the line that is read, whatever follows it, and
/// nothing that follows it is consumed.
pub proof fn law_frame_round_trips(line: Seq<u8>, rest: Seq<u8>, ended: bool)
    requires
        !line.contains(NEWLINE),
        line.len() < MAX_FRAME_BYTES,
    ensures
        frame_read(line + seq![NEWLINE] + rest, ended) == Ok::<Option<Seq<u8>>, ReadError>(
            Some(line),
        ),
        (line + seq![NEWLINE] + rest).skip(
            frame_consumed(line + seq![NEWLINE] + rest, ended),
        ) == rest,
{
    let all = line + seq![NEWLINE] + rest;
    let window = line_window(all);
    assert forall|i: int| 0 <= i < line.len() implies window[i] != NEWLINE by {
        assert(line.contains(line[i]));
    }
    lemma_line_length(window, line.len() as int);
    assert(window.take(line.len() as int) =~= line);
    assert(all.skip(line.len() as int + 1) =~= rest);
}

/// An attachment rides the same stream as the next frame: after the line that
/// declares it, exactly its bytes are read, and the stream stands at what comes
/// next.
pub proof fn law_attachment_round_trips(
    line: Seq<u8>,
    attachment: Seq<u8>,
    rest: Seq<u8>,
    ended: bool,
    len: u64,
)
    requires
        !line.contains(NEWLINE),
        line.len() < MAX_FRAME_BYTES,
        attachment.len() == len,
        len <= MAX_ATTACHMENT_BYTES,
    ensures
        ({
            let all = line + seq![NEWLINE] + attachment + rest;
            let after = all.skip(frame_consumed(all, ended));
            &&& frame_read(all, ended) == Ok::<Option<Seq<u8>>, ReadError>(Some(line))
            &&& attachment_read(after, ended, len) == Ok::<Seq<u8>, ReadError>(attachment)
            &&& after.skip(len as int) == rest
        }),
{
    let all = line + seq![NEWLINE] + attachment + rest;
    law_frame_round_trips(line, attachment + rest, ended);
    assert(all =~= line + seq![NEWLINE] + (attachment + rest));
    let after = attachment + rest;
    assert(after.take(len as int) =~= attachment);
    assert(after.skip(len as int) =~= rest);
}

/// Lines as they stand on the wire.
pub open spec fn wire(lines: Seq<Seq<u8>>) -> Seq<u8>
    decreases lines.len(),
{
    if lines.len() == 0 {
        Seq::empty()
    } else {
        lines[0] + seq![NEWLINE] + wire(lines.drop_first())
    }
}

/// What is pending after `n` reads.
pub open spec fn after_reads(pending: Seq<u8>, ended: bool, n: nat) -> Seq<u8>
    decreases n,
{
    if n == 0 {
        pending
    } else {
        after_reads(pending.skip(frame_consumed(pending, ended)), ended, (n - 1) as nat)
    }
}

/// Lines are read one by one and in order: after `k` reads exactly `k` of them are
/// gone, the next read gives the next one, and behind the last one the stream ends.
pub proof fn law_lines_are_read_in_order(lines: Seq<Seq<u8>>, ended: bool, k: nat)
    requires
        k <= lines.len(),
        forall|i: int|
            0 <= i < lines.len() ==> !(#[trigger] lines[i]).contains(NEWLINE) && lines[i].len()
                < MAX_FRAME_BYTES,
    ensures
        after_reads(wire(lines), ended, k) == wire(lines.skip(k as int)),
        k < lines.len() ==> frame_read(after_reads(wire(lines), ended, k), ended) == Ok::<
            Option<Seq<u8>>,
            ReadError,
        >(Some(lines[k as int])),
        k == lines.len() && ended ==> frame_read(after_reads(wire(lines), ended, k), ended) == Ok::<
            Option<Seq<u8>>,
            ReadError,
        >(None),
    decreases k,
{
    if k == 0 {
        assert(lines.skip(0) =~= lines);
        if lines.len() > 0 {
            law_frame_round_trips(lines[0], wire(lines.drop_first()), ended);
        } else {
            lemma_line_length_is_first(line_window(wire(lines)));
        }
    } else {
        let rest = lines.drop_first();
        assert forall|i: int| 0 <= i < rest.len() implies !(#[trigger] rest[i]).contains(NEWLINE)
            && rest[i].len() < MAX_FRAME_BYTES by {
            assert(rest[i] == lines[i + 1]);
        }
        law_frame_round_trips(lines[0], wire(rest), ended);
        law_lines_are_read_in_order(rest, ended, (k - 1) as nat);
        assert(rest.skip(k - 1) =~= lines.skip(k as int));
    }
}

/// What a read gives does not depend on how the bytes arrived: once a line can
/// be read, bytes that arrive later do not change what it reads or consumes.
pub proof fn law_reads_do_not_depend_on_arrival(pending: Seq<u8>, more: Seq<u8>, ended: bool)
    requires
        frame_read(pending, false) != Err::<Option<Seq<u8>>, ReadError>(ReadError::Incomplete),
    ensures
        frame_read(pending + more, ended) == frame_read(pending, false),
        frame_consumed(pending + more, ended) == frame_consumed(pending, false),
{
    let window = line_window(pending);
    let wider = line_window(pending + more);
    lemma_line_length_is_first(window);
    let n = line_length(window);
    if n < window.len() {
        assert forall|i: int| 0 <= i <= n implies wider[i] == window[i] by {
        }
        lemma_line_length(wider, n);
        assert(wider.take(n) =~= window.take(n));
    } else {
        assert(wider =~= window);
    }
}

/// A peer cannot make the reader hold more than one line limit of bytes: once
/// that many are pending, a read never asks for more.
pub proof fn law_a_flood_is_not_buffered(pending: Seq<u8>, ended: bool)
    requires
        pending.len() >= MAX_FRAME_BYTES,
    ensures
        frame_read(pending, ended) != Err::<Option<Seq<u8>>, ReadError>(ReadError::Incomplete),
        0 < frame_consumed(pending, ended) <= MAX_FRAME_BYTES,
{
    lemma_line_length_is_first(line_window(pending));
}

/// A control line is the bytes up to the first newline and none of those behind it;
/// it is shorter than one mebibyte, and the newline is consumed with it.
pub proof fn law_a_line_ends_at_its_newline(pending: Seq<u8>, ended: bool)
    ensures
        match frame_read(pending, ended) {
            Ok(Some(line)) => {
                &&& line.len() < 1048576
                &&& line.len() < pending.len()
                &&& line == pending.take(line.len() as int)
                &&& !line.contains(10)
                &&& pending[line.len() as int] == 10
                &&& frame_consumed(pending, ended) == line.len() + 1
            },
            Ok(None) => ended && pending.len() == 0 && frame_consumed(pending, ended) == 0,
            Err(ReadError::Incomplete) => !ended && !pending.contains(10) && pending.len() < 1048576
                && frame_consumed(pending, ended) == 0,
            Err(ReadError::FrameTooLong) => pending.len() > 0 && (ended || pending.len()
                >= 1048576),
            Err(_) => false,
        },
        pending.len() > 0 && pending.len() < 1048576 && !pending.contains(10) && ended
            ==> frame_read(pending, ended) == Err::<Option<Seq<u8>>, ReadError>(
            ReadError::FrameTooLong,
        ),
{
    let window = line_window(pending);
    lemma_line_length_is_first(window);
    let n = line_length(window);
    if n < window.len() {
        let line = window.take(n);
        assert(line =~= pending.take(n));
        assert(!line.contains(10)) by {
            if line.contains(10) {
                let i = choose|i: int| 0 <= i < line.len() && line[i] == 10;
                assert(window[i] == 10);
            }
        }
    } else {
        assert(!window.contains(10)) by {
            if window.contains(10) {
                let i = choose|i: int| 0 <= i < window.len() && window[i] == 10;
                assert(window[i] == NEWLINE);
            }
        }
    }
    if !pending.contains(10) && n < window.len() {
        assert(pending[n] == 10);
        assert(pending.contains(pending[n]));
    }
}

/// An attachment is exactly the next bytes, as many as were declared, and at most
/// 512 MiB; where fewer are there, they are waited for unless no more can come.
pub proof fn law_an_attachment_is_the_next_bytes(pending: Seq<u8>, ended: bool, len: u64)
    ensures
        match attachment_read(pending, ended, len) {
            Ok(bytes) => len <= 536870912 && bytes.len() == len && bytes.is_prefix_of(pending),
            Err(ReadError::AttachmentTooLong { len: told }) => len > 536870912 && told == len,
            Err(ReadError::UnexpectedEof) => ended && pending.len() < len && len <= 536870912,
            Err(ReadError::Incomplete) => !ended && pending.len() < len && len <= 536870912,
            Err(_) => false,
        },
        len <= 536870912 && len <= pending.len() ==> attachment_read(pending, ended, len) is Ok,
{
}

/// Only a result and an error end a request.
pub proof fn law_what_ends_a_request(frame: ServerFrame)
    ensures
        frame.terminal() <==> frame is Result || frame is Error,
        frame is Hello || frame is Accepted || frame is Progress || frame is Partial
            || frame is Unknown ==> !frame.terminal(),
{
}

/// Every frame says what it carries, and nothing else.
pub proof fn law_a_frame_says_what_it_carries(frame: ServerFrame)
    ensures
        match (frame, frame@) {
            (
                ServerFrame::Hello { protocol, min_protocol, app_version, pid },
                FrameView::Hello { protocol: a, min_protocol: b, app_version: c, pid: d },
            ) => a == protocol && b == min_protocol && c == app_version@ && d == pid,
            (ServerFrame::Accepted { job_id }, FrameView::Accepted { job_id: a }) => a == job_id@,
            (
                ServerFrame::Progress { job_id, stage, message, elapsed_ms, fraction },
                FrameView::Progress {
                    job_id: a,
                    stage: b,
                    message: c,
                    elapsed_ms: d,
                    fraction: e,
                },
            ) => {
                &&& a == job_id@ && b == stage && d == elapsed_ms && e == fraction
                &&& (c is Some) == (message is Some) && (c is Some ==> c->0 == (message->0)@)
            },
            (
                ServerFrame::Partial { job_id, committed, tentative },
                FrameView::Partial { job_id: a, committed: b, tentative: c },
            ) => a == job_id@ && b == committed@ && c == tentative@,
            (
                ServerFrame::Result { job_id, body },
                FrameView::Result { job_id: a, body: b },
            ) => a == job_id@ && match (body, b) {
                (
                    ResultBody::Pong { app_version },
                    BodyView::Pong { app_version: v },
                ) => v == app_version@,
                (ResultBody::Status(s), BodyView::Status(v)) => v == s@,
                (ResultBody::Transcript(t), BodyView::Transcript(v)) => v == t@,
                _ => false,
            },
            (
                ServerFrame::Error { job_id, code, message },
                FrameView::Error { job_id: a, code: b, message: c },
            ) => {
                &&& b == code && c == message@
                &&& (a is Some) == (job_id is Some) && (a is Some ==> a->0 == (job_id->0)@)
            },
            (ServerFrame::Unknown, FrameView::Unknown) => true,
            _ => false,
        },
{
}

/// A transcript and a status say what their fields hold.
pub proof fn law_a_body_says_what_it_holds(t: TranscriptBody, s: StatusBody)
    ensures
        t@.text == t.text@ && t@.raw_text == t.raw_text@ && t@.model == t.model@,
        t@.pipeline_ran == t.pipeline_ran && t@.post_processed == t.post_processed,
        t@.post_process_applied == t.post_process_applied,
        match t.backend {
            Some(name) => t@.backend == Some(name@),
            None => t@.backend is None,
        },
        t@.audio_samples == t.audio_samples && t@.queue_ms == t.queue_ms,
        t@.load_ms == t.load_ms && t@.transcribe_ms == t.transcribe_ms,
        t@.cold_load == t.cold_load && t@.streamed == t.streamed,
        t@.history_id == t.history_id && t@.pasted == t.pasted,
        s@.app_version == s.app_version@ && s@.selected_model == s.selected_model@,
        s@.protocol == s.protocol && s@.pid == s.pid && s@.uptime_secs == s.uptime_secs,
        match s.loaded_model {
            Some(id) => s@.loaded_model == Some(id@),
            None => s@.loaded_model is None,
        },
        match s.backend {
            Some(name) => s@.backend == Some(name@),
            None => s@.backend is None,
        },
        s@.model_loaded == s.model_loaded && s@.engine_busy == s.engine_busy,
        s@.recording <==> s.recording,
        s@.streaming <==> s.streaming,
        s@.post_process_enabled <==> s.post_process_enabled,
{
}

/// A person waits for a dictation only, and every owner has its own name.
pub proof fn law_owners(owner: LeaseOwner)
    ensures
        owner.interactive() <==> owner == LeaseOwner::Batch,
        owner.text() == "dictation"@ || owner != LeaseOwner::Batch,
        owner.text() == "live preview"@ || owner != LeaseOwner::Stream,
        owner.text() == "CLI job"@ || owner != LeaseOwner::Cli,
{
}

/// Every stage has a label of its own.
pub proof fn law_stages_are_told_apart(a: Stage, b: Stage)
    ensures
        a.text() == b.text() ==> a == b,
{
    reveal_strlit("queued");
    reveal_strlit("waiting for engine");
    reveal_strlit("loading model");
    reveal_strlit("transcribing");
    reveal_strlit("post-processing");
    reveal_strlit("saving to history");
    reveal_strlit("pasting");
    assert(a.text().len() == b.text().len() ==> a == b);
}

/// A word survives its encoding: a float always, bit for bit, and an amplitude
/// wherever it fits 16 bits; one that does not becomes the nearest that does.
pub proof fn law_what_survives_encoding(w: i32)
    ensures
        AudioEncoding::PcmF32Le.stored(w as int) == w,
        -32768 <= w <= 32767 ==> AudioEncoding::PcmS16Le.stored(w as int) == w,
        w < -32768 ==> AudioEncoding::PcmS16Le.stored(w as int) == -32768,
        w > 32767 ==> AudioEncoding::PcmS16Le.stored(w as int) == 32767,
        AudioEncoding::PcmF32Le.width() == 4,
        AudioEncoding::PcmS16Le.width() == 2,
{
}

/// Samples lie on the wire lowest byte first, in two's complement, and every whole
/// sample is read.
pub proof fn law_samples_are_little_endian(bytes: Seq<u8>, i: int)
    ensures
        AudioEncoding::PcmF32Le.words(bytes).len() == bytes.len() / 4,
        AudioEncoding::PcmS16Le.words(bytes).len() == bytes.len() / 2,
        0 <= i < bytes.len() / 4 ==> AudioEncoding::PcmF32Le.words(bytes)[i] == bytes[4 * i]
            + 256 * bytes[4 * i + 1] + 65536 * bytes[4 * i + 2] + 16777216 * bytes[4 * i + 3] - (
        if bytes[4 * i + 3] >= 128 {
            4294967296int
        } else {
            0int
        }),
        0 <= i < bytes.len() / 2 ==> AudioEncoding::PcmS16Le.words(bytes)[i] == bytes[2 * i]
            + 256 * bytes[2 * i + 1] - (if bytes[2 * i + 1] >= 128 {
            65536int
        } else {
            0int
        }),
{
}

/// What a read error says, and which of them mean that the peer sent something that
/// cannot be read.
pub proof fn law_what_a_read_error_says(e: ReadError)
    ensures
        e.is_invalid_data() <==> e is FrameTooLong || e is AttachmentTooLong,
        e is FrameTooLong ==> e.text() == "control frame exceeded "@ + text::decimal_text(1048576)
            + " bytes"@,
        e matches ReadError::AttachmentTooLong { len } ==> e.text() == "attachment of "@
            + text::decimal_text(len as nat) + " bytes exceeds the "@ + text::decimal_text(
            536870912,
        ) + " byte limit"@,
{
}

/// What people are shown of a stage and of an error code.
pub proof fn law_labels_of_stages_and_codes(stage: Stage, code: ErrorCode)
    ensures
        stage == Stage::Queued ==> stage.text() == "queued"@,
        stage == Stage::WaitingForEngine ==> stage.text() == "waiting for engine"@,
        stage == Stage::LoadingModel ==> stage.text() == "loading model"@,
        stage == Stage::Transcribing ==> stage.text() == "transcribing"@,
        stage == Stage::PostProcessing ==> stage.text() == "post-processing"@,
        stage == Stage::SavingHistory ==> stage.text() == "saving to history"@,
        stage == Stage::Pasting ==> stage.text() == "pasting"@,
        code == ErrorCode::ProtocolMismatch ==> code.text() == "ProtocolMismatch"@,
        code == ErrorCode::UnsupportedRequest ==> code.text() == "UnsupportedRequest"@,
        code == ErrorCode::BadRequest ==> code.text() == "BadRequest"@,
        code == ErrorCode::PayloadTooLarge ==> code.text() == "PayloadTooLarge"@,
        code == ErrorCode::Busy ==> code.text() == "Busy"@,
        code == ErrorCode::Cancelled ==> code.text() == "Cancelled"@,
        code == ErrorCode::NoModelSelected ==> code.text() == "NoModelSelected"@,
        code == ErrorCode::ModelNotAvailable ==> code.text() == "ModelNotAvailable"@,
        code == ErrorCode::ModelLoadFailed ==> code.text() == "ModelLoadFailed"@,
        code == ErrorCode::TranscriptionFailed ==> code.text() == "TranscriptionFailed"@,
        code == ErrorCode::IoError ==> code.text() == "IoError"@,
        code == ErrorCode::Internal ==> code.text() == "Internal"@,
        code == ErrorCode::TooManyClients ==> code.text() == "TooManyClients"@,
        code == ErrorCode::Forbidden ==> code.text() == "Forbidden"@,
{
}

} // verus!
