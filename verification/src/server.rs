//! The control socket server.
//!
//! One accept loop, and per connection a reader and a dispatcher. Cheap requests
//! (`Ping`, `Status`) are answered by the dispatcher itself, so they stay
//! responsive while a long transcription runs.
//!
//! There is deliberately no job queue in front of the engine. The engine lease
//! is already the thing that serializes access, and layering a queue on top
//! would put the "who goes next" decision in two places.
//!
//! The reader runs separately from the dispatcher so cancellation is prompt: a
//! `Cancel` frame, or the client simply dying, is noticed while the job is
//! still running rather than after it.
//!
//! Everything here decides; sockets, threads and clocks stay outside. Each of
//! the three loops is a state machine that takes what happened and says what to
//! do.

use crate::endpoint;
use crate::endpoint::Descriptor;
use crate::endpoint::EndpointEnv;
use crate::protocol;
use crate::protocol::AudioEncoding;
use crate::protocol::AudioSource;
use crate::protocol::BodyView;
use crate::protocol::ClientFrame;
use crate::protocol::ErrorCode;
use crate::protocol::FrameView;
use crate::protocol::ReadError;
use crate::protocol::ResultBody;
use crate::protocol::ServerFrame;
use crate::protocol::Stage;
use crate::protocol::StreamBuffer;
use crate::protocol::TranscribeRequest;
use crate::text;
use crate::WHISPER_SAMPLE_RATE;
use vstd::prelude::*;

verus! {

/// Simultaneous connections. Well above any real use; a backstop against a
/// runaway script opening sockets in a loop.
pub const MAX_CLIENTS: u64 = 8;

/// How often a running job emits a liveness heartbeat, in milliseconds. Long
/// transcriptions would otherwise look hung, and the client uses these to drive
/// an *idle* timeout rather than a total one.
pub const HEARTBEAT_INTERVAL_MS: u64 = 5000;

/// Pause after a failed accept, in milliseconds. A persistent accept error would
/// otherwise spin hot.
pub const ACCEPT_RETRY_MS: u64 = 250;

/// A handler failure, carrying the code the client should see.
#[derive(Debug)]
pub struct HandlerError {
    pub code: ErrorCode,
    pub message: String,
}

impl HandlerError {
    /// What the client is told.
    pub open spec fn shown(self) -> (ErrorCode, Seq<char>) {
        (self.code, self.message@)
    }

    /// A failure with the given code and message.
    pub fn new(code: ErrorCode, message: String) -> (r: Self)
        ensures
            r.shown() == (code, message@),
    {
        HandlerError { code, message }
    }
}

/// What a handler answers.
pub type HandlerResult = Result<ResultBody, HandlerError>;

// ---------------------------------------------------------------------------
// Jobs
// ---------------------------------------------------------------------------

/// The message of a job that stopped because its client gave it up.
pub open spec fn cancelled_text() -> Seq<char> {
    "job cancelled by the client"@
}

/// A progress frame for a job.
pub open spec fn progress_view(
    job_id: Seq<char>,
    stage: Stage,
    message: Option<Seq<char>>,
    elapsed_ms: u64,
    fraction: Option<u64>,
) -> FrameView {
    FrameView::Progress { job_id, stage, message, elapsed_ms, fraction }
}

/// Everything a running job needs to report progress and notice cancellation.
#[derive(Debug)]
pub struct JobContext {
    pub job_id: String,
    /// Set once the client has given the job up.
    pub cancel: bool,
    pub want_progress: bool,
}

impl JobContext {
    /// A job that nobody has given up yet.
    pub fn new(job_id: String, want_progress: bool) -> (r: Self)
        ensures
            r == (JobContext { job_id, cancel: false, want_progress }),
    {
        JobContext { job_id, cancel: false, want_progress }
    }

    /// Whether the client has given the job up.
    pub fn is_cancelled(&self) -> (r: bool)
        ensures
            r == self.cancel,
    {
        self.cancel
    }

    /// Bail out of a handler if the client has gone away.
    pub fn check_cancelled(&self) -> (r: Result<(), HandlerError>)
        ensures
            r is Ok <==> !self.cancel,
            r matches Err(e) ==> e.shown() == (ErrorCode::Cancelled, cancelled_text()),
    {
        if self.cancel {
            Err(HandlerError::new(ErrorCode::Cancelled, "job cancelled by the client".to_owned()))
        } else {
            Ok(())
        }
    }

    /// Report progress; nothing where the client did not ask for it.
    pub fn progress(&self, stage: Stage, message: Option<String>, elapsed_ms: u64) -> (r: Option<
        ServerFrame,
    >)
        ensures
            r is Some <==> self.want_progress,
            r matches Some(f) ==> f@ == progress_view(
                self.job_id@,
                stage,
                text::opt_text(message),
                elapsed_ms,
                None,
            ),
    {
        self.progress_with_fraction(stage, message, elapsed_ms, None)
    }

    /// Report progress with a measured completion fraction, where one exists.
    pub fn progress_with_fraction(
        &self,
        stage: Stage,
        message: Option<String>,
        elapsed_ms: u64,
        fraction: Option<u64>,
    ) -> (r: Option<ServerFrame>)
        ensures
            r is Some <==> self.want_progress,
            r matches Some(f) ==> f@ == progress_view(
                self.job_id@,
                stage,
                text::opt_text(message),
                elapsed_ms,
                fraction,
            ),
    {
        if !self.want_progress {
            return None;
        }
        Some(
            ServerFrame::Progress {
                job_id: self.job_id.clone(),
                stage,
                message,
                elapsed_ms,
                fraction,
            },
        )
    }

    /// Emit text decoded so far. Only sent when the client asked for partials.
    pub fn partial(&self, committed: &str, tentative: &str) -> (r: ServerFrame)
        ensures
            r@ == (FrameView::Partial {
                job_id: self.job_id@,
                committed: committed@,
                tentative: tentative@,
            }),
    {
        ServerFrame::Partial {
            job_id: self.job_id.clone(),
            committed: committed.to_owned(),
            tentative: tentative.to_owned(),
        }
    }

    /// The heartbeat that is due every [`HEARTBEAT_INTERVAL_MS`] until the job
    /// is over. It tells the client when its job is holding up a dictation, so a
    /// script can see why the app feels stuck. A client that did not ask for
    /// progress gets none, and a heartbeat knows no fraction.
    pub fn heartbeat(&self, stopped: bool, dictation_waits: bool, elapsed_ms: u64) -> (r: Option<
        ServerFrame,
    >)
        ensures
            r is Some <==> self.want_progress && !stopped,
            r matches Some(f) ==> f@ == progress_view(
                self.job_id@,
                Stage::Transcribing,
                if dictation_waits {
                    Some("a dictation is waiting behind this job"@)
                } else {
                    None
                },
                elapsed_ms,
                None,
            ),
    {
        if stopped {
            return None;
        }
        let message = if dictation_waits {
            Some("a dictation is waiting behind this job".to_owned())
        } else {
            None
        };
        self.progress_with_fraction(Stage::Transcribing, message, elapsed_ms, None)
    }
}

/// What a client is answered for a job or a request.
pub open spec fn answer_view(job_id: Seq<char>, outcome: HandlerResult) -> FrameView {
    match outcome {
        Ok(body) => FrameView::Result { job_id, body: body@ },
        Err(e) => FrameView::Error { job_id: Some(job_id), code: e.code, message: e.message@ },
    }
}

/// The terminal frame of a job or a request.
pub fn answer(job_id: String, outcome: HandlerResult) -> (r: ServerFrame)
    ensures
        r@ == answer_view(job_id@, outcome),
{
    match outcome {
        Ok(body) => ServerFrame::Result { job_id, body },
        Err(e) => ServerFrame::Error { job_id: Some(job_id), code: e.code, message: e.message },
    }
}

/// The name of the `n`-th job of process `pid`.
pub open spec fn job_id_text(pid: u32, n: u64) -> Seq<char> {
    text::decimal_text(pid as nat) + "-"@ + text::decimal_text(n as nat)
}

/// Names for the jobs of one process.
#[derive(Debug)]
pub struct JobIds {
    pid: u32,
    next: u64,
}

impl JobIds {
    /// The process whose jobs are named.
    pub closed spec fn process(&self) -> u32 {
        self.pid
    }

    /// The number of the job that is named next.
    pub closed spec fn upcoming(&self) -> u64 {
        self.next
    }

    /// Names for the jobs of `pid`, from the first on.
    pub fn new(pid: u32) -> (r: Self)
        ensures
            r.process() == pid,
            r.upcoming() == 1,
    {
        JobIds { pid, next: 1 }
    }

    /// A name that no earlier job of this process has, short of the counter
    /// wrapping round.
    pub fn next_job_id(&mut self) -> (r: String)
        ensures
            r@ == job_id_text(old(self).process(), old(self).upcoming()),
            final(self).process() == old(self).process(),
            final(self).upcoming() == (old(self).upcoming() + 1) % 0x1_0000_0000_0000_0000,
    {
        let n: u64 = self.next;
        self.next = if n == u64::MAX {
            0
        } else {
            n + 1
        };
        text::decimal(self.pid as u64).concat("-").concat(text::decimal(n).as_str())
    }
}

/// Two jobs of one process never share a name.
pub proof fn law_job_ids_are_distinct(pid: u32, n: u64, m: u64)
    requires
        job_id_text(pid, n) == job_id_text(pid, m),
    ensures
        n == m,
{
    let head = text::decimal_text(pid as nat) + "-"@;
    let k = head.len() as int;
    assert(job_id_text(pid, n).skip(k) =~= text::decimal_text(n as nat));
    assert(job_id_text(pid, m).skip(k) =~= text::decimal_text(m as nat));
    text::lemma_decimal_injective(n as nat, m as nat);
}

// ---------------------------------------------------------------------------
// Accepting
// ---------------------------------------------------------------------------

/// What to do with what the listener reported.
#[derive(Debug)]
pub enum Admission {
    /// Serve the connection.
    Serve,
    /// Drop it without a word: it belongs to another user.
    Reject,
    /// Tell it why, then drop it.
    Refuse(ServerFrame),
}

/// Tell a client why it is being dropped.
pub fn refuse(code: ErrorCode, message: &str) -> (r: ServerFrame)
    ensures
        r@ == (FrameView::Error { job_id: None, code, message: message@ }),
{
    ServerFrame::Error { job_id: None, code, message: message.to_owned() }
}

/// Whether a peer is known to be another user.
pub open spec fn foreign(peer: Option<u32>, uid: Option<u32>) -> bool {
    peer is Some && uid is Some && peer != uid
}

/// The accept loop: who may connect.
#[derive(Debug)]
pub struct AcceptLoop {
    uid: Option<u32>,
    clients: u64,
}

impl AcceptLoop {
    /// Who we are, where the platform tells.
    pub closed spec fn user(&self) -> Option<u32> {
        self.uid
    }

    /// Connections that are being served.
    pub closed spec fn connected(&self) -> int {
        self.clients as int
    }

    /// The cap on connections holds.
    pub open spec fn wf(&self) -> bool {
        0 <= self.connected() <= MAX_CLIENTS
    }

    /// Judge a new connection. One that is served counts until
    /// [`AcceptLoop::disconnected`].
    pub fn connect(&mut self, peer: Option<u32>) -> (r: Admission)
        requires
            old(self).wf(),
        ensures
            final(self).wf(),
            final(self).user() == old(self).user(),
            final(self).connected() == old(self).connected() + (if r is Serve {
                1int
            } else {
                0int
            }),
            r is Reject <==> foreign(peer, old(self).user()),
            r is Serve <==> !foreign(peer, old(self).user()) && old(self).connected() < MAX_CLIENTS,
            r is Reject <==> peer is Some && old(self).user() is Some && peer->0 != old(
                self,
            ).user()->0,
            r is Refuse ==> old(self).connected() == 8,
            r is Serve ==> old(self).connected() < 8,
            r matches Admission::Refuse(f) ==> f@ == (FrameView::Error {
                job_id: None,
                code: ErrorCode::TooManyClients,
                message: "too many CLI connections"@,
            }),
    {
        // Second line of defence behind the 0700 directory.
        if let Some(p) = peer {
            if let Some(u) = self.uid {
                if p != u {
                    return Admission::Reject;
                }
            }
        }
        if self.clients >= MAX_CLIENTS {
            return Admission::Refuse(
                refuse(ErrorCode::TooManyClients, "too many CLI connections"),
            );
        }
        self.clients = self.clients + 1;
        Admission::Serve
    }

    /// A served connection ended, or could not be served after all.
    pub fn disconnected(&mut self)
        requires
            old(self).wf(),
            old(self).connected() > 0,
        ensures
            final(self).wf(),
            final(self).user() == old(self).user(),
            final(self).connected() == old(self).connected() - 1,
    {
        self.clients = self.clients - 1;
    }
}

/// Start the control socket: the descriptor to write, and an accept loop that
/// serves nobody yet. `uid` is who we are, where the platform tells.
pub fn start(env: &EndpointEnv, app_version: &str, pid: u32, uid: Option<u32>) -> (r: (
    Descriptor,
    AcceptLoop,
))
    ensures
        r.0.schema == endpoint::DESCRIPTOR_SCHEMA,
        r.0.schema == 1 && r.0.protocol == 1 && r.0.min_protocol == 1,
        r.0.protocol == protocol::PROTOCOL_VERSION,
        r.0.min_protocol == protocol::MIN_PROTOCOL_VERSION,
        r.0.app_version@ == app_version@,
        r.0.pid == pid,
        r.0.endpoint@ == env.target(),
        r.1.wf(),
        r.1.user() == uid,
        r.1.connected() == 0,
{
    let descriptor = Descriptor {
        schema: endpoint::DESCRIPTOR_SCHEMA,
        protocol: protocol::PROTOCOL_VERSION,
        min_protocol: protocol::MIN_PROTOCOL_VERSION,
        app_version: app_version.to_owned(),
        pid,
        endpoint: endpoint::transport_name(env),
    };
    (descriptor, AcceptLoop { uid, clients: 0 })
}

/// Shut the control socket down: the files to remove, the socket and the
/// descriptor. Called from the app's exit hook.
pub fn shutdown(env: &EndpointEnv) -> (r: Vec<String>)
    ensures
        text::texts(r@) == seq![env.socket(), env.descriptor()],
{
    endpoint::cleanup(env)
}

// ---------------------------------------------------------------------------
// Reading
// ---------------------------------------------------------------------------

/// What the dispatcher waits on: reader events and job completion.
#[derive(Debug)]
pub enum Event {
    /// A parsed request, with its inline audio already consumed from the stream.
    Frame(Box<ClientFrame>, Option<Vec<i32>>),
    /// The reader hit EOF, a parse error, or a protocol violation.
    Closed(Option<HandlerError>),
    /// The running job finished (successfully or not).
    JobDone,
    /// The job could not be started.
    JobNotStarted,
    /// Nothing more can arrive.
    Disconnected,
}

/// What reading the audio of a request gives: the samples of inline audio,
/// nothing for audio that is elsewhere, or the error; `Err(None)` where more
/// bytes have to arrive first.
pub open spec fn inline_audio(pending: Seq<u8>, ended: bool, source: AudioSource) -> Result<
    Option<Seq<i32>>,
    Option<(ErrorCode, Seq<char>)>,
> {
    match source {
        AudioSource::Path { .. } => Ok(None),
        AudioSource::Inline { encoding, sample_rate, channels, byte_len } => {
            if byte_len > protocol::MAX_ATTACHMENT_BYTES {
                Err(
                    Some(
                        (
                            ErrorCode::PayloadTooLarge,
                            "audio payload of "@ + text::decimal_text(byte_len as nat)
                                + " bytes exceeds the "@ + text::decimal_text(
                                protocol::MAX_ATTACHMENT_BYTES as nat,
                            ) + " byte limit; use --local for very long files"@,
                        ),
                    ),
                )
            } else if sample_rate != WHISPER_SAMPLE_RATE || channels != 1 {
                Err(
                    Some(
                        (
                            ErrorCode::BadRequest,
                            "inline audio must be 16000 Hz mono, got "@ + text::decimal_text(
                                sample_rate as nat,
                            ) + " Hz / "@ + text::decimal_text(channels as nat) + " ch"@,
                        ),
                    ),
                )
            } else {
                match protocol::attachment_read(pending, ended, byte_len) {
                    Ok(bytes) => Ok(Some(encoding.words(bytes))),
                    Err(ReadError::Incomplete) => Err(None),
                    Err(e) => Err(
                        Some((ErrorCode::IoError, "reading audio payload: "@ + e.text())),
                    ),
                }
            }
        },
    }
}

/// How many bytes reading the audio of a request consumes.
pub open spec fn inline_consumed(pending: Seq<u8>, ended: bool, source: AudioSource) -> int {
    match (source, inline_audio(pending, ended, source)) {
        (AudioSource::Inline { byte_len, .. }, Ok(_)) => byte_len as int,
        _ => 0,
    }
}

/// Read the audio that a request declares. `Err(None)` means that more bytes
/// have to arrive first.
pub fn read_inline_audio(reader: &mut StreamBuffer, source: &AudioSource) -> (r: Result<
    Option<Vec<i32>>,
    Option<HandlerError>,
>)
    requires
        old(reader).wf(),
    ensures
        final(reader).wf(),
        final(reader).ended() == old(reader).ended(),
        final(reader).pending() == old(reader).pending().skip(
            inline_consumed(old(reader).pending(), old(reader).ended(), *source),
        ),
        match (r, inline_audio(old(reader).pending(), old(reader).ended(), *source)) {
            (Ok(Some(words)), Ok(Some(v))) => words@ == v,
            (Ok(None), Ok(None)) => true,
            (Err(Some(e)), Err(Some(v))) => e.shown() == v,
            (Err(None), Err(None)) => true,
            _ => false,
        },
{
    assert(reader.pending().skip(0) =~= reader.pending());
    match source {
        AudioSource::Path { .. } => Ok(None),
        AudioSource::Inline { encoding, sample_rate, channels, byte_len } => {
            if *byte_len > protocol::MAX_ATTACHMENT_BYTES {
                let message = "audio payload of ".to_owned().concat(
                    text::decimal(*byte_len).as_str(),
                ).concat(" bytes exceeds the ").concat(
                    text::decimal(protocol::MAX_ATTACHMENT_BYTES).as_str(),
                ).concat(" byte limit; use --local for very long files");
                return Err(Some(HandlerError::new(ErrorCode::PayloadTooLarge, message)));
            }
            // The client converts; anything else is a bug on its side, and
            // quietly accepting it here would mis-time the audio.
            if *sample_rate != WHISPER_SAMPLE_RATE || *channels != 1 {
                let message = "inline audio must be 16000 Hz mono, got ".to_owned().concat(
                    text::decimal(*sample_rate as u64).as_str(),
                ).concat(" Hz / ").concat(text::decimal(*channels as u64).as_str()).concat(" ch");
                return Err(Some(HandlerError::new(ErrorCode::BadRequest, message)));
            }
            match protocol::read_attachment(reader, *byte_len) {
                Ok(bytes) => Ok(Some(encoding.decode(bytes.as_slice()))),
                Err(ReadError::Incomplete) => Err(None),
                Err(e) => {
                    let message = "reading audio payload: ".to_owned().concat(
                        e.message().as_str(),
                    );
                    Err(Some(HandlerError::new(ErrorCode::IoError, message)))
                },
            }
        },
    }
}

/// What a reader is in the middle of.
pub enum ReaderPhase {
    /// A control line.
    Line,
    /// A line was handed out to be parsed.
    Parse,
    /// The audio of a request.
    Audio(ClientFrame),
    /// Nothing: the connection is over.
    Stopped,
}

/// What a reader knows.
pub struct ReaderView {
    pub pending: Seq<u8>,
    pub ended: bool,
    pub phase: ReaderPhase,
}

/// What a reader asks for or hands on.
pub enum ReaderOut {
    NeedBytes,
    Parse(Seq<u8>),
    Frame(ClientFrame, Option<Seq<i32>>),
    Closed(Option<(ErrorCode, Seq<char>)>),
    Stopped,
}

/// The audio that a request declares.
pub open spec fn source_of(frame: ClientFrame) -> Option<AudioSource> {
    match frame {
        ClientFrame::Transcribe(request) => Some(request.audio),
        _ => None,
    }
}

/// What a reader does with the bytes that are there.
pub open spec fn reader_poll(v: ReaderView) -> (ReaderView, ReaderOut) {
    match v.phase {
        ReaderPhase::Line => {
            let rest = v.pending.skip(protocol::frame_consumed(v.pending, v.ended));
            match protocol::frame_read(v.pending, v.ended) {
                Ok(Some(line)) => (
                    ReaderView { pending: rest, phase: ReaderPhase::Parse, ..v },
                    ReaderOut::Parse(line),
                ),
                Ok(None) => (
                    ReaderView { pending: rest, phase: ReaderPhase::Stopped, ..v },
                    ReaderOut::Closed(None),
                ),
                Err(ReadError::Incomplete) => (v, ReaderOut::NeedBytes),
                Err(e) => (
                    ReaderView { pending: rest, phase: ReaderPhase::Stopped, ..v },
                    ReaderOut::Closed(
                        Some((ErrorCode::BadRequest, "could not parse request: "@ + e.text())),
                    ),
                ),
            }
        },
        ReaderPhase::Audio(frame) => match source_of(frame) {
            None => (ReaderView { phase: ReaderPhase::Line, ..v }, ReaderOut::Frame(frame, None)),
            Some(source) => {
                let rest = v.pending.skip(inline_consumed(v.pending, v.ended, source));
                match inline_audio(v.pending, v.ended, source) {
                    Ok(audio) => (
                        ReaderView { pending: rest, phase: ReaderPhase::Line, ..v },
                        ReaderOut::Frame(frame, audio),
                    ),
                    Err(None) => (v, ReaderOut::NeedBytes),
                    Err(Some(e)) => (
                        ReaderView { pending: rest, phase: ReaderPhase::Stopped, ..v },
                        ReaderOut::Closed(Some(e)),
                    ),
                }
            },
        },
        ReaderPhase::Parse => (v, ReaderOut::Stopped),
        ReaderPhase::Stopped => (v, ReaderOut::Stopped),
    }
}

/// What a reader does once the line it handed out was parsed, or could not be.
/// Inline audio is consumed in stream order, before the next control line.
pub open spec fn reader_parsed(v: ReaderView, result: Result<ClientFrame, Seq<char>>) -> (
    ReaderView,
    ReaderOut,
) {
    match result {
        Ok(frame) => reader_poll(ReaderView { phase: ReaderPhase::Audio(frame), ..v }),
        Err(detail) => (
            ReaderView { phase: ReaderPhase::Stopped, ..v },
            ReaderOut::Closed(
                Some((ErrorCode::BadRequest, "could not parse request: bad frame: "@ + detail)),
            ),
        ),
    }
}

/// What a reader does when the socket fails under it.
pub open spec fn reader_failed(v: ReaderView, detail: Seq<char>) -> (ReaderView, ReaderOut) {
    (
        ReaderView { phase: ReaderPhase::Stopped, ..v },
        match v.phase {
            ReaderPhase::Stopped => ReaderOut::Stopped,
            ReaderPhase::Audio(_) => ReaderOut::Closed(
                Some((ErrorCode::IoError, "reading audio payload: "@ + detail)),
            ),
            _ => ReaderOut::Closed(
                Some((ErrorCode::BadRequest, "could not parse request: "@ + detail)),
            ),
        },
    )
}

/// What a reader asks for or hands on.
#[derive(Debug)]
pub enum ReaderStep {
    /// Read from the socket; continue with [`Reader::feed`], [`Reader::finish`]
    /// or [`Reader::failed`], then [`Reader::poll`].
    NeedBytes,
    /// Parse this line; continue with [`Reader::parsed`].
    Parse(Vec<u8>),
    /// Hand this on to the dispatcher.
    Emit(Event),
    /// The connection is over.
    Stopped,
}

/// What an event says, as a reader's output.
pub open spec fn emitted(event: Event) -> Option<ReaderOut> {
    match event {
        Event::Frame(frame, audio) => Some(
            ReaderOut::Frame(
                *frame,
                match audio {
                    Some(words) => Some(words@),
                    None => None,
                },
            ),
        ),
        Event::Closed(None) => Some(ReaderOut::Closed(None)),
        Event::Closed(Some(e)) => Some(ReaderOut::Closed(Some(e.shown()))),
        _ => None,
    }
}

impl ReaderStep {
    /// What the step asks for or hands on.
    pub open spec fn is(self, out: ReaderOut) -> bool {
        match self {
            ReaderStep::NeedBytes => out == ReaderOut::NeedBytes,
            ReaderStep::Parse(line) => out == ReaderOut::Parse(line@),
            ReaderStep::Emit(event) => emitted(event) == Some(out),
            ReaderStep::Stopped => out == ReaderOut::Stopped,
        }
    }
}

#[derive(Debug)]
enum ReaderState {
    Line,
    Parse,
    Audio(Box<ClientFrame>),
    Stopped,
}

/// Reads requests, and their audio payloads, until the peer goes away.
#[derive(Debug)]
pub struct Reader {
    buffer: StreamBuffer,
    state: ReaderState,
}

impl Reader {
    /// The buffer is well formed.
    pub closed spec fn wf(&self) -> bool {
        self.buffer.wf()
    }

    /// What the reader knows.
    pub closed spec fn view(&self) -> ReaderView {
        ReaderView {
            pending: self.buffer.pending(),
            ended: self.buffer.ended(),
            phase: match self.state {
                ReaderState::Line => ReaderPhase::Line,
                ReaderState::Parse => ReaderPhase::Parse,
                ReaderState::Audio(frame) => ReaderPhase::Audio(*frame),
                ReaderState::Stopped => ReaderPhase::Stopped,
            },
        }
    }

    /// A reader on which nothing has arrived.
    pub fn new() -> (r: Self)
        ensures
            r.wf(),
            r@ == (ReaderView { pending: Seq::empty(), ended: false, phase: ReaderPhase::Line }),
    {
        Reader { buffer: StreamBuffer::new(), state: ReaderState::Line }
    }

    /// Take in bytes that arrived.
    pub fn feed(&mut self, bytes: &[u8])
        requires
            old(self).wf(),
        ensures
            final(self).wf(),
            final(self)@ == (ReaderView { pending: old(self)@.pending + bytes@, ..old(self)@ }),
    {
        self.buffer.feed(bytes);
    }

    /// Take in that the peer closed its side.
    pub fn finish(&mut self)
        requires
            old(self).wf(),
        ensures
            final(self).wf(),
            final(self)@ == (ReaderView { ended: true, ..old(self)@ }),
    {
        self.buffer.finish();
    }

    fn stop(&mut self, error: Option<HandlerError>) -> (r: ReaderStep)
        requires
            old(self).wf(),
        ensures
            final(self).wf(),
            final(self)@ == (ReaderView { phase: ReaderPhase::Stopped, ..old(self)@ }),
            r == ReaderStep::Emit(Event::Closed(error)),
    {
        self.state = ReaderState::Stopped;
        ReaderStep::Emit(Event::Closed(error))
    }

    /// Go on with the bytes that are there.
    pub fn poll(&mut self) -> (r: ReaderStep)
        requires
            old(self).wf(),
        ensures
            final(self).wf(),
            final(self)@ == reader_poll(old(self)@).0,
            r.is(reader_poll(old(self)@).1),
    {
        let mut state = ReaderState::Stopped;
        std::mem::swap(&mut state, &mut self.state);
        match state {
            ReaderState::Line => match protocol::read_frame(&mut self.buffer) {
                Ok(Some(line)) => {
                    self.state = ReaderState::Parse;
                    ReaderStep::Parse(line)
                },
                Ok(None) => self.stop(None),
                Err(ReadError::Incomplete) => {
                    self.state = ReaderState::Line;
                    assert(old(self)@.pending.skip(0) =~= old(self)@.pending);
                    ReaderStep::NeedBytes
                },
                Err(e) => {
                    let message = "could not parse request: ".to_owned().concat(
                        e.message().as_str(),
                    );
                    self.stop(Some(HandlerError::new(ErrorCode::BadRequest, message)))
                },
            },
            ReaderState::Audio(frame) => {
                let outcome = match &*frame {
                    ClientFrame::Transcribe(request) => read_inline_audio(
                        &mut self.buffer,
                        &request.audio,
                    ),
                    _ => Ok(None),
                };
                match outcome {
                    Ok(audio) => {
                        self.state = ReaderState::Line;
                        ReaderStep::Emit(Event::Frame(frame, audio))
                    },
                    Err(None) => {
                        self.state = ReaderState::Audio(frame);
                        assert(old(self)@.pending.skip(0) =~= old(self)@.pending);
                        ReaderStep::NeedBytes
                    },
                    Err(Some(e)) => self.stop(Some(e)),
                }
            },
            ReaderState::Parse => {
                self.state = ReaderState::Parse;
                ReaderStep::Stopped
            },
            ReaderState::Stopped => ReaderStep::Stopped,
        }
    }

    /// The line that was handed out was parsed, or could not be.
    pub fn parsed(&mut self, result: Result<ClientFrame, String>) -> (r: ReaderStep)
        requires
            old(self).wf(),
            old(self)@.phase is Parse,
        ensures
            final(self).wf(),
            match result {
                Ok(frame) => final(self)@ == reader_parsed(old(self)@, Ok(frame)).0 && r.is(
                    reader_parsed(old(self)@, Ok(frame)).1,
                ),
                Err(e) => final(self)@ == reader_parsed(old(self)@, Err(e@)).0 && r.is(
                    reader_parsed(old(self)@, Err(e@)).1,
                ),
            },
    {
        match result {
            Ok(frame) => {
                self.state = ReaderState::Audio(Box::new(frame));
                self.poll()
            },
            Err(e) => {
                let message = "could not parse request: bad frame: ".to_owned().concat(e.as_str());
                self.stop(Some(HandlerError::new(ErrorCode::BadRequest, message)))
            },
        }
    }

    /// The socket failed.
    pub fn failed(&mut self, detail: &str) -> (r: ReaderStep)
        requires
            old(self).wf(),
        ensures
            final(self).wf(),
            final(self)@ == reader_failed(old(self)@, detail@).0,
            r.is(reader_failed(old(self)@, detail@).1),
    {
        let error = match &self.state {
            ReaderState::Stopped => {
                return ReaderStep::Stopped;
            },
            ReaderState::Audio(_) => HandlerError::new(
                ErrorCode::IoError,
                "reading audio payload: ".to_owned().concat(detail),
            ),
            _ => HandlerError::new(
                ErrorCode::BadRequest,
                "could not parse request: ".to_owned().concat(detail),
            ),
        };
        self.stop(Some(error))
    }
}

/// Audio rides behind its request: a line and the bytes it declares come out as
/// that line and those samples, and the reader stands at whatever comes next.
pub proof fn law_audio_follows_its_request(
    line: Seq<u8>,
    attachment: Seq<u8>,
    rest: Seq<u8>,
    ended: bool,
    request: TranscribeRequest,
)
    requires
        !line.contains(protocol::NEWLINE),
        line.len() < protocol::MAX_FRAME_BYTES,
        request.audio matches AudioSource::Inline { sample_rate, channels, byte_len, .. }
            && sample_rate == WHISPER_SAMPLE_RATE && channels == 1 && byte_len == attachment.len()
            && byte_len <= protocol::MAX_ATTACHMENT_BYTES,
    ensures
        ({
            let sent = line + seq![protocol::NEWLINE] + attachment + rest;
            let start = ReaderView { pending: sent, ended, phase: ReaderPhase::Line };
            let frame = ClientFrame::Transcribe(Box::new(request));
            let first = reader_poll(start);
            let second = reader_parsed(first.0, Ok(frame));
            &&& first.1 == ReaderOut::Parse(line)
            &&& second.1 == ReaderOut::Frame(
                frame,
                Some(request.audio->encoding.words(attachment)),
            )
            &&& second.0 == (ReaderView { pending: rest, ended, phase: ReaderPhase::Line })
        }),
{
    let len = request.audio->byte_len;
    protocol::law_attachment_round_trips(line, attachment, rest, ended, len);
}

/// An oversized payload is refused before a single byte of it is read.
pub proof fn law_an_oversized_payload_is_not_read(v: ReaderView, request: TranscribeRequest)
    requires
        v.phase == ReaderPhase::Audio(ClientFrame::Transcribe(Box::new(request))),
        request.audio matches AudioSource::Inline { byte_len, .. } && byte_len
            > protocol::MAX_ATTACHMENT_BYTES,
    ensures
        reader_poll(v).0.pending == v.pending,
        reader_poll(v).0.phase is Stopped,
        reader_poll(v).1 matches ReaderOut::Closed(Some((code, _))) && code
            == ErrorCode::PayloadTooLarge,
{
    assert(v.pending.skip(0) =~= v.pending);
}

/// What a reader hands on does not depend on how the bytes arrived: once it does
/// not ask for more, bytes that arrive later change nothing but what is left.
pub proof fn law_readers_do_not_depend_on_arrival(v: ReaderView, more: Seq<u8>)
    requires
        !v.ended,
        reader_poll(v).1 != ReaderOut::NeedBytes,
    ensures
        ({
            let longer = ReaderView { pending: v.pending + more, ..v };
            &&& reader_poll(longer).1 == reader_poll(v).1
            &&& reader_poll(longer).0 == (ReaderView {
                pending: reader_poll(v).0.pending + more,
                ..reader_poll(v).0
            })
        }),
{
    let p = v.pending;
    match v.phase {
        ReaderPhase::Line => {
            protocol::law_reads_do_not_depend_on_arrival(p, more, false);
            let n = protocol::frame_consumed(p, false);
            protocol::lemma_frame_consumed(p, false);
            assert((p + more).skip(n) =~= p.skip(n) + more);
        },
        ReaderPhase::Audio(frame) => {
            if let Some(source) = source_of(frame) {
                let n = inline_consumed(p, false, source);
                if let AudioSource::Inline { byte_len, .. } = source {
                    if byte_len <= p.len() {
                        assert((p + more).take(byte_len as int) =~= p.take(byte_len as int));
                    }
                }
                assert((p + more).skip(n) =~= p.skip(n) + more);
            }
        },
        _ => {},
    }
}

// ---------------------------------------------------------------------------
// Serving
// ---------------------------------------------------------------------------

/// What a connection is doing.
pub enum ConnView {
    /// Waiting for a request.
    Idle,
    /// Waiting for a job; whether its client is gone.
    Running { job_id: Seq<char>, client_gone: bool },
    /// Over.
    Closed,
}

/// What a connection asks for.
pub enum NextView {
    /// Wait for the next event.
    Wait,
    /// Answer a status request.
    AnswerStatus { job_id: Seq<char> },
    /// Start a job; its context says nothing was cancelled.
    StartJob { job_id: Seq<char>, request: TranscribeRequest, audio: Option<Seq<i32>> },
    /// Cancel the running job, and keep waiting for it.
    CancelJob,
    /// Close the connection.
    Close,
}

/// What a connection does about an event: what it is doing then, what it sends,
/// and what it asks for.
pub struct ConnOut {
    pub state: ConnView,
    pub frames: Seq<FrameView>,
    pub next: NextView,
}

/// The greeting.
pub open spec fn hello_view(app_version: Seq<char>, pid: u32) -> FrameView {
    FrameView::Hello {
        protocol: protocol::PROTOCOL_VERSION,
        min_protocol: protocol::MIN_PROTOCOL_VERSION,
        app_version,
        pid,
    }
}

/// Whether a request is given a job name.
pub open spec fn takes_id(frame: ClientFrame) -> bool {
    frame is Ping || frame is Status || frame is Transcribe
}

/// What a client is told about a request that this build does not know.
pub open spec fn unsupported_text(request: Seq<char>) -> Seq<char> {
    "this Handy build does not support that request ('"@ + request
        + "'); update and restart Handy"@
}

/// How one request is handled while nothing is running. `id` is the name that
/// the next job gets.
pub open spec fn dispatched(
    frame: ClientFrame,
    audio: Option<Seq<i32>>,
    id: Seq<char>,
    app_version: Seq<char>,
) -> ConnOut {
    match frame {
        ClientFrame::Bye => ConnOut {
            state: ConnView::Closed,
            frames: seq![],
            next: NextView::Close,
        },
        ClientFrame::Cancel => ConnOut {
            state: ConnView::Idle,
            frames: seq![],
            next: NextView::Wait,
        },
        ClientFrame::Ping => ConnOut {
            state: ConnView::Idle,
            frames: seq![FrameView::Result { job_id: id, body: BodyView::Pong { app_version } }],
            next: NextView::Wait,
        },
        ClientFrame::Status => ConnOut {
            state: ConnView::Idle,
            frames: seq![],
            next: NextView::AnswerStatus { job_id: id },
        },
        ClientFrame::Unknown(request) => ConnOut {
            state: ConnView::Idle,
            frames: seq![
                FrameView::Error {
                    job_id: None,
                    code: ErrorCode::UnsupportedRequest,
                    message: unsupported_text(request@),
                },
            ],
            next: NextView::Wait,
        },
        ClientFrame::Transcribe(request) => ConnOut {
            state: ConnView::Running { job_id: id, client_gone: false },
            frames: if request.want_progress {
                seq![
                    FrameView::Accepted { job_id: id },
                    progress_view(id, Stage::Queued, None, 0, None),
                ]
            } else {
                seq![FrameView::Accepted { job_id: id }]
            },
            next: NextView::StartJob { job_id: id, request: *request, audio },
        },
    }
}

/// How an event is handled while a job is running. On client disconnect the job
/// is cancelled but still awaited, so a stream of abandoned clients cannot pile
/// jobs up behind each other.
pub open spec fn awaited(job_id: Seq<char>, client_gone: bool, event: Event) -> ConnOut {
    let same = ConnView::Running { job_id, client_gone };
    match event {
        Event::JobDone => if client_gone {
            ConnOut { state: ConnView::Closed, frames: seq![], next: NextView::Close }
        } else {
            ConnOut { state: ConnView::Idle, frames: seq![], next: NextView::Wait }
        },
        Event::Closed(_) => ConnOut {
            state: ConnView::Running { job_id, client_gone: true },
            frames: seq![],
            next: NextView::CancelJob,
        },
        Event::Frame(frame, _) => if *frame is Cancel || *frame is Bye {
            ConnOut { state: same, frames: seq![], next: NextView::CancelJob }
        } else {
            ConnOut { state: same, frames: seq![], next: NextView::Wait }
        },
        Event::JobNotStarted => ConnOut {
            state: ConnView::Closed,
            frames: seq![
                FrameView::Error {
                    job_id: Some(job_id),
                    code: ErrorCode::Internal,
                    message: "could not start a transcription worker"@,
                },
            ],
            next: NextView::Close,
        },
        Event::Disconnected => ConnOut {
            state: ConnView::Closed,
            frames: seq![],
            next: NextView::Close,
        },
    }
}

/// How an event is handled while nothing is running.
pub open spec fn idle(event: Event, id: Seq<char>, app_version: Seq<char>) -> ConnOut {
    match event {
        Event::Closed(Some(e)) => ConnOut {
            state: ConnView::Closed,
            frames: seq![
                FrameView::Error { job_id: None, code: e.code, message: e.message@ },
            ],
            next: NextView::Close,
        },
        Event::Closed(None) => ConnOut {
            state: ConnView::Closed,
            frames: seq![],
            next: NextView::Close,
        },
        Event::Disconnected => ConnOut {
            state: ConnView::Closed,
            frames: seq![],
            next: NextView::Close,
        },
        Event::Frame(frame, audio) => dispatched(
            *frame,
            match audio {
                Some(words) => Some(words@),
                None => None,
            },
            id,
            app_version,
        ),
        // A completion of a job that nobody waits for is not interesting.
        Event::JobDone => ConnOut {
            state: ConnView::Idle,
            frames: seq![],
            next: NextView::Wait,
        },
        Event::JobNotStarted => ConnOut {
            state: ConnView::Idle,
            frames: seq![],
            next: NextView::Wait,
        },
    }
}

/// How a connection handles an event.
pub open spec fn served(
    state: ConnView,
    event: Event,
    id: Seq<char>,
    app_version: Seq<char>,
) -> ConnOut {
    match state {
        ConnView::Idle => idle(event, id, app_version),
        ConnView::Running { job_id, client_gone } => awaited(job_id, client_gone, event),
        ConnView::Closed => ConnOut {
            state: ConnView::Closed,
            frames: seq![],
            next: NextView::Close,
        },
    }
}

/// Whether an event uses up a job name.
pub open spec fn uses_id(state: ConnView, event: Event) -> bool {
    state is Idle && (event matches Event::Frame(frame, _) && takes_id(*frame))
}

/// The views of a list of frames.
pub open spec fn frame_views(frames: Seq<ServerFrame>) -> Seq<FrameView> {
    frames.map_values(|f: ServerFrame| f@)
}

/// What a connection asks for.
#[derive(Debug)]
pub enum ConnNext {
    /// Wait for the next event.
    Wait,
    /// Answer a status request under this name.
    AnswerStatus { job_id: String },
    /// Start a job.
    StartJob { job: JobContext, request: Box<TranscribeRequest>, audio: Option<Vec<i32>> },
    /// Cancel the running job, and keep waiting for it.
    CancelJob,
    /// Close the connection.
    Close,
}

impl ConnNext {
    /// Whether this is what the model asks for.
    pub open spec fn is(self, view: NextView) -> bool {
        match (self, view) {
            (ConnNext::Wait, NextView::Wait) => true,
            (ConnNext::AnswerStatus { job_id }, NextView::AnswerStatus { job_id: v }) => job_id@
                == v,
            (
                ConnNext::StartJob { job, request, audio },
                NextView::StartJob { job_id: v, request: w, audio: x },
            ) => job.job_id@ == v && !job.cancel && job.want_progress == w.want_progress
                && *request == w && (match audio {
                Some(words) => Some(words@),
                None => None,
            }) == x,
            (ConnNext::CancelJob, NextView::CancelJob) => true,
            (ConnNext::Close, NextView::Close) => true,
            _ => false,
        }
    }
}

/// What a connection does about an event: the frames to send, then what to do.
#[derive(Debug)]
pub struct ConnStep {
    pub frames: Vec<ServerFrame>,
    pub next: ConnNext,
}

#[derive(Debug)]
enum ConnState {
    Idle,
    Running { job_id: String, client_gone: bool },
    Closed,
}

/// The dispatcher's side of one connection.
#[derive(Debug)]
pub struct Dispatcher {
    state: ConnState,
}

/// Greet a client, before reading anything, so version skew is visible to it
/// without it having to send a request first.
pub fn serve_connection(app_version: &str, pid: u32) -> (r: (Dispatcher, ServerFrame))
    ensures
        r.0@ is Idle,
        r.1@ == hello_view(app_version@, pid),
{
    let hello = ServerFrame::Hello {
        protocol: protocol::PROTOCOL_VERSION,
        min_protocol: protocol::MIN_PROTOCOL_VERSION,
        app_version: app_version.to_owned(),
        pid,
    };
    (Dispatcher { state: ConnState::Idle }, hello)
}

fn no_frames(next: ConnNext) -> (r: ConnStep)
    ensures
        frame_views(r.frames@) == Seq::<FrameView>::empty(),
        r.next == next,
{
    let frames: Vec<ServerFrame> = Vec::new();
    assert(frame_views(frames@) =~= Seq::<FrameView>::empty());
    ConnStep { frames, next }
}

fn one_frame(frame: ServerFrame, next: ConnNext) -> (r: ConnStep)
    ensures
        frame_views(r.frames@) == seq![frame@],
        r.next == next,
{
    let mut frames: Vec<ServerFrame> = Vec::new();
    frames.push(frame);
    assert(frame_views(frames@) =~= seq![frame@]);
    ConnStep { frames, next }
}

impl Dispatcher {
    /// What the connection is doing.
    pub closed spec fn view(&self) -> ConnView {
        match self.state {
            ConnState::Idle => ConnView::Idle,
            ConnState::Running { job_id, client_gone } => ConnView::Running {
                job_id: job_id@,
                client_gone,
            },
            ConnState::Closed => ConnView::Closed,
        }
    }

    /// Handle one event.
    pub fn serve(&mut self, event: Event, ids: &mut JobIds, app_version: &str) -> (r: ConnStep)
        ensures
            ({
                let id = job_id_text(old(ids).process(), old(ids).upcoming());
                let out = served(old(self)@, event, id, app_version@);
                &&& final(self)@ == out.state
                &&& frame_views(r.frames@) == out.frames
                &&& r.next.is(out.next)
            }),
            final(ids).process() == old(ids).process(),
            uses_id(old(self)@, event) ==> final(ids).upcoming() == (old(ids).upcoming() + 1)
                % 0x1_0000_0000_0000_0000,
            !uses_id(old(self)@, event) ==> final(ids).upcoming() == old(ids).upcoming(),
            // A job gets the very request and audio that came with its frame.
            match (old(self)@, event) {
                (ConnView::Idle, Event::Frame(frame, audio)) => match *frame {
                    ClientFrame::Transcribe(request) => {
                        &&& r.next matches ConnNext::StartJob { job, request: sent, audio: heard }
                        &&& *sent == *request
                        &&& heard == audio
                        &&& job.want_progress == request.want_progress
                        &&& !job.cancel
                    },
                    _ => !(r.next is StartJob),
                },
                _ => !(r.next is StartJob),
            },
    {
        match &self.state {
            ConnState::Closed => no_frames(ConnNext::Close),
            ConnState::Running { .. } => self.await_job(event),
            ConnState::Idle => match event {
                Event::Frame(frame, audio) => self.dispatch(frame, audio, ids, app_version),
                Event::Closed(err) => {
                    self.state = ConnState::Closed;
                    match err {
                        Some(e) => one_frame(
                            ServerFrame::Error { job_id: None, code: e.code, message: e.message },
                            ConnNext::Close,
                        ),
                        None => no_frames(ConnNext::Close),
                    }
                },
                Event::Disconnected => {
                    self.state = ConnState::Closed;
                    no_frames(ConnNext::Close)
                },
                Event::JobDone => no_frames(ConnNext::Wait),
                Event::JobNotStarted => no_frames(ConnNext::Wait),
            },
        }
    }

    /// Handle one request while nothing is running.
    fn dispatch(
        &mut self,
        frame: Box<ClientFrame>,
        audio: Option<Vec<i32>>,
        ids: &mut JobIds,
        app_version: &str,
    ) -> (r: ConnStep)
        requires
            old(self)@ is Idle,
        ensures
            ({
                let id = job_id_text(old(ids).process(), old(ids).upcoming());
                let out = served(old(self)@, Event::Frame(frame, audio), id, app_version@);
                &&& final(self)@ == out.state
                &&& frame_views(r.frames@) == out.frames
                &&& r.next.is(out.next)
            }),
            final(ids).process() == old(ids).process(),
            takes_id(*frame) ==> final(ids).upcoming() == (old(ids).upcoming() + 1)
                % 0x1_0000_0000_0000_0000,
            !takes_id(*frame) ==> final(ids).upcoming() == old(ids).upcoming(),
            match *frame {
                ClientFrame::Transcribe(request) => {
                    &&& r.next matches ConnNext::StartJob { job, request: sent, audio: heard }
                    &&& *sent == *request
                    &&& heard == audio
                    &&& job.want_progress == request.want_progress
                    &&& !job.cancel
                },
                _ => !(r.next is StartJob),
            },
    {
        match *frame {
            ClientFrame::Bye => {
                self.state = ConnState::Closed;
                no_frames(ConnNext::Close)
            },
            // Nothing is running, so there is nothing to cancel.
            ClientFrame::Cancel => no_frames(ConnNext::Wait),
            ClientFrame::Ping => {
                let job_id = ids.next_job_id();
                let body = ResultBody::Pong { app_version: app_version.to_owned() };
                one_frame(ServerFrame::Result { job_id, body }, ConnNext::Wait)
            },
            ClientFrame::Status => {
                let job_id = ids.next_job_id();
                no_frames(ConnNext::AnswerStatus { job_id })
            },
            ClientFrame::Unknown(request) => {
                let message = "this Handy build does not support that request ('".to_owned().concat(
                    request.as_str(),
                ).concat("'); update and restart Handy");
                one_frame(
                    ServerFrame::Error {
                        job_id: None,
                        code: ErrorCode::UnsupportedRequest,
                        message,
                    },
                    ConnNext::Wait,
                )
            },
            ClientFrame::Transcribe(request) => {
                let job_id = ids.next_job_id();
                self.state = ConnState::Running { job_id: job_id.clone(), client_gone: false };
                let mut frames: Vec<ServerFrame> = Vec::new();
                frames.push(ServerFrame::Accepted { job_id: job_id.clone() });
                assert(frame_views(frames@) =~= seq![FrameView::Accepted { job_id: job_id@ }]);
                let job = JobContext::new(job_id, request.want_progress);
                if let Some(queued) = job.progress(Stage::Queued, None, 0) {
                    frames.push(queued);
                    assert(frame_views(frames@) =~= seq![
                        FrameView::Accepted { job_id: job.job_id@ },
                        progress_view(job.job_id@, Stage::Queued, None, 0, None),
                    ]);
                }
                ConnStep { frames, next: ConnNext::StartJob { job, request, audio } }
            },
        }
    }

    /// Handle one event while a job is running, honouring cancellation.
    fn await_job(&mut self, event: Event) -> (r: ConnStep)
        requires
            old(self)@ is Running,
        ensures
            ({
                let out = awaited(old(self)@->job_id, old(self)@->client_gone, event);
                &&& final(self)@ == out.state
                &&& frame_views(r.frames@) == out.frames
                &&& r.next.is(out.next)
            }),
    {
        let mut state = ConnState::Closed;
        std::mem::swap(&mut state, &mut self.state);
        match state {
            ConnState::Running { job_id, client_gone } => match event {
                Event::JobDone => if client_gone {
                    no_frames(ConnNext::Close)
                } else {
                    self.state = ConnState::Idle;
                    no_frames(ConnNext::Wait)
                },
                Event::Closed(_) => {
                    self.state = ConnState::Running { job_id, client_gone: true };
                    no_frames(ConnNext::CancelJob)
                },
                Event::Frame(frame, _) => {
                    self.state = ConnState::Running { job_id, client_gone };
                    match &*frame {
                        ClientFrame::Cancel => no_frames(ConnNext::CancelJob),
                        ClientFrame::Bye => no_frames(ConnNext::CancelJob),
                        // A second request while one is in flight: ignore it
                        // rather than interleaving. The client protocol is one
                        // job per connection.
                        _ => no_frames(ConnNext::Wait),
                    }
                },
                Event::JobNotStarted => one_frame(
                    ServerFrame::Error {
                        job_id: Some(job_id),
                        code: ErrorCode::Internal,
                        message: "could not start a transcription worker".to_owned(),
                    },
                    ConnNext::Close,
                ),
                Event::Disconnected => no_frames(ConnNext::Close),
            },
            _ => no_frames(ConnNext::Close),
        }
    }
}

/// A connection runs one job at a time: none is started while one runs.
pub proof fn law_one_job_per_connection(
    state: ConnView,
    event: Event,
    id: Seq<char>,
    app_version: Seq<char>,
)
    ensures
        served(state, event, id, app_version).next is StartJob ==> state is Idle && served(
            state,
            event,
            id,
            app_version,
        ).state == (ConnView::Running { job_id: id, client_gone: false }),
{
}

/// A request that a client may send is never answered by dropping the
/// connection: only saying goodbye closes it. An unknown one is answered with an
/// error that names it.
pub proof fn law_requests_are_answered(
    frame: Box<ClientFrame>,
    audio: Option<Vec<i32>>,
    id: Seq<char>,
    app_version: Seq<char>,
)
    ensures
        ({
            let out = served(ConnView::Idle, Event::Frame(frame, audio), id, app_version);
            &&& out.next is Close <==> *frame is Bye
            &&& *frame matches ClientFrame::Unknown(request) ==> out.frames == seq![
                FrameView::Error {
                    job_id: None,
                    code: ErrorCode::UnsupportedRequest,
                    message: unsupported_text(request@),
                },
            ]
            &&& *frame is Ping ==> out.frames.len() == 1 && out.frames[0] is Result
            &&& *frame is Status ==> out.next is AnswerStatus
            &&& *frame is Transcribe ==> out.next is StartJob && out.frames[0]
                == (FrameView::Accepted { job_id: id })
        }),
{
}

/// A client that goes away while its job runs cancels that job; the connection
/// still waits for it, and closes as soon as it is done, whatever else arrives in
/// between.
pub proof fn law_a_lost_client_cancels_its_job(
    job_id: Seq<char>,
    err: Option<HandlerError>,
    between: Seq<Event>,
    id: Seq<char>,
    app_version: Seq<char>,
)
    requires
        forall|i: int|
            0 <= i < between.len() ==> (#[trigger] between[i] is Frame || between[i] is Closed),
    ensures
        ({
            let lost = served(
                ConnView::Running { job_id, client_gone: false },
                Event::Closed(err),
                id,
                app_version,
            );
            let later = served_all(lost.state, between, id, app_version);
            let done = served(later, Event::JobDone, id, app_version);
            &&& lost.next is CancelJob
            &&& later == (ConnView::Running { job_id, client_gone: true })
            &&& done.next is Close
        }),
    decreases between.len(),
{
    if between.len() > 0 {
        law_a_lost_client_cancels_its_job(job_id, err, between.drop_last(), id, app_version);
        assert(between.last() is Frame || between.last() is Closed);
    }
}

/// What a connection is doing after a list of events.
pub open spec fn served_all(
    state: ConnView,
    events: Seq<Event>,
    id: Seq<char>,
    app_version: Seq<char>,
) -> ConnView
    decreases events.len(),
{
    if events.len() == 0 {
        state
    } else {
        served(
            served_all(state, events.drop_last(), id, app_version),
            events.last(),
            id,
            app_version,
        ).state
    }
}

/// The samples of a list, where there is one.
pub open spec fn heard_words(audio: Option<Vec<i32>>) -> Option<Seq<i32>> {
    match audio {
        Some(words) => Some(words@),
        None => None,
    }
}

/// The job that a request starts carries that request, field by field, and the
/// audio that came with it, under the name that its client was told; its progress
/// is reported exactly where that was asked for, and nobody has given it up.
pub proof fn law_a_job_carries_its_request(
    request: Box<TranscribeRequest>,
    audio: Option<Vec<i32>>,
    id: Seq<char>,
    app_version: Seq<char>,
    next: ConnNext,
)
    requires
        next.is(
            served(
                ConnView::Idle,
                Event::Frame(Box::new(ClientFrame::Transcribe(request)), audio),
                id,
                app_version,
            ).next,
        ),
    ensures
        next matches ConnNext::StartJob { job, request: sent, audio: heard } && {
            &&& sent.audio == request.audio
            &&& sent.source_label == request.source_label
            &&& sent.model == request.model
            &&& sent.raw == request.raw
            &&& sent.post_process == request.post_process
            &&& sent.allow_streaming == request.allow_streaming
            &&& sent.want_partials == request.want_partials
            &&& sent.want_progress == request.want_progress
            &&& sent.restore_model == request.restore_model
            &&& sent.save_history == request.save_history
            &&& sent.paste == request.paste
            &&& sent.wait_policy == request.wait_policy
            &&& *sent == *request
            &&& (heard is Some) == (audio is Some)
            &&& heard is Some ==> (heard->0)@ == (audio->0)@
            &&& job.job_id@ == id
            &&& job.want_progress == request.want_progress
            &&& !job.cancel
        },
        ({
            let out = served(
                ConnView::Idle,
                Event::Frame(Box::new(ClientFrame::Transcribe(request)), audio),
                id,
                app_version,
            );
            &&& out.state == (ConnView::Running { job_id: id, client_gone: false })
            &&& out.frames[0] == (FrameView::Accepted { job_id: id })
            &&& out.frames.len() == (if request.want_progress {
                2int
            } else {
                1int
            })
            &&& request.want_progress ==> out.frames[1] == (FrameView::Progress {
                job_id: id,
                stage: Stage::Queued,
                message: None,
                elapsed_ms: 0,
                fraction: None,
            })
        }),
{
    let event = Event::Frame(Box::new(ClientFrame::Transcribe(request)), audio);
    let out = served(ConnView::Idle, event, id, app_version);
    assert(out.next == (NextView::StartJob {
        job_id: id,
        request: *request,
        audio: heard_words(audio),
    }));
    assert(next is StartJob);
    assert(heard_words(next->audio) == heard_words(audio));
}

/// What an idle connection does about a request that starts no job: a ping is
/// answered under the next name with the app's version, a status request asks for
/// the status under that name, an unknown one is refused by its name, a
/// cancellation finds nothing to cancel, and a goodbye closes.
pub proof fn law_what_an_idle_connection_does(
    frame: ClientFrame,
    audio: Option<Vec<i32>>,
    id: Seq<char>,
    app_version: Seq<char>,
)
    requires
        !(frame is Transcribe),
    ensures
        ({
            let out = served(ConnView::Idle, Event::Frame(Box::new(frame), audio), id, app_version);
            &&& out.state == (if frame is Bye {
                ConnView::Closed
            } else {
                ConnView::Idle
            })
            &&& match frame {
                ClientFrame::Ping => out.next is Wait && out.frames.len() == 1 && out.frames[0] == (
                FrameView::Result { job_id: id, body: BodyView::Pong { app_version } }),
                ClientFrame::Status => out.frames.len() == 0 && out.next == (
                NextView::AnswerStatus { job_id: id }),
                ClientFrame::Cancel => out.frames.len() == 0 && out.next is Wait,
                ClientFrame::Bye => out.frames.len() == 0 && out.next is Close,
                ClientFrame::Unknown(name) => out.next is Wait && out.frames.len() == 1 && (
                out.frames[0] matches FrameView::Error { job_id, code, message } && job_id is None
                    && code == ErrorCode::UnsupportedRequest && message
                    == "this Handy build does not support that request ('"@ + name@
                    + "'); update and restart Handy"@),
                ClientFrame::Transcribe(_) => true,
            }
        }),
{
}

/// How a connection ends: a client that is gone closes it, told what was wrong
/// where something was; a job that could not be started is answered under its
/// name, and closes it too; and a closed connection stays closed.
pub proof fn law_how_a_connection_ends(
    state: ConnView,
    error: Option<HandlerError>,
    event: Event,
    id: Seq<char>,
    app_version: Seq<char>,
)
    ensures
        ({
            let out = served(state, Event::Closed(error), id, app_version);
            &&& state is Idle ==> out.state is Closed && out.next is Close && out.frames.len() == (
            if error is Some {
                1int
            } else {
                0int
            }) && (error matches Some(e) ==> out.frames[0] == (FrameView::Error {
                job_id: None,
                code: e.code,
                message: e.message@,
            }))
            &&& state is Running ==> out.next is CancelJob && out.frames.len() == 0
        }),
        state matches ConnView::Running { job_id, .. } ==> ({
            let out = served(state, Event::JobNotStarted, id, app_version);
            out.state is Closed && out.next is Close && out.frames.len() == 1 && out.frames[0] == (
            FrameView::Error {
                job_id: Some(job_id),
                code: ErrorCode::Internal,
                message: "could not start a transcription worker"@,
            })
        }),
        state matches ConnView::Running { client_gone, .. } ==> ({
            let out = served(state, Event::JobDone, id, app_version);
            out.frames.len() == 0 && (out.state is Closed <==> client_gone) && (out.next is Close
                <==> client_gone) && (out.state is Idle <==> !client_gone) && (out.next is Wait
                <==> !client_gone)
        }),
        ({
            let out = served(state, Event::Disconnected, id, app_version);
            out.state is Closed && out.next is Close && out.frames.len() == 0
        }),
        state is Closed ==> ({
            let out = served(state, event, id, app_version);
            out.state is Closed && out.next is Close && out.frames.len() == 0
        }),
{
}

/// While a job runs, only a cancellation or a goodbye of its client reaches it;
/// nothing else that its client sends is answered or started.
pub proof fn law_a_running_job_is_left_alone(
    job_id: Seq<char>,
    client_gone: bool,
    frame: ClientFrame,
    audio: Option<Vec<i32>>,
    id: Seq<char>,
    app_version: Seq<char>,
)
    ensures
        ({
            let state = ConnView::Running { job_id, client_gone };
            let out = served(state, Event::Frame(Box::new(frame), audio), id, app_version);
            &&& out.state == state
            &&& out.frames.len() == 0
            &&& out.next is CancelJob <==> frame is Cancel || frame is Bye
            &&& out.next is Wait <==> !(frame is Cancel || frame is Bye)
        }),
{
}

/// The greeting says which protocols are spoken, by which app and which process.
pub proof fn law_the_greeting_says_who_we_are(app_version: Seq<char>, pid: u32)
    ensures
        hello_view(app_version, pid) == (FrameView::Hello {
            protocol: 1,
            min_protocol: 1,
            app_version,
            pid,
        }),
{
}

/// An answer carries what the handler gave, under the name of its job.
pub proof fn law_an_answer_carries_its_outcome(job_id: Seq<char>, outcome: HandlerResult)
    ensures
        match (outcome, answer_view(job_id, outcome)) {
            (Ok(body), FrameView::Result { job_id: named, body: told }) => named == job_id && told
                == body@,
            (Err(e), FrameView::Error { job_id: named, code, message }) => named == Some(job_id)
                && code == e.code && message == e.message@,
            _ => false,
        },
{
}

/// Only a peer that is known to be somebody else is turned away.
pub proof fn law_only_strangers_are_foreign(peer: u32, uid: u32, maybe: Option<u32>)
    ensures
        foreign(Some(peer), Some(uid)) <==> peer != uid,
        !foreign(None, maybe),
        !foreign(maybe, None),
{
}

/// Inline audio is taken exactly where it is 16 kHz mono, of at most 512 MiB, and
/// all there; it is then decoded from its own bytes and no others. A file that is
/// elsewhere takes nothing off the stream.
pub proof fn law_inline_audio_is_16k_mono(
    pending: Seq<u8>,
    ended: bool,
    encoding: AudioEncoding,
    sample_rate: u32,
    channels: u16,
    byte_len: u64,
    path: String,
)
    ensures
        ({
            let source = AudioSource::Inline { encoding, sample_rate, channels, byte_len };
            let fits = byte_len <= 536870912 && sample_rate == 16000 && channels == 1;
            &&& inline_audio(pending, ended, source) is Ok <==> fits && byte_len <= pending.len()
            &&& fits && byte_len <= pending.len() ==> inline_audio(pending, ended, source)->Ok_0
                == Some(encoding.words(pending.take(byte_len as int))) && inline_consumed(
                pending,
                ended,
                source,
            ) == byte_len
            &&& byte_len > 536870912 ==> (inline_audio(pending, ended, source) matches Err(Some(e))
                && e.0 == ErrorCode::PayloadTooLarge)
            &&& byte_len <= 536870912 && !(sample_rate == 16000 && channels == 1) ==> (inline_audio(
                pending,
                ended,
                source,
            ) matches Err(Some(e)) && e.0 == ErrorCode::BadRequest)
            &&& fits && byte_len > pending.len() && !ended ==> inline_audio(pending, ended, source)
                == Err::<Option<Seq<i32>>, Option<(ErrorCode, Seq<char>)>>(None)
            &&& fits && byte_len > pending.len() && ended ==> (inline_audio(
                pending,
                ended,
                source,
            ) matches Err(Some(e)) && e.0 == ErrorCode::IoError)
            &&& inline_audio(pending, ended, source) is Err ==> inline_consumed(
                pending,
                ended,
                source,
            ) == 0
        }),
        inline_audio(pending, ended, AudioSource::Path { path }) == Ok::<
            Option<Seq<i32>>,
            Option<(ErrorCode, Seq<char>)>,
        >(None),
        inline_consumed(pending, ended, AudioSource::Path { path }) == 0,
{
}

/// A request that carries no audio is handed on at once, with none, and takes
/// nothing off the stream; one that cannot be parsed, and a socket that fails, end
/// the connection with the reason.
pub proof fn law_a_reader_hands_on_what_it_read(
    v: ReaderView,
    frame: ClientFrame,
    detail: Seq<char>,
)
    requires
        !(frame is Transcribe),
    ensures
        reader_parsed(v, Ok(frame)).1 == ReaderOut::Frame(frame, None),
        reader_parsed(v, Ok(frame)).0.pending == v.pending,
        reader_parsed(v, Ok(frame)).0.phase is Line,
        reader_parsed(v, Err(detail)).1 == ReaderOut::Closed(
            Some((ErrorCode::BadRequest, "could not parse request: bad frame: "@ + detail)),
        ),
        reader_parsed(v, Err(detail)).0.phase is Stopped,
        reader_failed(v, detail).0.phase is Stopped,
        v.phase is Stopped ==> reader_failed(v, detail).1 is Stopped,
        v.phase is Audio ==> reader_failed(v, detail).1 == ReaderOut::Closed(
            Some((ErrorCode::IoError, "reading audio payload: "@ + detail)),
        ),
        v.phase is Line || v.phase is Parse ==> reader_failed(v, detail).1 == ReaderOut::Closed(
            Some((ErrorCode::BadRequest, "could not parse request: "@ + detail)),
        ),
{
}

/// A reader that stopped, or whose line is being parsed, reads nothing.
pub proof fn law_a_stopped_reader_reads_nothing(v: ReaderView)
    requires
        v.phase is Stopped || v.phase is Parse,
    ensures
        reader_poll(v) == (v, ReaderOut::Stopped),
{
}

/// A job's name starts with its process and ends with its number.
pub proof fn law_a_job_id_names_process_and_number(pid: u32, n: u64)
    ensures
        text::decimal_text(pid as nat).is_prefix_of(job_id_text(pid, n)),
        job_id_text(pid, n).len() == text::decimal_text(pid as nat).len() + 1
            + text::decimal_text(n as nat).len(),
        job_id_text(pid, n)[text::decimal_text(pid as nat).len() as int] == '-',
        job_id_text(pid, n).skip((text::decimal_text(pid as nat).len() + 1) as int) == text::decimal_text(
            n as nat,
        ),
{
    let head = text::decimal_text(pid as nat);
    let tail = text::decimal_text(n as nat);
    reveal_strlit("-");
    assert(job_id_text(pid, n).subrange(0, head.len() as int) =~= head);
    assert(job_id_text(pid, n).skip((head.len() + 1) as int) =~= tail);
}

/// What is handed on between the parts of a connection stays what it is: errors their
/// code and message, frames their order, audio its samples.
pub proof fn law_what_is_handed_on_stays_the_same(
    e: HandlerError,
    frames: Seq<ServerFrame>,
    i: int,
    frame: Box<ClientFrame>,
    audio: Option<Vec<i32>>,
)
    requires
        0 <= i < frames.len(),
    ensures
        e.shown().0 == e.code,
        e.shown().1 == e.message@,
        frame_views(frames).len() == frames.len(),
        frame_views(frames)[i] == frames[i]@,
        emitted(Event::Frame(frame, audio)) matches Some(ReaderOut::Frame(f, words)) && f == *frame
            && (words is Some) == (audio is Some) && (words is Some ==> words->0 == (audio->0)@),
        emitted(Event::Closed(Some(e))) == Some(ReaderOut::Closed(Some((e.code, e.message@)))),
        emitted(Event::Closed(None)) == Some(ReaderOut::Closed(None)),
        emitted(Event::JobDone) is None,
        emitted(Event::JobNotStarted) is None,
        emitted(Event::Disconnected) is None,
{
}

/// A reader's step does what the reader decided.
pub proof fn law_a_reader_step_does_what_was_decided(step: ReaderStep, out: ReaderOut)
    requires
        step.is(out),
    ensures
        match step {
            ReaderStep::NeedBytes => out is NeedBytes,
            ReaderStep::Parse(line) => out == ReaderOut::Parse(line@),
            ReaderStep::Emit(Event::Frame(frame, audio)) => {
                &&& out matches ReaderOut::Frame(f, words)
                &&& f == *frame
                &&& (words is Some) == (audio is Some)
                &&& words is Some ==> words->0 == (audio->0)@
            },
            ReaderStep::Emit(Event::Closed(Some(e))) => out == ReaderOut::Closed(
                Some((e.code, e.message@)),
            ),
            ReaderStep::Emit(Event::Closed(None)) => out == ReaderOut::Closed(None),
            ReaderStep::Emit(_) => false,
            ReaderStep::Stopped => out is Stopped,
        },
{
}

/// A job name is used up exactly where an idle connection answers a ping, a status
/// request or a transcription.
pub proof fn law_what_uses_up_a_name(
    state: ConnView,
    event: Event,
    frame: ClientFrame,
    audio: Option<Vec<i32>>,
)
    ensures
        uses_id(ConnView::Idle, Event::Frame(Box::new(frame), audio)) <==> frame is Ping
            || frame is Status || frame is Transcribe,
        !(state is Idle) ==> !uses_id(state, event),
        !(event is Frame) ==> !uses_id(state, event),
{
}

/// A request whose audio is elsewhere is handed on at once, with none, and takes
/// nothing off the stream.
pub proof fn law_audio_that_is_elsewhere_takes_no_bytes(
    v: ReaderView,
    request: TranscribeRequest,
)
    requires
        request.audio is Path,
    ensures
        ({
            let frame = ClientFrame::Transcribe(Box::new(request));
            let (after, out) = reader_parsed(v, Ok(frame));
            &&& out == ReaderOut::Frame(frame, None)
            &&& after.pending == v.pending
            &&& after.phase is Line
        }),
{
    assert(v.pending.skip(0) =~= v.pending);
}

/// A progress report names its job and carries its stage, message, time and fraction
/// as they are.
pub proof fn law_progress_is_reported_as_it_is(
    job_id: Seq<char>,
    stage: Stage,
    message: Option<Seq<char>>,
    elapsed_ms: u64,
    fraction: Option<u64>,
)
    ensures
        progress_view(job_id, stage, message, elapsed_ms, fraction) matches FrameView::Progress {
            job_id: a,
            stage: b,
            message: c,
            elapsed_ms: d,
            fraction: e,
        } && a == job_id && b == stage && c == message && d == elapsed_ms && e == fraction,
{
}

} // verus!
