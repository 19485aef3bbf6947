//! Client mode: everything `handy` does *without* starting the app.
//!
//! stdout carries the result and nothing else; diagnostics go to stderr. Files,
//! sockets and the terminal stay outside: each step says which lines to print
//! and what to do next.

use crate::cli;
use crate::cli::output;
use crate::cli::output::ProgressDisplay;
use crate::cli::output::ProgressLine;
use crate::cli::CliArgs;
use crate::cli::Command;
use crate::cli::CommonArgs;
use crate::cli::IfBusy;
use crate::cli::TranscribeArgs;
use crate::client::ConnectError;
use crate::paths;
use crate::protocol::AudioEncoding;
use crate::protocol::AudioSource;
use crate::protocol::ErrorCode;
use crate::protocol::ResultBody;
use crate::protocol::ServerFrame;
use crate::protocol::TranscribeRequest;
use crate::protocol::WaitPolicy;
use crate::text;
use crate::WHISPER_SAMPLE_RATE;
use vstd::prelude::*;

verus! {

// ---------------------------------------------------------------------------
// Dispatch
// ---------------------------------------------------------------------------

/// Outcome of client dispatch.
#[derive(Debug)]
pub enum Dispatch {
    /// The work is done; exit with this code.
    Exit(i32),
    /// Not a client invocation — carry on and start the app, with these
    /// arguments.
    RunApp(Box<CliArgs>),
}

/// What a bare invocation comes to.
#[derive(Debug)]
pub enum BareStep {
    /// It was not bare.
    Command(Command),
    /// Parse these arguments as a `transcribe`; where that fails, the exit status
    /// is a usage error.
    Parse(Vec<String>),
    /// It is a mistyped verb: print these lines on stderr and exit with this
    /// status.
    Unknown { lines: Vec<String>, exit: i32 },
}

/// The first token of a bare invocation.
pub open spec fn first_token(raw: Seq<String>) -> Seq<char> {
    if raw.len() == 0 {
        Seq::empty()
    } else {
        raw[0]@
    }
}

/// What is said of a mistyped verb.
pub open spec fn unknown_lines(token: Seq<char>) -> Seq<Seq<char>> {
    let head = seq!["handy: unknown subcommand '"@ + token + "'"@];
    let tail = seq!["  run `handy --help` for the full list"@];
    match cli::closest(token) {
        Some(verb) => head + seq!["  did you mean `handy "@ + verb + "`?"@] + tail,
        None => head + tail,
    }
}

fn describe_unknown(token: &str) -> (r: Vec<String>)
    ensures
        text::texts(r@) == unknown_lines(token@),
{
    let mut lines: Vec<String> = Vec::new();
    lines.push("handy: unknown subcommand '".to_owned().concat(token).concat("'"));
    if let Some(verb) = cli::closest_verb(token) {
        lines.push("  did you mean `handy ".to_owned().concat(verb).concat("`?"));
    }
    lines.push("  run `handy --help` for the full list".to_owned());
    assert(text::texts(lines@) =~= unknown_lines(token@));
    lines
}

/// What the tokens of a bare invocation come to: the arguments to parse, or what
/// is said of a mistyped verb.
fn resolve_tokens(raw: &Vec<String>, exists: bool) -> (r: Result<Vec<String>, Vec<String>>)
    ensures
        match r {
            Ok(argv) => !(cli::verb_like(first_token(raw@)) && !exists) && text::texts(argv@)
                == seq!["handy"@] + text::texts(raw@),
            Err(lines) => cli::verb_like(first_token(raw@)) && !exists && text::texts(lines@)
                == unknown_lines(first_token(raw@)),
        },
{
    let token: String = if raw.len() == 0 {
        String::new()
    } else {
        raw[0].clone()
    };
    assert(token@ =~= first_token(raw@));
    if cli::looks_like_a_verb(token.as_str()) && !exists {
        return Err(describe_unknown(token.as_str()));
    }
    let mut argv: Vec<String> = Vec::new();
    argv.push("handy".to_owned());
    let mut i: usize = 0;
    while i < raw.len()
        invariant
            i <= raw.len(),
            text::texts(argv@) =~= seq!["handy"@] + text::texts(raw@).take(i as int),
        decreases raw.len() - i,
    {
        let ghost earlier = text::texts(argv@);
        argv.push(raw[i].clone());
        assert(text::texts(argv@) =~= earlier.push(raw@[i as int]@));
        assert(text::texts(raw@)[i as int] == raw@[i as int]@);
        i = i + 1;
    }
    Ok(argv)
}

/// Re-parse a bare `handy FILE.wav [flags]` invocation as `transcribe`. A token
/// that looks like a verb and names no file is a mistyped verb; `exists` says
/// whether the first token names one.
pub fn resolve_bare(command: Command, exists: bool) -> (r: BareStep)
    ensures
        match command {
            Command::Bare(raw) => {
                let token = first_token(raw@);
                if cli::verb_like(token) && !exists {
                    r matches BareStep::Unknown { lines, exit } && exit == output::EXIT_USAGE
                        && text::texts(lines@) == unknown_lines(token)
                } else {
                    r matches BareStep::Parse(argv) && text::texts(argv@) == seq!["handy"@]
                        + text::texts(raw@)
                }
            },
            _ => r == BareStep::Command(command),
        },
{
    match command {
        Command::Bare(raw) => match resolve_tokens(&raw, exists) {
            Ok(argv) => BareStep::Parse(argv),
            Err(lines) => BareStep::Unknown { lines, exit: output::EXIT_USAGE },
        },
        other => BareStep::Command(other),
    }
}

/// What a command line comes to.
#[derive(Debug)]
pub enum DispatchStep {
    /// It is settled.
    Done(Dispatch),
    /// It is a mistyped verb: print these lines on stderr and exit.
    Unknown { lines: Vec<String>, exit: i32 },
    /// Parse these arguments as a `transcribe`, then continue with
    /// [`reparsed`].
    Parse(Vec<String>),
    Ping(CommonArgs),
    Status(CommonArgs),
    Transcribe(TranscribeArgs),
}

/// Handle a client invocation, if this is one. `exists` says whether the first
/// token of a bare invocation names a file.
pub fn dispatch(args: CliArgs, exists: bool) -> (r: DispatchStep)
    ensures
        match args.command {
            None => r == DispatchStep::Done(Dispatch::RunApp(Box::new(args))),
            Some(Command::Ping(common)) => r == DispatchStep::Ping(common),
            Some(Command::Status(common)) => r == DispatchStep::Status(common),
            Some(Command::Transcribe(t)) => r == DispatchStep::Transcribe(t),
            Some(Command::Bare(raw)) => {
                let token = first_token(raw@);
                if cli::verb_like(token) && !exists {
                    r matches DispatchStep::Unknown { lines, exit } && exit == output::EXIT_USAGE
                        && text::texts(lines@) == unknown_lines(token)
                } else {
                    r matches DispatchStep::Parse(argv) && text::texts(argv@) == seq!["handy"@]
                        + text::texts(raw@)
                }
            },
        },
{
    if args.command.is_none() {
        return DispatchStep::Done(Dispatch::RunApp(Box::new(args)));
    }
    match args.command.unwrap() {
        Command::Ping(common) => DispatchStep::Ping(common),
        Command::Status(common) => DispatchStep::Status(common),
        Command::Transcribe(t) => DispatchStep::Transcribe(t),
        Command::Bare(raw) => match resolve_tokens(&raw, exists) {
            Ok(argv) => DispatchStep::Parse(argv),
            Err(lines) => DispatchStep::Unknown { lines, exit: output::EXIT_USAGE },
        },
    }
}

/// The arguments of a bare invocation were parsed, or could not be.
pub fn reparsed(parsed: Option<TranscribeArgs>) -> (r: DispatchStep)
    ensures
        match parsed {
            Some(t) => r == DispatchStep::Transcribe(t),
            None => r == DispatchStep::Done(Dispatch::Exit(output::EXIT_USAGE)),
        },
{
    match parsed {
        Some(t) => DispatchStep::Transcribe(t),
        None => DispatchStep::Done(Dispatch::Exit(output::EXIT_USAGE)),
    }
}

// ---------------------------------------------------------------------------
// Helpers
// ---------------------------------------------------------------------------

/// Whether progress is shown: never where that was asked for, else where it was
/// asked for, else where stderr is a terminal.
pub open spec fn progress_shown(args: TranscribeArgs, terminal: bool) -> bool {
    !args.no_progress && !args.common.quiet && !args.ndjson && (args.progress || terminal)
}

/// Whether progress is shown.
pub fn show_progress(args: &TranscribeArgs, terminal: bool) -> (r: bool)
    ensures
        r == progress_shown(*args, terminal),
        args.no_progress || args.common.quiet || args.ndjson ==> !r,
        !(args.no_progress || args.common.quiet || args.ndjson) && args.progress ==> r,
        !(args.no_progress || args.common.quiet || args.ndjson) && !args.progress ==> r == terminal,
{
    if args.no_progress || args.common.quiet || args.ndjson {
        return false;
    }
    if args.progress {
        return true;
    }
    terminal
}

/// Whether loading a model in this process is wanted where no instance runs.
/// That means gigabytes of weights this process does not have, so it is opt-in.
pub open spec fn fallback_wanted(args: TranscribeArgs, fallback: Option<Seq<char>>) -> bool {
    args.if_busy == IfBusy::Local || (fallback is Some && text::same_ignoring_ascii_case(
        fallback->0,
        "local"@,
    ))
}

/// Whether loading a model in this process is wanted where no instance runs;
/// `fallback` is what the environment says.
pub fn wants_local_fallback(args: &TranscribeArgs, fallback: &Option<String>) -> (r: bool)
    ensures
        r == fallback_wanted(*args, text::opt_text(*fallback)),
{
    if args.if_busy == IfBusy::Local {
        return true;
    }
    match fallback {
        Some(value) => text::eq_ignore_ascii_case(value.as_str(), "local"),
        None => false,
    }
}

/// Whether `args` is the headless invocation for a transcribe.
pub open spec fn is_headless(args: CliArgs, t: TranscribeArgs, debug: bool) -> bool {
    &&& args.command is None
    &&& text::opt_text(args.transcribe_file) == Some(t.file@)
    &&& text::opt_text(args.model) == text::opt_text(t.model)
    &&& args.json == t.common.json
    &&& args.debug == debug
    &&& !args.start_hidden && !args.no_tray && !args.toggle_transcription
        && !args.toggle_post_process && !args.cancel && !args.list_devices && !args.list_models
        && !args.no_ipc
    &&& args.device_index is None && args.repeat is None
}

/// Rewrite a client transcribe into the existing headless invocation. It has no
/// command, so it does not enter client mode again.
pub fn local_args(args: &TranscribeArgs, debug: bool) -> (r: CliArgs)
    ensures
        is_headless(r, *args, debug),
{
    let base = CliArgs::default();
    CliArgs {
        transcribe_file: Some(args.file.clone()),
        model: text::copy_opt(&args.model),
        json: args.common.json,
        debug,
        ..base
    }
}

/// The arguments of a headless invocation, as the app takes them.
pub open spec fn headless_words(args: CliArgs) -> Seq<Seq<char>> {
    let file = match args.transcribe_file {
        Some(f) => seq!["-f"@, f@],
        None => seq![],
    };
    let model = match args.model {
        Some(m) => seq!["--model"@, m@],
        None => seq![],
    };
    let json = if args.json {
        seq!["--json"@]
    } else {
        seq![]
    };
    let debug = if args.debug {
        seq!["--debug"@]
    } else {
        seq![]
    };
    file + model + json + debug
}

/// The arguments of a headless invocation, as the app takes them.
pub fn headless_argv(args: &CliArgs) -> (r: Vec<String>)
    ensures
        text::texts(r@) == headless_words(*args),
{
    let mut out: Vec<String> = Vec::new();
    if let Some(file) = &args.transcribe_file {
        out.push("-f".to_owned());
        out.push(file.clone());
    }
    if let Some(model) = &args.model {
        out.push("--model".to_owned());
        out.push(model.clone());
    }
    if args.json {
        out.push("--json".to_owned());
    }
    if args.debug {
        out.push("--debug".to_owned());
    }
    assert(text::texts(out@) =~= headless_words(*args));
    out
}

/// The user's home directory, from the two variables that may name it.
pub fn home_dir(home: Option<String>, profile: Option<String>) -> (r: Option<String>)
    ensures
        r == (if home is Some {
            home
        } else {
            profile
        }),
{
    match home {
        Some(h) => Some(h),
        None => profile,
    }
}

/// `path` with a leading `~/` replaced by the home directory, where one is known.
pub open spec fn expanded(path: Seq<char>, home: Option<Seq<char>>, windows: bool) -> Seq<char> {
    if text::begins_with(path, "~/"@) && home is Some {
        paths::joined(home->0, path.skip(2), windows)
    } else {
        path
    }
}

/// Expand a leading `~/` that a quoted argument kept from the shell.
pub fn expand_tilde(path: &str, home: &Option<String>, windows: bool) -> (r: String)
    ensures
        r@ == expanded(path@, text::opt_text(*home), windows),
{
    if text::starts_with(path, "~/") {
        if let Some(h) = home {
            proof {
                reveal_strlit("~/");
            }
            let rest = text::without_first(path, 2);
            return paths::join(h.as_str(), rest.as_str(), windows);
        }
    }
    path.to_owned()
}

/// What is said of a path that cannot be resolved.
pub fn unresolved(path: &str, detail: &str) -> (r: String)
    ensures
        r@ == "cannot read "@ + path@ + ": "@ + detail@,
{
    "cannot read ".to_owned().concat(path).concat(": ").concat(detail)
}

/// The seconds of silence after which the client gives up: at least one.
pub fn idle_seconds(common: &CommonArgs) -> (r: u64)
    ensures
        r == (if common.idle_timeout == 0 {
            1
        } else {
            common.idle_timeout
        }),
{
    if common.idle_timeout == 0 {
        1
    } else {
        common.idle_timeout
    }
}

/// What is said when the client gives up waiting.
pub fn idle_note(common: &CommonArgs, seconds: u64) -> (r: Option<String>)
    ensures
        text::opt_text(r) == (if common.quiet {
            None
        } else {
            Some("handy: no response for "@ + text::decimal_text(seconds as nat) + "s; giving up"@)
        }),
{
    if common.quiet {
        None
    } else {
        Some(
            "handy: no response for ".to_owned().concat(text::decimal(seconds).as_str()).concat(
                "s; giving up",
            ),
        )
    }
}

// ---------------------------------------------------------------------------
// Simple requests
// ---------------------------------------------------------------------------

/// How a simple request ends.
#[derive(Debug)]
pub enum SimpleEnd {
    /// Print this answer, and exit with success.
    Answer(ResultBody),
    /// Print this line on stderr, and exit with this status.
    Failed { line: String, exit: i32 },
    /// Exit with this status.
    Exit(i32),
}

/// How a simple request ends, from what came of waiting for its result.
pub fn finish_simple(result: Result<ServerFrame, String>) -> (r: SimpleEnd)
    ensures
        match result {
            Ok(ServerFrame::Result { body, .. }) => r == SimpleEnd::Answer(body),
            Ok(ServerFrame::Error { code, message, .. }) => r matches SimpleEnd::Failed {
                line,
                exit,
            } && line@ == "handy: "@ + message@ && exit == output::exit_status(code),
            Ok(_) => r == SimpleEnd::Exit(output::EXIT_RUNTIME),
            Err(e) => r matches SimpleEnd::Failed { line, exit } && line@ == "handy: "@ + e@ && exit
                == output::EXIT_RUNTIME,
        },
{
    match result {
        Ok(frame) => match frame {
            ServerFrame::Result { body, .. } => SimpleEnd::Answer(body),
            ServerFrame::Error { code, message, .. } => SimpleEnd::Failed {
                line: "handy: ".to_owned().concat(message.as_str()),
                exit: output::exit_code_for(code),
            },
            _ => SimpleEnd::Exit(output::EXIT_RUNTIME),
        },
        Err(e) => SimpleEnd::Failed {
            line: "handy: ".to_owned().concat(e.as_str()),
            exit: output::EXIT_RUNTIME,
        },
    }
}

// ---------------------------------------------------------------------------
// Transcribing
// ---------------------------------------------------------------------------

/// What a transcription is asked to wait for: only a job that queues waits. One
/// that is done in this process instead has to hear at once that the engine is in
/// use.
pub open spec fn wait_policy_of(if_busy: IfBusy) -> WaitPolicy {
    match if_busy {
        IfBusy::Fail => WaitPolicy::FailFast,
        IfBusy::Wait => WaitPolicy::Wait { timeout_ms: None },
        IfBusy::Local => WaitPolicy::FailFast,
    }
}

/// Whether a request is the one that a command line asks for.
pub open spec fn is_request(
    r: TranscribeRequest,
    args: TranscribeArgs,
    label: Option<Seq<char>>,
    byte_len: u64,
) -> bool {
    &&& r.audio == (AudioSource::Inline {
        encoding: AudioEncoding::PcmF32Le,
        sample_rate: WHISPER_SAMPLE_RATE,
        channels: 1,
        byte_len,
    })
    &&& text::opt_text(r.source_label) == label
    &&& text::opt_text(r.model) == text::opt_text(args.model)
    &&& r.restore_model == !args.no_restore_model
    &&& r.raw == args.raw
    &&& r.post_process == args.llm_post_process
    &&& r.save_history == (args.history && !args.no_history)
    &&& r.paste == args.paste
    &&& r.wait_policy == wait_policy_of(args.if_busy)
    &&& r.want_progress
    &&& r.allow_streaming == !args.no_stream
    &&& r.want_partials == args.partials
}

/// What a job calls its source: the name of the file, without its directory, which
/// is nobody's business but the client's. `path` is the resolved one.
pub fn source_label(path: &str, windows: bool) -> (r: Option<String>)
    ensures
        text::opt_text(r) == paths::file_name_of(path@, windows),
{
    paths::file_name(path, windows)
}

/// The request that a command line asks for; `label` is the name of the file and
/// `byte_len` the size of its samples.
pub fn build_request(args: &TranscribeArgs, label: Option<String>, byte_len: u64) -> (r:
    TranscribeRequest)
    ensures
        is_request(r, *args, text::opt_text(label), byte_len),
        r.paste <==> args.paste,
        r.post_process <==> args.llm_post_process,
        r.raw <==> args.raw,
        r.want_partials <==> args.partials,
        r.save_history <==> args.history && !args.no_history,
        r.restore_model <==> !args.no_restore_model,
        r.allow_streaming <==> !args.no_stream,
        r.want_progress,
        match r.wait_policy {
            WaitPolicy::FailFast => args.if_busy != IfBusy::Wait,
            WaitPolicy::Wait { timeout_ms } => args.if_busy == IfBusy::Wait && timeout_ms is None,
        },
        r.source_label == label,
        (r.model is Some) == (args.model is Some),
        r.model is Some ==> (r.model->0)@ == (args.model->0)@,
        r.audio matches AudioSource::Inline { encoding, sample_rate, channels, byte_len: n }
            && encoding == AudioEncoding::PcmF32Le && sample_rate == 16000 && channels == 1 && n
            == byte_len,
{
    TranscribeRequest {
        audio: AudioSource::Inline {
            encoding: AudioEncoding::PcmF32Le,
            sample_rate: WHISPER_SAMPLE_RATE,
            channels: 1,
            byte_len,
        },
        source_label: label,
        model: text::copy_opt(&args.model),
        restore_model: !args.no_restore_model,
        raw: args.raw,
        post_process: args.llm_post_process,
        save_history: args.history && !args.no_history,
        paste: args.paste,
        wait_policy: match args.if_busy {
            IfBusy::Wait => WaitPolicy::Wait { timeout_ms: None },
            IfBusy::Fail | IfBusy::Local => WaitPolicy::FailFast,
        },
        want_progress: true,
        allow_streaming: !args.no_stream,
        want_partials: args.partials,
    }
}

/// What a run is waiting for.
#[derive(Debug, Clone, Copy, PartialEq, Eq, Structural)]
pub enum RunPhase {
    New,
    Path,
    Decode,
    Connect,
    Send,
    Over,
}

/// What a run comes to next.
pub enum RunActionView {
    ResolvePath(Seq<char>),
    Decode(Seq<char>),
    Connect,
    Send,
    Stream,
    RunApp,
    Exit(i32),
}

/// A step of a run: the lines to print on stderr, and what comes next.
pub struct RunOut {
    pub phase: RunPhase,
    pub lines: Seq<Seq<char>>,
    pub action: RunActionView,
}

/// A run that ends with one line and a status.
pub open spec fn run_fails(line: Seq<char>, exit: i32) -> RunOut {
    RunOut { phase: RunPhase::Over, lines: seq!["handy: "@ + line], action: RunActionView::Exit(exit) }
}

/// The start of a run: `--local` never touches the socket.
pub open spec fn run_started(args: TranscribeArgs) -> RunOut {
    if args.local {
        RunOut { phase: RunPhase::Over, lines: seq![], action: RunActionView::RunApp }
    } else {
        RunOut {
            phase: RunPhase::Path,
            lines: seq![],
            action: RunActionView::ResolvePath(args.file@),
        }
    }
}

/// The file was found, or was not.
pub open spec fn run_resolved(result: Result<Seq<char>, Seq<char>>, progress: bool) -> RunOut {
    match result {
        Err(message) => run_fails(message, output::EXIT_USAGE),
        Ok(path) => RunOut {
            phase: RunPhase::Decode,
            lines: if progress {
                seq!["handy: reading "@ + path]
            } else {
                seq![]
            },
            action: RunActionView::Decode(path),
        },
    }
}

/// The file was decoded, or could not be. A conversion is reported.
pub open spec fn run_decoded(result: Result<(bool, Seq<char>), Seq<char>>, progress: bool) -> RunOut {
    match result {
        Err(message) => run_fails(message, output::EXIT_USAGE),
        Ok((native, description)) => RunOut {
            phase: RunPhase::Connect,
            lines: if progress && !native {
                seq!["handy: converted "@ + description + " to 16000 Hz / 1 ch"@]
            } else {
                seq![]
            },
            action: RunActionView::Connect,
        },
    }
}

/// The connection was made, or could not be.
pub open spec fn run_connected(
    result: Result<(), crate::client::ConnectErrorView>,
    fallback: bool,
) -> RunOut {
    match result {
        Ok(_) => RunOut { phase: RunPhase::Send, lines: seq![], action: RunActionView::Send },
        Err(e) => if e is NotRunning && fallback {
            RunOut {
                phase: RunPhase::Over,
                lines: seq![
                    "handy: "@ + e.text(),
                    "handy: no running instance; transcribing locally"@,
                ],
                action: RunActionView::RunApp,
            }
        } else {
            run_fails(e.text(), output::connect_status(e))
        },
    }
}

/// The request was sent, or could not be.
pub open spec fn run_sent(result: Result<(), Seq<char>>) -> RunOut {
    match result {
        Ok(_) => RunOut { phase: RunPhase::Over, lines: seq![], action: RunActionView::Stream },
        Err(message) => run_fails(message, output::EXIT_RUNTIME),
    }
}

/// What a run comes to next.
#[derive(Debug)]
pub enum RunAction {
    /// Find the file; continue with [`TranscribeRun::path_resolved`].
    ResolvePath(String),
    /// Decode the file; continue with [`TranscribeRun::decoded`].
    Decode(String),
    /// Connect; continue with [`TranscribeRun::connected`].
    Connect,
    /// Send this request and its audio; continue with [`TranscribeRun::sent`].
    Send(Box<TranscribeRequest>),
    /// Follow the job with a [`TranscriptStream`].
    Stream,
    /// Start the app with these arguments.
    RunApp(Box<CliArgs>),
    /// Exit with this status.
    Exit(i32),
}

/// A step of a run.
#[derive(Debug)]
pub struct RunStep {
    /// Lines for stderr.
    pub lines: Vec<String>,
    pub action: RunAction,
}

impl RunStep {
    /// Whether this is the step that the model takes, for a run with the given
    /// arguments.
    pub open spec fn is(self, out: RunOut, args: TranscribeArgs, debug: bool) -> bool {
        &&& text::texts(self.lines@) == out.lines
        &&& match (self.action, out.action) {
            (RunAction::ResolvePath(p), RunActionView::ResolvePath(v)) => p@ == v,
            (RunAction::Decode(p), RunActionView::Decode(v)) => p@ == v,
            (RunAction::Connect, RunActionView::Connect) => true,
            (RunAction::Send(_), RunActionView::Send) => true,
            (RunAction::Stream, RunActionView::Stream) => true,
            (RunAction::RunApp(app), RunActionView::RunApp) => is_headless(*app, args, debug),
            (RunAction::Exit(code), RunActionView::Exit(v)) => code == v,
            _ => false,
        }
    }
}

fn no_lines(action: RunAction) -> (r: RunStep)
    ensures
        text::texts(r.lines@) == Seq::<Seq<char>>::empty(),
        r.action == action,
{
    let lines: Vec<String> = Vec::new();
    assert(text::texts(lines@) =~= Seq::<Seq<char>>::empty());
    RunStep { lines, action }
}

fn one_line(line: String, action: RunAction) -> (r: RunStep)
    ensures
        text::texts(r.lines@) == seq![line@],
        r.action == action,
{
    let mut lines: Vec<String> = Vec::new();
    lines.push(line);
    assert(text::texts(lines@) =~= seq![line@]);
    RunStep { lines, action }
}

fn failure(message: &str, exit: i32) -> (r: RunStep)
    ensures
        text::texts(r.lines@) == run_fails(message@, exit).lines,
        r.action == RunAction::Exit(exit),
{
    one_line("handy: ".to_owned().concat(message), RunAction::Exit(exit))
}

/// A source file, as far as it is reported.
#[derive(Debug)]
pub struct SourceNote {
    /// Whether it was read as it is.
    pub native: bool,
    pub description: String,
}

/// A `transcribe` invocation, from its arguments to the request.
///
/// The file is decoded here, in the process that already has the user's file
/// access; handing its path to the app instead would resolve it against the
/// wrong working directory, and would need consent that the app may not get.
#[derive(Debug)]
pub struct TranscribeRun {
    pub args: TranscribeArgs,
    pub debug: bool,
    pub progress: bool,
    pub fallback: bool,
    /// Whether paths are those of Windows.
    pub windows: bool,
    /// What the job calls its source, once the file was found.
    pub label: Option<String>,
    pub phase: RunPhase,
}

impl TranscribeRun {
    /// A run; `terminal` says whether stderr is a terminal, `fallback` is what the
    /// environment says about falling back, and `windows` says whose paths these
    /// are.
    pub fn new(
        args: TranscribeArgs,
        debug: bool,
        terminal: bool,
        fallback: &Option<String>,
        windows: bool,
    ) -> (r: Self)
        ensures
            r.args == args,
            r.debug == debug,
            r.progress == progress_shown(args, terminal),
            r.fallback == fallback_wanted(args, text::opt_text(*fallback)),
            r.windows == windows,
            r.label is None,
            r.phase == RunPhase::New,
    {
        let progress = show_progress(&args, terminal);
        let fallback = wants_local_fallback(&args, fallback);
        TranscribeRun {
            args,
            debug,
            progress,
            fallback,
            windows,
            label: None,
            phase: RunPhase::New,
        }
    }

    /// Begin.
    pub fn run_transcribe(&mut self) -> (r: RunStep)
        requires
            old(self).phase == RunPhase::New,
        ensures
            *final(self) == (TranscribeRun {
                phase: run_started(old(self).args).phase,
                ..*old(self)
            }),
            r.is(run_started(old(self).args), old(self).args, old(self).debug),
    {
        if self.args.local {
            self.phase = RunPhase::Over;
            let app = local_args(&self.args, self.debug);
            no_lines(RunAction::RunApp(Box::new(app)))
        } else {
            self.phase = RunPhase::Path;
            no_lines(RunAction::ResolvePath(self.args.file.clone()))
        }
    }

    /// The file was found, or was not.
    pub fn path_resolved(&mut self, result: Result<String, String>) -> (r: RunStep)
        requires
            old(self).phase == RunPhase::Path,
        ensures
            ({
                let given = match result {
                    Ok(path) => Ok(path@),
                    Err(e) => Err(e@),
                };
                let out = run_resolved(given, old(self).progress);
                &&& *final(self) == (TranscribeRun {
                    phase: out.phase,
                    label: final(self).label,
                    ..*old(self)
                })
                &&& text::opt_text(final(self).label) == (match result {
                    Ok(path) => paths::file_name_of(path@, old(self).windows),
                    Err(_) => text::opt_text(old(self).label),
                })
                &&& r.is(out, old(self).args, old(self).debug)
            }),
    {
        match result {
            Err(e) => {
                self.phase = RunPhase::Over;
                failure(e.as_str(), output::EXIT_USAGE)
            },
            Ok(path) => {
                self.phase = RunPhase::Decode;
                self.label = source_label(path.as_str(), self.windows);
                if self.progress {
                    let line = "handy: reading ".to_owned().concat(path.as_str());
                    one_line(line, RunAction::Decode(path))
                } else {
                    no_lines(RunAction::Decode(path))
                }
            },
        }
    }

    /// The file was decoded, or could not be.
    pub fn decoded(&mut self, result: Result<SourceNote, String>) -> (r: RunStep)
        requires
            old(self).phase == RunPhase::Decode,
        ensures
            ({
                let given = match result {
                    Ok(source) => Ok((source.native, source.description@)),
                    Err(e) => Err(e@),
                };
                let out = run_decoded(given, old(self).progress);
                &&& *final(self) == (TranscribeRun { phase: out.phase, ..*old(self) })
                &&& r.is(out, old(self).args, old(self).debug)
            }),
    {
        match result {
            Err(e) => {
                self.phase = RunPhase::Over;
                failure(e.as_str(), output::EXIT_USAGE)
            },
            Ok(source) => {
                self.phase = RunPhase::Connect;
                if self.progress && !source.native {
                    let line = "handy: converted ".to_owned().concat(
                        source.description.as_str(),
                    ).concat(" to 16000 Hz / 1 ch");
                    one_line(line, RunAction::Connect)
                } else {
                    no_lines(RunAction::Connect)
                }
            },
        }
    }

    /// The connection was made, or could not be; `byte_len` is the size of the
    /// file's samples.
    pub fn connected(&mut self, result: Result<(), ConnectError>, byte_len: u64) -> (r: RunStep)
        requires
            old(self).phase == RunPhase::Connect,
        ensures
            ({
                let given = match result {
                    Ok(_) => Ok(()),
                    Err(e) => Err(e@),
                };
                let out = run_connected(given, old(self).fallback);
                &&& *final(self) == (TranscribeRun { phase: out.phase, ..*old(self) })
                &&& r.is(out, old(self).args, old(self).debug)
            }),
            r.action matches RunAction::Send(request) ==> is_request(
                *request,
                old(self).args,
                text::opt_text(old(self).label),
                byte_len,
            ) && (request.paste <==> old(self).args.paste) && (request.post_process <==> old(
                self,
            ).args.llm_post_process) && (request.raw <==> old(self).args.raw) && (
            request.want_partials <==> old(self).args.partials),
    {
        match result {
            Ok(_) => {
                self.phase = RunPhase::Send;
                let label = text::copy_opt(&self.label);
                let request = build_request(&self.args, label, byte_len);
                no_lines(RunAction::Send(Box::new(request)))
            },
            Err(e) => {
                self.phase = RunPhase::Over;
                let exit: i32 = output::connect_exit(&e);
                if exit == output::EXIT_NOT_RUNNING && self.fallback {
                    let mut lines: Vec<String> = Vec::new();
                    lines.push("handy: ".to_owned().concat(e.message().as_str()));
                    lines.push("handy: no running instance; transcribing locally".to_owned());
                    assert(text::texts(lines@) =~= seq![
                        "handy: "@ + e@.text(),
                        "handy: no running instance; transcribing locally"@,
                    ]);
                    let app = local_args(&self.args, self.debug);
                    RunStep { lines, action: RunAction::RunApp(Box::new(app)) }
                } else {
                    failure(e.message().as_str(), exit)
                }
            },
        }
    }

    /// The request was sent, or could not be.
    pub fn sent(&mut self, result: Result<(), String>) -> (r: RunStep)
        requires
            old(self).phase == RunPhase::Send,
        ensures
            ({
                let given = match result {
                    Ok(_) => Ok(()),
                    Err(e) => Err(e@),
                };
                let out = run_sent(given);
                &&& *final(self) == (TranscribeRun { phase: out.phase, ..*old(self) })
                &&& r.is(out, old(self).args, old(self).debug)
            }),
    {
        self.phase = RunPhase::Over;
        match result {
            Ok(_) => no_lines(RunAction::Stream),
            Err(e) => failure(e.as_str(), output::EXIT_RUNTIME),
        }
    }
}

/// A `--local` run does nothing but start the app: it never looks for the file,
/// never connects, and prints nothing.
pub proof fn law_local_never_connects(args: TranscribeArgs)
    requires
        args.local,
    ensures
        run_started(args).action is RunApp,
        run_started(args).phase is Over,
        run_started(args).lines.len() == 0,
{
}

/// Nothing falls back silently: a run that could not connect starts the app only
/// where no instance is running and the fallback was asked for, and says so.
pub proof fn law_no_silent_fallback(
    result: Result<(), crate::client::ConnectErrorView>,
    fallback: bool,
)
    requires
        run_connected(result, fallback).action is RunApp,
    ensures
        fallback,
        result matches Err(e) && e is NotRunning,
        run_connected(result, fallback).lines.len() == 2,
{
}

/// Where nothing is running and no fallback was asked for, the client says so
/// and exits with the status that means it.
pub proof fn law_not_running_is_reported(e: crate::client::ConnectErrorView)
    requires
        e is NotRunning,
    ensures
        run_connected(Err(e), false).action == RunActionView::Exit(output::EXIT_NOT_RUNNING),
        run_connected(Err(e), false).lines == seq!["handy: "@ + e.text()],
{
}

/// A request says nothing of where its file lies: its audio comes with it, and its
/// label is the name of the file alone.
pub proof fn law_a_request_hides_the_directory(
    r: TranscribeRequest,
    args: TranscribeArgs,
    path: Seq<char>,
    windows: bool,
    byte_len: u64,
)
    requires
        is_request(r, args, paths::file_name_of(path, windows), byte_len),
    ensures
        r.audio is Inline,
        r.source_label matches Some(label) ==> {
            &&& label@.len() > 0
            &&& label@ == path.skip(path.len() - label@.len())
            &&& forall|i: int|
                0 <= i < label@.len() ==> !paths::separator(#[trigger] label@[i], windows)
        },
        r.source_label is None ==> path.len() == 0 || paths::separator(path.last(), windows),
{
    paths::lemma_last_name_is_the_end(path, windows);
}

/// The history is opt-in, and saying no to it wins.
pub proof fn law_history_is_opt_in(
    r: TranscribeRequest,
    args: TranscribeArgs,
    label: Option<Seq<char>>,
    byte_len: u64,
)
    requires
        is_request(r, args, label, byte_len),
        !args.history || args.no_history,
    ensures
        !r.save_history,
{
}

/// A headless rewrite never enters client mode again: its words hold the flag
/// that belongs to the app.
pub proof fn law_the_headless_rewrite_goes_to_the_app(
    app: CliArgs,
    args: TranscribeArgs,
    debug: bool,
)
    requires
        is_headless(app, args, debug),
    ensures
        app.command is None,
        headless_words(app).len() >= 2,
        headless_words(app)[0] == "-f"@,
        headless_words(app)[1] == args.file@,
        cli::names_app_flag(headless_words(app)[0]),
{
    reveal_strlit("-f");
    let flag = "-f"@;
    assert(flag.drop_first().drop_first() =~= Seq::<char>::empty());
    reveal_with_fuel(text::part_before, 3);
    assert(text::part_before(flag, '=') =~= flag);
}

// ---------------------------------------------------------------------------
// Following a job
// ---------------------------------------------------------------------------

/// What a reply of a running job makes the client do.
#[derive(Debug)]
pub struct StreamStep {
    /// Print the frame itself on stdout, as JSON.
    pub print_frame: bool,
    /// Show this progress on stderr.
    pub progress: Option<ProgressLine>,
    /// Print these lines on stderr.
    pub lines: Vec<String>,
    /// Send a cancel request.
    pub cancel: bool,
    /// The frame is the last one: continue with [`TranscriptStream::finish`].
    pub last: bool,
}

/// How a job ends for the client.
#[derive(Debug)]
pub enum StreamEnd {
    /// Print this transcript.
    Transcript(Box<crate::protocol::TranscriptBody>),
    /// Print this answer, and exit with success.
    Answer(ResultBody),
    /// Print these lines on stderr, and start the app with these arguments.
    RunApp { lines: Vec<String>, app: Box<CliArgs> },
    /// Print these lines on stderr, and exit with this status.
    Exit { lines: Vec<String>, exit: i32 },
}

impl StreamEnd {
    /// Whether this is the end that the model gives, for a run with the given
    /// arguments.
    pub open spec fn is(self, out: RunOut, args: TranscribeArgs, debug: bool) -> bool {
        match (self, out.action) {
            (StreamEnd::RunApp { lines, app }, RunActionView::RunApp) => text::texts(lines@)
                == out.lines && is_headless(*app, args, debug),
            (StreamEnd::Exit { lines, exit }, RunActionView::Exit(v)) => text::texts(lines@)
                == out.lines && exit == v,
            _ => false,
        }
    }
}

/// Follows a running job, reply by reply.
#[derive(Debug)]
pub struct TranscriptStream {
    pub args: TranscribeArgs,
    pub debug: bool,
    pub progress: bool,
    pub display: ProgressDisplay,
}

/// The lines that a reply prints besides progress: text decoded so far, where that
/// was asked for, and that the job is being cancelled.
pub open spec fn stream_lines(
    args: TranscribeArgs,
    progress: bool,
    frame: ServerFrame,
    cancel: bool,
) -> Seq<Seq<char>> {
    let decoded = match frame {
        ServerFrame::Partial { committed, tentative, .. } => if !args.ndjson && args.partials
            && !args.common.quiet {
            seq![committed@ + tentative@]
        } else {
            seq![]
        },
        _ => seq![],
    };
    if cancel && progress {
        decoded + seq!["handy: cancelling…"@]
    } else {
        decoded
    }
}

/// Whether a reply redraws the progress.
pub open spec fn stream_shows(args: TranscribeArgs, progress: bool, frame: ServerFrame) -> bool {
    !args.ndjson && progress && frame is Progress
}

/// Whether a job that failed is done in this process instead: the engine was in
/// use, and that is what was asked for then.
pub open spec fn goes_local(args: TranscribeArgs, code: ErrorCode) -> bool {
    code == ErrorCode::Busy && args.if_busy == IfBusy::Local
}

/// What a job that failed comes to.
pub open spec fn stream_failed(
    args: TranscribeArgs,
    code: ErrorCode,
    message: Seq<char>,
) -> RunOut {
    let said = if args.ndjson {
        seq![]
    } else {
        seq!["handy: "@ + message]
    };
    if goes_local(args, code) {
        RunOut {
            phase: RunPhase::Over,
            lines: said + seq!["handy: the engine is in use; transcribing locally"@],
            action: RunActionView::RunApp,
        }
    } else {
        RunOut {
            phase: RunPhase::Over,
            lines: said,
            action: RunActionView::Exit(output::exit_status(code)),
        }
    }
}

impl TranscriptStream {
    /// Follow a job; `terminal` says whether stderr is a terminal.
    pub fn stream_transcription(args: TranscribeArgs, debug: bool, terminal: bool) -> (r: Self)
        ensures
            r.args == args,
            r.debug == debug,
            r.progress == progress_shown(args, terminal),
            r.display == (ProgressDisplay { terminal, fraction: None, turn: 0 }),
    {
        let progress = show_progress(&args, terminal);
        TranscriptStream { args, debug, progress, display: ProgressDisplay::new(terminal) }
    }

    /// A reply arrived. `fraction` is its completion in millionths, where it
    /// carries one, and `interrupted` says whether the user asked to stop.
    pub fn received(&mut self, frame: &ServerFrame, fraction: Option<u64>, interrupted: bool) -> (r:
        StreamStep)
        ensures
            r.print_frame == old(self).args.ndjson,
            r.last == frame.terminal(),
            r.cancel == (interrupted && !frame.terminal()),
            text::texts(r.lines@) == stream_lines(
                old(self).args,
                old(self).progress,
                *frame,
                r.cancel,
            ),
            r.progress is Some <==> stream_shows(old(self).args, old(self).progress, *frame),
            final(self).args == old(self).args,
            final(self).debug == old(self).debug,
            final(self).progress == old(self).progress,
            match (r.progress, *frame) {
                (Some(p), ServerFrame::Progress { stage, message, elapsed_ms, .. }) => p.redraw
                    == old(self).display.terminal && p.text@ == output::report_line(
                    old(self).display,
                    stage,
                    text::opt_text(message),
                    elapsed_ms,
                    fraction,
                ) && final(self).display == output::after_report(
                    old(self).display,
                    stage,
                    fraction,
                ),
                _ => final(self).display == old(self).display,
            },
    {
        let last = frame.is_terminal();
        let cancel = interrupted && !last;
        let mut shown: Option<ProgressLine> = None;
        let mut lines: Vec<String> = Vec::new();
        match frame {
            ServerFrame::Progress { stage, message, elapsed_ms, .. } => {
                if !self.args.ndjson && self.progress {
                    shown = Some(self.display.show(*stage, message, *elapsed_ms, fraction));
                }
            },
            ServerFrame::Partial { committed, tentative, .. } => {
                if !self.args.ndjson && self.args.partials && !self.args.common.quiet {
                    lines.push(committed.clone().concat(tentative.as_str()));
                }
            },
            _ => {},
        }
        if cancel && self.progress {
            lines.push("handy: cancelling…".to_owned());
        }
        assert(text::texts(lines@) =~= stream_lines(self.args, self.progress, *frame, cancel));
        StreamStep { print_frame: self.args.ndjson, progress: shown, lines, cancel, last }
    }

    /// The last reply arrived.
    pub fn finish(&self, frame: ServerFrame) -> (r: StreamEnd)
        ensures
            match frame {
                ServerFrame::Result { body: ResultBody::Transcript(t), .. } => r
                    == StreamEnd::Transcript(t),
                ServerFrame::Result { body, .. } => r == StreamEnd::Answer(body),
                ServerFrame::Error { code, message, .. } => r.is(
                    stream_failed(self.args, code, message@),
                    self.args,
                    self.debug,
                ),
                _ => r matches StreamEnd::Exit { lines, exit } && exit == output::EXIT_RUNTIME
                    && lines@.len() == 0,
            },
    {
        match frame {
            ServerFrame::Result { body, .. } => match body {
                ResultBody::Transcript(t) => StreamEnd::Transcript(t),
                other => StreamEnd::Answer(other),
            },
            ServerFrame::Error { code, message, .. } => {
                let mut lines: Vec<String> = Vec::new();
                if !self.args.ndjson {
                    lines.push("handy: ".to_owned().concat(message.as_str()));
                }
                if code == ErrorCode::Busy && self.args.if_busy == IfBusy::Local {
                    lines.push("handy: the engine is in use; transcribing locally".to_owned());
                    assert(text::texts(lines@) =~= stream_failed(self.args, code, message@).lines);
                    let app = local_args(&self.args, self.debug);
                    return StreamEnd::RunApp { lines, app: Box::new(app) };
                }
                assert(text::texts(lines@) =~= stream_failed(self.args, code, message@).lines);
                StreamEnd::Exit { lines, exit: output::exit_code_for(code) }
            },
            _ => StreamEnd::Exit { lines: Vec::new(), exit: output::EXIT_RUNTIME },
        }
    }

    /// The stream ended without a result: the connection closed, or could not be
    /// read for the given reason.
    pub fn broken(&self, reason: Option<String>) -> (r: StreamEnd)
        ensures
            r matches StreamEnd::Exit { lines, exit } && exit == output::EXIT_RUNTIME
                && text::texts(lines@) == seq![
                "handy: "@ + (match reason {
                    Some(e) => e@,
                    None => "the connection closed before a result arrived"@,
                }),
            ],
    {
        let text = match reason {
            Some(e) => e,
            None => "the connection closed before a result arrived".to_owned(),
        };
        let step = one_line(
            "handy: ".to_owned().concat(text.as_str()),
            RunAction::Exit(output::EXIT_RUNTIME),
        );
        StreamEnd::Exit { lines: step.lines, exit: output::EXIT_RUNTIME }
    }
}

/// With `--if-busy local` a file never waits for the engine: the app is asked to
/// refuse at once, and where it refuses because the engine is in use the file is
/// transcribed in this process, which is said. Nothing else ends there, and a
/// busy engine is an exit status only where the user did not ask for that.
pub proof fn law_a_busy_engine_is_not_waited_for_locally(
    r: TranscribeRequest,
    args: TranscribeArgs,
    label: Option<Seq<char>>,
    byte_len: u64,
    code: ErrorCode,
    message: Seq<char>,
)
    requires
        is_request(r, args, label, byte_len),
    ensures
        ({
            let out = stream_failed(args, code, message);
            &&& args.if_busy == IfBusy::Local ==> r.wait_policy == WaitPolicy::FailFast
            &&& out.action is RunApp <==> args.if_busy == IfBusy::Local && code == ErrorCode::Busy
            &&& out.action is RunApp ==> out.lines.len() > 0 && out.lines.last()
                == "handy: the engine is in use; transcribing locally"@
            &&& !(out.action is RunApp) ==> out.action == RunActionView::Exit(
                output::exit_status(code),
            )
            &&& out.action == RunActionView::Exit(output::EXIT_BUSY) ==> args.if_busy
                != IfBusy::Local
        }),
{
}

/// Text that was decoded is printed wherever it was asked for, also with a reply
/// on which the job is being cancelled.
pub proof fn law_decoded_text_is_not_lost(
    args: TranscribeArgs,
    progress: bool,
    frame: ServerFrame,
    cancel: bool,
)
    requires
        !args.ndjson && args.partials && !args.common.quiet,
        frame is Partial,
    ensures
        stream_lines(args, progress, frame, cancel).len() > 0,
        frame matches ServerFrame::Partial { committed, tentative, .. } ==> stream_lines(
            args,
            progress,
            frame,
            cancel,
        )[0] == committed@ + tentative@,
{
}

/// With `--ndjson` nothing is said on stderr while a job runs.
pub proof fn law_ndjson_keeps_stderr_quiet(
    args: TranscribeArgs,
    terminal: bool,
    frame: ServerFrame,
    cancel: bool,
)
    requires
        args.ndjson,
    ensures
        !progress_shown(args, terminal),
        !stream_shows(args, progress_shown(args, terminal), frame),
        stream_lines(args, progress_shown(args, terminal), frame, cancel).len() == 0,
{
}

/// Pasting is opt-in: a request asks for it exactly where `--paste` was given. So
/// is everything else that is done with the text: post-processing, the raw text
/// and partial results are asked for exactly where their own flags were given, and
/// by nothing else on the command line.
pub proof fn law_pasting_is_opt_in(
    r: TranscribeRequest,
    args: TranscribeArgs,
    label: Option<Seq<char>>,
    byte_len: u64,
)
    requires
        is_request(r, args, label, byte_len),
    ensures
        r.paste <==> args.paste,
        r.post_process <==> args.llm_post_process,
        r.raw <==> args.raw,
        r.want_partials <==> args.partials,
        r.save_history <==> args.history && !args.no_history,
{
}

/// What is on unless it is switched off: restoring the model, the streaming engine,
/// and progress, which a client always follows.
pub proof fn law_what_has_to_be_switched_off(
    r: TranscribeRequest,
    args: TranscribeArgs,
    label: Option<Seq<char>>,
    byte_len: u64,
)
    requires
        is_request(r, args, label, byte_len),
    ensures
        r.restore_model <==> !args.no_restore_model,
        r.allow_streaming <==> !args.no_stream,
        r.want_progress,
{
}

/// A request names the model and the source that the command line names, and none
/// where it names none; it waits for a busy engine, without an end, exactly where
/// that was asked for; and it announces the client's samples as they are.
pub proof fn law_a_request_says_what_was_asked(
    r: TranscribeRequest,
    args: TranscribeArgs,
    label: Option<Seq<char>>,
    byte_len: u64,
)
    requires
        is_request(r, args, label, byte_len),
    ensures
        match args.model {
            Some(id) => r.model matches Some(m) && m@ == id@,
            None => r.model is None,
        },
        match label {
            Some(name) => r.source_label matches Some(l) && l@ == name,
            None => r.source_label is None,
        },
        args.if_busy == IfBusy::Wait <==> r.wait_policy is Wait,
        r.wait_policy matches WaitPolicy::Wait { timeout_ms } ==> timeout_ms is None,
        r.audio matches AudioSource::Inline { encoding, sample_rate, channels, byte_len: n }
            && encoding == AudioEncoding::PcmF32Le && sample_rate == 16000 && channels == 1 && n
            == byte_len,
{
}

/// Two command lines that differ in a flag of one kind ask for requests that differ
/// in nothing else: what a flag switches is its own field.
pub proof fn law_a_flag_switches_its_own_field(
    a: TranscribeRequest,
    b: TranscribeRequest,
    args: TranscribeArgs,
    label: Option<Seq<char>>,
    byte_len: u64,
)
    requires
        is_request(a, args, label, byte_len),
        is_request(b, (TranscribeArgs { paste: !args.paste, ..args }), label, byte_len),
    ensures
        a.paste != b.paste,
        a.post_process == b.post_process,
        a.raw == b.raw,
        a.want_partials == b.want_partials,
        a.save_history == b.save_history,
        a.restore_model == b.restore_model,
        a.allow_streaming == b.allow_streaming,
        a.wait_policy == b.wait_policy,
        a.want_progress == b.want_progress,
        a.audio == b.audio,
{
}

/// Progress is shown on a terminal or where it was asked for, and never where it
/// was switched off, where the client is to be quiet, or where stdout carries
/// machine-readable replies.
pub proof fn law_when_progress_is_shown(args: TranscribeArgs, terminal: bool)
    ensures
        args.no_progress ==> !progress_shown(args, terminal),
        args.common.quiet ==> !progress_shown(args, terminal),
        args.ndjson ==> !progress_shown(args, terminal),
        ({
            let muted = args.no_progress || args.common.quiet || args.ndjson;
            &&& !muted && args.progress ==> progress_shown(args, terminal)
            &&& !muted && terminal ==> progress_shown(args, terminal)
            &&& !args.progress && !terminal ==> !progress_shown(args, terminal)
        }),
{
}

/// A model is loaded in this process only where that was asked for: with
/// `--if-busy local`, or by the word `local` in the environment, in whatever case.
pub proof fn law_the_fallback_is_opt_in(args: TranscribeArgs, word: Seq<char>)
    ensures
        args.if_busy == IfBusy::Local ==> fallback_wanted(args, None) && fallback_wanted(
            args,
            Some(word),
        ),
        args.if_busy != IfBusy::Local ==> !fallback_wanted(args, None),
        args.if_busy != IfBusy::Local ==> (fallback_wanted(args, Some(word))
            <==> text::same_ignoring_ascii_case(word, "local"@)),
{
}

/// How a run goes on: the file that was named is looked for, the one that was found
/// is read, and then the app is connected to, asked and followed. A file that is
/// not there or cannot be read is a usage error, told in the words of whoever
/// looked; a request that cannot be sent is a runtime error.
pub proof fn law_how_a_run_goes(
    args: TranscribeArgs,
    path: Seq<char>,
    message: Seq<char>,
    native: bool,
    progress: bool,
    fallback: bool,
)
    ensures
        !args.local ==> run_started(args).action == RunActionView::ResolvePath(args.file@)
            && run_started(args).lines.len() == 0,
        run_resolved(Ok(path), progress).action == RunActionView::Decode(path),
        run_resolved(Ok(path), progress).phase is Decode,
        run_resolved(Ok(path), false).lines.len() == 0,
        run_resolved(Ok(path), true).lines == seq!["handy: reading "@ + path],
        run_resolved(Err(message), progress).action == RunActionView::Exit(2),
        run_resolved(Err(message), progress).lines == seq!["handy: "@ + message],
        run_resolved(Err(message), progress).phase is Over,
        run_decoded(Ok((native, path)), progress).action is Connect,
        run_decoded(Ok((native, path)), progress).phase is Connect,
        run_decoded(Ok((true, path)), progress).lines.len() == 0,
        run_decoded(Ok((native, path)), false).lines.len() == 0,
        run_decoded(Ok((false, path)), true).lines == seq![
            "handy: converted "@ + path + " to 16000 Hz / 1 ch"@,
        ],
        run_decoded(Err(message), progress).action == RunActionView::Exit(2),
        run_decoded(Err(message), progress).lines == seq!["handy: "@ + message],
        run_decoded(Err(message), progress).phase is Over,
        run_connected(Ok(()), fallback).action is Send,
        run_connected(Ok(()), fallback).phase is Send,
        run_connected(Ok(()), fallback).lines.len() == 0,
        run_sent(Ok(())).action is Stream,
        run_sent(Ok(())).lines.len() == 0,
        run_sent(Err(message)).action == RunActionView::Exit(1),
        run_sent(Err(message)).lines == seq!["handy: "@ + message],
        run_sent(Err(message)).phase is Over,
{
}

/// A connection that could not be made is told and gives its own status, unless
/// nothing is running and the fallback was asked for: then the file is transcribed
/// in this process.
pub proof fn law_how_a_failed_connection_ends(e: crate::client::ConnectErrorView, fallback: bool)
    ensures
        ({
            let out = run_connected(Err(e), fallback);
            &&& out.phase is Over
            &&& out.lines[0] == "handy: "@ + e.text()
            &&& out.action is RunApp <==> e is NotRunning && fallback
            &&& !(out.action is RunApp) ==> out.lines.len() == 1 && out.action
                == RunActionView::Exit(output::connect_status(e))
        }),
{
}

/// A step that stands for one of the model's does what that one says.
pub proof fn law_a_step_does_what_it_stands_for(
    step: RunStep,
    out: RunOut,
    args: TranscribeArgs,
    debug: bool,
)
    requires
        step.is(out, args, debug),
    ensures
        step.lines@.len() == out.lines.len(),
        forall|i: int| 0 <= i < out.lines.len() ==> #[trigger] step.lines@[i]@ == out.lines[i],
        match step.action {
            RunAction::ResolvePath(path) => out.action == RunActionView::ResolvePath(path@),
            RunAction::Decode(path) => out.action == RunActionView::Decode(path@),
            RunAction::Connect => out.action is Connect,
            RunAction::Send(_) => out.action is Send,
            RunAction::Stream => out.action is Stream,
            RunAction::RunApp(app) => out.action is RunApp && is_headless(*app, args, debug),
            RunAction::Exit(code) => out.action == RunActionView::Exit(code),
        },
{
    let shown = text::texts(step.lines@);
    assert(shown == out.lines);
    assert forall|i: int| 0 <= i < out.lines.len() implies #[trigger] step.lines@[i]@
        == out.lines[i] by {
        assert(shown[i] == step.lines@[i]@);
    }
}

/// How a job that failed is told: with its message, except where stdout already
/// carries it as a reply.
pub proof fn law_how_a_failed_job_is_told(
    args: TranscribeArgs,
    code: ErrorCode,
    message: Seq<char>,
    end: StreamEnd,
    debug: bool,
)
    requires
        end.is(stream_failed(args, code, message), args, debug),
    ensures
        match end {
            StreamEnd::RunApp { lines, app } => {
                &&& code == ErrorCode::Busy && args.if_busy == IfBusy::Local
                &&& is_headless(*app, args, debug)
                &&& text::texts(lines@) == (if args.ndjson {
                    seq!["handy: the engine is in use; transcribing locally"@]
                } else {
                    seq![
                        "handy: "@ + message,
                        "handy: the engine is in use; transcribing locally"@,
                    ]
                })
            },
            StreamEnd::Exit { lines, exit } => {
                &&& !(code == ErrorCode::Busy && args.if_busy == IfBusy::Local)
                &&& exit == output::exit_status(code)
                &&& exit != 0
                &&& text::texts(lines@) == (if args.ndjson {
                    seq![]
                } else {
                    seq!["handy: "@ + message]
                })
            },
            _ => false,
        },
{
    let lines = match end {
        StreamEnd::RunApp { lines, .. } => text::texts(lines@),
        StreamEnd::Exit { lines, .. } => text::texts(lines@),
        _ => Seq::empty(),
    };
    if goes_local(args, code) {
        if args.ndjson {
            assert(lines =~= seq!["handy: the engine is in use; transcribing locally"@]);
        } else {
            assert(lines =~= seq![
                "handy: "@ + message,
                "handy: the engine is in use; transcribing locally"@,
            ]);
        }
    }
}

/// What is said while a job runs: text decoded so far where that was asked for and
/// nobody asked for quiet or for machine-readable replies; that the job is being
/// cancelled, where progress is shown; and nothing else. Progress is redrawn by
/// every report of it, and by nothing else.
pub proof fn law_what_is_said_while_a_job_runs(
    args: TranscribeArgs,
    progress: bool,
    frame: ServerFrame,
    cancel: bool,
)
    ensures
        ({
            let lines = stream_lines(args, progress, frame, cancel);
            let text = frame is Partial && args.partials && !args.ndjson && !args.common.quiet;
            &&& lines.len() == (if text {
                1int
            } else {
                0int
            }) + (if cancel && progress {
                1int
            } else {
                0int
            })
            &&& text ==> (frame matches ServerFrame::Partial { committed, tentative, .. }
                && lines[0] == committed@ + tentative@)
            &&& cancel && progress ==> lines.last() == "handy: cancelling…"@
        }),
        stream_shows(args, progress, frame) ==> progress && !args.ndjson,
        frame is Progress && progress && !args.ndjson ==> stream_shows(args, progress, frame),
        !(frame is Progress) ==> !stream_shows(args, progress, frame),
{
}

/// A headless rewrite keeps the file, the model, and the wish for JSON and for
/// debugging, and asks for nothing else.
pub proof fn law_the_headless_rewrite_keeps_its_arguments(
    app: CliArgs,
    args: TranscribeArgs,
    debug: bool,
)
    requires
        is_headless(app, args, debug),
    ensures
        app.transcribe_file matches Some(f) && f@ == args.file@,
        match args.model {
            Some(id) => app.model matches Some(m) && m@ == id@,
            None => app.model is None,
        },
        app.json == args.common.json,
        app.debug == debug,
        app.command is None && app.device_index is None && app.repeat is None,
        !app.start_hidden && !app.no_tray && !app.toggle_transcription && !app.toggle_post_process
            && !app.cancel && !app.list_devices && !app.list_models && !app.no_ipc,
        ({
            let words = headless_words(app);
            let n: int = if args.model is Some {
                4
            } else {
                2
            };
            &&& words[0] == "-f"@ && words[1] == args.file@
            &&& args.model matches Some(id) ==> words[2] == "--model"@ && words[3] == id@
            &&& args.common.json ==> words[n] == "--json"@
            &&& debug ==> words.last() == "--debug"@
            &&& words.len() == n + (if args.common.json {
                1int
            } else {
                0int
            }) + (if debug {
                1int
            } else {
                0int
            })
        }),
{
}

/// A leading `~/` stands for the home directory where one is known, and every other
/// path stays as it is.
pub proof fn law_only_a_leading_tilde_is_expanded(
    path: Seq<char>,
    home: Seq<char>,
    windows: bool,
)
    ensures
        expanded(path, None, windows) == path,
        !(path.len() >= 2 && path[0] == '~' && path[1] == '/') ==> expanded(
            path,
            Some(home),
            windows,
        ) == path,
        expanded("~/"@ + path, Some(home), windows) == paths::joined(home, path, windows),
{
    reveal_strlit("~/");
    let tilde = "~/"@;
    assert((tilde + path).skip(2) =~= path);
    assert((tilde + path).take(2) =~= tilde);
    if path.len() >= 2 && text::begins_with(path, tilde) {
        assert(path.take(2)[0] == '~' && path.take(2)[1] == '/');
    }
}

/// A mistyped verb is named, with the closest one where one is close, and the
/// way to the full list comes last.
pub proof fn law_a_mistyped_verb_is_named(token: Seq<char>)
    ensures
        unknown_lines(token)[0] == "handy: unknown subcommand '"@ + token + "'"@,
        unknown_lines(token).last() == "  run `handy --help` for the full list"@,
        unknown_lines(token).len() == (if cli::closest(token) is Some {
            3int
        } else {
            2int
        }),
        cli::closest(token) matches Some(verb) ==> unknown_lines(token)[1]
            == "  did you mean `handy "@ + verb + "`?"@,
{
}

/// A bare command line is judged by its first word.
pub proof fn law_the_first_word_decides(raw: Seq<String>)
    ensures
        raw.len() > 0 ==> first_token(raw) == raw[0]@,
        raw.len() == 0 ==> first_token(raw).len() == 0,
{
}

} // verus!
