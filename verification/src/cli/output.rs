//! What the client prints, and what it exits with.
//!
//! stdout carries the result and nothing else. Everything that is said besides
//! goes to stderr.

use crate::client::ConnectError;
use crate::client::ConnectErrorView;
use crate::cli::TranscribeArgs;
use crate::protocol::ErrorCode;
use crate::protocol::LeaseOwner;
use crate::protocol::ResultBody;
use crate::protocol::Stage;
use crate::protocol::StatusBody;
use crate::protocol::TranscriptBody;
use crate::text;
use vstd::prelude::*;

verus! {

/// Success, an empty transcript included.
pub const EXIT_OK: i32 = 0;

/// Runtime failure.
pub const EXIT_RUNTIME: i32 = 1;

/// Usage error or unreadable input file.
pub const EXIT_USAGE: i32 = 2;

/// No running instance.
pub const EXIT_NOT_RUNNING: i32 = 3;

/// Engine busy.
pub const EXIT_BUSY: i32 = 4;

/// Protocol mismatch between this binary and the running app.
pub const EXIT_PROTOCOL: i32 = 5;

/// Cancelled.
pub const EXIT_CANCELLED: i32 = 6;

/// Model unavailable, not downloaded, or none selected.
pub const EXIT_MODEL: i32 = 7;

/// Empty transcript where that counts as a failure.
pub const EXIT_EMPTY: i32 = 8;

/// The exit status for a failed request.
pub open spec fn exit_status(code: ErrorCode) -> i32 {
    match code {
        ErrorCode::Busy => EXIT_BUSY,
        ErrorCode::Cancelled => EXIT_CANCELLED,
        ErrorCode::ProtocolMismatch => EXIT_PROTOCOL,
        ErrorCode::UnsupportedRequest => EXIT_PROTOCOL,
        ErrorCode::BadRequest => EXIT_USAGE,
        ErrorCode::PayloadTooLarge => EXIT_USAGE,
        ErrorCode::Forbidden => EXIT_USAGE,
        ErrorCode::NoModelSelected => EXIT_MODEL,
        ErrorCode::ModelNotAvailable => EXIT_MODEL,
        ErrorCode::ModelLoadFailed => EXIT_MODEL,
        ErrorCode::TranscriptionFailed => EXIT_RUNTIME,
        ErrorCode::IoError => EXIT_RUNTIME,
        ErrorCode::Internal => EXIT_RUNTIME,
        ErrorCode::TooManyClients => EXIT_RUNTIME,
    }
}

/// The exit status for a failed request.
pub fn exit_code_for(code: ErrorCode) -> (r: i32)
    ensures
        r == exit_status(code),
{
    match code {
        ErrorCode::Busy => EXIT_BUSY,
        ErrorCode::Cancelled => EXIT_CANCELLED,
        ErrorCode::ProtocolMismatch | ErrorCode::UnsupportedRequest => EXIT_PROTOCOL,
        ErrorCode::BadRequest | ErrorCode::PayloadTooLarge | ErrorCode::Forbidden => EXIT_USAGE,
        ErrorCode::NoModelSelected | ErrorCode::ModelNotAvailable | ErrorCode::ModelLoadFailed =>
        EXIT_MODEL,
        ErrorCode::TranscriptionFailed | ErrorCode::IoError | ErrorCode::Internal
        | ErrorCode::TooManyClients => EXIT_RUNTIME,
    }
}

/// The exit status for a connection that could not be made.
pub open spec fn connect_status(err: ConnectErrorView) -> i32 {
    match err {
        ConnectErrorView::NotRunning { .. } => EXIT_NOT_RUNNING,
        ConnectErrorView::ProtocolMismatch { .. } => EXIT_PROTOCOL,
        ConnectErrorView::Forbidden(_) => EXIT_USAGE,
        ConnectErrorView::Other(_) => EXIT_RUNTIME,
    }
}

/// The exit status for a connection that could not be made.
pub fn connect_exit(err: &ConnectError) -> (r: i32)
    ensures
        r == connect_status(err@),
{
    match err {
        ConnectError::NotRunning { .. } => EXIT_NOT_RUNNING,
        ConnectError::ProtocolMismatch { .. } => EXIT_PROTOCOL,
        ConnectError::Forbidden(_) => EXIT_USAGE,
        ConnectError::Other(_) => EXIT_RUNTIME,
    }
}

/// A failed request never exits as a success, nor as a missing instance or an
/// empty transcript, which are other answers.
pub proof fn law_failures_have_their_own_statuses(code: ErrorCode)
    ensures
        exit_status(code) != EXIT_OK,
        exit_status(code) != EXIT_NOT_RUNNING,
        exit_status(code) != EXIT_EMPTY,
        1 <= exit_status(code) <= 7,
{
}

// ---------------------------------------------------------------------------
// Durations and progress
// ---------------------------------------------------------------------------

/// A duration in whole seconds, as people read it.
pub open spec fn duration_text(secs: nat) -> Seq<char> {
    if secs >= 60 {
        text::decimal_text(secs / 60) + "m"@ + text::two_digit_text(secs % 60) + "s"@
    } else {
        text::decimal_text(secs) + "s"@
    }
}

/// A duration in whole seconds, as people read it.
pub fn format_duration(secs: u64) -> (r: String)
    ensures
        r@ == duration_text(secs as nat),
{
    if secs >= 60 {
        text::decimal(secs / 60).concat("m").concat(text::two_digits(secs % 60).as_str()).concat(
            "s",
        )
    } else {
        text::decimal(secs).concat("s")
    }
}

/// A line, and what the report says besides, where it says something.
pub open spec fn with_message(line: Seq<char>, message: Option<Seq<char>>) -> Seq<char> {
    match message {
        Some(m) => line + " — "@ + m,
        None => line,
    }
}

fn add_message(line: String, message: &Option<String>) -> (r: String)
    ensures
        r@ == with_message(line@, text::opt_text(*message)),
{
    match message {
        Some(m) => line.concat(" — ").concat(m.as_str()),
        None => line,
    }
}

/// A progress report as a line of its own, for a log.
pub open spec fn plain_line(stage: Stage, message: Option<Seq<char>>, elapsed_ms: u64) -> Seq<
    char,
> {
    with_message(
        "handy: "@ + stage.text() + " ("@ + duration_text((elapsed_ms / 1000) as nat) + ")"@,
        message,
    )
}

/// A progress report as a line of its own, for a log.
pub fn print_progress(stage: Stage, message: &Option<String>, elapsed_ms: u64) -> (r: String)
    ensures
        r@ == plain_line(stage, text::opt_text(*message), elapsed_ms),
{
    let head = "handy: ".to_owned().concat(stage.label()).concat(" (").concat(
        format_duration(elapsed_ms / 1000).as_str(),
    ).concat(")");
    add_message(head, message)
}

/// Cells of a progress bar.
pub const BAR_CELLS: u64 = 24;

/// What stands for all of it where a completion fraction is counted.
pub const WHOLE: u64 = 1000000;

/// A completion fraction, held to the whole.
pub open spec fn bounded(done: u64) -> u64 {
    if done > WHOLE {
        WHOLE
    } else {
        done
    }
}

/// A bar with the given number of cells filled.
pub open spec fn bar_text(filled: int) -> Seq<char> {
    Seq::new(
        BAR_CELLS as nat,
        |i: int|
            if i < filled {
                '#'
            } else {
                '.'
            },
    )
}

/// A percentage, padded to three places.
pub open spec fn percent_text(n: nat) -> Seq<char> {
    if n < 10 {
        "  "@ + text::decimal_text(n)
    } else if n < 100 {
        " "@ + text::decimal_text(n)
    } else {
        text::decimal_text(n)
    }
}

/// The seconds that the rest takes at the pace so far, as far as a `u64` counts.
pub open spec fn seconds_left(part: int, elapsed_ms: u64) -> int {
    let secs = elapsed_ms * (WHOLE - part) / part / 1000;
    if secs > u64::MAX {
        u64::MAX as int
    } else {
        secs
    }
}

/// A measured completion, drawn as a bar. The time that is left is what the rest
/// takes at the pace so far; before anything is done there is none to tell.
pub open spec fn bar_line(done: u64, elapsed_ms: u64) -> Seq<char> {
    let part = bounded(done) as int;
    let head = "handy: ["@ + bar_text(part * BAR_CELLS / (WHOLE as int)) + "] "@ + percent_text(
        (part * 100 / (WHOLE as int)) as nat,
    ) + "%  "@ + duration_text((elapsed_ms / 1000) as nat);
    if part == 0 {
        head
    } else {
        head + " (~"@ + duration_text(seconds_left(part, elapsed_ms) as nat) + " left)"@
    }
}

/// The spinner's character at its `n`-th turn.
pub open spec fn spinner(n: nat) -> Seq<char> {
    if n % 4 == 0 {
        "|"@
    } else if n % 4 == 1 {
        "/"@
    } else if n % 4 == 2 {
        "-"@
    } else {
        "\\"@
    }
}

/// Work that cannot be measured: a bar that lies is worse than no bar.
pub open spec fn spinner_line(turn: nat, stage: Stage, elapsed_ms: u64) -> Seq<char> {
    "handy: "@ + spinner(turn) + " "@ + stage.text() + " ("@ + duration_text(
        (elapsed_ms / 1000) as nat,
    ) + ")"@
}

fn draw_bar(filled: u64) -> (r: String)
    requires
        filled <= BAR_CELLS,
    ensures
        r@ == bar_text(filled as int),
{
    let mut bar: Vec<char> = Vec::new();
    let mut i: u64 = 0;
    while i < BAR_CELLS
        invariant
            i <= BAR_CELLS,
            bar@ =~= bar_text(filled as int).take(i as int),
        decreases BAR_CELLS - i,
    {
        bar.push(
            if i < filled {
                '#'
            } else {
                '.'
            },
        );
        i = i + 1;
    }
    assert(bar@ =~= bar_text(filled as int));
    text::text_of(&bar)
}

fn percent(n: u64) -> (r: String)
    ensures
        r@ == percent_text(n as nat),
{
    if n < 10 {
        "  ".to_owned().concat(text::decimal(n).as_str())
    } else if n < 100 {
        " ".to_owned().concat(text::decimal(n).as_str())
    } else {
        text::decimal(n)
    }
}

/// A measured completion, drawn as a bar; `done` counts in millionths.
pub fn draw_progress(done: u64, elapsed_ms: u64) -> (r: String)
    ensures
        r@ == bar_line(done, elapsed_ms),
{
    let part: u64 = if done > WHOLE {
        WHOLE
    } else {
        done
    };
    assert(part * 24 / 1000000 <= 24);
    let head = "handy: [".to_owned().concat(draw_bar(part * BAR_CELLS / WHOLE).as_str()).concat(
        "] ",
    ).concat(percent(part * 100 / WHOLE).as_str()).concat("%  ").concat(
        format_duration(elapsed_ms / 1000).as_str(),
    );
    if part == 0 {
        return head;
    }
    let e: u128 = elapsed_ms as u128;
    let rest: u128 = (WHOLE - part) as u128;
    assert(e * rest <= e * 1000000) by (nonlinear_arith)
        requires
            rest <= 1000000,
    ;
    let secs: u128 = e * rest / (part as u128) / 1000;
    let left: u64 = if secs > u64::MAX as u128 {
        u64::MAX
    } else {
        secs as u64
    };
    head.concat(" (~").concat(format_duration(left).as_str()).concat(" left)")
}

/// A line on stderr.
#[derive(Debug)]
pub struct ProgressLine {
    pub text: String,
    /// Draw over the previous line rather than below it.
    pub redraw: bool,
}

/// Draws progress on stderr: in place on a terminal, as lines of their own
/// elsewhere. It keeps the last completion fraction it saw, so that a heartbeat
/// that knows none does not take the bar away.
#[derive(Debug)]
pub struct ProgressDisplay {
    pub terminal: bool,
    /// Completion in millionths, where it was measured.
    pub fraction: Option<u64>,
    /// Turns of the spinner.
    pub turn: u64,
}

/// The completion fraction that is known after a report.
pub open spec fn known_fraction(before: Option<u64>, reported: Option<u64>) -> Option<u64> {
    if reported is Some {
        reported
    } else {
        before
    }
}

/// Whether a report turns the spinner.
pub open spec fn spins(display: ProgressDisplay, stage: Stage, reported: Option<u64>) -> bool {
    display.terminal && !(stage == Stage::Transcribing && known_fraction(
        display.fraction,
        reported,
    ) is Some)
}

/// The display after a report.
pub open spec fn after_report(
    display: ProgressDisplay,
    stage: Stage,
    reported: Option<u64>,
) -> ProgressDisplay {
    ProgressDisplay {
        terminal: display.terminal,
        fraction: known_fraction(display.fraction, reported),
        turn: if spins(display, stage, reported) {
            ((display.turn + 1) % 4) as u64
        } else {
            display.turn
        },
    }
}

/// The line for a report.
pub open spec fn report_line(
    display: ProgressDisplay,
    stage: Stage,
    message: Option<Seq<char>>,
    elapsed_ms: u64,
    reported: Option<u64>,
) -> Seq<char> {
    if !display.terminal {
        plain_line(stage, message, elapsed_ms)
    } else if spins(display, stage, reported) {
        with_message(spinner_line(display.turn as nat, stage, elapsed_ms), message)
    } else {
        with_message(bar_line(known_fraction(display.fraction, reported)->0, elapsed_ms), message)
    }
}

impl ProgressDisplay {
    /// A display that has shown nothing.
    pub fn new(terminal: bool) -> (r: Self)
        ensures
            r == (ProgressDisplay { terminal, fraction: None, turn: 0 }),
    {
        ProgressDisplay { terminal, fraction: None, turn: 0 }
    }

    /// Show a report.
    pub fn show(
        &mut self,
        stage: Stage,
        message: &Option<String>,
        elapsed_ms: u64,
        fraction: Option<u64>,
    ) -> (r: ProgressLine)
        ensures
            r.text@ == report_line(
                *old(self),
                stage,
                text::opt_text(*message),
                elapsed_ms,
                fraction,
            ),
            r.redraw == old(self).terminal,
            *final(self) == after_report(*old(self), stage, fraction),
    {
        if let Some(f) = fraction {
            self.fraction = Some(f);
        }
        if !self.terminal {
            return ProgressLine { text: print_progress(stage, message, elapsed_ms), redraw: false };
        }
        if stage == Stage::Transcribing {
            if let Some(done) = self.fraction {
                let text = add_message(draw_progress(done, elapsed_ms), message);
                return ProgressLine { text, redraw: true };
            }
        }
        let turn: u64 = self.turn % 4;
        let mark = if turn == 0 {
            "|"
        } else if turn == 1 {
            "/"
        } else if turn == 2 {
            "-"
        } else {
            "\\"
        };
        self.turn = (turn + 1) % 4;
        let line = "handy: ".to_owned().concat(mark).concat(" ").concat(stage.label()).concat(
            " (",
        ).concat(format_duration(elapsed_ms / 1000).as_str()).concat(")");
        ProgressLine { text: add_message(line, message), redraw: true }
    }
}

// ---------------------------------------------------------------------------
// Results
// ---------------------------------------------------------------------------

/// What a simple answer prints on stdout.
#[derive(Debug)]
pub enum SimpleOutput {
    /// These lines.
    Lines(Vec<String>),
    /// One JSON object: the schema version, `ok`, and the app's version.
    PongJson { app_version: String },
    /// One JSON object: the status, and the schema version.
    StatusJson,
    /// Nothing.
    Nothing,
}

/// A truth value, as it is printed.
pub open spec fn bool_text(b: bool) -> Seq<char> {
    if b {
        "true"@
    } else {
        "false"@
    }
}

fn bool_word(b: bool) -> (r: &'static str)
    ensures
        r@ == bool_text(b),
{
    if b {
        "true"
    } else {
        "false"
    }
}

/// An optional text, or what stands for none.
pub open spec fn text_or(o: Option<Seq<char>>, none: Seq<char>) -> Seq<char> {
    match o {
        Some(s) => s,
        None => none,
    }
}

fn string_or(o: &Option<String>, none: &str) -> (r: String)
    ensures
        r@ == text_or(text::opt_text(*o), none@),
{
    match o {
        Some(s) => s.clone(),
        None => none.to_owned(),
    }
}

/// Who uses the engine, as it is printed.
pub open spec fn engine_text(busy: Option<LeaseOwner>) -> Seq<char> {
    match busy {
        Some(owner) => "busy ("@ + owner.text() + ")"@,
        None => "idle"@,
    }
}

/// The lines of a status report.
pub open spec fn status_lines(status: StatusBody) -> Seq<Seq<char>> {
    seq![
        "version:    "@ + status.app_version@,
        "pid:        "@ + text::decimal_text(status.pid as nat),
        "uptime:     "@ + text::decimal_text(status.uptime_secs as nat) + "s"@,
        "selected:   "@ + status.selected_model@,
        "loaded:     "@ + text_or(text::opt_text(status.loaded_model), "(none)"@),
        "backend:    "@ + text_or(text::opt_text(status.backend), "(unknown)"@),
        "engine:     "@ + engine_text(status.engine_busy),
        "recording:  "@ + bool_text(status.recording),
        "streaming:  "@ + bool_text(status.streaming),
        "post-proc:  "@ + bool_text(status.post_process_enabled),
    ]
}

fn print_status(status: &StatusBody) -> (r: Vec<String>)
    ensures
        text::texts(r@) == status_lines(*status),
{
    let engine = match status.engine_busy {
        Some(owner) => "busy (".to_owned().concat(owner.label()).concat(")"),
        None => "idle".to_owned(),
    };
    let mut out: Vec<String> = Vec::new();
    out.push("version:    ".to_owned().concat(status.app_version.as_str()));
    out.push("pid:        ".to_owned().concat(text::decimal(status.pid as u64).as_str()));
    out.push(
        "uptime:     ".to_owned().concat(text::decimal(status.uptime_secs).as_str()).concat("s"),
    );
    out.push("selected:   ".to_owned().concat(status.selected_model.as_str()));
    out.push("loaded:     ".to_owned().concat(string_or(&status.loaded_model, "(none)").as_str()));
    out.push("backend:    ".to_owned().concat(string_or(&status.backend, "(unknown)").as_str()));
    out.push("engine:     ".to_owned().concat(engine.as_str()));
    out.push("recording:  ".to_owned().concat(bool_word(status.recording)));
    out.push("streaming:  ".to_owned().concat(bool_word(status.streaming)));
    out.push("post-proc:  ".to_owned().concat(bool_word(status.post_process_enabled)));
    assert(text::texts(out@) =~= status_lines(*status));
    out
}

/// What a simple answer prints on stdout.
pub fn print_simple_result(body: &ResultBody, json: bool) -> (r: SimpleOutput)
    ensures
        match *body {
            ResultBody::Pong { app_version } => if json {
                r matches SimpleOutput::PongJson { app_version: v } && v@ == app_version@
            } else {
                r matches SimpleOutput::Lines(lines) && text::texts(lines@) == seq![
                    "handy "@ + app_version@ + " is running"@,
                ]
            },
            ResultBody::Status(status) => if json {
                r is StatusJson
            } else {
                r matches SimpleOutput::Lines(lines) && text::texts(lines@) == status_lines(*status)
            },
            ResultBody::Transcript(_) => r is Nothing,
        },
{
    match body {
        ResultBody::Pong { app_version } => if json {
            SimpleOutput::PongJson { app_version: app_version.clone() }
        } else {
            let mut lines: Vec<String> = Vec::new();
            lines.push("handy ".to_owned().concat(app_version.as_str()).concat(" is running"));
            assert(text::texts(lines@) =~= seq!["handy "@ + app_version@ + " is running"@]);
            SimpleOutput::Lines(lines)
        },
        ResultBody::Status(status) => if json {
            SimpleOutput::StatusJson
        } else {
            SimpleOutput::Lines(print_status(status))
        },
        ResultBody::Transcript(_) => SimpleOutput::Nothing,
    }
}

/// What a transcript prints on stdout.
#[derive(Debug)]
pub enum TranscriptOutput {
    /// Nothing: it was printed frame by frame already, or there is no text.
    Nothing,
    /// One JSON object: the transcript, and the schema version.
    Json,
    /// The bare text and a newline — this is what gets piped.
    Text(String),
}

/// What a transcript prints on stdout. An empty one prints nothing, unless an
/// object was asked for.
pub fn print_transcript(t: &TranscriptBody, args: &TranscribeArgs) -> (r: TranscriptOutput)
    ensures
        if args.ndjson {
            r is Nothing
        } else if args.common.json {
            r is Json
        } else if t.text@.len() == 0 {
            r is Nothing
        } else {
            r matches TranscriptOutput::Text(s) && s@ == t.text@ + "\n"@
        },
{
    if args.ndjson {
        TranscriptOutput::Nothing
    } else if args.common.json {
        TranscriptOutput::Json
    } else if t.text.as_str().is_empty() {
        TranscriptOutput::Nothing
    } else {
        TranscriptOutput::Text(t.text.clone().concat("\n"))
    }
}

/// What is said on stderr when stdout cannot be written: nothing of a closed
/// pipe, which is how `| head -1` ends.
pub fn stdout_failure(broken_pipe: bool, detail: &str) -> (r: Option<String>)
    ensures
        text::opt_text(r) == (if broken_pipe {
            None
        } else {
            Some("handy: writing to stdout: "@ + detail@)
        }),
{
    if broken_pipe {
        None
    } else {
        Some("handy: writing to stdout: ".to_owned().concat(detail))
    }
}

/// The notes on stderr and the exit status after a transcript was printed;
/// `written` says that stdout took it. What stdout did not take is no failure of
/// the transcription.
pub open spec fn transcript_end(t: TranscriptBody, args: TranscribeArgs, written: bool) -> (
    Seq<Seq<char>>,
    i32,
) {
    let quiet = args.common.quiet;
    let silence = if t.text@.len() == 0 && !quiet {
        seq!["handy: no speech detected"@]
    } else {
        seq![]
    };
    let failed = if t.post_processed && !t.post_process_applied && !quiet {
        seq![
            "handy: post-processing was requested but did not apply (provider failed?)"@,
        ]
    } else {
        seq![]
    };
    if !written {
        (seq![], EXIT_OK)
    } else if t.text@.len() == 0 && args.fail_on_empty {
        (silence, EXIT_EMPTY)
    } else {
        (silence + failed, EXIT_OK)
    }
}

/// The notes on stderr and the exit status after a transcript was printed.
pub fn finish_transcript(t: &TranscriptBody, args: &TranscribeArgs, written: bool) -> (r: (
    Vec<String>,
    i32,
))
    ensures
        text::texts(r.0@) == transcript_end(*t, *args, written).0,
        r.1 == transcript_end(*t, *args, written).1,
{
    let mut notes: Vec<String> = Vec::new();
    assert(text::texts(notes@) =~= Seq::<Seq<char>>::empty());
    if !written {
        return (notes, EXIT_OK);
    }
    let quiet = args.common.quiet;
    if t.text.as_str().is_empty() {
        if !quiet {
            notes.push("handy: no speech detected".to_owned());
            assert(text::texts(notes@) =~= seq!["handy: no speech detected"@]);
        }
        if args.fail_on_empty {
            return (notes, EXIT_EMPTY);
        }
    }
    let ghost silence = text::texts(notes@);
    if t.post_processed && !t.post_process_applied && !quiet {
        notes.push(
            "handy: post-processing was requested but did not apply (provider failed?)".to_owned(),
        );
        assert(text::texts(notes@) =~= silence + seq![
            "handy: post-processing was requested but did not apply (provider failed?)"@,
        ]);
    } else {
        assert(silence + Seq::<Seq<char>>::empty() =~= silence);
    }
    (notes, EXIT_OK)
}

/// An empty transcript is a success unless it was said to be a failure, and a
/// transcript with text always is one. So is one that stdout did not take, a closed
/// pipe included, and then there are no notes either.
pub proof fn law_empty_is_success_unless_asked(
    t: TranscriptBody,
    args: TranscribeArgs,
    written: bool,
)
    ensures
        transcript_end(t, args, written).1 == (if written && args.fail_on_empty && t.text@.len()
            == 0 {
            EXIT_EMPTY
        } else {
            EXIT_OK
        }),
        args.common.quiet || !written ==> transcript_end(t, args, written).0.len() == 0,
{
}

/// Wherever progress is shown, what the report says besides is shown with it,
/// behind what is shown without it.
pub proof fn law_a_message_is_always_shown(
    display: ProgressDisplay,
    stage: Stage,
    message: Seq<char>,
    elapsed_ms: u64,
    reported: Option<u64>,
)
    ensures
        report_line(display, stage, Some(message), elapsed_ms, reported) == report_line(
            display,
            stage,
            None,
            elapsed_ms,
            reported,
        ) + " — "@ + message,
{
}

/// The exit statuses that scripts go by.
pub proof fn law_exit_statuses(code: ErrorCode, err: ConnectErrorView)
    ensures
        exit_status(code) == 4 <==> code == ErrorCode::Busy,
        exit_status(code) == 6 <==> code == ErrorCode::Cancelled,
        exit_status(code) == 5 <==> code == ErrorCode::ProtocolMismatch || code
            == ErrorCode::UnsupportedRequest,
        exit_status(code) == 2 <==> code == ErrorCode::BadRequest || code
            == ErrorCode::PayloadTooLarge || code == ErrorCode::Forbidden,
        exit_status(code) == 7 <==> code == ErrorCode::NoModelSelected || code
            == ErrorCode::ModelNotAvailable || code == ErrorCode::ModelLoadFailed,
        exit_status(code) == 1 <==> code == ErrorCode::TranscriptionFailed || code
            == ErrorCode::IoError || code == ErrorCode::Internal || code
            == ErrorCode::TooManyClients,
        connect_status(err) == 3 <==> err is NotRunning,
        connect_status(err) == 5 <==> err is ProtocolMismatch,
        connect_status(err) == 2 <==> err is Forbidden,
        connect_status(err) == 1 <==> err is Other,
        EXIT_OK == 0,
        EXIT_EMPTY == 8,
{
}

/// A duration is told in minutes and seconds, the seconds with two digits, and
/// below a minute in seconds alone.
pub proof fn law_durations_are_minutes_and_seconds(minutes: nat, seconds: nat)
    requires
        seconds < 60,
    ensures
        duration_text(seconds) == text::decimal_text(seconds) + "s"@,
        minutes > 0 ==> duration_text(minutes * 60 + seconds) == text::decimal_text(minutes) + "m"@
            + text::two_digit_text(seconds) + "s"@,
{
    let secs: nat = minutes * 60 + seconds;
    assert(secs / 60 == minutes && secs % 60 == seconds);
}

/// A bar has 24 cells, filled from the left as far as the work is done; the
/// percentage counts whole percents, and the time left is that of the rest at the
/// pace so far. More than all is all, and of nothing done no time is told.
pub proof fn law_a_bar_shows_what_is_done(
    done: u64,
    elapsed_ms: u64,
    filled: int,
    percents: nat,
    left: nat,
)
    requires
        done <= 1000000,
        filled * 1000000 <= done * 24 < (filled + 1) * 1000000,
        percents * 1000000 <= done * 100 < (percents + 1) * 1000000,
        left * (1000 * done) <= elapsed_ms * (1000000 - done) < (left + 1) * (1000 * done) || done
            == 0,
        left <= u64::MAX,
    ensures
        ({
            let head = "handy: ["@ + bar_text(filled) + "] "@ + percent_text(percents) + "%  "@
                + duration_text((elapsed_ms / 1000) as nat);
            bar_line(done, elapsed_ms) == (if done == 0 {
                head
            } else {
                head + " (~"@ + duration_text(left) + " left)"@
            })
        }),
        bar_text(filled).len() == 24,
        forall|i: int| 0 <= i < 24 ==> (#[trigger] bar_text(filled)[i] == '#' <==> i < filled),
        forall|i: int| 0 <= i < 24 ==> (#[trigger] bar_text(filled)[i] == '.' <==> i >= filled),
        forall|more: u64|
            more > 1000000 ==> #[trigger] bar_line(more, elapsed_ms) == bar_line(
                1000000,
                elapsed_ms,
            ),
{
    let part = done as int;
    assert(part * 24 / 1000000 == filled);
    assert(part * 100 / 1000000 == percents);
    if part > 0 {
        let all: int = elapsed_ms * (1000000 - part);
        let per: int = 1000 * part;
        assert(all >= 0) by (nonlinear_arith)
            requires
                all == elapsed_ms * (1000000 - part),
                part <= 1000000,
                elapsed_ms >= 0,
        ;
        vstd::arithmetic::div_mod::lemma_div_denominator(all, part, 1000);
        assert(part * 1000 == per);
        assert(all == left as int * per + (all - left as int * per));
        assert(0 <= all - left as int * per < per) by (nonlinear_arith)
            requires
                left * per <= all < (left + 1) * per,
        ;
        vstd::arithmetic::div_mod::lemma_fundamental_div_mod_converse(
            all,
            per,
            left as int,
            all - left as int * per,
        );
        assert(seconds_left(part, elapsed_ms) == left);
    }
}

/// A percentage takes at least three places, the number last.
pub proof fn law_percentages_are_padded(n: nat)
    requires
        n <= 100,
    ensures
        n < 10 ==> percent_text(n) == "  "@ + text::decimal_text(n),
        10 <= n < 100 ==> percent_text(n) == " "@ + text::decimal_text(n),
        n == 100 ==> percent_text(n) == text::decimal_text(100),
{
}

/// The spinner goes round in four turns, each of them different.
pub proof fn law_the_spinner_goes_round(n: nat)
    ensures
        spinner(n + 4) == spinner(n),
        spinner(n) != spinner(n + 1),
        spinner(n) != spinner(n + 2),
        spinner(n) != spinner(n + 3),
        spinner(4 * n) == "|"@,
        spinner(4 * n + 1) == "/"@,
        spinner(4 * n + 2) == "-"@,
        spinner(4 * n + 3) == "\\"@,
{
    reveal_strlit("|");
    reveal_strlit("/");
    reveal_strlit("-");
    reveal_strlit("\\");
    assert("|"@[0] != "/"@[0]);
    assert("|"@[0] != "-"@[0]);
    assert("|"@[0] != "\\"@[0]);
    assert("/"@[0] != "-"@[0]);
    assert("/"@[0] != "\\"@[0]);
    assert("-"@[0] != "\\"@[0]);
}

/// A report names its stage and the time that went by; a fraction that was measured
/// once is not forgotten by a report that brings none, and a newer one replaces
/// it. A bar is drawn only on a terminal, and only of a transcription whose
/// fraction is known.
pub proof fn law_what_a_report_shows(
    display: ProgressDisplay,
    stage: Stage,
    elapsed_ms: u64,
    reported: Option<u64>,
    done: u64,
)
    ensures
        ({
            let time = duration_text((elapsed_ms / 1000) as nat);
            let line = report_line(display, stage, None, elapsed_ms, reported);
            let measured = reported is Some || display.fraction is Some;
            &&& !display.terminal ==> line == "handy: "@ + stage.text() + " ("@ + time + ")"@
            &&& display.terminal && !(stage == Stage::Transcribing && measured) ==> line
                == "handy: "@ + spinner(display.turn as nat) + " "@ + stage.text() + " ("@ + time
                + ")"@
            &&& display.terminal && stage == Stage::Transcribing && reported is Some ==> line
                == bar_line(reported->0, elapsed_ms)
            &&& display.terminal && stage == Stage::Transcribing && reported is None
                && display.fraction is Some ==> line == bar_line(display.fraction->0, elapsed_ms)
        }),
        after_report(display, stage, None).fraction == display.fraction,
        after_report(display, stage, Some(done)).fraction == Some(done),
        after_report(display, stage, reported).terminal == display.terminal,
        spinner(after_report(display, stage, reported).turn as nat) == (if display.terminal && !(
        stage == Stage::Transcribing && (reported is Some || display.fraction is Some)) {
            spinner((display.turn + 1) as nat)
        } else {
            spinner(display.turn as nat)
        }),
{
}

/// A status report prints every fact, each behind its own name.
pub proof fn law_a_status_report_prints_every_fact(status: StatusBody)
    ensures
        ({
            let lines = status_lines(status);
            &&& lines.len() == 10
            &&& lines[0].skip(12) == status.app_version@
            &&& lines[1].skip(12) == text::decimal_text(status.pid as nat)
            &&& lines[2].skip(12) == text::decimal_text(status.uptime_secs as nat) + "s"@
            &&& lines[3].skip(12) == status.selected_model@
            &&& match status.loaded_model {
                Some(id) => lines[4].skip(12) == id@,
                None => lines[4].skip(12) == "(none)"@,
            }
            &&& match status.backend {
                Some(name) => lines[5].skip(12) == name@,
                None => lines[5].skip(12) == "(unknown)"@,
            }
            &&& match status.engine_busy {
                Some(owner) => lines[6].skip(12) == "busy ("@ + owner.text() + ")"@,
                None => lines[6].skip(12) == "idle"@,
            }
            &&& status.recording ==> lines[7].skip(12) == "true"@
            &&& !status.recording ==> lines[7].skip(12) == "false"@
            &&& status.streaming ==> lines[8].skip(12) == "true"@
            &&& !status.streaming ==> lines[8].skip(12) == "false"@
            &&& status.post_process_enabled ==> lines[9].skip(12) == "true"@
            &&& !status.post_process_enabled ==> lines[9].skip(12) == "false"@
            &&& lines[0].take(8) == "version:"@
            &&& lines[1].take(4) == "pid:"@
            &&& lines[2].take(7) == "uptime:"@
            &&& lines[3].take(9) == "selected:"@
            &&& lines[4].take(7) == "loaded:"@
            &&& lines[5].take(8) == "backend:"@
            &&& lines[6].take(7) == "engine:"@
            &&& lines[7].take(10) == "recording:"@
            &&& lines[8].take(10) == "streaming:"@
            &&& lines[9].take(10) == "post-proc:"@
        }),
{
    reveal_strlit("version:    ");
    reveal_strlit("pid:        ");
    reveal_strlit("uptime:     ");
    reveal_strlit("selected:   ");
    reveal_strlit("loaded:     ");
    reveal_strlit("backend:    ");
    reveal_strlit("engine:     ");
    reveal_strlit("recording:  ");
    reveal_strlit("streaming:  ");
    reveal_strlit("post-proc:  ");
    reveal_strlit("version:");
    reveal_strlit("pid:");
    reveal_strlit("uptime:");
    reveal_strlit("selected:");
    reveal_strlit("loaded:");
    reveal_strlit("backend:");
    reveal_strlit("engine:");
    reveal_strlit("recording:");
    reveal_strlit("streaming:");
    reveal_strlit("post-proc:");
    let lines = status_lines(status);
    assert(lines[0].skip(12) =~= status.app_version@);
    assert(lines[1].skip(12) =~= text::decimal_text(status.pid as nat));
    assert(lines[2].skip(12) =~= text::decimal_text(status.uptime_secs as nat) + "s"@);
    assert(lines[3].skip(12) =~= status.selected_model@);
    assert(lines[4].skip(12) =~= text_or(text::opt_text(status.loaded_model), "(none)"@));
    assert(lines[5].skip(12) =~= text_or(text::opt_text(status.backend), "(unknown)"@));
    assert(lines[6].skip(12) =~= engine_text(status.engine_busy));
    assert(lines[7].skip(12) =~= bool_text(status.recording));
    assert(lines[8].skip(12) =~= bool_text(status.streaming));
    assert(lines[9].skip(12) =~= bool_text(status.post_process_enabled));
    assert(lines[0].take(8) =~= "version:"@);
    assert(lines[1].take(4) =~= "pid:"@);
    assert(lines[2].take(7) =~= "uptime:"@);
    assert(lines[3].take(9) =~= "selected:"@);
    assert(lines[4].take(7) =~= "loaded:"@);
    assert(lines[5].take(8) =~= "backend:"@);
    assert(lines[6].take(7) =~= "engine:"@);
    assert(lines[7].take(10) =~= "recording:"@);
    assert(lines[8].take(10) =~= "streaming:"@);
    assert(lines[9].take(10) =~= "post-proc:"@);
}

/// What is noted after a transcript: that there was no speech exactly where there is
/// no text, and that post-processing did not apply exactly where it was asked for
/// and did not; nothing to a client that asked for quiet, and the second not where
/// the lack of text is already a failure.
pub proof fn law_what_is_noted_after_a_transcript(t: TranscriptBody, args: TranscribeArgs)
    ensures
        ({
            let notes = transcript_end(t, args, true).0;
            let silent = t.text@.len() == 0;
            let unapplied = t.post_processed && !t.post_process_applied;
            &&& notes.contains("handy: no speech detected"@) <==> silent && !args.common.quiet
            &&& notes.contains(
                "handy: post-processing was requested but did not apply (provider failed?)"@,
            ) <==> unapplied && !args.common.quiet && !(silent && args.fail_on_empty)
        }),
{
    let a = "handy: no speech detected"@;
    let b = "handy: post-processing was requested but did not apply (provider failed?)"@;
    reveal_strlit("handy: no speech detected");
    reveal_strlit("handy: post-processing was requested but did not apply (provider failed?)");
    assert(a.len() != b.len());
    let notes = transcript_end(t, args, true).0;
    assert(seq![a][0] == a);
    assert(seq![b][0] == b);
    if t.text@.len() == 0 && !args.common.quiet {
        assert(notes[0] == a);
    }
    if t.post_processed && !t.post_process_applied && !args.common.quiet && !(t.text@.len() == 0
        && args.fail_on_empty) {
        assert(notes.last() == b);
        assert(notes[notes.len() - 1] == b);
    }
}

} // verus!
