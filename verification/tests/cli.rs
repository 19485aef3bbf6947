use handy::cli::client::build_request;
use handy::cli::client::dispatch;
use handy::cli::client::expand_tilde;
use handy::cli::client::finish_simple;
use handy::cli::client::headless_argv;
use handy::cli::client::home_dir;
use handy::cli::client::idle_note;
use handy::cli::client::idle_seconds;
use handy::cli::client::local_args;
use handy::cli::client::reparsed;
use handy::cli::client::resolve_bare;
use handy::cli::client::show_progress;
use handy::cli::client::unresolved;
use handy::cli::client::wants_local_fallback;
use handy::cli::client::BareStep;
use handy::cli::client::Dispatch;
use handy::cli::client::DispatchStep;
use handy::cli::client::RunAction;
use handy::cli::client::RunStep;
use handy::cli::client::SimpleEnd;
use handy::cli::client::source_label;
use handy::cli::client::SourceNote;
use handy::cli::client::StreamEnd;
use handy::cli::client::TranscribeRun;
use handy::cli::client::TranscriptStream;
use handy::cli::closest_verb;
use handy::cli::app_binary_name;
use handy::cli::is_app_invocation;
use handy::cli::locate_app_binary;
use handy::cli::looks_like_a_verb;
use handy::cli::output::connect_exit;
use handy::cli::output::draw_progress;
use handy::cli::output::exit_code_for;
use handy::cli::output::finish_transcript;
use handy::cli::output::format_duration;
use handy::cli::output::print_progress;
use handy::cli::output::print_simple_result;
use handy::cli::output::print_transcript;
use handy::cli::output::stdout_failure;
use handy::cli::output::ProgressDisplay;
use handy::cli::output::SimpleOutput;
use handy::cli::output::TranscriptOutput;
use handy::cli::output::EXIT_BUSY;
use handy::cli::output::EXIT_CANCELLED;
use handy::cli::output::EXIT_EMPTY;
use handy::cli::output::EXIT_MODEL;
use handy::cli::output::EXIT_NOT_RUNNING;
use handy::cli::output::EXIT_OK;
use handy::cli::output::EXIT_PROTOCOL;
use handy::cli::output::EXIT_RUNTIME;
use handy::cli::output::EXIT_USAGE;
use handy::cli::route;
use handy::cli::BinaryCandidate;
use handy::cli::CliArgs;
use handy::cli::Command;
use handy::cli::CommonArgs;
use handy::cli::IfBusy;
use handy::cli::Route;
use handy::cli::TranscribeArgs;
use handy::client::ConnectError;
use handy::protocol::AudioSource;
use handy::protocol::ErrorCode;
use handy::protocol::LeaseOwner;
use handy::protocol::ResultBody;
use handy::protocol::ServerFrame;
use handy::protocol::Stage;
use handy::protocol::StatusBody;
use handy::protocol::TranscriptBody;
use handy::protocol::WaitPolicy;

fn words(args: &[&str]) -> Vec<String> {
    args.iter().map(|a| a.to_string()).collect()
}

fn common() -> CommonArgs {
    CommonArgs { json: false, idle_timeout: 120, quiet: false }
}

fn transcribe(file: &str) -> TranscribeArgs {
    TranscribeArgs {
        file: file.to_string(),
        common: common(),
        llm_post_process: false,
        raw: false,
        paste: false,
        history: false,
        no_history: false,
        model: None,
        no_restore_model: false,
        ndjson: false,
        local: false,
        if_busy: IfBusy::Wait,
        fail_on_empty: false,
        progress: false,
        no_progress: false,
        no_stream: false,
        partials: false,
    }
}

fn transcript(text: &str) -> TranscriptBody {
    TranscriptBody {
        text: text.to_string(),
        raw_text: text.to_string(),
        pipeline_ran: true,
        post_processed: false,
        post_process_applied: false,
        model: "m".to_string(),
        backend: None,
        audio_samples: 16_000,
        queue_ms: 0,
        load_ms: 0,
        transcribe_ms: 1,
        cold_load: false,
        streamed: false,
        history_id: None,
        pasted: false,
    }
}

fn not_running() -> ConnectError {
    ConnectError::NotRunning { endpoint: "/s".to_string(), detail: "gone".to_string() }
}

fn exit_of(step: &RunStep) -> i32 {
    match &step.action {
        RunAction::Exit(code) => *code,
        other => panic!("got {other:?}"),
    }
}

#[test]
fn app_flags_are_recognised() {
    for flag in [
        "--toggle-transcription",
        "--start-hidden",
        "--no-tray",
        "-f",
        "--list-models",
        "--debug",
    ] {
        assert!(is_app_invocation(&words(&[flag])), "{flag} should route to the app");
    }
    assert!(is_app_invocation(&words(&["--transcribe-file=a.wav"])));
    assert!(is_app_invocation(&words(&["--start-hidden", "--no-tray"])));
    for flag in [
        "--toggle-post-process",
        "--cancel",
        "--no-ipc",
        "--transcribe-file",
        "--list-devices",
        "--device-index",
        "--repeat",
    ] {
        assert!(is_app_invocation(&words(&["a", flag])), "{flag} should route to the app");
    }
}

#[test]
fn client_invocations_are_not_forwarded() {
    for argv in [
        vec!["status"],
        vec!["ping"],
        vec!["recording.wav"],
        vec!["recording.wav", "--json"],
        vec!["transcribe", "a.wav", "--llm-post-process"],
    ] {
        assert!(
            !is_app_invocation(&words(&argv)),
            "{argv:?} should be handled by the CLI"
        );
    }
}

/// Both binaries accept these, so they must not decide the routing.
#[test]
fn shared_flags_do_not_force_the_app() {
    assert!(!is_app_invocation(&words(&["--json"])));
    assert!(!is_app_invocation(&words(&["--model", "whisper"])));
}

#[test]
fn command_lines_are_routed() {
    assert_eq!(route(&words(&[])), Route::Help);
    assert_eq!(route(&words(&["-f", "a.wav"])), Route::App);
    assert_eq!(route(&words(&["a.wav"])), Route::Client);
    assert_eq!(app_binary_name(true), "handy.exe");
    assert_eq!(app_binary_name(false), "handy");
}

#[test]
fn the_app_binary_is_looked_for_in_order() {
    let there = |path: &str| Some(BinaryCandidate { path: path.to_string(), is_file: true });
    let gone = |path: &str| Some(BinaryCandidate { path: path.to_string(), is_file: false });
    let found = locate_app_binary(there("/env"), there("/sib"), false, there("/up"), there("/app"));
    assert_eq!(found.as_deref(), Some("/env"));
    let found = locate_app_binary(gone("/env"), there("/sib"), false, there("/up"), None);
    assert_eq!(found.as_deref(), Some("/sib"));
    let found = locate_app_binary(None, there("/sib"), true, there("/up"), None);
    assert_eq!(found.as_deref(), Some("/up"));
    let found = locate_app_binary(None, None, false, gone("/up"), there("/app"));
    assert_eq!(found.as_deref(), Some("/app"));
    assert_eq!(locate_app_binary(None, None, false, None, None), None);
}

#[test]
fn no_arguments_starts_the_app() {
    let args = CliArgs::default();
    assert!(args.command.is_none());
    assert!(matches!(dispatch(args, false), DispatchStep::Done(Dispatch::RunApp(_))));
}

#[test]
fn a_bare_path_is_captured_and_reparsed_as_transcribe() {
    let command = Command::Bare(words(&["recording.wav"]));
    match resolve_bare(command, false) {
        BareStep::Parse(argv) => assert_eq!(argv, words(&["handy", "recording.wav"])),
        other => panic!("wrong command: {other:?}"),
    }
    match reparsed(Some(transcribe("recording.wav"))) {
        DispatchStep::Transcribe(t) => assert_eq!(t.file, "recording.wav"),
        other => panic!("wrong command: {other:?}"),
    }
    assert!(matches!(reparsed(None), DispatchStep::Done(Dispatch::Exit(EXIT_USAGE))));
}

#[test]
fn a_bare_path_keeps_its_trailing_flags() {
    let argv = ["rec.wav", "--json", "--post-process", "--paste"];
    match resolve_bare(Command::Bare(words(&argv)), false) {
        BareStep::Parse(got) => {
            assert_eq!(got, words(&["handy", "rec.wav", "--json", "--post-process", "--paste"]))
        }
        other => panic!("wrong command: {other:?}"),
    }
}

#[test]
fn absolute_and_relative_paths_both_work() {
    for path in ["/tmp/a.wav", "./a.wav", "../a.wav", "sub/dir/a.wav"] {
        let step = resolve_bare(Command::Bare(words(&[path])), false);
        assert!(matches!(step, BareStep::Parse(_)), "failed for {path}");
    }
}

#[test]
fn explicit_subcommands_are_dispatched() {
    let with = |command: Command| CliArgs { command: Some(command), ..CliArgs::default() };
    assert!(matches!(
        dispatch(with(Command::Status(common())), false),
        DispatchStep::Status(_)
    ));
    assert!(matches!(dispatch(with(Command::Ping(common())), false), DispatchStep::Ping(_)));
    assert!(matches!(
        dispatch(with(Command::Transcribe(transcribe("a.wav"))), false),
        DispatchStep::Transcribe(_)
    ));
    match dispatch(with(Command::Bare(words(&["stauts"]))), false) {
        DispatchStep::Unknown { exit, .. } => assert_eq!(exit, EXIT_USAGE),
        other => panic!("got {other:?}"),
    }
    assert!(matches!(
        dispatch(with(Command::Bare(words(&["stauts"]))), true),
        DispatchStep::Parse(_)
    ));
    assert!(matches!(
        resolve_bare(Command::Ping(common()), false),
        BareStep::Command(Command::Ping(_))
    ));
}

#[test]
fn a_mistyped_verb_is_reported_as_a_verb_not_a_missing_file() {
    match resolve_bare(Command::Bare(words(&["stauts"])), false) {
        BareStep::Unknown { lines, exit } => {
            assert_eq!(exit, EXIT_USAGE);
            assert_eq!(
                lines,
                words(&[
                    "handy: unknown subcommand 'stauts'",
                    "  did you mean `handy status`?",
                    "  run `handy --help` for the full list",
                ])
            );
        }
        other => panic!("got {other:?}"),
    }
    assert_eq!(closest_verb("stauts"), Some("status"));
    assert_eq!(closest_verb("pign"), Some("ping"));
    // A real word that is not a near-miss gets no suggestion.
    assert_eq!(closest_verb("frobnicate"), None);
    assert_eq!(closest_verb("transcrib"), Some("transcribe"));
    match resolve_bare(Command::Bare(words(&["frobnicate"])), false) {
        BareStep::Unknown { lines, .. } => assert_eq!(lines.len(), 2),
        other => panic!("got {other:?}"),
    }
}

#[test]
fn a_path_shaped_token_is_not_mistaken_for_a_verb() {
    assert!(!looks_like_a_verb("recording.wav"));
    assert!(!looks_like_a_verb("/tmp/a"));
    assert!(!looks_like_a_verb("./a"));
    assert!(!looks_like_a_verb("--json"));
    assert!(looks_like_a_verb("stauts"));
    assert!(!looks_like_a_verb(""));
    assert!(!looks_like_a_verb("a\\b"));
}

#[test]
fn history_is_opt_in() {
    let mut args = transcribe("a.wav");
    assert!(!build_request(&args, None, 4).save_history);
    args.history = true;
    assert!(build_request(&args, None, 4).save_history);
    args.no_history = true;
    assert!(!build_request(&args, None, 4).save_history);
}

#[test]
fn a_command_line_becomes_a_request() {
    let mut args = transcribe("a.wav");
    args.model = Some("m".to_string());
    args.llm_post_process = true;
    args.paste = true;
    let r = build_request(&args, Some("a.wav".to_string()), 64);
    assert!(matches!(
        r.audio,
        AudioSource::Inline { sample_rate: 16_000, channels: 1, byte_len: 64, .. }
    ));
    assert_eq!(r.source_label.as_deref(), Some("a.wav"));
    assert_eq!(r.model.as_deref(), Some("m"));
    assert!(r.restore_model && r.post_process && r.paste && r.want_progress && r.allow_streaming);
    assert!(!r.raw && !r.want_partials);
    assert_eq!(r.wait_policy, WaitPolicy::Wait { timeout_ms: None });
    args.if_busy = IfBusy::Fail;
    args.no_restore_model = true;
    args.no_stream = true;
    args.partials = true;
    args.raw = true;
    let r = build_request(&args, None, 64);
    assert_eq!(r.wait_policy, WaitPolicy::FailFast);
    assert!(!r.restore_model && !r.allow_streaming && r.want_partials && r.raw);
    // To transcribe here instead, the busy engine has to be heard of at once.
    args.if_busy = IfBusy::Local;
    assert_eq!(build_request(&args, None, 64).wait_policy, WaitPolicy::FailFast);
}

#[test]
fn local_rewrites_into_the_headless_invocation() {
    let mut t = transcribe("a.wav");
    t.local = true;
    t.model = Some("m".to_string());
    let rewritten = local_args(&t, false);
    assert_eq!(rewritten.transcribe_file.as_deref(), Some("a.wav"));
    assert_eq!(rewritten.model.as_deref(), Some("m"));
    assert!(rewritten.command.is_none(), "must not re-enter client mode");
    assert_eq!(headless_argv(&rewritten), words(&["-f", "a.wav", "--model", "m"]));
    t.common.json = true;
    t.model = None;
    let rewritten = local_args(&t, true);
    assert_eq!(headless_argv(&rewritten), words(&["-f", "a.wav", "--json", "--debug"]));
    assert_eq!(route(&headless_argv(&rewritten)), Route::App);
}

#[test]
fn tilde_is_expanded_because_a_quoted_path_never_reaches_the_shell() {
    let home = Some("/home/example".to_string());
    assert_eq!(expand_tilde("~/audio/a.wav", &home, false), "/home/example/audio/a.wav");
    // A bare "~" or an embedded tilde is left alone.
    assert_eq!(expand_tilde("a~b.wav", &home, false), "a~b.wav");
    assert_eq!(expand_tilde("~", &home, false), "~");
    assert_eq!(expand_tilde("~/a.wav", &None, false), "~/a.wav");
    assert_eq!(expand_tilde("~//a.wav", &home, false), "/a.wav");
    let profile = Some(r"C:\Users\example".to_string());
    assert_eq!(expand_tilde("~/audio/a.wav", &profile, true), r"C:\Users\example\audio/a.wav");
    assert_eq!(expand_tilde("~//a.wav", &profile, true), "C:/a.wav");
    assert_eq!(home_dir(home.clone(), Some("C:".to_string())), home);
    assert_eq!(home_dir(None, Some("C:".to_string())).as_deref(), Some("C:"));
    assert_eq!(unresolved("a.wav", "gone"), "cannot read a.wav: gone");
}

#[test]
fn error_codes_map_to_distinct_exit_statuses() {
    assert_eq!(exit_code_for(ErrorCode::Busy), EXIT_BUSY);
    assert_eq!(exit_code_for(ErrorCode::Cancelled), EXIT_CANCELLED);
    assert_eq!(exit_code_for(ErrorCode::ModelNotAvailable), EXIT_MODEL);
    assert_eq!(exit_code_for(ErrorCode::UnsupportedRequest), EXIT_PROTOCOL);
    assert_eq!(exit_code_for(ErrorCode::BadRequest), EXIT_USAGE);
    assert_eq!(exit_code_for(ErrorCode::Internal), EXIT_RUNTIME);
}

#[test]
fn exit_statuses_are_the_documented_ones() {
    assert_eq!(
        (EXIT_OK, EXIT_RUNTIME, EXIT_USAGE, EXIT_NOT_RUNNING, EXIT_BUSY),
        (0, 1, 2, 3, 4)
    );
    assert_eq!((EXIT_PROTOCOL, EXIT_CANCELLED, EXIT_MODEL, EXIT_EMPTY), (5, 6, 7, 8));
    for code in [ErrorCode::NoModelSelected, ErrorCode::ModelLoadFailed] {
        assert_eq!(exit_code_for(code), EXIT_MODEL);
    }
    for code in [ErrorCode::PayloadTooLarge, ErrorCode::Forbidden] {
        assert_eq!(exit_code_for(code), EXIT_USAGE);
    }
    for code in [ErrorCode::TranscriptionFailed, ErrorCode::IoError, ErrorCode::TooManyClients] {
        assert_eq!(exit_code_for(code), EXIT_RUNTIME);
    }
    assert_eq!(exit_code_for(ErrorCode::ProtocolMismatch), EXIT_PROTOCOL);
    assert_eq!(connect_exit(&not_running()), EXIT_NOT_RUNNING);
    assert_eq!(connect_exit(&ConnectError::Forbidden(String::new())), EXIT_USAGE);
    assert_eq!(connect_exit(&ConnectError::Other(String::new())), EXIT_RUNTIME);
    let mismatch = ConnectError::ProtocolMismatch {
        app_version: String::new(),
        server_protocol: 2,
        server_min: 2,
        client_protocol: 1,
    };
    assert_eq!(connect_exit(&mismatch), EXIT_PROTOCOL);
}

#[test]
fn durations_are_readable() {
    assert_eq!(format_duration(0), "0s");
    assert_eq!(format_duration(59), "59s");
    assert_eq!(format_duration(60), "1m00s");
    assert_eq!(format_duration(198), "3m18s");
    assert_eq!(format_duration(3725), "62m05s");
}

#[test]
fn a_bar_shows_what_was_measured() {
    assert_eq!(
        draw_progress(421_000, 198_000),
        "handy: [##########..............]  42%  3m18s (~4m32s left)"
    );
    assert_eq!(draw_progress(0, 3_000), "handy: [........................]   0%  3s");
    assert_eq!(
        draw_progress(2_000_000, 90_000),
        "handy: [########################] 100%  1m30s (~0s left)"
    );
}

#[test]
fn progress_is_drawn_in_place_on_a_terminal() {
    let mut display = ProgressDisplay::new(true);
    let line = display.show(Stage::LoadingModel, &Some("m".to_string()), 1_000, None);
    assert!(line.redraw);
    assert_eq!(line.text, "handy: | loading model (1s) — m");
    let line = display.show(Stage::Transcribing, &None, 198_000, None);
    assert_eq!(line.text, "handy: / transcribing (3m18s)");
    let line = display.show(Stage::Transcribing, &None, 2_000, Some(500_000));
    assert_eq!(line.text, "handy: [############............]  50%  2s (~2s left)");
    // A heartbeat without a fraction keeps the bar.
    let line = display.show(Stage::Transcribing, &None, 3_000, None);
    assert_eq!(line.text, "handy: [############............]  50%  3s (~3s left)");
    let waiting = Some("a dictation is waiting".to_string());
    let line = display.show(Stage::Transcribing, &waiting, 3_000, None);
    assert_eq!(
        line.text,
        "handy: [############............]  50%  3s (~3s left) — a dictation is waiting"
    );
    let line = display.show(Stage::PostProcessing, &None, 4_000, None);
    assert_eq!(line.text, "handy: - post-processing (4s)");
}

#[test]
fn progress_appends_lines_elsewhere() {
    let mut display = ProgressDisplay::new(false);
    let line = display.show(Stage::LoadingModel, &Some("loading model 'm'".to_string()), 61_000, None);
    assert!(!line.redraw);
    assert_eq!(line.text, "handy: loading model (1m01s) — loading model 'm'");
    assert_eq!(print_progress(Stage::Queued, &None, 999), "handy: queued (0s)");
}

#[test]
fn progress_is_shown_where_it_makes_sense() {
    let mut args = transcribe("a.wav");
    assert!(show_progress(&args, true));
    assert!(!show_progress(&args, false));
    args.progress = true;
    assert!(show_progress(&args, false));
    args.ndjson = true;
    assert!(!show_progress(&args, true));
    args.ndjson = false;
    args.common.quiet = true;
    assert!(!show_progress(&args, true));
    args.common.quiet = false;
    args.no_progress = true;
    assert!(!show_progress(&args, true));
}

#[test]
fn the_fallback_is_opt_in() {
    let mut args = transcribe("a.wav");
    assert!(!wants_local_fallback(&args, &None));
    assert!(!wants_local_fallback(&args, &Some("yes".to_string())));
    assert!(wants_local_fallback(&args, &Some("LoCal".to_string())));
    args.if_busy = IfBusy::Local;
    assert!(wants_local_fallback(&args, &None));
}

#[test]
fn silence_is_bounded() {
    let mut c = common();
    assert_eq!(idle_seconds(&c), 120);
    c.idle_timeout = 0;
    assert_eq!(idle_seconds(&c), 1);
    assert_eq!(
        idle_note(&c, 120).as_deref(),
        Some("handy: no response for 120s; giving up")
    );
    c.quiet = true;
    assert_eq!(idle_note(&c, 120), None);
    let c = CommonArgs::default();
    assert!(!c.json && !c.quiet && c.idle_timeout == 0);
}

#[test]
fn a_run_goes_step_by_step() {
    let mut run = TranscribeRun::new(transcribe("a.wav"), false, true, &None, false);
    let step = run.run_transcribe();
    assert!(matches!(&step.action, RunAction::ResolvePath(p) if p == "a.wav"));
    let step = run.path_resolved(Ok("/x/a.wav".to_string()));
    assert_eq!(step.lines, words(&["handy: reading /x/a.wav"]));
    assert!(matches!(&step.action, RunAction::Decode(p) if p == "/x/a.wav"));
    let note = SourceNote { native: false, description: "44100 Hz / 2 ch / 24-bit".to_string() };
    let step = run.decoded(Ok(note));
    assert_eq!(
        step.lines,
        words(&["handy: converted 44100 Hz / 2 ch / 24-bit to 16000 Hz / 1 ch"])
    );
    assert!(matches!(step.action, RunAction::Connect));
    let step = run.connected(Ok(()), 64);
    match step.action {
        RunAction::Send(request) => assert_eq!(request.source_label.as_deref(), Some("a.wav")),
        other => panic!("got {other:?}"),
    }
    assert!(matches!(run.sent(Ok(())).action, RunAction::Stream));
}

#[test]
fn a_quiet_run_says_nothing() {
    let mut run = TranscribeRun::new(transcribe("a.wav"), false, false, &None, false);
    run.run_transcribe();
    assert!(run.path_resolved(Ok("/x/a.wav".to_string())).lines.is_empty());
    let note = SourceNote { native: false, description: String::new() };
    assert!(run.decoded(Ok(note)).lines.is_empty());
}

#[test]
fn a_run_fails_with_its_own_status() {
    let mut run = TranscribeRun::new(transcribe("a.wav"), false, false, &None, false);
    run.run_transcribe();
    let step = run.path_resolved(Err("cannot read a.wav: gone".to_string()));
    assert_eq!(step.lines, words(&["handy: cannot read a.wav: gone"]));
    assert_eq!(exit_of(&step), EXIT_USAGE);

    let mut run = TranscribeRun::new(transcribe("a.wav"), false, false, &None, false);
    run.run_transcribe();
    run.path_resolved(Ok("/x".to_string()));
    assert_eq!(exit_of(&run.decoded(Err("bad".to_string()))), EXIT_USAGE);

    let native = || SourceNote { native: true, description: String::new() };
    let mut run = TranscribeRun::new(transcribe("a.wav"), false, false, &None, false);
    run.run_transcribe();
    run.path_resolved(Ok("/x".to_string()));
    run.decoded(Ok(native()));
    let step = run.connected(Err(not_running()), 0);
    assert_eq!(exit_of(&step), EXIT_NOT_RUNNING);
    assert_eq!(step.lines.len(), 1);

    let mut run = TranscribeRun::new(transcribe("a.wav"), false, false, &None, false);
    run.run_transcribe();
    run.path_resolved(Ok("/x".to_string()));
    run.decoded(Ok(native()));
    run.connected(Ok(()), 0);
    let step = run.sent(Err("sending audio: broken pipe".to_string()));
    assert_eq!(step.lines, words(&["handy: sending audio: broken pipe"]));
    assert_eq!(exit_of(&step), EXIT_RUNTIME);
}

#[test]
fn falling_back_is_said_aloud() {
    let fallback = Some("local".to_string());
    let mut run = TranscribeRun::new(transcribe("a.wav"), true, false, &fallback, false);
    run.run_transcribe();
    run.path_resolved(Ok("/x".to_string()));
    run.decoded(Ok(SourceNote { native: true, description: String::new() }));
    let step = run.connected(Err(not_running()), 0);
    assert_eq!(step.lines[1], "handy: no running instance; transcribing locally");
    match step.action {
        RunAction::RunApp(app) => {
            assert_eq!(app.transcribe_file.as_deref(), Some("a.wav"));
            assert!(app.debug);
        }
        other => panic!("got {other:?}"),
    }
    // Any other failure does not fall back.
    let mut run = TranscribeRun::new(transcribe("a.wav"), false, false, &fallback, false);
    run.run_transcribe();
    run.path_resolved(Ok("/x".to_string()));
    run.decoded(Ok(SourceNote { native: true, description: String::new() }));
    let step = run.connected(Err(ConnectError::Forbidden("d".to_string())), 0);
    assert_eq!(exit_of(&step), EXIT_USAGE);
}

#[test]
fn a_request_names_the_file_and_not_its_directory() {
    assert_eq!(source_label("/home/me/audio/a.wav", false).as_deref(), Some("a.wav"));
    assert_eq!(source_label("a.wav", false).as_deref(), Some("a.wav"));
    assert_eq!(source_label("/", false), None);
    assert_eq!(source_label(r"/x/a\b.wav", false).as_deref(), Some(r"a\b.wav"));
    assert_eq!(source_label(r"\\?\C:\x\b.wav", true).as_deref(), Some("b.wav"));
    let mut run = TranscribeRun::new(transcribe("b.wav"), false, false, &None, false);
    run.run_transcribe();
    run.path_resolved(Ok("/home/me/b.wav".to_string()));
    run.decoded(Ok(SourceNote { native: true, description: String::new() }));
    match run.connected(Ok(()), 8).action {
        RunAction::Send(request) => {
            assert_eq!(request.source_label.as_deref(), Some("b.wav"));
        }
        other => panic!("got {other:?}"),
    }
}

#[test]
fn local_never_connects() {
    let mut args = transcribe("a.wav");
    args.local = true;
    let mut run = TranscribeRun::new(args, false, true, &None, false);
    let step = run.run_transcribe();
    assert!(step.lines.is_empty());
    assert!(matches!(step.action, RunAction::RunApp(_)));
}

#[test]
fn replies_are_followed() {
    let mut stream = TranscriptStream::stream_transcription(transcribe("a.wav"), false, true);
    let progress = ServerFrame::Progress {
        job_id: "1-1".to_string(),
        stage: Stage::Transcribing,
        message: None,
        elapsed_ms: 2_000,
        fraction: None,
    };
    let step = stream.received(&progress, Some(500_000), false);
    assert!(!step.print_frame && !step.cancel && !step.last);
    assert_eq!(
        step.progress.unwrap().text,
        "handy: [############............]  50%  2s (~2s left)"
    );
    let step = stream.received(&ServerFrame::Unknown, None, true);
    assert!(step.cancel);
    assert_eq!(step.lines, words(&["handy: cancelling…"]));
    let end = ServerFrame::Result {
        job_id: "1-1".to_string(),
        body: ResultBody::Transcript(Box::new(transcript("hi"))),
    };
    let step = stream.received(&end, None, true);
    assert!(step.last && !step.cancel);
    assert!(matches!(stream.finish(end), StreamEnd::Transcript(t) if t.text == "hi"));
}

#[test]
fn frames_go_to_stdout_where_that_was_asked_for() {
    let mut args = transcribe("a.wav");
    args.ndjson = true;
    args.partials = true;
    let mut stream = TranscriptStream::stream_transcription(args, false, true);
    let partial = ServerFrame::Partial {
        job_id: "1-1".to_string(),
        committed: "done".to_string(),
        tentative: " maybe".to_string(),
    };
    let step = stream.received(&partial, None, true);
    assert!(step.print_frame && step.cancel);
    assert!(step.progress.is_none() && step.lines.is_empty());
    let busy = ServerFrame::Error {
        job_id: None,
        code: ErrorCode::Busy,
        message: "busy".to_string(),
    };
    match stream.finish(busy) {
        StreamEnd::Exit { lines, exit } => {
            assert_eq!(exit, EXIT_BUSY);
            assert!(lines.is_empty());
        }
        other => panic!("got {other:?}"),
    }
    let mut args = transcribe("a.wav");
    args.partials = true;
    let mut stream = TranscriptStream::stream_transcription(args, false, false);
    let step = stream.received(&partial, None, false);
    assert_eq!(step.lines, words(&["done maybe"]));
    // Cancelling does not take the text away.
    let mut args = transcribe("a.wav");
    args.partials = true;
    let mut stream = TranscriptStream::stream_transcription(args, false, true);
    let step = stream.received(&partial, None, true);
    assert!(step.cancel);
    assert_eq!(step.lines, words(&["done maybe", "handy: cancelling…"]));
}

#[test]
fn a_busy_engine_sends_the_file_home_where_asked() {
    let busy = || ServerFrame::Error {
        job_id: Some("1-1".to_string()),
        code: ErrorCode::Busy,
        message: "the transcription engine is busy with a dictation".to_string(),
    };
    let mut args = transcribe("a.wav");
    args.if_busy = IfBusy::Local;
    args.model = Some("m".to_string());
    let stream = TranscriptStream::stream_transcription(args.clone(), true, false);
    match stream.finish(busy()) {
        StreamEnd::RunApp { lines, app } => {
            assert_eq!(
                lines,
                words(&[
                    "handy: the transcription engine is busy with a dictation",
                    "handy: the engine is in use; transcribing locally",
                ])
            );
            assert!(app.command.is_none());
            assert_eq!(
                headless_argv(&app),
                words(&["-f", "a.wav", "--model", "m", "--debug"])
            );
        }
        other => panic!("got {other:?}"),
    }
    // Another failure is no reason to load a model here.
    let failed = ServerFrame::Error {
        job_id: None,
        code: ErrorCode::TranscriptionFailed,
        message: "no".to_string(),
    };
    match stream.finish(failed) {
        StreamEnd::Exit { lines, exit } => {
            assert_eq!(lines, words(&["handy: no"]));
            assert_eq!(exit, EXIT_RUNTIME);
        }
        other => panic!("got {other:?}"),
    }
    args.if_busy = IfBusy::Fail;
    let stream = TranscriptStream::stream_transcription(args, false, false);
    assert!(matches!(stream.finish(busy()), StreamEnd::Exit { exit: EXIT_BUSY, .. }));
}

#[test]
fn a_stream_that_breaks_is_a_runtime_failure() {
    let stream = TranscriptStream::stream_transcription(transcribe("a.wav"), false, false);
    let lines_of = |end: StreamEnd| match end {
        StreamEnd::Exit { lines, exit } => {
            assert_eq!(exit, EXIT_RUNTIME);
            lines
        }
        other => panic!("got {other:?}"),
    };
    assert_eq!(
        lines_of(stream.broken(None)),
        words(&["handy: the connection closed before a result arrived"])
    );
    assert_eq!(
        lines_of(stream.broken(Some("reading a reply: reset".to_string()))),
        words(&["handy: reading a reply: reset"])
    );
    assert!(lines_of(stream.finish(ServerFrame::Unknown)).is_empty());
    let pong = ServerFrame::Result {
        job_id: "1-1".to_string(),
        body: ResultBody::Pong { app_version: "0.9.4".to_string() },
    };
    assert!(matches!(stream.finish(pong), StreamEnd::Answer(ResultBody::Pong { .. })));
    let failed = ServerFrame::Error {
        job_id: None,
        code: ErrorCode::Cancelled,
        message: "stopped".to_string(),
    };
    match stream.finish(failed) {
        StreamEnd::Exit { lines, exit } => {
            assert_eq!(exit, EXIT_CANCELLED);
            assert_eq!(lines, words(&["handy: stopped"]));
        }
        other => panic!("got {other:?}"),
    }
}

#[test]
fn simple_requests_end_simply() {
    let pong = ServerFrame::Result {
        job_id: "1-1".to_string(),
        body: ResultBody::Pong { app_version: "0.9.4".to_string() },
    };
    assert!(matches!(finish_simple(Ok(pong)), SimpleEnd::Answer(_)));
    let refused = ServerFrame::Error {
        job_id: None,
        code: ErrorCode::UnsupportedRequest,
        message: "old".to_string(),
    };
    match finish_simple(Ok(refused)) {
        SimpleEnd::Failed { line, exit } => {
            assert_eq!(line, "handy: old");
            assert_eq!(exit, EXIT_PROTOCOL);
        }
        other => panic!("got {other:?}"),
    }
    assert!(matches!(finish_simple(Ok(ServerFrame::Unknown)), SimpleEnd::Exit(EXIT_RUNTIME)));
    match finish_simple(Err("gone".to_string())) {
        SimpleEnd::Failed { line, exit } => {
            assert_eq!(line, "handy: gone");
            assert_eq!(exit, EXIT_RUNTIME);
        }
        other => panic!("got {other:?}"),
    }
}

#[test]
fn answers_are_printed() {
    let pong = ResultBody::Pong { app_version: "0.9.4".to_string() };
    match print_simple_result(&pong, false) {
        SimpleOutput::Lines(lines) => assert_eq!(lines, words(&["handy 0.9.4 is running"])),
        other => panic!("got {other:?}"),
    }
    assert!(matches!(
        print_simple_result(&pong, true),
        SimpleOutput::PongJson { app_version } if app_version == "0.9.4"
    ));
    let mut status = StatusBody {
        app_version: "0.9.4".to_string(),
        protocol: 1,
        pid: 77,
        uptime_secs: 61,
        selected_model: "large".to_string(),
        loaded_model: None,
        backend: None,
        model_loaded: false,
        engine_busy: None,
        recording: true,
        streaming: false,
        post_process_enabled: true,
    };
    match print_simple_result(&ResultBody::Status(Box::new(status.clone())), false) {
        SimpleOutput::Lines(lines) => assert_eq!(
            lines,
            words(&[
                "version:    0.9.4",
                "pid:        77",
                "uptime:     61s",
                "selected:   large",
                "loaded:     (none)",
                "backend:    (unknown)",
                "engine:     idle",
                "recording:  true",
                "streaming:  false",
                "post-proc:  true",
            ])
        ),
        other => panic!("got {other:?}"),
    }
    status.engine_busy = Some(LeaseOwner::Cli);
    status.loaded_model = Some("small".to_string());
    let body = ResultBody::Status(Box::new(status));
    match print_simple_result(&body, false) {
        SimpleOutput::Lines(lines) => {
            assert_eq!(lines[4], "loaded:     small");
            assert_eq!(lines[6], "engine:     busy (CLI job)");
        }
        other => panic!("got {other:?}"),
    }
    assert!(matches!(print_simple_result(&body, true), SimpleOutput::StatusJson));
    let text = ResultBody::Transcript(Box::new(transcript("hi")));
    assert!(matches!(print_simple_result(&text, false), SimpleOutput::Nothing));
}

#[test]
fn a_transcript_is_printed_bare() {
    let mut args = transcribe("a.wav");
    let t = transcript("hi");
    assert!(matches!(print_transcript(&t, &args), TranscriptOutput::Text(s) if s == "hi\n"));
    assert_eq!(finish_transcript(&t, &args, true), (vec![], EXIT_OK));
    // An empty transcript prints nothing, not even a newline.
    let empty = transcript("");
    assert!(matches!(print_transcript(&empty, &args), TranscriptOutput::Nothing));
    args.common.json = true;
    assert!(matches!(print_transcript(&t, &args), TranscriptOutput::Json));
    assert!(matches!(print_transcript(&empty, &args), TranscriptOutput::Json));
    args.ndjson = true;
    assert!(matches!(print_transcript(&t, &args), TranscriptOutput::Nothing));
}

#[test]
fn an_empty_transcript_is_a_success_unless_asked() {
    let mut args = transcribe("a.wav");
    let mut t = transcript("");
    t.post_processed = true;
    assert_eq!(
        finish_transcript(&t, &args, true),
        (
            words(&[
                "handy: no speech detected",
                "handy: post-processing was requested but did not apply (provider failed?)",
            ]),
            EXIT_OK
        )
    );
    args.fail_on_empty = true;
    assert_eq!(
        finish_transcript(&t, &args, true),
        (words(&["handy: no speech detected"]), EXIT_EMPTY)
    );
    // A closed pipe is not an error.
    assert_eq!(finish_transcript(&t, &args, false), (vec![], EXIT_OK));
    args.common.quiet = true;
    assert_eq!(finish_transcript(&t, &args, true), (vec![], EXIT_EMPTY));
    assert_eq!(stdout_failure(true, "broken pipe"), None);
    assert_eq!(
        stdout_failure(false, "disk full").as_deref(),
        Some("handy: writing to stdout: disk full")
    );
}
