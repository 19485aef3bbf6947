//! Command-line surface.
//!
//! Two shapes coexist:
//!
//! - The flat flags (`--toggle-transcription`, `-f FILE`, …), which
//!   are documented and live in people's window-manager configs, so they parse
//!   exactly as they always have. They belong to the app, and a command line
//!   that holds one is handed to it untouched.
//! - Client subcommands (`handy status`) and the bare form `handy FILE.wav`,
//!   which talk to a running instance over the control socket.

use crate::text;
use vstd::prelude::*;

pub mod client;
pub mod output;

verus! {

/// What to do when the running instance's engine is busy.
#[derive(Debug, Clone, Copy, PartialEq, Eq, Structural)]
pub enum IfBusy {
    /// Queue behind the current job. Dictations still take priority.
    Wait,
    /// Exit immediately with the busy status.
    Fail,
    /// Fall back to transcribing in this process.
    Local,
}

/// Flags every client subcommand accepts.
#[derive(Debug, Clone)]
pub struct CommonArgs {
    /// Emit the result as JSON.
    pub json: bool,
    /// Give up if the running instance sends nothing for this many seconds.
    /// Bounds silence, not total runtime — a long transcription is fine.
    pub idle_timeout: u64,
    /// Suppress progress and notes on stderr.
    pub quiet: bool,
}

impl Default for CommonArgs {
    fn default() -> (r: Self)
        ensures
            r == (CommonArgs { json: false, idle_timeout: 0, quiet: false }),
    {
        CommonArgs { json: false, idle_timeout: 0, quiet: false }
    }
}

/// A `transcribe` invocation.
#[derive(Debug, Clone)]
pub struct TranscribeArgs {
    /// Audio file to transcribe.
    pub file: String,
    pub common: CommonArgs,
    /// Also run LLM post-processing. The command filter and variant conversion
    /// run either way.
    pub llm_post_process: bool,
    /// Print the engine's output untouched.
    pub raw: bool,
    /// Paste the transcript into the focused window.
    pub paste: bool,
    /// Record the result in the transcription history.
    pub history: bool,
    /// Keep the result out of history (the default).
    pub no_history: bool,
    /// Use this model instead of the loaded one.
    pub model: Option<String>,
    /// Leave the model override loaded instead of restoring the previous one.
    pub no_restore_model: bool,
    /// Print every protocol frame as JSON, one per line, terminal frame last.
    pub ndjson: bool,
    /// Transcribe in this process instead of connecting.
    pub local: bool,
    /// What to do when the running instance's engine is busy.
    pub if_busy: IfBusy,
    /// Exit non-zero when the transcript is empty.
    pub fail_on_empty: bool,
    /// Show progress on stderr even when it is not a terminal.
    pub progress: bool,
    /// Never show progress on stderr.
    pub no_progress: bool,
    /// Use the batch engine even when the model can stream.
    pub no_stream: bool,
    /// Print text on stderr as it is decoded (streaming models only).
    pub partials: bool,
}

/// A client subcommand.
#[derive(Debug, Clone)]
pub enum Command {
    /// Transcribe an audio file using the running instance's loaded model.
    Transcribe(TranscribeArgs),
    /// Report what the running instance is doing.
    Status(CommonArgs),
    /// Check that the running instance answers.
    Ping(CommonArgs),
    /// `handy FILE.wav [flags]` — captured verbatim and re-parsed as
    /// `transcribe`.
    Bare(Vec<String>),
}

/// The whole command line of the app.
#[derive(Debug, Clone)]
pub struct CliArgs {
    /// Client subcommand, or a bare file path to transcribe.
    pub command: Option<Command>,
    pub start_hidden: bool,
    pub no_tray: bool,
    pub toggle_transcription: bool,
    pub toggle_post_process: bool,
    pub cancel: bool,
    pub debug: bool,
    /// Transcribe this WAV headlessly and exit.
    pub transcribe_file: Option<String>,
    pub model: Option<String>,
    pub device_index: Option<usize>,
    pub list_devices: bool,
    pub list_models: bool,
    pub repeat: Option<usize>,
    pub json: bool,
    pub no_ipc: bool,
}

impl Default for CliArgs {
    fn default() -> (r: Self)
        ensures
            r == (CliArgs {
                command: None,
                start_hidden: false,
                no_tray: false,
                toggle_transcription: false,
                toggle_post_process: false,
                cancel: false,
                debug: false,
                transcribe_file: None,
                model: None,
                device_index: None,
                list_devices: false,
                list_models: false,
                repeat: None,
                json: false,
                no_ipc: false,
            }),
    {
        CliArgs {
            command: None,
            start_hidden: false,
            no_tray: false,
            toggle_transcription: false,
            toggle_post_process: false,
            cancel: false,
            debug: false,
            transcribe_file: None,
            model: None,
            device_index: None,
            list_devices: false,
            list_models: false,
            repeat: None,
            json: false,
            no_ipc: false,
        }
    }
}

// ---------------------------------------------------------------------------
// Routing
// ---------------------------------------------------------------------------

/// Flags that mean "this is the app, not the CLI". `--model` and `--json` are
/// absent on purpose: both sides accept them.
pub open spec fn app_flag(name: Seq<char>) -> bool {
    ||| name == "--toggle-transcription"@
    ||| name == "--toggle-post-process"@
    ||| name == "--cancel"@
    ||| name == "--start-hidden"@
    ||| name == "--no-tray"@
    ||| name == "--debug"@
    ||| name == "--no-ipc"@
    ||| name == "-f"@
    ||| name == "--transcribe-file"@
    ||| name == "--list-devices"@
    ||| name == "--list-models"@
    ||| name == "--device-index"@
    ||| name == "--repeat"@
}

fn is_app_flag(name: &str) -> (r: bool)
    ensures
        r == app_flag(name@),
{
    text::same_text(name, "--toggle-transcription") || text::same_text(
        name,
        "--toggle-post-process",
    ) || text::same_text(name, "--cancel") || text::same_text(name, "--start-hidden")
        || text::same_text(name, "--no-tray") || text::same_text(name, "--debug")
        || text::same_text(name, "--no-ipc") || text::same_text(name, "-f") || text::same_text(
        name,
        "--transcribe-file",
    ) || text::same_text(name, "--list-devices") || text::same_text(name, "--list-models")
        || text::same_text(name, "--device-index") || text::same_text(name, "--repeat")
}

/// Whether an argument is an app flag: `--flag` and `--flag=value` alike.
pub open spec fn names_app_flag(arg: Seq<char>) -> bool {
    app_flag(text::part_before(arg, '='))
}

/// Whether this command line belongs to the app binary rather than the CLI.
pub fn is_app_invocation(args: &Vec<String>) -> (r: bool)
    ensures
        r == exists|i: int| 0 <= i < args@.len() && names_app_flag(#[trigger] args@[i]@),
{
    let mut i: usize = 0;
    while i < args.len()
        invariant
            i <= args.len(),
            forall|j: int| 0 <= j < i ==> !names_app_flag(#[trigger] args@[j]@),
        decreases args.len() - i,
    {
        if is_app_flag(text::before(args[i].as_str(), '=').as_str()) {
            assert(names_app_flag(args@[i as int]@));
            return true;
        }
        i = i + 1;
    }
    false
}

/// Who handles a command line.
#[derive(Debug, Clone, Copy, PartialEq, Eq, Structural)]
pub enum Route {
    /// Print help: there are no arguments at all.
    Help,
    /// Hand the command line to the app, verbatim.
    App,
    /// Parse it here.
    Client,
}

/// Who handles a command line. The app binary cannot print help on an empty one —
/// a bundle is launched with no arguments, so for it that has to mean "start the
/// GUI".
pub fn route(args: &Vec<String>) -> (r: Route)
    ensures
        r == (if args@.len() == 0 {
            Route::Help
        } else if exists|i: int| 0 <= i < args@.len() && names_app_flag(#[trigger] args@[i]@) {
            Route::App
        } else {
            Route::Client
        }),
{
    if args.len() == 0 {
        Route::Help
    } else if is_app_invocation(args) {
        Route::App
    } else {
        Route::Client
    }
}

/// The name of the app binary.
pub fn app_binary_name(windows: bool) -> (r: &'static str)
    ensures
        r@ == (if windows {
            "handy.exe"@
        } else {
            "handy"@
        }),
{
    if windows {
        "handy.exe"
    } else {
        "handy"
    }
}

/// A path the app binary may have.
#[derive(Debug)]
pub struct BinaryCandidate {
    pub path: String,
    pub is_file: bool,
}

/// The path of a candidate that is there.
pub open spec fn usable(candidate: Option<BinaryCandidate>) -> Option<Seq<char>> {
    match candidate {
        Some(c) => if c.is_file {
            Some(c.path@)
        } else {
            None
        },
        None => None,
    }
}

/// The first of two paths, where there is one.
pub open spec fn or_else(a: Option<Seq<char>>, b: Option<Seq<char>>) -> Option<Seq<char>> {
    if a is Some {
        a
    } else {
        b
    }
}

fn use_candidate(candidate: Option<BinaryCandidate>) -> (r: Option<String>)
    ensures
        text::opt_text(r) == usable(candidate),
{
    match candidate {
        Some(c) => if c.is_file {
            Some(c.path)
        } else {
            None
        },
        None => None,
    }
}

/// Find the app binary that pairs with this CLI: what the environment names, the
/// sibling of this executable unless that is this executable itself, the one a
/// directory up, and the installed one.
pub fn locate_app_binary(
    named: Option<BinaryCandidate>,
    sibling: Option<BinaryCandidate>,
    sibling_is_self: bool,
    above: Option<BinaryCandidate>,
    installed: Option<BinaryCandidate>,
) -> (r: Option<String>)
    ensures
        text::opt_text(r) == or_else(
            usable(named),
            or_else(
                if sibling_is_self {
                    None
                } else {
                    usable(sibling)
                },
                or_else(usable(above), usable(installed)),
            ),
        ),
        named matches Some(c) ==> (c.is_file ==> r is Some && (r->0)@ == c.path@),
        r is None ==> (named matches Some(c) ==> !c.is_file) && (above matches Some(c)
            ==> !c.is_file) && (installed matches Some(c) ==> !c.is_file) && (sibling matches Some(c)
            ==> !c.is_file || sibling_is_self),
{
    if let Some(path) = use_candidate(named) {
        return Some(path);
    }
    if !sibling_is_self {
        if let Some(path) = use_candidate(sibling) {
            return Some(path);
        }
    }
    if let Some(path) = use_candidate(above) {
        return Some(path);
    }
    use_candidate(installed)
}

// ---------------------------------------------------------------------------
// Bare tokens
// ---------------------------------------------------------------------------

/// Whether a bare token can only be meant as a verb: a path would show.
pub open spec fn verb_like(token: Seq<char>) -> bool {
    &&& token.len() > 0
    &&& token[0] != '-'
    &&& !token.contains('/')
    &&& !token.contains('\\')
    &&& !token.contains('.')
}

/// Whether a bare token can only be meant as a verb.
pub fn looks_like_a_verb(token: &str) -> (r: bool)
    ensures
        r == verb_like(token@),
{
    !token.is_empty() && token.get_char(0) != '-' && !text::contains_char(token, '/')
        && !text::contains_char(token, '\\') && !text::contains_char(token, '.')
}

/// The minimum number of insertions, deletions and substitutions that change one
/// text into the other.
pub open spec fn edit_distance(a: Seq<char>, b: Seq<char>) -> nat
    decreases a.len() + b.len(),
{
    if a.len() == 0 {
        b.len()
    } else if b.len() == 0 {
        a.len()
    } else {
        let without_a = edit_distance(a.drop_last(), b) + 1;
        let without_b = edit_distance(a, b.drop_last()) + 1;
        let without_both = edit_distance(a.drop_last(), b.drop_last()) + (if a.last() == b.last() {
            0nat
        } else {
            1nat
        });
        let least = if without_a <= without_b {
            without_a
        } else {
            without_b
        };
        if least <= without_both {
            least
        } else {
            without_both
        }
    }
}

/// `strsim::levenshtein` is claimed to compute the edit distance over the
/// characters of its arguments.
pub assume_specification[ strsim::levenshtein ](a: &str, b: &str) -> (r: usize)
    ensures
        r == edit_distance(a@, b@),
;

/// The verb a token is a typo of: the closest one, the first where two are
/// equally close, and none further than two edits away.
pub open spec fn closest(token: Seq<char>) -> Option<Seq<char>> {
    let transcribe = edit_distance("transcribe"@, token);
    let status = edit_distance("status"@, token);
    let ping = edit_distance("ping"@, token);
    if transcribe <= 2 && transcribe <= status && transcribe <= ping {
        Some("transcribe"@)
    } else if status <= 2 && status <= ping && status < transcribe {
        Some("status"@)
    } else if ping <= 2 && ping < status && ping < transcribe {
        Some("ping"@)
    } else {
        None
    }
}

/// The verb a token is a typo of.
pub fn closest_verb(token: &str) -> (r: Option<&'static str>)
    ensures
        match r {
            Some(verb) => closest(token@) == Some(verb@),
            None => closest(token@) is None,
        },
{
    let transcribe: usize = strsim::levenshtein("transcribe", token);
    let status: usize = strsim::levenshtein("status", token);
    let ping: usize = strsim::levenshtein("ping", token);
    // Two edits is close enough to be a typo, further is a different word.
    if transcribe <= 2 && transcribe <= status && transcribe <= ping {
        Some("transcribe")
    } else if status <= 2 && status <= ping {
        Some("status")
    } else if ping <= 2 {
        Some("ping")
    } else {
        None
    }
}

proof fn lemma_no_edits_between_equals(a: Seq<char>)
    ensures
        edit_distance(a, a) == 0,
    decreases a.len(),
{
    if a.len() > 0 {
        lemma_no_edits_between_equals(a.drop_last());
    }
}

proof fn lemma_no_edits_means_equal(a: Seq<char>, b: Seq<char>)
    requires
        edit_distance(a, b) == 0,
    ensures
        a == b,
    decreases a.len(),
{
    if a.len() > 0 && b.len() > 0 {
        lemma_no_edits_means_equal(a.drop_last(), b.drop_last());
        assert(a =~= a.drop_last().push(a.last()));
        assert(b =~= b.drop_last().push(b.last()));
    } else {
        assert(a =~= b);
    }
}

/// A suggestion is never further than two edits away, and a verb that is spelled
/// right is its own suggestion.
pub proof fn law_suggestions_are_close(token: Seq<char>)
    ensures
        closest(token) matches Some(verb) ==> edit_distance(verb, token) <= 2,
        token == "transcribe"@ || token == "status"@ || token == "ping"@ ==> closest(token)
            == Some(token),
{
    reveal_strlit("transcribe");
    reveal_strlit("status");
    reveal_strlit("ping");
    lemma_no_edits_between_equals(token);
    if edit_distance("transcribe"@, token) == 0 {
        lemma_no_edits_means_equal("transcribe"@, token);
    }
    if edit_distance("status"@, token) == 0 {
        lemma_no_edits_means_equal("status"@, token);
    }
    assert("transcribe"@.len() != "status"@.len());
    assert("transcribe"@.len() != "ping"@.len());
    assert("status"@.len() != "ping"@.len());
}

/// A suggestion is one of the verbs, no other verb is closer, and there is one
/// wherever a verb is two edits away or less.
pub proof fn law_the_closest_verb_is_suggested(token: Seq<char>)
    ensures
        match closest(token) {
            Some(verb) => {
                &&& verb == "transcribe"@ || verb == "status"@ || verb == "ping"@
                &&& edit_distance(verb, token) <= 2
                &&& edit_distance(verb, token) <= edit_distance("transcribe"@, token)
                &&& edit_distance(verb, token) <= edit_distance("status"@, token)
                &&& edit_distance(verb, token) <= edit_distance("ping"@, token)
            },
            None => {
                &&& edit_distance("transcribe"@, token) > 2
                &&& edit_distance("status"@, token) > 2
                &&& edit_distance("ping"@, token) > 2
            },
        },
{
}

/// A flag belongs to the app whether or not a value is glued to it.
pub proof fn law_a_glued_value_changes_nothing(flag: Seq<char>, value: Seq<char>)
    requires
        !flag.contains('='),
    ensures
        names_app_flag(flag) == app_flag(flag),
        names_app_flag(flag + seq!['='] + value) == app_flag(flag),
{
    text::lemma_part_before(flag, value, '=');
}

/// Any path, flag or file name is no verb: only a word without a separator, a dot
/// or a leading dash is.
pub proof fn law_paths_are_no_verbs(before: Seq<char>, after: Seq<char>)
    ensures
        !verb_like(Seq::empty()),
        !verb_like(seq!['-'] + after),
        !verb_like(before + seq!['/'] + after),
        !verb_like(before + seq!['\\'] + after),
        !verb_like(before + seq!['.'] + after),
        before.len() > 0 && (forall|i: int|
            0 <= i < before.len() ==> #[trigger] before[i] != '-' && before[i] != '/' && before[i]
                != '.' && before[i] != '\\') ==> verb_like(before),
{
    let n = before.len() as int;
    assert((before + seq!['/'] + after)[n] == '/');
    assert((before + seq!['\\'] + after)[n] == '\\');
    assert((before + seq!['.'] + after)[n] == '.');
}

/// A candidate is used exactly where it is there, the earlier one first.
pub proof fn law_the_first_binary_that_is_there(
    c: BinaryCandidate,
    a: Seq<char>,
    b: Option<Seq<char>>,
)
    ensures
        c.is_file ==> usable(Some(c)) == Some(c.path@),
        !c.is_file ==> usable(Some(c)) is None,
        usable(None) is None,
        or_else(Some(a), b) == Some(a),
        or_else(None, b) == b,
{
}

} // verus!
