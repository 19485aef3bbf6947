//! How the control socket is bound and how a connection attempt is judged.
//!
//! The socket implementation itself stays outside: it reports what kind of
//! failure it met, and is told what to do about it.

use crate::endpoint;
use crate::endpoint::Descriptor;
use crate::endpoint::Permissions;
use crate::text;
use vstd::prelude::*;

verus! {

/// The kinds of I/O failure that matter here.
#[derive(Debug, Clone, Copy, PartialEq, Eq, Structural)]
pub enum IoKind {
    NotFound,
    ConnectionRefused,
    AddrNotAvailable,
    AddrInUse,
    Other,
}

/// A failed socket operation.
#[derive(Debug)]
pub struct IoFailure {
    pub kind: IoKind,
    /// What the operating system says.
    pub detail: String,
}

/// Whether the name is taken, by a live listener or by a stale socket file.
pub fn is_addr_in_use(err: &IoFailure) -> (r: bool)
    ensures
        r == (err.kind == IoKind::AddrInUse),
{
    err.kind == IoKind::AddrInUse
}

/// How binding goes on.
#[derive(Debug)]
pub enum BindStep {
    /// The socket is bound; restrict its file, where there is one.
    Listening(Option<Permissions>),
    /// Find out whether somebody answers on the name.
    Probe,
    /// Remove the stale socket file, where there is one, and bind again.
    Rebind(Option<String>),
    /// Give up.
    Failed(String),
}

/// The socket file of a target: named pipes have none.
pub open spec fn socket_file(target: Seq<char>, windows: bool) -> Option<Seq<char>> {
    if windows {
        None
    } else {
        Some(target)
    }
}

/// How binding goes on, by its texts.
pub enum BindView {
    /// Bound; the file that is restricted to its owner, where there is one.
    Listening(Option<Seq<char>>),
    Probe,
    Rebind(Option<Seq<char>>),
    Failed(Seq<char>),
}

impl BindStep {
    /// Whether this is how the model goes on.
    pub open spec fn is(self, view: BindView) -> bool {
        match (self, view) {
            (BindStep::Listening(Some(p)), BindView::Listening(Some(file))) => p.path@ == file
                && p.mode == endpoint::PRIVATE_FILE_MODE,
            (BindStep::Listening(None), BindView::Listening(None)) => true,
            (BindStep::Probe, BindView::Probe) => true,
            (BindStep::Rebind(file), BindView::Rebind(v)) => text::opt_text(file) == v,
            (BindStep::Failed(message), BindView::Failed(v)) => message@ == v,
            _ => false,
        }
    }
}

/// What came of an attempt to bind, by its text.
pub open spec fn attempted(attempt: Result<(), IoFailure>) -> Result<(), (IoKind, Seq<char>)> {
    match attempt {
        Ok(_) => Ok(()),
        Err(e) => Err((e.kind, e.detail@)),
    }
}

/// What follows the first attempt.
pub open spec fn first_attempt(
    target: Seq<char>,
    windows: bool,
    attempt: Result<(), (IoKind, Seq<char>)>,
) -> BindView {
    match attempt {
        Ok(_) => BindView::Listening(socket_file(target, windows)),
        Err((kind, detail)) => if kind == IoKind::AddrInUse {
            BindView::Probe
        } else {
            BindView::Failed("binding "@ + target + ": "@ + detail)
        },
    }
}

/// What follows the probe.
pub open spec fn probed(target: Seq<char>, windows: bool, live: bool) -> BindView {
    if live {
        BindView::Failed("another Handy instance is already listening on "@ + target)
    } else {
        BindView::Rebind(socket_file(target, windows))
    }
}

/// What follows the second attempt.
pub open spec fn second_attempt(
    target: Seq<char>,
    windows: bool,
    attempt: Result<(), (IoKind, Seq<char>)>,
) -> BindView {
    match attempt {
        Ok(_) => BindView::Listening(socket_file(target, windows)),
        Err((kind, detail)) => BindView::Failed(
            "re-binding "@ + target + " after clearing a stale socket: "@ + detail,
        ),
    }
}

fn bound(target: &str, windows: bool) -> (r: BindStep)
    ensures
        r.is(BindView::Listening(socket_file(target@, windows))),
{
    if windows {
        BindStep::Listening(None)
    } else {
        BindStep::Listening(Some(endpoint::restrict_socket_file(target)))
    }
}

/// Bind the control socket: what follows the first attempt.
///
/// A stale socket file is reported as taken exactly as a live one is, so the
/// name is probed before anything is removed — otherwise a second instance
/// would happily steal a running instance's socket.
pub fn bind(target: &str, windows: bool, attempt: Result<(), IoFailure>) -> (r: BindStep)
    ensures
        r.is(first_attempt(target@, windows, attempted(attempt))),
{
    match attempt {
        Ok(_) => bound(target, windows),
        Err(e) => if is_addr_in_use(&e) {
            BindStep::Probe
        } else {
            BindStep::Failed(
                "binding ".to_owned().concat(target).concat(": ").concat(e.detail.as_str()),
            )
        },
    }
}

/// What follows the probe.
pub fn bind_probed(target: &str, windows: bool, live: bool) -> (r: BindStep)
    ensures
        r.is(probed(target@, windows, live)),
{
    if live {
        BindStep::Failed("another Handy instance is already listening on ".to_owned().concat(target))
    } else if windows {
        BindStep::Rebind(None)
    } else {
        BindStep::Rebind(Some(target.to_owned()))
    }
}

/// What follows the second attempt, after a stale socket was cleared.
pub fn bind_again(target: &str, windows: bool, attempt: Result<(), IoFailure>) -> (r: BindStep)
    ensures
        r.is(second_attempt(target@, windows, attempted(attempt))),
{
    match attempt {
        Ok(_) => bound(target, windows),
        Err(e) => BindStep::Failed(
            "re-binding ".to_owned().concat(target).concat(
                " after clearing a stale socket: ",
            ).concat(e.detail.as_str()),
        ),
    }
}

/// Whether the descriptor alone shows that nobody listens on `target`: it names
/// this very target and a process that is gone. That is conclusive, and cheaper
/// than connecting.
pub open spec fn descriptor_rules_out(
    target: Seq<char>,
    descriptor: Option<Descriptor>,
    alive: bool,
) -> bool {
    descriptor is Some && descriptor->0.endpoint@ == target && !alive
}

/// Whether something actually answers on `target`, as far as the descriptor
/// says; `None` where only connecting can tell.
pub fn probe_is_live(target: &str, descriptor: &Option<Descriptor>, alive: bool) -> (r: Option<bool>)
    ensures
        r == (if descriptor_rules_out(target@, *descriptor, alive) {
            Some(false)
        } else {
            None
        }),
{
    if let Some(d) = descriptor {
        if text::same_text(d.endpoint.as_str(), target) && !alive {
            return Some(false);
        }
    }
    None
}

/// How binding went, from what came of its attempts and its probe: the file that
/// was removed on the way, where one was, and how it ended.
pub open spec fn bind_run(
    target: Seq<char>,
    windows: bool,
    first: Result<(), (IoKind, Seq<char>)>,
    live: bool,
    second: Result<(), (IoKind, Seq<char>)>,
) -> (Option<Seq<char>>, BindView) {
    match first_attempt(target, windows, first) {
        BindView::Probe => match probed(target, windows, live) {
            BindView::Rebind(file) => (file, second_attempt(target, windows, second)),
            other => (None, other),
        },
        other => (None, other),
    }
}

/// A live listener is never displaced: where somebody answers on a name that is
/// taken, nothing is removed and binding fails.
pub proof fn law_a_live_socket_is_never_displaced(
    target: Seq<char>,
    windows: bool,
    first: Result<(), (IoKind, Seq<char>)>,
    second: Result<(), (IoKind, Seq<char>)>,
)
    requires
        first is Err,
    ensures
        bind_run(target, windows, first, true, second).0 is None,
        bind_run(target, windows, first, true, second).1 is Failed,
{
}

/// A socket left behind by a crash is cleared and bound again; no other file is
/// ever removed, and nothing is removed unless the name was taken.
pub proof fn law_only_a_stale_socket_is_removed(
    target: Seq<char>,
    windows: bool,
    first: Result<(), (IoKind, Seq<char>)>,
    live: bool,
    second: Result<(), (IoKind, Seq<char>)>,
)
    ensures
        ({
            let run = bind_run(target, windows, first, live, second);
            let stale = !live && (first matches Err((kind, _)) && kind == IoKind::AddrInUse);
            &&& run.0 == (if stale {
                socket_file(target, windows)
            } else {
                None
            })
            &&& stale && second is Ok ==> run.1 == BindView::Listening(socket_file(target, windows))
            &&& run.1 is Listening ==> first is Ok || (stale && second is Ok)
        }),
{
}

/// How an attempt to bind is judged: a bound socket is listened on and its file, which
/// only Windows lacks, kept to its owner; a name that is taken is probed; every
/// other failure is told, with the name and the reason.
pub proof fn law_how_binding_goes(
    target: Seq<char>,
    windows: bool,
    kind: IoKind,
    detail: Seq<char>,
    step: BindStep,
)
    ensures
        ({
            let file = if windows {
                None
            } else {
                Some(target)
            };
            &&& first_attempt(target, windows, Ok(())) == BindView::Listening(file)
            &&& second_attempt(target, windows, Ok(())) == BindView::Listening(file)
            &&& probed(target, windows, false) == BindView::Rebind(file)
            &&& probed(target, windows, true) == BindView::Failed(
                "another Handy instance is already listening on "@ + target,
            )
        }),
        first_attempt(target, windows, Err((kind, detail))) is Probe <==> kind == IoKind::AddrInUse,
        kind != IoKind::AddrInUse ==> first_attempt(target, windows, Err((kind, detail)))
            == BindView::Failed("binding "@ + target + ": "@ + detail),
        second_attempt(target, windows, Err((kind, detail))) == BindView::Failed(
            "re-binding "@ + target + " after clearing a stale socket: "@ + detail,
        ),
        step.is(BindView::Listening(Some(target))) ==> (step matches BindStep::Listening(Some(p))
            && p.path@ == target && p.mode == 0o600),
        step.is(BindView::Rebind(Some(target))) ==> (step matches BindStep::Rebind(Some(f)) && f@
            == target),
        step.is(BindView::Failed(detail)) ==> (step matches BindStep::Failed(m) && m@ == detail),
{
}

/// A descriptor rules a name out exactly where it is about that very name and its
/// process is gone.
pub proof fn law_what_a_descriptor_rules_out(target: Seq<char>, d: Descriptor, alive: bool)
    ensures
        !descriptor_rules_out(target, None, alive),
        !descriptor_rules_out(target, Some(d), true),
        descriptor_rules_out(target, Some(d), false) <==> d.endpoint@ == target,
{
}

/// What came of an attempt is judged by what the operating system said of it.
pub proof fn law_an_attempt_is_taken_as_it_is(e: IoFailure)
    ensures
        attempted(Err(e)) == Err::<(), (IoKind, Seq<char>)>((e.kind, e.detail@)),
        attempted(Ok(())) is Ok,
{
}

} // verus!
