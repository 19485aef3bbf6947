//! Exclusive access to the loaded transcription engine.
//!
//! Every path that needs the engine takes a lease first and holds it for the
//! whole operation. Interactive work wins: a waiting CLI job yields a freed
//! engine to a waiting dictation, but only until [`CLI_STARVATION_CAP`] has
//! passed. A running job is never preempted.
//!
//! The lease book is the bookkeeping alone. Whoever shares it between threads keeps
//! it behind a mutex, sleeps for the slice a [`LeasePoll::Wait`] asks for, and
//! wakes the sleepers when told to.

use crate::protocol::LeaseOwner;
use crate::protocol::WaitPolicy;
use vstd::prelude::*;

verus! {

/// How long a CLI waiter defers to interactive waiters before insisting, in
/// nanoseconds.
pub const CLI_STARVATION_CAP: u128 = 60_000_000_000;

/// Longest single wait between two polls, in nanoseconds. Bounding it keeps
/// cancellation and the starvation cap responsive.
pub const POLL_SLICE: u128 = 200_000_000;

/// Why a lease could not be acquired.
#[derive(Debug, Clone, Copy, PartialEq, Eq, Structural)]
pub enum LeaseError {
    /// The engine is held and the caller asked not to wait.
    Busy(LeaseOwner),
    /// The caller's timeout elapsed. Carries the current holder, which is
    /// `None` when a CLI waiter timed out while yielding to interactive work.
    Timeout(Option<LeaseOwner>),
    /// The caller's cancel token was set while waiting.
    Cancelled,
}

impl LeaseError {
    /// The text a client is shown for this failure.
    pub open spec fn text(self) -> Seq<char> {
        match self {
            LeaseError::Busy(owner) => "the transcription engine is busy with a "@ + owner.text(),
            LeaseError::Timeout(Some(owner)) => {
                "timed out waiting for the transcription engine (held by a "@ + owner.text() + ")"@
            },
            LeaseError::Timeout(None) => "timed out waiting for the transcription engine"@,
            LeaseError::Cancelled => "cancelled while waiting for the engine"@,
        }
    }

    /// The text a client is shown for this failure.
    pub fn message(self) -> (r: String)
        ensures
            r@ == self.text(),
    {
        match self {
            LeaseError::Busy(owner) => {
                "the transcription engine is busy with a ".to_owned().concat(owner.label())
            },
            LeaseError::Timeout(Some(owner)) => {
                let held = "timed out waiting for the transcription engine (held by a ".to_owned();
                held.concat(owner.label()).concat(")")
            },
            LeaseError::Timeout(None) => {
                "timed out waiting for the transcription engine".to_owned()
            },
            LeaseError::Cancelled => "cancelled while waiting for the engine".to_owned(),
        }
    }
}

// ---------------------------------------------------------------------------
// Model
// ---------------------------------------------------------------------------

/// What the lease book remembers.
pub struct GateView {
    /// Current holder, if any.
    pub owner: Option<LeaseOwner>,
    /// Token of the latest lease; the current one carries it, where there is one.
    pub token: int,
    /// Number of leases granted so far, and the highest token minted.
    pub issued: int,
    /// Number of interactive waiters registered and not yet served.
    pub interactive: int,
}

/// Something that happens to the lease book.
pub enum GateEvent {
    /// Take the engine now or not at all.
    Try(LeaseOwner),
    /// Join the waiters.
    Join(LeaseOwner),
    /// A waiter looks at the lease book, `elapsed` after it joined.
    Poll { owner: LeaseOwner, timeout: Option<u128>, elapsed: u128, cancelled: bool },
    /// A lease is given back.
    Release(int),
}

/// What a poll decides.
pub enum Verdict {
    Grant,
    Fail(LeaseError),
    Sleep(int),
}

/// Whether a waiter leaves a free engine to the interactive waiters.
pub open spec fn yields(g: GateView, owner: LeaseOwner, elapsed: u128) -> bool {
    &&& !owner.interactive()
    &&& g.interactive > 0
    &&& elapsed < CLI_STARVATION_CAP
}

/// How long a waiter sleeps before it polls again.
pub open spec fn slice(timeout: Option<u128>, elapsed: u128) -> int {
    match timeout {
        Some(t) if t - elapsed < POLL_SLICE => t - elapsed,
        _ => POLL_SLICE as int,
    }
}

/// What a poll decides: cancellation first, then a free engine, then the
/// deadline.
pub open spec fn verdict(
    g: GateView,
    owner: LeaseOwner,
    timeout: Option<u128>,
    elapsed: u128,
    cancelled: bool,
) -> Verdict {
    if cancelled {
        Verdict::Fail(LeaseError::Cancelled)
    } else if g.owner is None && !yields(g, owner, elapsed) {
        Verdict::Grant
    } else if timeout matches Some(t) && elapsed >= t {
        Verdict::Fail(LeaseError::Timeout(g.owner))
    } else {
        Verdict::Sleep(slice(timeout, elapsed))
    }
}

/// The lease book after granting the engine to `owner`: the lease carries a token
/// that none before it carried.
pub open spec fn granted(g: GateView, owner: LeaseOwner) -> GateView {
    GateView {
        owner: Some(owner),
        token: g.issued + 1,
        issued: g.issued + 1,
        interactive: g.interactive,
    }
}

/// What comes of taking the engine now or not at all: the token and the holder of
/// a lease, or who is in the way.
pub open spec fn try_outcome(g: GateView, owner: LeaseOwner) -> Result<
    (int, LeaseOwner),
    LeaseError,
> {
    match g.owner {
        Some(current) => Err(LeaseError::Busy(current)),
        None => Ok((g.issued + 1, owner)),
    }
}

/// A wait in milliseconds, counted in nanoseconds.
pub open spec fn in_nanos(timeout_ms: Option<u64>) -> Option<u128> {
    match timeout_ms {
        Some(ms) => Some((ms * 1_000_000) as u128),
        None => None,
    }
}

/// The lease book after a waiter has left the queue.
pub open spec fn left(g: GateView, owner: LeaseOwner) -> GateView {
    if owner.interactive() {
        GateView { interactive: g.interactive - 1, ..g }
    } else {
        g
    }
}

/// The lease book after `e`.
pub open spec fn gate_step(g: GateView, e: GateEvent) -> GateView {
    match e {
        GateEvent::Try(owner) => if g.owner is None {
            granted(g, owner)
        } else {
            g
        },
        GateEvent::Join(owner) => if owner.interactive() {
            GateView { interactive: g.interactive + 1, ..g }
        } else {
            g
        },
        GateEvent::Poll { owner, timeout, elapsed, cancelled } => {
            match verdict(g, owner, timeout, elapsed, cancelled) {
                Verdict::Grant => left(granted(g, owner), owner),
                Verdict::Fail(_) => left(g, owner),
                Verdict::Sleep(_) => g,
            }
        },
        GateEvent::Release(token) => if token == g.token {
            GateView { owner: None, ..g }
        } else {
            g
        },
    }
}

/// Whether `e` hands out a lease.
pub open spec fn grants(g: GateView, e: GateEvent) -> bool {
    match e {
        GateEvent::Try(_) => g.owner is None,
        GateEvent::Poll { owner, timeout, elapsed, cancelled } => {
            verdict(g, owner, timeout, elapsed, cancelled) is Grant
        },
        _ => false,
    }
}

/// A gate nobody has used yet.
pub open spec fn fresh_gate() -> GateView {
    GateView { owner: None, token: 0, issued: 0, interactive: 0 }
}

/// `g` after a list of events.
pub open spec fn gate_run(g: GateView, events: Seq<GateEvent>) -> GateView
    decreases events.len(),
{
    if events.len() == 0 {
        g
    } else {
        gate_step(gate_run(g, events.drop_last()), events.last())
    }
}

/// The lease book after a history of events.
pub open spec fn gate_after(history: Seq<GateEvent>) -> GateView
    decreases history.len(),
{
    if history.len() == 0 {
        fresh_gate()
    } else {
        gate_step(gate_after(history.drop_last()), history.last())
    }
}

/// Whether the event at `i` of a history hands out a lease.
pub open spec fn grants_at(history: Seq<GateEvent>, i: int) -> bool {
    0 <= i < history.len() && grants(gate_after(history.take(i)), history[i])
}

/// The token of the lease handed out by the event at `i`.
pub open spec fn token_at(history: Seq<GateEvent>, i: int) -> int {
    gate_after(history.take(i + 1)).token
}

/// By how much `e` changes the number of queued interactive waiters.
pub open spec fn queue_change(g: GateView, e: GateEvent) -> int {
    match e {
        GateEvent::Join(owner) => if owner.interactive() {
            1
        } else {
            0
        },
        GateEvent::Poll { owner, timeout, elapsed, cancelled } => {
            if owner.interactive() && !(verdict(g, owner, timeout, elapsed, cancelled) is Sleep) {
                -1
            } else {
                0
            }
        },
        _ => 0,
    }
}

/// Interactive waiters that joined during a history, less those that left.
pub open spec fn queue_balance(history: Seq<GateEvent>) -> int
    decreases history.len(),
{
    if history.len() == 0 {
        0
    } else {
        queue_balance(history.drop_last()) + queue_change(
            gate_after(history.drop_last()),
            history.last(),
        )
    }
}

// ---------------------------------------------------------------------------
// The lease book
// ---------------------------------------------------------------------------

/// The lease book itself; one instance per engine.
pub struct EngineLeaseGate {
    owner: Option<LeaseOwner>,
    /// Identifies the current lease so a stale [`EngineLease`] cannot release a
    /// newer holder's claim.
    token: u64,
    next_token: u64,
    interactive_waiters: usize,
}

/// A claim on the transcription engine, given back with
/// [`EngineLeaseGate::release`].
#[derive(Debug)]
pub struct EngineLease {
    token: u64,
    owner: LeaseOwner,
}

/// A place in the queue for the engine.
#[derive(Debug)]
pub struct LeaseWaiter {
    owner: LeaseOwner,
    timeout: Option<u128>,
}

/// How a claim on the engine begins.
#[derive(Debug)]
pub enum Claim {
    /// It is decided already.
    Settled(Result<EngineLease, LeaseError>),
    /// The claim waits; continue with [`EngineLeaseGate::acquire`].
    Queued(LeaseWaiter),
}

/// Outcome of one look at the lease book by a waiter.
#[derive(Debug)]
pub enum LeasePoll {
    /// The engine is the caller's.
    Granted(EngineLease),
    /// The wait is over without a lease.
    Failed(LeaseError),
    /// Sleep for at most `slice` nanoseconds, then poll again.
    Wait { waiter: LeaseWaiter, slice: u128 },
}

impl View for EngineLeaseGate {
    type V = GateView;

    closed spec fn view(&self) -> GateView {
        GateView {
            owner: self.owner,
            token: self.token as int,
            issued: self.next_token as int,
            interactive: self.interactive_waiters as int,
        }
    }
}

impl EngineLease {
    /// The token of this lease.
    pub closed spec fn id(self) -> int {
        self.token as int
    }

    /// Who holds this lease.
    pub closed spec fn holder(self) -> LeaseOwner {
        self.owner
    }

    /// Who holds this lease.
    pub fn owner(&self) -> (r: LeaseOwner)
        ensures
            r == self.holder(),
    {
        self.owner
    }

    /// Whether an interactive waiter is queued behind this lease.
    pub fn has_interactive_waiters(&self, gate: &EngineLeaseGate) -> (r: bool)
        ensures
            r == (gate@.interactive > 0),
    {
        gate.has_interactive_waiters()
    }
}

/// What came of trying for a lease, by the lease's token and holder.
pub open spec fn tried(r: Result<EngineLease, LeaseError>) -> Result<
    (int, LeaseOwner),
    LeaseError,
> {
    match r {
        Ok(lease) => Ok((lease.id(), lease.holder())),
        Err(e) => Err(e),
    }
}

impl LeaseWaiter {
    /// Who is waiting.
    pub closed spec fn who(self) -> LeaseOwner {
        self.owner
    }

    /// How long the waiter is prepared to wait, in nanoseconds.
    pub closed spec fn limit(self) -> Option<u128> {
        self.timeout
    }
}

impl EngineLeaseGate {
    /// The token of the latest lease was minted.
    pub open spec fn wf(self) -> bool {
        self@.token <= self@.issued
    }

    /// Whether another lease can be minted, should the engine be free.
    pub open spec fn can_grant(self) -> bool {
        self@.owner is None ==> self@.issued < u64::MAX
    }

    /// A gate nobody has used yet.
    pub fn new() -> (r: Self)
        ensures
            r.wf(),
            r@ == fresh_gate(),
    {
        EngineLeaseGate { owner: None, token: 0, next_token: 0, interactive_waiters: 0 }
    }

    /// Who holds the engine right now, if anyone.
    pub fn busy_owner(&self) -> (r: Option<LeaseOwner>)
        ensures
            r == self@.owner,
    {
        self.owner
    }

    /// Whether any interactive waiter is currently queued behind the holder.
    pub fn has_interactive_waiters(&self) -> (r: bool)
        ensures
            r == (self@.interactive > 0),
    {
        self.interactive_waiters > 0
    }

    /// How many leases have been minted.
    pub fn leases_issued(&self) -> (r: u64)
        ensures
            r == self@.issued,
    {
        self.next_token
    }

    /// How many interactive waiters are queued.
    pub fn interactive_waiters(&self) -> (r: usize)
        ensures
            r == self@.interactive,
    {
        self.interactive_waiters
    }

    /// Take the engine if it is free, without waiting.
    pub fn try_acquire(&mut self, owner: LeaseOwner) -> (r: Result<EngineLease, LeaseError>)
        requires
            old(self).wf(),
            old(self).can_grant(),
        ensures
            final(self).wf(),
            final(self)@ == gate_step(old(self)@, GateEvent::Try(owner)),
            tried(r) == try_outcome(old(self)@, owner),
    {
        match self.owner {
            Some(current) => Err(LeaseError::Busy(current)),
            None => Ok(self.grant(owner)),
        }
    }

    /// Join the queue for the engine. A `timeout` of `None` waits indefinitely.
    pub fn join(&mut self, owner: LeaseOwner, timeout: Option<u128>) -> (r: LeaseWaiter)
        requires
            old(self).wf(),
            old(self)@.interactive < usize::MAX,
        ensures
            final(self).wf(),
            final(self)@ == gate_step(old(self)@, GateEvent::Join(owner)),
            r.who() == owner,
            r.limit() == timeout,
    {
        if owner.is_interactive_waiter() {
            self.interactive_waiters = self.interactive_waiters + 1;
        }
        LeaseWaiter { owner, timeout }
    }

    /// Claim the engine as a client asked to: one that does not wait gets it now or
    /// not at all, any other joins the queue, for as long as it is prepared to wait.
    pub fn claim(&mut self, owner: LeaseOwner, policy: WaitPolicy) -> (r: Claim)
        requires
            old(self).wf(),
            old(self).can_grant(),
            old(self)@.interactive < usize::MAX,
        ensures
            final(self).wf(),
            match policy {
                WaitPolicy::FailFast => {
                    &&& final(self)@ == gate_step(old(self)@, GateEvent::Try(owner))
                    &&& r matches Claim::Settled(outcome)
                    &&& tried(outcome) == try_outcome(old(self)@, owner)
                },
                WaitPolicy::Wait { timeout_ms } => {
                    &&& final(self)@ == gate_step(old(self)@, GateEvent::Join(owner))
                    &&& r matches Claim::Queued(waiter)
                    &&& waiter.who() == owner
                    &&& waiter.limit() == in_nanos(timeout_ms)
                },
            },
    {
        match policy {
            WaitPolicy::FailFast => Claim::Settled(self.try_acquire(owner)),
            WaitPolicy::Wait { timeout_ms } => {
                let timeout: Option<u128> = match timeout_ms {
                    Some(ms) => Some((ms as u128) * 1_000_000),
                    None => None,
                };
                Claim::Queued(self.join(owner, timeout))
            },
        }
    }

    /// Look at the lease book once on behalf of a waiter that joined `elapsed`
    /// nanoseconds ago. The flag says whether the other waiters should be
    /// woken: a CLI waiter may have been yielding to this one.
    pub fn acquire(&mut self, waiter: LeaseWaiter, elapsed: u128, cancelled: bool) -> (r: (
        LeasePoll,
        bool,
    ))
        requires
            old(self).wf(),
            old(self).can_grant(),
            waiter.who().interactive() ==> old(self)@.interactive > 0,
        ensures
            final(self).wf(),
            final(self)@ == gate_step(
                old(self)@,
                (GateEvent::Poll {
                    owner: waiter.who(),
                    timeout: waiter.limit(),
                    elapsed,
                    cancelled,
                }),
            ),
            match verdict(old(self)@, waiter.who(), waiter.limit(), elapsed, cancelled) {
                Verdict::Grant => r.0 matches LeasePoll::Granted(lease) && lease.holder()
                    == waiter.who() && lease.id() == old(self)@.issued + 1,
                Verdict::Fail(e) => r.0 == LeasePoll::Failed(e),
                Verdict::Sleep(s) => r.0 matches LeasePoll::Wait { waiter: w, slice: t } && w
                    == waiter && t == s,
            },
            r.1 == (waiter.who().interactive() && !(r.0 is Wait)),
    {
        let interactive = waiter.owner.is_interactive_waiter();
        if cancelled {
            self.leave(interactive);
            return (LeasePoll::Failed(LeaseError::Cancelled), interactive);
        }
        if self.owner.is_none() {
            let yielding = !interactive && self.interactive_waiters > 0 && elapsed
                < CLI_STARVATION_CAP;
            if !yielding {
                let lease = self.grant(waiter.owner);
                self.leave(interactive);
                return (LeasePoll::Granted(lease), interactive);
            }
        }
        let slice = match waiter.timeout {
            Some(limit) => {
                if elapsed >= limit {
                    let holder = self.owner;
                    self.leave(interactive);
                    return (LeasePoll::Failed(LeaseError::Timeout(holder)), interactive);
                }
                if limit - elapsed < POLL_SLICE {
                    limit - elapsed
                } else {
                    POLL_SLICE
                }
            },
            None => POLL_SLICE,
        };
        (LeasePoll::Wait { waiter, slice }, false)
    }

    fn leave(&mut self, interactive: bool)
        requires
            old(self).wf(),
            interactive ==> old(self)@.interactive > 0,
        ensures
            final(self).wf(),
            final(self)@ == (GateView {
                interactive: old(self)@.interactive - if interactive {
                    1int
                } else {
                    0int
                },
                ..old(self)@
            }),
    {
        if interactive {
            self.interactive_waiters = self.interactive_waiters - 1;
        }
    }

    /// Record `owner` as the holder of a free engine and mint the lease.
    pub fn grant(&mut self, owner: LeaseOwner) -> (r: EngineLease)
        requires
            old(self).wf(),
            old(self)@.owner is None,
            old(self)@.issued < u64::MAX,
        ensures
            final(self).wf(),
            final(self)@ == granted(old(self)@, owner),
            r.holder() == owner,
            r.id() == final(self)@.token,
    {
        self.next_token = self.next_token + 1;
        self.token = self.next_token;
        self.owner = Some(owner);
        EngineLease { token: self.token, owner }
    }

    /// Give a lease back. Returns whether the engine became free, in which case
    /// every waiter should be woken. A lease that was superseded does not clear
    /// the current holder's claim.
    pub fn release(&mut self, lease: EngineLease) -> (r: bool)
        requires
            old(self).wf(),
        ensures
            final(self).wf(),
            final(self)@ == gate_step(old(self)@, GateEvent::Release(lease.id())),
            r == (old(self)@.owner is Some && final(self)@.owner is None),
    {
        if self.token == lease.token && self.owner.is_some() {
            self.owner = None;
            true
        } else {
            false
        }
    }
}

// ---------------------------------------------------------------------------
// Laws
// ---------------------------------------------------------------------------

/// The engine is handed out only while nobody holds it, and then belongs to
/// whoever asked for it.
pub proof fn law_only_a_free_engine_is_granted(g: GateView, e: GateEvent)
    requires
        grants(g, e),
    ensures
        g.owner is None,
        e matches GateEvent::Try(owner) ==> gate_step(g, e).owner == Some(owner),
        e matches GateEvent::Poll { owner, .. } ==> gate_step(g, e).owner == Some(owner),
        gate_step(g, e).issued == g.issued + 1,
{
}

/// Whether the engine can be had at once is decided by the holder alone: it is
/// given exactly where nobody holds it, and then belongs to whoever asked; a
/// caller that is refused is told who holds it, and changes nothing. Waiters
/// neither decide the outcome nor are touched by it.
pub proof fn law_trying_is_decided_by_the_holder(
    g: GateView,
    owner: LeaseOwner,
    interactive: int,
)
    ensures
        ({
            let next = gate_step(g, GateEvent::Try(owner));
            let other = GateView { interactive, ..g };
            &&& try_outcome(g, owner) is Ok <==> g.owner is None
            &&& try_outcome(g, owner) matches Ok((token, holder)) ==> {
                &&& holder == owner
                &&& next.owner == Some(owner)
                &&& next.token == token
            }
            &&& try_outcome(g, owner) matches Err(e) ==> {
                &&& g.owner matches Some(holder)
                &&& e == LeaseError::Busy(holder)
                &&& next == g
            }
            &&& next.interactive == g.interactive
            &&& try_outcome(other, owner) == try_outcome(g, owner)
        }),
{
}

/// A lease is minted under the next token, which is higher than that of the
/// lease before it; nobody's place in the queue changes.
pub proof fn law_a_grant_mints_the_next_token(g: GateView, owner: LeaseOwner)
    requires
        g.owner is None,
        g.token <= g.issued,
    ensures
        granted(g, owner).issued == g.issued + 1,
        granted(g, owner).token == granted(g, owner).issued,
        granted(g, owner).token > g.token,
        granted(g, owner).owner == Some(owner),
        granted(g, owner).interactive == g.interactive,
{
}

/// A running job is never preempted: while someone holds the engine, nothing
/// but the return of that very lease changes the holder.
pub proof fn law_a_holder_is_never_preempted(g: GateView, e: GateEvent)
    requires
        g.owner is Some,
        e != GateEvent::Release(g.token),
    ensures
        gate_step(g, e).owner == g.owner,
        gate_step(g, e).token == g.token,
        gate_step(g, e).issued == g.issued,
        !grants(g, e),
{
}

/// A lease that was superseded cannot release a newer holder's claim.
pub proof fn law_a_stale_release_changes_nothing(g: GateView, token: int)
    requires
        token != g.token,
    ensures
        gate_step(g, GateEvent::Release(token)) == g,
{
}

/// Returning the current lease frees the engine, and an interactive waiter that
/// then looks at the lease book gets it.
pub proof fn law_a_release_serves_the_dictation(
    g: GateView,
    owner: LeaseOwner,
    timeout: Option<u128>,
    elapsed: u128,
)
    requires
        owner.interactive(),
    ensures
        ({
            let freed = gate_step(g, GateEvent::Release(g.token));
            &&& freed.owner is None
            &&& verdict(freed, owner, timeout, elapsed, false) is Grant
        }),
{
}

/// A waiting CLI job is not given the engine while a dictation is queued,
/// until it has waited for the starvation cap.
pub proof fn law_dictations_go_first(
    g: GateView,
    timeout: Option<u128>,
    elapsed: u128,
    cancelled: bool,
)
    requires
        g.interactive > 0,
        elapsed < CLI_STARVATION_CAP,
    ensures
        !(verdict(g, LeaseOwner::Cli, timeout, elapsed, cancelled) is Grant),
{
}

/// Steady dictation cannot starve a CLI job: once the cap has passed, it takes
/// the engine the next time it finds it free.
pub proof fn law_the_cap_ends_yielding(
    g: GateView,
    owner: LeaseOwner,
    timeout: Option<u128>,
    elapsed: u128,
)
    requires
        g.owner is None,
        elapsed >= CLI_STARVATION_CAP,
    ensures
        verdict(g, owner, timeout, elapsed, false) is Grant,
{
}

/// A sleeping waiter polls again within one slice, and never sleeps past its
/// own deadline.
pub proof fn law_sleep_is_bounded(
    g: GateView,
    owner: LeaseOwner,
    timeout: Option<u128>,
    elapsed: u128,
    cancelled: bool,
)
    ensures
        verdict(g, owner, timeout, elapsed, cancelled) matches Verdict::Sleep(s) ==> {
            &&& 0 < s <= POLL_SLICE
            &&& timeout matches Some(t) ==> elapsed + s <= t
        },
{
}

/// The lease book's count of interactive waiters is exactly those that joined and
/// have not yet been served, turned away or cancelled.
pub proof fn law_waiters_are_counted(history: Seq<GateEvent>)
    ensures
        gate_after(history).interactive == queue_balance(history),
    decreases history.len(),
{
    if history.len() > 0 {
        law_waiters_are_counted(history.drop_last());
    }
}

/// Whoever a lease that `e` hands out belongs to.
pub open spec fn granted_to(e: GateEvent) -> Option<LeaseOwner> {
    match e {
        GateEvent::Try(owner) => Some(owner),
        GateEvent::Poll { owner, .. } => Some(owner),
        _ => None,
    }
}

proof fn lemma_issued_grows(history: Seq<GateEvent>, i: int, j: int)
    requires
        0 <= i <= j <= history.len(),
    ensures
        gate_after(history.take(i)).issued <= gate_after(history.take(j)).issued,
    decreases j - i,
{
    if i < j {
        lemma_issued_grows(history, i, j - 1);
        assert(history.take(j).drop_last() == history.take(j - 1));
    }
}

/// No two leases of one gate carry the same token, so a lease can only ever
/// release its own claim.
pub proof fn law_tokens_are_unique(history: Seq<GateEvent>, i: int, j: int)
    requires
        grants_at(history, i),
        grants_at(history, j),
        i < j,
    ensures
        token_at(history, i) < token_at(history, j),
{
    lemma_issued_grows(history, i + 1, j);
    assert(history.take(i + 1).drop_last() == history.take(i));
    assert(history.take(i + 1).last() == history[i]);
    assert(history.take(j + 1).drop_last() == history.take(j));
    assert(history.take(j + 1).last() == history[j]);
}

proof fn lemma_held_since(history: Seq<GateEvent>, i: int, j: int)
    requires
        grants_at(history, i),
        i < j <= history.len(),
        forall|k: int|
            i < k < j ==> #[trigger] history[k] != GateEvent::Release(token_at(history, i)),
    ensures
        gate_after(history.take(j)).owner is Some,
        gate_after(history.take(j)).token == token_at(history, i),
        gate_after(history.take(j)).owner == granted_to(history[i]),
    decreases j,
{
    assert(history.take(j).drop_last() == history.take(j - 1));
    assert(history.take(j).last() == history[j - 1]);
    if j > i + 1 {
        lemma_held_since(history, i, j - 1);
        law_a_holder_is_never_preempted(gate_after(history.take(j - 1)), history[j - 1]);
    } else {
        law_only_a_free_engine_is_granted(gate_after(history.take(i)), history[i]);
    }
}

/// Mutual exclusion over a whole history: between two grants the first lease
/// has been given back.
pub proof fn law_leases_never_overlap(history: Seq<GateEvent>, i: int, j: int)
    requires
        grants_at(history, i),
        grants_at(history, j),
        i < j,
    ensures
        exists|k: int|
            i < k < j && #[trigger] history[k] == GateEvent::Release(token_at(history, i)),
{
    if forall|k: int|
        i < k < j ==> #[trigger] history[k] != GateEvent::Release(token_at(history, i)) {
        lemma_held_since(history, i, j);
        law_only_a_free_engine_is_granted(gate_after(history.take(j)), history[j]);
    }
}

/// A lease excludes every other use of the engine for as long as it lives: over
/// any number of calls, by whomever, nothing is granted until that very lease is
/// given back. Once it is, a caller that waits alone gets the engine the next time
/// it looks.
pub proof fn law_a_lease_excludes_until_it_is_returned(
    history: Seq<GateEvent>,
    i: int,
    j: int,
    waiter: LeaseOwner,
    elapsed: u128,
)
    requires
        grants_at(history, i),
        i < j < history.len(),
        forall|k: int|
            i < k < j ==> #[trigger] history[k] != GateEvent::Release(token_at(history, i)),
    ensures
        !grants_at(history, j),
        gate_after(history.take(j)).owner == granted_to(history[i]),
        ({
            let before = gate_after(history.take(j));
            let after = gate_after(history.take(j + 1));
            let alone = before.interactive == (if waiter.interactive() {
                1int
            } else {
                0int
            });
            let poll = GateEvent::Poll { owner: waiter, timeout: None, elapsed, cancelled: false };
            history[j] == GateEvent::Release(token_at(history, i)) && alone ==> {
                &&& after.owner is None
                &&& grants(after, poll)
                &&& gate_step(after, poll).owner == Some(waiter)
            }
        }),
{
    lemma_held_since(history, i, j);
    if grants_at(history, j) {
        law_only_a_free_engine_is_granted(gate_after(history.take(j)), history[j]);
    }
    assert(history.take(j + 1).drop_last() == history.take(j));
    assert(history.take(j + 1).last() == history[j]);
}

/// A waiter that neither gave up nor set itself a limit looks at the lease book.
pub open spec fn looks(owner: LeaseOwner, elapsed: u128) -> GateEvent {
    GateEvent::Poll { owner, timeout: None, elapsed, cancelled: false }
}

/// Whether all of `events` are looks of such waiters.
pub open spec fn only_looks(events: Seq<GateEvent>) -> bool {
    forall|k: int|
        0 <= k < events.len() ==> exists|owner: LeaseOwner, elapsed: u128|
            (#[trigger] events[k]) == #[trigger] looks(owner, elapsed)
}

/// Whether all of `events` are looks of a CLI waiter before its cap has passed.
pub open spec fn early_cli_looks(events: Seq<GateEvent>) -> bool {
    forall|k: int|
        0 <= k < events.len() ==> exists|elapsed: u128|
            elapsed < CLI_STARVATION_CAP && (#[trigger] events[k]) == #[trigger] looks(
                LeaseOwner::Cli,
                elapsed,
            )
}

proof fn lemma_looks_at_a_held_engine(g: GateView, events: Seq<GateEvent>)
    requires
        g.owner is Some,
        only_looks(events),
    ensures
        gate_run(g, events) == g,
    decreases events.len(),
{
    if events.len() > 0 {
        let before = events.drop_last();
        assert forall|k: int| 0 <= k < before.len() implies exists|owner: LeaseOwner, elapsed: u128|
            (#[trigger] before[k]) == #[trigger] looks(owner, elapsed) by {
            assert(before[k] == events[k]);
        }
        lemma_looks_at_a_held_engine(g, before);
        assert(events[events.len() - 1] == events.last());
    }
}

proof fn lemma_early_cli_looks(g: GateView, events: Seq<GateEvent>)
    requires
        g.interactive > 0,
        early_cli_looks(events),
    ensures
        gate_run(g, events) == g,
    decreases events.len(),
{
    if events.len() > 0 {
        let before = events.drop_last();
        assert forall|k: int| 0 <= k < before.len() implies exists|elapsed: u128|
            elapsed < CLI_STARVATION_CAP && (#[trigger] before[k]) == #[trigger] looks(
                LeaseOwner::Cli,
                elapsed,
            ) by {
            assert(before[k] == events[k]);
        }
        lemma_early_cli_looks(g, before);
        assert(events[events.len() - 1] == events.last());
    }
}

/// A dictation that queued behind a CLI job is served before it. While the engine
/// is held, both wait, however often they look. Once the holder gives it back, the
/// CLI job goes on waiting as long as its cap has not passed; the dictation gets
/// the engine the first time it looks; and the CLI job gets it only once the
/// dictation has given it back.
pub proof fn law_a_dictation_overtakes_a_queued_job(
    g: GateView,
    held: Seq<GateEvent>,
    freed: Seq<GateEvent>,
    dictation: u128,
    serving: Seq<GateEvent>,
    job: u128,
)
    requires
        g.owner is Some,
        g.interactive == 0,
        only_looks(held),
        early_cli_looks(freed),
        only_looks(serving),
    ensures
        ({
            let joined = gate_step(
                gate_step(g, GateEvent::Join(LeaseOwner::Cli)),
                GateEvent::Join(LeaseOwner::Batch),
            );
            let waited = gate_run(joined, held);
            let returned = gate_step(waited, GateEvent::Release(g.token));
            let yielded = gate_run(returned, freed);
            let served = gate_step(yielded, looks(LeaseOwner::Batch, dictation));
            let busy = gate_run(served, serving);
            let done = gate_step(busy, GateEvent::Release(served.token));
            &&& waited == joined
            &&& returned.owner is None && yielded == returned
            &&& grants(yielded, looks(LeaseOwner::Batch, dictation))
            &&& served.owner == Some(LeaseOwner::Batch)
            &&& busy == served
            &&& grants(done, looks(LeaseOwner::Cli, job))
            &&& gate_step(done, looks(LeaseOwner::Cli, job)).owner == Some(LeaseOwner::Cli)
        }),
{
    let joined = gate_step(
        gate_step(g, GateEvent::Join(LeaseOwner::Cli)),
        GateEvent::Join(LeaseOwner::Batch),
    );
    lemma_looks_at_a_held_engine(joined, held);
    let returned = gate_step(joined, GateEvent::Release(g.token));
    lemma_early_cli_looks(returned, freed);
    let served = gate_step(returned, looks(LeaseOwner::Batch, dictation));
    lemma_looks_at_a_held_engine(served, serving);
}

/// What a look at the lease book gives. A waiter that gave up is turned away as
/// that, whatever else is so. Else a free engine is given to everybody but a CLI
/// job that has waited for less than a minute while a dictation is queued. Who
/// does not get it is turned away once the time is up, told who holds it, and
/// otherwise sleeps: a fifth of a second, or as long as is left.
pub proof fn law_what_a_look_gives(
    g: GateView,
    owner: LeaseOwner,
    timeout: Option<u128>,
    elapsed: u128,
)
    requires
        g.interactive >= 0,
    ensures
        verdict(g, owner, timeout, elapsed, true) == Verdict::Fail(LeaseError::Cancelled),
        ({
            let v = verdict(g, owner, timeout, elapsed, false);
            let patient = owner == LeaseOwner::Batch || g.interactive == 0 || elapsed
                >= 60_000_000_000;
            let gets_it = g.owner is None && patient;
            &&& v is Grant <==> gets_it
            &&& !(v is Grant) ==> match timeout {
                Some(t) => {
                    &&& elapsed >= t ==> v == Verdict::Fail(LeaseError::Timeout(g.owner))
                    &&& elapsed < t && t - elapsed < 200_000_000 ==> v == Verdict::Sleep(t - elapsed)
                    &&& elapsed < t && t - elapsed >= 200_000_000 ==> v == Verdict::Sleep(
                        200_000_000,
                    )
                },
                None => v == Verdict::Sleep(200_000_000),
            }
        }),
{
}

/// Who gives way: only somebody who is not waiting for a dictation does, only while
/// one is queued, and only for a minute.
pub proof fn law_who_gives_way(g: GateView, owner: LeaseOwner, elapsed: u128)
    ensures
        yields(g, owner, elapsed) ==> owner != LeaseOwner::Batch && g.interactive > 0 && elapsed
            < 60_000_000_000,
        owner != LeaseOwner::Batch && g.interactive > 0 && elapsed < 60_000_000_000 ==> yields(
            g,
            owner,
            elapsed,
        ),
{
}

/// A place in the queue is kept exactly while its waiter sleeps: joining takes one
/// for a dictation, and being served, turned away or cancelled gives it back.
pub proof fn law_a_place_is_kept_while_waiting(
    g: GateView,
    timeout: Option<u128>,
    elapsed: u128,
    cancelled: bool,
)
    ensures
        gate_step(g, GateEvent::Join(LeaseOwner::Batch)).interactive == g.interactive + 1,
        gate_step(g, GateEvent::Join(LeaseOwner::Cli)) == g,
        ({
            let batch = GateEvent::Poll { owner: LeaseOwner::Batch, timeout, elapsed, cancelled };
            let cli = GateEvent::Poll { owner: LeaseOwner::Cli, timeout, elapsed, cancelled };
            let sleeps = verdict(g, LeaseOwner::Batch, timeout, elapsed, cancelled) is Sleep;
            &&& gate_step(g, batch).interactive == g.interactive - (if sleeps {
                0int
            } else {
                1int
            })
            &&& sleeps ==> gate_step(g, batch) == g
            &&& gate_step(g, cli).interactive == g.interactive
        }),
{
}

/// A client's patience is counted in nanoseconds, a million to the millisecond; one
/// that sets no limit has none.
pub proof fn law_patience_is_counted_in_nanoseconds(ms: u64)
    ensures
        in_nanos(Some(ms)) matches Some(ns) && ns == ms * 1_000_000,
        in_nanos(None) is None,
{
}

/// A lease that was not granted says why, and names the holder where there is one.
pub proof fn law_a_refusal_names_the_holder(owner: LeaseOwner)
    ensures
        LeaseError::Busy(owner).text() == "the transcription engine is busy with a "@
            + owner.text(),
        LeaseError::Timeout(Some(owner)).text()
            == "timed out waiting for the transcription engine (held by a "@ + owner.text() + ")"@,
        LeaseError::Timeout(None).text() == "timed out waiting for the transcription engine"@,
        LeaseError::Cancelled.text() == "cancelled while waiting for the engine"@,
{
}

/// What is granted can be given back, once: the engine is free again, and a second
/// return of the same lease changes nothing once somebody else has the engine.
pub proof fn law_a_lease_is_given_back_once(g: GateView, owner: LeaseOwner, next: LeaseOwner)
    requires
        g.owner is None,
    ensures
        ({
            let held = gate_step(g, GateEvent::Try(owner));
            let back = gate_step(held, GateEvent::Release(held.token));
            let again = gate_step(back, GateEvent::Try(next));
            &&& held.owner == Some(owner)
            &&& back.owner is None
            &&& back.interactive == g.interactive
            &&& again.owner == Some(next)
            &&& gate_step(again, GateEvent::Release(held.token)) == again
        }),
{
}

/// At first nobody holds the engine and nobody waits, so whoever asks gets it.
pub proof fn law_a_new_engine_is_free(owner: LeaseOwner, timeout: Option<u128>, elapsed: u128)
    ensures
        gate_after(Seq::empty()).owner is None,
        gate_after(Seq::empty()).interactive == 0,
        gate_after(Seq::empty()).issued == 0,
        fresh_gate() == gate_after(Seq::empty()),
        try_outcome(fresh_gate(), owner) == Ok::<(int, LeaseOwner), LeaseError>((1, owner)),
        verdict(fresh_gate(), owner, timeout, elapsed, false) is Grant,
{
}

/// A lease is known by its own token and holder.
pub proof fn law_a_lease_is_what_was_granted(lease: EngineLease, e: LeaseError)
    ensures
        tried(Ok(lease)) == Ok::<(int, LeaseOwner), LeaseError>((lease.id(), lease.holder())),
        tried(Err(e)) == Err::<(int, LeaseOwner), LeaseError>(e),
{
}

} // verus!
