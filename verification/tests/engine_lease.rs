use handy::engine_lease::Claim;
use handy::engine_lease::EngineLeaseGate;
use handy::engine_lease::LeaseError;
use handy::engine_lease::LeasePoll;
use handy::engine_lease::LeaseWaiter;
use handy::engine_lease::CLI_STARVATION_CAP;
use handy::engine_lease::POLL_SLICE;
use handy::protocol::LeaseOwner;
use handy::protocol::WaitPolicy;

const MILLISECOND: u128 = 1_000_000;

fn still_waiting(poll: (LeasePoll, bool)) -> (LeaseWaiter, u128) {
    match poll.0 {
        LeasePoll::Wait { waiter, slice } => (waiter, slice),
        other => panic!("expected to wait, got {other:?}"),
    }
}

#[test]
fn try_acquire_is_exclusive_and_names_the_holder() {
    let mut gate = EngineLeaseGate::new();
    let lease = gate.try_acquire(LeaseOwner::Cli).expect("first acquire");
    assert_eq!(gate.busy_owner(), Some(LeaseOwner::Cli));
    assert!(matches!(
        gate.try_acquire(LeaseOwner::Batch),
        Err(LeaseError::Busy(LeaseOwner::Cli))
    ));
    gate.release(lease);
    assert_eq!(gate.busy_owner(), None);
    assert!(gate.try_acquire(LeaseOwner::Batch).is_ok());
}

#[test]
fn acquire_waits_for_the_holder_to_release() {
    let mut gate = EngineLeaseGate::new();
    let lease = gate.try_acquire(LeaseOwner::Cli).unwrap();
    let waiter = gate.join(LeaseOwner::Batch, None);
    // Still blocked while the CLI job holds it.
    let poll = gate.acquire(waiter, 300 * MILLISECOND, false);
    let (waiter, slice) = still_waiting(poll);
    assert_eq!(slice, POLL_SLICE);
    assert!(gate.has_interactive_waiters());
    assert!(lease.has_interactive_waiters(&gate));
    assert!(gate.release(lease));
    match gate.acquire(waiter, 300 * MILLISECOND, false).0 {
        LeasePoll::Granted(lease) => assert_eq!(lease.owner(), LeaseOwner::Batch),
        other => panic!("batch waiter should be woken by the release, got {other:?}"),
    }
    assert!(!gate.has_interactive_waiters());
}

#[test]
fn timeout_reports_the_current_holder() {
    let mut gate = EngineLeaseGate::new();
    let _held = gate.try_acquire(LeaseOwner::Stream).unwrap();
    let waiter = gate.join(LeaseOwner::Batch, Some(50 * MILLISECOND));
    let poll = gate.acquire(waiter, 0, false);
    let (waiter, slice) = still_waiting(poll);
    assert_eq!(slice, 50 * MILLISECOND);
    let err = match gate.acquire(waiter, 50 * MILLISECOND, false).0 {
        LeasePoll::Failed(err) => err,
        other => panic!("expected a timeout, got {other:?}"),
    };
    assert_eq!(err, LeaseError::Timeout(Some(LeaseOwner::Stream)));
    assert!(!gate.has_interactive_waiters());
}

#[test]
fn cancel_token_aborts_the_wait() {
    let mut gate = EngineLeaseGate::new();
    let _held = gate.try_acquire(LeaseOwner::Batch).unwrap();
    let waiter = gate.join(LeaseOwner::Cli, None);
    let poll = gate.acquire(waiter, 0, false);
    let (waiter, _) = still_waiting(poll);
    assert!(matches!(
        gate.acquire(waiter, 50 * MILLISECOND, true).0,
        LeasePoll::Failed(LeaseError::Cancelled)
    ));
}

#[test]
fn interactive_waiter_is_served_before_a_queued_cli_waiter() {
    let mut gate = EngineLeaseGate::new();
    let held = gate.try_acquire(LeaseOwner::Stream).unwrap();
    // The CLI waiter queues first, so without the priority rule it would win.
    let cli = gate.join(LeaseOwner::Cli, None);
    let poll = gate.acquire(cli, 0, false);
    let (cli, _) = still_waiting(poll);
    let batch = gate.join(LeaseOwner::Batch, None);
    let poll = gate.acquire(batch, 0, false);
    let (batch, _) = still_waiting(poll);
    gate.release(held);

    let poll = gate.acquire(cli, 100 * MILLISECOND, false);
    let (cli, _) = still_waiting(poll);
    let first = match gate.acquire(batch, 100 * MILLISECOND, false).0 {
        LeasePoll::Granted(lease) => lease,
        other => panic!("the dictation comes first, got {other:?}"),
    };
    assert_eq!(first.owner(), LeaseOwner::Batch);
    gate.release(first);
    match gate.acquire(cli, 200 * MILLISECOND, false).0 {
        LeasePoll::Granted(lease) => assert_eq!(lease.owner(), LeaseOwner::Cli),
        other => panic!("the CLI comes second, got {other:?}"),
    }
}

#[test]
fn a_cli_waiter_does_not_starve() {
    let mut gate = EngineLeaseGate::new();
    let _dictation = gate.join(LeaseOwner::Batch, None);
    let cli = gate.join(LeaseOwner::Cli, None);
    let poll = gate.acquire(cli, CLI_STARVATION_CAP - 1, false);
    let (cli, _) = still_waiting(poll);
    match gate.acquire(cli, CLI_STARVATION_CAP, false).0 {
        LeasePoll::Granted(lease) => assert_eq!(lease.owner(), LeaseOwner::Cli),
        other => panic!("the cap ends yielding, got {other:?}"),
    }
}

#[test]
fn a_claim_waits_only_where_it_may() {
    let mut gate = EngineLeaseGate::new();
    let held = match gate.claim(LeaseOwner::Cli, WaitPolicy::FailFast) {
        Claim::Settled(Ok(lease)) => lease,
        other => panic!("a free engine is taken at once, got {other:?}"),
    };
    assert_eq!(held.owner(), LeaseOwner::Cli);
    assert!(matches!(
        gate.claim(LeaseOwner::Batch, WaitPolicy::FailFast),
        Claim::Settled(Err(LeaseError::Busy(LeaseOwner::Cli)))
    ));
    assert!(!gate.has_interactive_waiters());
    let policy = WaitPolicy::Wait { timeout_ms: Some(50) };
    let waiter = match gate.claim(LeaseOwner::Batch, policy) {
        Claim::Queued(waiter) => waiter,
        other => panic!("expected to queue, got {other:?}"),
    };
    assert!(gate.has_interactive_waiters());
    let poll = gate.acquire(waiter, 49 * MILLISECOND, false);
    let (waiter, slice) = still_waiting(poll);
    assert_eq!(slice, MILLISECOND);
    assert!(matches!(
        gate.acquire(waiter, 50 * MILLISECOND, false).0,
        LeasePoll::Failed(LeaseError::Timeout(Some(LeaseOwner::Cli)))
    ));
    assert!(gate.release(held));
    let policy = WaitPolicy::Wait { timeout_ms: None };
    match gate.claim(LeaseOwner::Cli, policy) {
        Claim::Queued(waiter) => {
            assert!(matches!(gate.acquire(waiter, 0, false).0, LeasePoll::Granted(_)));
        }
        other => panic!("expected to queue, got {other:?}"),
    }
}

#[test]
fn leases_are_counted_and_told_apart() {
    let mut gate = EngineLeaseGate::new();
    assert_eq!(gate.leases_issued(), 0);
    let first = gate.try_acquire(LeaseOwner::Batch).unwrap();
    assert!(gate.release(first));
    let second = gate.try_acquire(LeaseOwner::Cli).unwrap();
    assert_eq!(gate.leases_issued(), 2);
    assert_eq!(second.owner(), LeaseOwner::Cli);
    assert_eq!(gate.interactive_waiters(), 0);
    let _waiting = gate.join(LeaseOwner::Batch, None);
    assert_eq!(gate.interactive_waiters(), 1);
}

#[test]
fn lease_errors_say_who_holds_the_engine() {
    assert_eq!(
        LeaseError::Busy(LeaseOwner::Cli).message(),
        "the transcription engine is busy with a CLI job"
    );
    assert_eq!(
        LeaseError::Timeout(Some(LeaseOwner::Batch)).message(),
        "timed out waiting for the transcription engine (held by a dictation)"
    );
    assert_eq!(
        LeaseError::Timeout(None).message(),
        "timed out waiting for the transcription engine"
    );
    assert_eq!(
        LeaseError::Cancelled.message(),
        "cancelled while waiting for the engine"
    );
}
