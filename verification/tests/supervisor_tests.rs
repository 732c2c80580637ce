use adk_realtime::config::RealtimeConfig;
use adk_realtime::error::{IoErrorKind, RealtimeError};
use adk_realtime::recovery::{RecoveryCause, RecoveryContinuity, RecoveryDisposition, RecoveryPolicy};
use adk_realtime::supervisor::{
    backoff_delay, AttemptContext, AttemptTransition, ManagedState, RecoveryOutcome, RecoverySupervisor,
    ReplacementWorker, TerminalReason, TransportStatus, TxnStart, WorkerStep, CLOSED_GENERATION,
};
use adk_realtime::time::{Duration, Instant};

fn reset() -> RecoveryCause {
    RecoveryCause::ReadFailed(RealtimeError::IoError {
        kind: IoErrorKind::ConnectionReset,
        message: "reset".to_string(),
    })
}

fn serving() -> RecoverySupervisor {
    RecoverySupervisor::with_initial_session(RecoveryPolicy::new(), RealtimeConfig::default())
}

fn ctx(gen: u64, attempt: u32, max: u32, rev: Option<u64>) -> AttemptContext {
    AttemptContext { originating_gen_id: gen, attempt_idx: attempt, max_attempts: max, expected_revision: rev }
}

const RECOVERABLE: (RecoveryDisposition, RecoveryDisposition) =
    (RecoveryDisposition::Recoverable, RecoveryDisposition::Recoverable);

#[test]
fn test_backoff_respects_max_delay() {
    let policy = RecoveryPolicy::new()
        .with_initial_delay(Duration::from_millis(100))
        .with_max_delay(Duration::from_millis(200));
    for attempt in 1..=5 {
        let backoff = backoff_delay(&policy, attempt);
        assert!(backoff <= Duration::from_millis(200), "Backoff must not exceed max_delay");
    }
    assert_eq!(backoff_delay(&policy, 1), Duration::from_millis(100));
    assert_eq!(backoff_delay(&policy, 2), Duration::from_millis(200));
}

#[test]
fn test_planned_rotation_deadline_safety_margins() {
    let now = Instant { nanos: 1_000_000_000 };
    let cases = [
        ("500ms", Duration::from_millis(100)),
        ("1s", Duration::from_millis(100)),
        ("2s", Duration::from_millis(100)),
        ("5s", Duration::from_secs(3)),
        ("30s", Duration::from_secs(5)), // capped by the policy deadline
    ];
    for (time_left, window) in cases {
        let mut sup = serving();
        let r = sup.begin_planned_replacement(0, RecoveryCause::PlannedRotation { time_left: Some(time_left.to_string()) }, now);
        let txn_id = match r {
            TxnStart::Spawn { txn_id, originating_generation_id } => {
                assert_eq!(originating_generation_id, 0);
                txn_id
            }
            other => panic!("expected a new transaction, got {other:?}"),
        };
        let deadline = sup.txn_phase(txn_id).expect("planned phase").deadline();
        assert_eq!(deadline, Instant { nanos: now.nanos + window.nanos }, "time left {time_left}");
    }
}

#[test]
fn test_monotonic_failure_prevents_write_resurrection() {
    let mut sup = serving();
    assert!(sup.is_writable(0));
    assert!(sup.admit_write().is_ok());

    let r = sup.report_failure(0, reset(), Instant { nanos: 0 });
    let txn_id = match r {
        TxnStart::Spawn { txn_id, .. } => txn_id,
        other => panic!("expected Spawn, got {other:?}"),
    };
    assert!(!sup.is_writable(0));
    assert!(sup.admit_write().is_err());
    assert_eq!(sup.status(), TransportStatus::Recovering);

    let fx = sup.apply_attempt_result(txn_id, ctx(0, 1, 3, None), Ok(RecoveryContinuity::Resumed), RECOVERABLE);
    assert_eq!(fx.transition, AttemptTransition::Published);
    assert!(sup.is_writable(1));
    assert!(!sup.is_writable(0), "generation 0 stays failed");
    assert_eq!(sup.admit_write().unwrap().id, 1);
    assert_eq!(sup.status(), TransportStatus::Healthy);
}

#[test]
fn test_concurrent_coalescing() {
    let mut sup = serving();
    let first = sup.report_failure(0, reset(), Instant { nanos: 0 });
    let second = sup.report_failure(0, RecoveryCause::UnexpectedEof, Instant { nanos: 5 });
    match (first, second) {
        (TxnStart::Spawn { txn_id: a, .. }, TxnStart::Join { txn_id: b }) => assert_eq!(a, b),
        other => panic!("expected one transaction joined by the second report, got {other:?}"),
    }
}

#[test]
fn test_delayed_report_after_publication() {
    let mut sup = serving();
    let txn_id = match sup.report_failure(0, reset(), Instant { nanos: 0 }) {
        TxnStart::Spawn { txn_id, .. } => txn_id,
        other => panic!("{other:?}"),
    };
    sup.apply_attempt_result(txn_id, ctx(0, 1, 3, None), Ok(RecoveryContinuity::Reconnected), RECOVERABLE);
    match sup.report_failure(0, reset(), Instant { nanos: 10 }) {
        TxnStart::Done(Ok(RecoveryOutcome::Stale { generation_id })) => assert_eq!(generation_id, 1),
        other => panic!("expected a stale outcome, got {other:?}"),
    }
    assert!(sup.is_writable(1));
}

#[test]
fn test_supreme_close_cancels_candidate() {
    let mut sup = serving();
    let txn_id = match sup.report_failure(0, reset(), Instant { nanos: 0 }) {
        TxnStart::Spawn { txn_id, .. } => txn_id,
        other => panic!("{other:?}"),
    };
    let fx = sup.close();
    assert_eq!(fx.cancelled_txn_id, Some(txn_id));
    assert_eq!(sup.status(), TransportStatus::Closed);
    assert_eq!(sup.published_generation, CLOSED_GENERATION);
    // A candidate that completes after close is not published.
    let late = sup.apply_attempt_result(txn_id, ctx(0, 1, 3, None), Ok(RecoveryContinuity::Resumed), RECOVERABLE);
    assert_eq!(late.transition, AttemptTransition::Terminal);
    assert!(matches!(late.outcome, Some(Err(RealtimeError::SessionClosed))));
    assert!(matches!(sup.report_failure(0, reset(), Instant { nanos: 1 }), TxnStart::Done(Err(RealtimeError::SessionClosed))));
    assert!(matches!(sup.admit_write(), Err(RealtimeError::SessionClosed)));
}

#[test]
fn test_config_revision_change_rejects_stale_candidate() {
    let mut sup = serving();
    let txn_id = match sup.begin_planned_replacement(0, RecoveryCause::PlannedRotation { time_left: None }, Instant { nanos: 0 }) {
        TxnStart::Spawn { txn_id, .. } => txn_id,
        other => panic!("{other:?}"),
    };
    let rev = sup.update_config(RealtimeConfig::default().with_affective_dialog(true));
    assert_eq!(rev, 1);
    let fx = sup.apply_attempt_result(txn_id, ctx(0, 1, 3, Some(0)), Ok(RecoveryContinuity::Resumed), RECOVERABLE);
    assert_eq!(fx.transition, AttemptTransition::KeepServing);
    assert!(matches!(fx.outcome, Some(Err(RealtimeError::ConfigError(_)))));
    assert!(sup.is_writable(0), "the healthy generation keeps serving");
}

#[test]
fn test_planned_candidate_failure_keeps_healthy_n() {
    let mut sup = serving();
    let txn_id = match sup.begin_planned_replacement(0, RecoveryCause::PlannedRotation { time_left: None }, Instant { nanos: 0 }) {
        TxnStart::Spawn { txn_id, .. } => txn_id,
        other => panic!("{other:?}"),
    };
    let fx = sup.apply_attempt_result(txn_id, ctx(0, 1, 3, None), Err(RealtimeError::NotConnected), RECOVERABLE);
    assert_eq!(fx.transition, AttemptTransition::KeepServing);
    assert!(sup.is_writable(0));
    assert_eq!(sup.status(), TransportStatus::Healthy);
}

#[test]
fn test_stale_config_on_final_attempt_atomically_exhausts() {
    let mut sup = serving();
    let txn_id = match sup.report_failure(0, reset(), Instant { nanos: 0 }) {
        TxnStart::Spawn { txn_id, .. } => txn_id,
        other => panic!("{other:?}"),
    };
    sup.update_config(RealtimeConfig::default());
    let retry = sup.apply_attempt_result(txn_id, ctx(0, 1, 2, Some(0)), Ok(RecoveryContinuity::Resumed), RECOVERABLE);
    assert_eq!(retry.transition, AttemptTransition::RetryRecovering);
    let last = sup.apply_attempt_result(txn_id, ctx(0, 2, 2, Some(0)), Ok(RecoveryContinuity::Resumed), RECOVERABLE);
    assert_eq!(last.transition, AttemptTransition::Terminal);
    assert_eq!(sup.status(), TransportStatus::Exhausted);
    assert!(matches!(sup.report_failure(0, reset(), Instant { nanos: 1 }), TxnStart::Done(Ok(RecoveryOutcome::Exhausted))));
}

#[test]
fn fatal_attempt_error_exhausts_recovery() {
    let mut sup = serving();
    let txn_id = match sup.report_failure(0, reset(), Instant { nanos: 0 }) {
        TxnStart::Spawn { txn_id, .. } => txn_id,
        other => panic!("{other:?}"),
    };
    let fx = sup.apply_attempt_result(
        txn_id,
        ctx(0, 1, 3, None),
        Err(RealtimeError::AuthError("denied".to_string())),
        (RecoveryDisposition::Recoverable, RecoveryDisposition::Fatal),
    );
    assert_eq!(fx.transition, AttemptTransition::Terminal);
    assert!(matches!(fx.outcome, Some(Err(RealtimeError::AuthError(_)))));
    assert!(matches!(sup.state, ManagedState::Terminal { .. }));
}

#[test]
fn uninitialized_supervisor_refuses_requests() {
    let mut sup = RecoverySupervisor::new(RecoveryPolicy::new(), RealtimeConfig::default());
    assert_eq!(sup.status(), TransportStatus::Uninitialized);
    assert!(matches!(sup.admit_write(), Err(RealtimeError::NotConnected)));
    assert!(matches!(sup.report_failure(0, reset(), Instant { nanos: 0 }), TxnStart::Done(Err(RealtimeError::NotConnected))));
    let g = sup.set_initial_session().unwrap();
    assert_eq!(g.id, 0);
    assert!(sup.set_initial_session().is_err());
    assert_eq!(sup.status(), TransportStatus::Healthy);
}

#[test]
fn report_for_a_future_generation_is_refused() {
    let mut sup = serving();
    assert!(matches!(sup.report_failure(7, reset(), Instant { nanos: 0 }), TxnStart::Done(Err(RealtimeError::ProviderError(_)))));
    assert!(sup.is_writable(0));
}

#[test]
fn reactive_failure_joins_a_planned_transaction() {
    let mut sup = serving();
    let planned = match sup.begin_planned_replacement(0, RecoveryCause::PlannedRotation { time_left: None }, Instant { nanos: 0 }) {
        TxnStart::Spawn { txn_id, .. } => txn_id,
        other => panic!("{other:?}"),
    };
    match sup.report_failure(0, reset(), Instant { nanos: 1 }) {
        TxnStart::Join { txn_id } => assert_eq!(txn_id, planned),
        other => panic!("expected the planned transaction to be promoted, got {other:?}"),
    }
    assert_eq!(sup.status(), TransportStatus::Recovering);
}

#[test]
fn policy_builders() {
    let p = RecoveryPolicy::new();
    assert_eq!(p.max_attempts(), 3);
    assert_eq!(p.deadline(), Duration::from_secs(5));
    assert_eq!(p.initial_delay(), Duration::from_millis(50));
    assert_eq!(p.max_delay(), Duration::from_millis(500));
    assert!(RecoveryPolicy::new().with_max_attempts(0).is_none());
    assert_eq!(RecoveryPolicy::new().with_max_attempts(5).unwrap().max_attempts(), 5);
    assert_eq!(RecoveryPolicy::new().with_deadline(Duration::from_secs(9)).deadline(), Duration::from_secs(9));
}

#[test]
fn test_returned_generation_shares_write_gate_identity() {
    let mut sup = serving();
    let gen_handle = sup.admit_write().unwrap();
    let other_handle = gen_handle;
    assert!(gen_handle.is_writable(&sup));

    let _ = sup.report_failure(0, RecoveryCause::UnexpectedEof, Instant { nanos: 0 });

    assert!(!gen_handle.is_writable(&sup), "Returned handle must see the closed write gate");
    assert!(!other_handle.is_writable(&sup), "every handle of the generation sees it");
}

fn recoverable_error() -> RealtimeError {
    RealtimeError::IoError { kind: IoErrorKind::ConnectionReset, message: "reset".to_string() }
}

#[test]
fn test_backoff_pause_is_policy_backoff_cut_to_time_left() {
    let policy = RecoveryPolicy::new()
        .with_max_attempts(3)
        .unwrap()
        .with_initial_delay(Duration::from_millis(50))
        .with_max_delay(Duration::from_millis(60))
        .with_deadline(Duration::from_secs(5));
    let mut sup = RecoverySupervisor::with_initial_session(policy, RealtimeConfig::default());
    let t0 = Instant { nanos: 0 };
    let txn_id = match sup.report_failure(0, RecoveryCause::UnexpectedEof, t0) {
        TxnStart::Spawn { txn_id, .. } => txn_id,
        other => panic!("expected Spawn, got {other:?}"),
    };
    let (mut w, step) = ReplacementWorker::start(&sup, txn_id, 0, true, RecoveryDisposition::Recoverable);
    assert!(matches!(step, WorkerStep::Continue));

    assert!(matches!(w.next(&mut sup, t0, RecoveryDisposition::Recoverable), WorkerStep::Attempt { attempt: 1, .. }));
    let (_, step) = w.attempt_finished(&mut sup, Err(recoverable_error()), RECOVERABLE, t0);
    match step {
        WorkerStep::Backoff { delay, deadline } => {
            assert_eq!(delay, Duration::from_millis(50), "initial_delay * 2^0");
            assert_eq!(deadline, Instant { nanos: 5_000_000_000 });
        }
        other => panic!("expected a backoff, got {other:?}"),
    }

    let t1 = Instant { nanos: 50_000_000 };
    assert!(matches!(w.next(&mut sup, t1, RecoveryDisposition::Recoverable), WorkerStep::Attempt { attempt: 2, .. }));
    let (_, step) = w.attempt_finished(&mut sup, Err(recoverable_error()), RECOVERABLE, t1);
    match step {
        WorkerStep::Backoff { delay, .. } => assert_eq!(delay, Duration::from_millis(60), "capped by max_delay"),
        other => panic!("expected a backoff, got {other:?}"),
    }

    // Near the deadline the pause is cut to the time left.
    let t2 = Instant { nanos: 4_990_000_000 };
    assert!(matches!(w.next(&mut sup, t2, RecoveryDisposition::Recoverable), WorkerStep::Attempt { attempt: 3, .. }));
    let (fx, step) = w.attempt_finished(&mut sup, Ok(RecoveryContinuity::Resumed), RECOVERABLE, t2);
    assert_eq!(fx.transition, AttemptTransition::Published);
    assert!(matches!(step, WorkerStep::Done(None)));
}

#[test]
fn test_fatal_cause_during_recovery_exhausts_with_the_error() {
    let mut sup = serving();
    let t0 = Instant { nanos: 0 };
    let txn_id = match sup.report_failure(0, RecoveryCause::UnexpectedEof, t0) {
        TxnStart::Spawn { txn_id, .. } => txn_id,
        other => panic!("expected Spawn, got {other:?}"),
    };
    let (mut w, _) = ReplacementWorker::start(&sup, txn_id, 0, true, RecoveryDisposition::Recoverable);
    let step = w.next(&mut sup, t0, RecoveryDisposition::Fatal);
    let error = match step {
        WorkerStep::Settle(e) => e,
        other => panic!("expected Settle, got {other:?}"),
    };
    assert!(matches!(error, RealtimeError::ProviderError(_)));
    let fx = w.settle(&mut sup, error.clone(), (RecoveryDisposition::Fatal, RecoveryDisposition::Fatal));
    assert_eq!(fx.transition, AttemptTransition::Terminal);
    assert!(matches!(fx.outcome, Some(Err(RealtimeError::ProviderError(_)))));
    assert!(matches!(sup.state, ManagedState::Terminal { reason: TerminalReason::Exhausted, .. }));
    assert_eq!(sup.status(), TransportStatus::Exhausted);
    assert!(w.done);
}

#[test]
fn test_future_generation_report_is_refused_with_its_message() {
    let mut sup = serving();
    match sup.report_failure(7, RecoveryCause::UnexpectedEof, Instant { nanos: 0 }) {
        TxnStart::Done(Err(RealtimeError::ProviderError(m))) => assert_eq!(m, "invalid future generation report"),
        other => panic!("expected a refusal, got {other:?}"),
    }
    assert!(sup.is_writable(0));
}
