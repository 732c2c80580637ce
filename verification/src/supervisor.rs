//! The recovery supervisor: a closed state machine that is the single
//! authority over which provider session generation is live.
//!
//! The supervisor holds generation ids, write gates, the pending replacement
//! transaction and the configuration revision. The sessions themselves are
//! kept by the caller, keyed by generation id; every operation returns what
//! the caller must do with them (publish, retire, cancel a transaction,
//! deliver an outcome to waiters).

use vstd::prelude::*;
use crate::config::RealtimeConfig;
use crate::duration::{parse_duration_string, spec_parse_duration};
use crate::error::RealtimeError;
use crate::recovery::{RecoveryCause, RecoveryContinuity, RecoveryDisposition, RecoveryPolicy};
use crate::time::{Duration, Instant, NANOS_PER_MILLI, NANOS_PER_SEC};

verus! {

/// Transport status projection of the supervisor.
#[derive(Debug, Clone, Copy, PartialEq, Eq, Structural)]
pub enum TransportStatus {
    Uninitialized,
    Healthy,
    Recovering,
    Closed,
    Exhausted,
}

/// Monotonic write gate of a session generation: once closed it is never
/// reopened, so a write cannot be admitted after the generation failed. There
/// is one gate per generation, held by the supervisor; it is not copied out.
#[derive(Debug)]
pub struct WriteGate {
    pub open: bool,
}

impl WriteGate {
    /// An open gate.
    pub fn new_open() -> (g: Self)
        ensures
            g.open,
    {
        WriteGate { open: true }
    }

    /// Stops admitting writes for good; `true` when writes were admitted until now.
    pub fn close(&mut self) -> (was_open: bool)
        ensures
            was_open == old(self).open,
            !final(self).open,
    {
        let was = self.open;
        self.open = false;
        was
    }

    /// Whether writes are still admitted.
    pub fn is_open(&self) -> (b: bool)
        ensures
            b == self.open,
    {
        self.open
    }
}

/// The supervisor's record of a generation: its id and its one write gate.
#[derive(Debug)]
pub struct GenerationSlot {
    pub id: u64,
    pub write_gate: WriteGate,
}

/// A handle on a session generation: its monotonic id. The handle holds no
/// write flag of its own; whether the generation admits writes is asked of
/// the supervisor, so every handle of one generation gives the same answer,
/// and a failure closes the generation for all of them at once.
#[derive(Debug, Clone, Copy, PartialEq, Eq, Structural)]
pub struct SessionGeneration {
    pub id: u64,
}

impl SessionGeneration {
    /// A handle on generation `id`.
    pub fn new(id: u64) -> (g: Self)
        ensures
            g.id == id,
    {
        SessionGeneration { id }
    }

    /// Whether the generation is current and still admits writes, as `sup`
    /// records it.
    pub fn is_writable(&self, sup: &RecoverySupervisor) -> (b: bool)
        ensures
            b == writable_gen(sup.state, self.id),
    {
        sup.is_writable(self.id)
    }
}

/// Phase of a replacement transaction, with the cause and absolute deadline.
#[derive(Debug)]
pub enum ReplacementPhase {
    /// Make-before-break replacement of a healthy generation.
    Planned { cause: RecoveryCause, deadline: Instant },
    /// Reactive recovery of a failed generation.
    Recovering { cause: RecoveryCause, deadline: Instant },
}

/// A supervisor-owned replacement transaction.
#[derive(Debug)]
pub struct ReplacementTxn {
    pub id: u64,
    pub target_generation_id: u64,
    pub phase: ReplacementPhase,
}

/// Why the supervisor reached its terminal state.
#[derive(Debug, Clone, Copy, PartialEq, Eq, Structural)]
pub enum TerminalReason {
    ExplicitClose,
    Exhausted,
}

/// Closed state machine of the transport lifecycle.
#[derive(Debug)]
pub enum ManagedState {
    Uninitialized,
    Serving { active: GenerationSlot, planned: Option<ReplacementTxn> },
    Recovering { failed: GenerationSlot, txn: ReplacementTxn },
    Terminal { reason: TerminalReason, last_generation: Option<GenerationSlot> },
}

/// The canonical configuration and its revision counter.
#[derive(Debug)]
pub struct ConfigSnapshot {
    pub config: RealtimeConfig,
    pub revision: u64,
}

/// The outcome of a recovery or planned replacement transaction.
#[derive(Debug, Clone, Copy, PartialEq, Eq, Structural)]
pub enum RecoveryOutcome {
    /// A new generation was published.
    Recovered { generation_id: u64, continuity: RecoveryContinuity },
    /// The report named an older generation; the given one is current.
    Stale { generation_id: u64 },
    /// The supervisor is terminally exhausted.
    Exhausted,
}

/// What the caller must do after a generation was published.
#[derive(Debug, Clone, Copy, PartialEq, Eq, Structural)]
pub struct Publication {
    /// The newly published generation; its session is the candidate.
    pub generation: SessionGeneration,
    /// The generation whose session must now be closed.
    pub retired_generation_id: u64,
    /// A replacement transaction that was superseded and must be cancelled.
    pub cancelled_txn_id: Option<u64>,
}

/// How a request to replace or recover a generation proceeds.
#[derive(Debug)]
pub enum TxnStart {
    /// Answered at once.
    Done(Result<RecoveryOutcome, RealtimeError>),
    /// Wait for the outcome of this existing transaction.
    Join { txn_id: u64 },
    /// A new transaction was opened; run its worker, then wait for its outcome.
    Spawn { txn_id: u64, originating_generation_id: u64 },
}

/// What one attempt's application decided.
#[derive(Debug, Clone, Copy, PartialEq, Eq, Structural)]
pub enum AttemptTransition {
    Published,
    KeepServing,
    RetryRecovering,
    Terminal,
}

/// The context under which an attempt result is applied.
#[derive(Debug, Clone, Copy, PartialEq, Eq, Structural)]
pub struct AttemptContext {
    pub originating_gen_id: u64,
    pub attempt_idx: u32,
    pub max_attempts: u32,
    /// The configuration revision the candidate was built under, when a
    /// candidate was built.
    pub expected_revision: Option<u64>,
}

/// The effects of applying an attempt result.
#[derive(Debug)]
pub struct AttemptEffects {
    pub transition: AttemptTransition,
    /// The generation published from the candidate, if any.
    pub published: Option<SessionGeneration>,
    /// The generation whose session must be closed, if any.
    pub retired_generation_id: Option<u64>,
    /// The outcome to deliver to the transaction's waiters, if decided.
    pub outcome: Option<Result<RecoveryOutcome, RealtimeError>>,
}

/// What `close` leaves the caller to do.
#[derive(Debug, Clone, Copy, PartialEq, Eq, Structural)]
pub struct CloseEffects {
    /// The generation whose session must be closed.
    pub session_to_close: Option<u64>,
    /// The transaction that must be cancelled.
    pub cancelled_txn_id: Option<u64>,
}

/// The value the generation watch carries once the supervisor is closed.
pub const CLOSED_GENERATION: u64 = 0xffff_ffff_ffff_ffff;

/// The recovery supervisor.
#[derive(Debug)]
pub struct RecoverySupervisor {
    pub policy: RecoveryPolicy,
    pub state: ManagedState,
    pub config: ConfigSnapshot,
    pub next_generation_id: u64,
    pub next_txn_id: u64,
    /// The value of the generation watch: the last published generation id.
    pub published_generation: u64,
}

impl ReplacementPhase {
    pub open spec fn spec_deadline(self) -> Instant {
        match self {
            ReplacementPhase::Planned { deadline, .. } => deadline,
            ReplacementPhase::Recovering { deadline, .. } => deadline,
        }
    }

    pub open spec fn spec_cause(self) -> RecoveryCause {
        match self {
            ReplacementPhase::Planned { cause, .. } => cause,
            ReplacementPhase::Recovering { cause, .. } => cause,
        }
    }

    /// The absolute deadline of this phase.
    pub fn deadline(&self) -> (d: Instant)
        ensures
            d == self.spec_deadline(),
    {
        match self {
            ReplacementPhase::Planned { deadline, .. } => *deadline,
            ReplacementPhase::Recovering { deadline, .. } => *deadline,
        }
    }

    /// The cause of this phase.
    pub fn cause(&self) -> (c: &RecoveryCause)
        ensures
            *c == self.spec_cause(),
    {
        match self {
            ReplacementPhase::Planned { cause, .. } => cause,
            ReplacementPhase::Recovering { cause, .. } => cause,
        }
    }
}

/// The generation `id` is current and its write gate is open.
pub open spec fn writable_gen(s: ManagedState, id: u64) -> bool {
    match s {
        ManagedState::Serving { active, .. } => active.id == id && active.write_gate.open,
        _ => false,
    }
}

/// The id of the transaction the state holds, if any.
pub open spec fn current_txn_id(s: ManagedState) -> Option<u64> {
    match s {
        ManagedState::Serving { planned, .. } => match planned {
            Some(p) => Some(p.id),
            None => None,
        },
        ManagedState::Recovering { txn, .. } => Some(txn.id),
        _ => None,
    }
}

/// The supervisor status that a state projects to.
pub open spec fn status_of(s: ManagedState) -> TransportStatus {
    match s {
        ManagedState::Uninitialized => TransportStatus::Uninitialized,
        ManagedState::Serving { active, .. } => if active.write_gate.open {
            TransportStatus::Healthy
        } else {
            TransportStatus::Recovering
        },
        ManagedState::Recovering { .. } => TransportStatus::Recovering,
        ManagedState::Terminal { reason, .. } => match reason {
            TerminalReason::ExplicitClose => TransportStatus::Closed,
            TerminalReason::Exhausted => TransportStatus::Exhausted,
        },
    }
}

/// Laws every mutating operation keeps: the supervisor stays well formed, id
/// counters never go back, a terminal supervisor stays terminal, and a closed
/// write gate never reopens.
pub open spec fn keeps_laws(pre: RecoverySupervisor, post: RecoverySupervisor) -> bool {
    &&& post.wf()
    &&& pre.next_generation_id <= post.next_generation_id
    &&& pre.next_txn_id <= post.next_txn_id
    &&& (pre.state is Terminal ==> post.state is Terminal)
    &&& (pre.state matches ManagedState::Terminal { reason, .. } && reason == TerminalReason::ExplicitClose
        ==> post.state == pre.state && post.published_generation == pre.published_generation)
    &&& (forall|id: u64|
        id < pre.next_generation_id && !writable_gen(pre.state, id) ==> !writable_gen(
            post.state,
            id,
        ))
    &&& post.policy == pre.policy
}

/// The deadline of a planned replacement opened at `now`: the policy deadline,
/// shortened to the provider's announced time left less a two-second safety
/// margin (or, when less than that is left, to at most 100 ms).
pub open spec fn planned_deadline(policy: RecoveryPolicy, cause: RecoveryCause, now: Instant) -> Instant {
    let policy_deadline = sat_add(now, policy.spec_deadline());
    match cause {
        RecoveryCause::PlannedRotation { time_left: Some(s) } => match spec_parse_duration(s@) {
            Some(d) => {
                let capped = if d.nanos > 2 * NANOS_PER_SEC {
                    Duration { nanos: (d.nanos - 2 * NANOS_PER_SEC) as u64 }
                } else if d.nanos <= 100 * NANOS_PER_MILLI {
                    d
                } else {
                    Duration { nanos: (100 * NANOS_PER_MILLI) as u64 }
                };
                min_instant(policy_deadline, sat_add(now, capped))
            },
            None => policy_deadline,
        },
        _ => policy_deadline,
    }
}

pub open spec fn sat_add(t: Instant, d: Duration) -> Instant {
    Instant {
        nanos: if t.nanos + d.nanos <= u64::MAX { (t.nanos + d.nanos) as u64 } else { u64::MAX },
    }
}

pub open spec fn min_instant(a: Instant, b: Instant) -> Instant {
    if a.nanos <= b.nanos { a } else { b }
}

fn planned_deadline_of(policy: &RecoveryPolicy, cause: &RecoveryCause, now: Instant) -> (d: Instant)
    ensures
        d == planned_deadline(*policy, *cause, now),
{
    let policy_deadline = now.saturating_add(policy.deadline());
    match cause {
        RecoveryCause::PlannedRotation { time_left: Some(s) } => {
            match parse_duration_string(s.as_str()) {
                Some(d) => {
                    let margin = Duration::from_secs(2);
                    let min_window = Duration::from_millis(100);
                    let capped = if d.nanos > margin.nanos {
                        Duration::from_nanos(d.nanos - margin.nanos)
                    } else {
                        d.min(min_window)
                    };
                    policy_deadline.min(now.saturating_add(capped))
                },
                None => policy_deadline,
            }
        },
        _ => policy_deadline,
    }
}

/// Put `next` in `slot` and return what was there.
fn swap_state(slot: &mut ManagedState, next: ManagedState) -> (prev: ManagedState)
    ensures
        prev == *old(slot),
        *final(slot) == next,
{
    let mut tmp = next;
    std::mem::swap(&mut tmp, slot);
    tmp
}

fn new_error(msg: &str) -> (s: String)
    ensures
        s@ == msg@,
{
    String::from_str(msg)
}

/// What a failure report of generation `gen` (with `cause`, at `now`) does:
/// a terminal or uninitialized supervisor answers at once and changes
/// nothing; a report of an older generation is stale; a report of a future
/// one is refused; a report of the serving generation closes its write gate
/// and opens a recovery transaction, or promotes the planned one; a report
/// of the generation already recovering joins its transaction.
pub open spec fn report_failure_effect(
    pre: RecoverySupervisor,
    gen: u64,
    cause: RecoveryCause,
    now: Instant,
    post: RecoverySupervisor,
    r: TxnStart,
) -> bool {
    match pre.state {
        ManagedState::Terminal { reason, .. } => post == pre && match reason {
            TerminalReason::ExplicitClose => (r matches TxnStart::Done(Err(e)) && e is SessionClosed),
            TerminalReason::Exhausted => r == TxnStart::Done(Ok(RecoveryOutcome::Exhausted)),
        },
        ManagedState::Uninitialized => post == pre && (r matches TxnStart::Done(
            Err(e),
        ) && e is NotConnected),
        ManagedState::Recovering { failed, txn } => post == pre && if gen
            < failed.id {
            r == TxnStart::Done(Ok(RecoveryOutcome::Stale { generation_id: failed.id }))
        } else if gen > failed.id {
            (r matches TxnStart::Done(Err(RealtimeError::ProviderError(m))) && m@ == "invalid future generation report"@)
        } else {
            r == TxnStart::Join { txn_id: txn.id }
        },
        ManagedState::Serving { active, planned } => if gen < active.id {
            post == pre && r == TxnStart::Done(
                Ok(RecoveryOutcome::Stale { generation_id: active.id }),
            )
        } else if gen > active.id {
            post == pre && (r matches TxnStart::Done(Err(RealtimeError::ProviderError(m))) && m@ == "invalid future generation report"@)
        } else {
            let failed = GenerationSlot { id: active.id, write_gate: WriteGate { open: false } };
            let phase = ReplacementPhase::Recovering {
                cause,
                deadline: sat_add(now, pre.policy.spec_deadline()),
            };
            match planned {
                Some(p) => {
                    &&& r == TxnStart::Join { txn_id: p.id }
                    &&& post.next_txn_id == pre.next_txn_id
                    &&& post.state == (ManagedState::Recovering {
                        failed,
                        txn: ReplacementTxn { id: p.id, target_generation_id: p.target_generation_id, phase },
                    })
                },
                None => {
                    &&& r == TxnStart::Spawn {
                        txn_id: pre.next_txn_id,
                        originating_generation_id: active.id,
                    }
                    &&& post.next_txn_id == pre.next_txn_id + 1
                    &&& post.state == (ManagedState::Recovering {
                        failed,
                        txn: ReplacementTxn {
                            id: pre.next_txn_id,
                            target_generation_id: (active.id + 1) as u64,
                            phase,
                        },
                    })
                },
            }
        },
    }
}

/// What applying the result of an attempt of transaction `txn_id` (under
/// `ctx`, with the provider's `dispositions` of the cause and of the error)
/// does: from a serving generation a success publishes a new generation and a
/// failure keeps serving; while recovering, a success publishes, and a failure
/// retries unless a disposition is fatal or the budget is spent, which ends
/// the transaction as `Terminal { Exhausted }` with the error as its outcome;
/// a mismatched transaction, a stale revision or a terminal supervisor change
/// nothing and answer with an error.
pub open spec fn attempt_effect(
    pre: RecoverySupervisor,
    txn_id: u64,
    ctx: AttemptContext,
    result: Result<RecoveryContinuity, RealtimeError>,
    dispositions: (RecoveryDisposition, RecoveryDisposition),
    post: RecoverySupervisor,
    fx: AttemptEffects,
) -> bool {
    &&& (post.config == pre.config)
    &&& (post.next_txn_id == pre.next_txn_id)
    &&& (fx.transition == AttemptTransition::Published <==> fx.published is Some)
    &&& (fx.published is Some <==> fx.retired_generation_id is Some)
    &&& (fx.transition == AttemptTransition::RetryRecovering ==> fx.outcome is None)
    &&& (fx.transition != AttemptTransition::RetryRecovering ==> fx.outcome is Some)
    &&& (fx.transition == AttemptTransition::Published ==> {
        &&& result is Ok
        &&& (ctx.expected_revision matches Some(rev) ==> rev == pre.config.revision)
        &&& current_txn_id(pre.state) == Some(txn_id)
        &&& fx.published == Some(SessionGeneration { id: pre.next_generation_id })
        &&& fx.outcome == Some(Ok::<RecoveryOutcome, RealtimeError>(RecoveryOutcome::Recovered {
            generation_id: pre.next_generation_id,
            continuity: result->Ok_0,
        }))
        &&& post.state == (ManagedState::Serving {
        active: GenerationSlot { id: pre.next_generation_id, write_gate: WriteGate { open: true } },
        planned: None,
    })
        &&& post.next_generation_id == pre.next_generation_id + 1
        &&& post.published_generation == pre.next_generation_id
    })
    &&& (fx.transition != AttemptTransition::Published ==> {
        &&& post.next_generation_id == pre.next_generation_id
        &&& post.published_generation == pre.published_generation
    })
    &&& (match pre.state {
        ManagedState::Terminal { .. } => post == pre
            && fx.transition == AttemptTransition::Terminal
            && (fx.outcome matches Some(Err(e)) && e is SessionClosed),
        ManagedState::Uninitialized => post == pre
            && fx.transition == AttemptTransition::Terminal
            && (fx.outcome matches Some(Err(e)) && e is NotConnected),
        ManagedState::Serving { active, planned } => if active.id != ctx.originating_gen_id || !(
        planned matches Some(p) && p.id == txn_id) {
            post == pre && fx.transition == AttemptTransition::Terminal
                && (fx.outcome matches Some(Err(e)) && e is ConfigError)
        } else {
            match result {
                Ok(c) => if ctx.expected_revision matches Some(rev) && rev
                    != pre.config.revision {
                    fx.transition == AttemptTransition::KeepServing
                        && post.state == (ManagedState::Serving { active, planned: None })
                        && (fx.outcome matches Some(Err(e)) && e is ConfigError)
                } else {
                    fx.transition == AttemptTransition::Published
                        && fx.retired_generation_id == Some(active.id)
                },
                Err(e) => fx.transition == AttemptTransition::KeepServing
                    && post.state == (ManagedState::Serving { active, planned: None })
                    && fx.outcome == Some(Err::<RecoveryOutcome, RealtimeError>(e)),
            }
        },
        ManagedState::Recovering { failed, txn } => if txn.id != txn_id {
            post == pre && fx.transition == AttemptTransition::Terminal
                && (fx.outcome matches Some(Err(e)) && e is ConfigError)
        } else {
            let exhausted = ManagedState::Terminal {
                reason: TerminalReason::Exhausted,
                last_generation: Some(failed),
            };
            let last = ctx.attempt_idx >= ctx.max_attempts;
            match result {
                Ok(c) => if ctx.expected_revision matches Some(rev) && rev
                    != pre.config.revision {
                    if last {
                        fx.transition == AttemptTransition::Terminal && post.state
                            == exhausted && (fx.outcome matches Some(Err(e)) && e is ConfigError)
                    } else {
                        fx.transition == AttemptTransition::RetryRecovering && post
                            == pre
                    }
                } else {
                    fx.transition == AttemptTransition::Published
                        && fx.retired_generation_id == Some(failed.id)
                },
                Err(e) => if dispositions.0 == RecoveryDisposition::Fatal || dispositions.1
                    == RecoveryDisposition::Fatal || last {
                    fx.transition == AttemptTransition::Terminal && post.state == exhausted
                        && fx.outcome == Some(Err::<RecoveryOutcome, RealtimeError>(e))
                } else {
                    fx.transition == AttemptTransition::RetryRecovering && post
                        == pre
                },
            }
        },
    })
}

/// What ending transaction `txn_id` for a spent budget does: a recovery
/// still running under that transaction ends as `Terminal { Exhausted }` and
/// its waiters get a provider error; anything else is left as it is.
pub open spec fn terminalize_effect(
    pre: RecoverySupervisor,
    txn_id: u64,
    post: RecoverySupervisor,
    out: Option<Result<RecoveryOutcome, RealtimeError>>,
) -> bool {
    match pre.state {
        ManagedState::Recovering { failed, txn } => if txn.id == txn_id {
            &&& post.state == (ManagedState::Terminal { reason: TerminalReason::Exhausted, last_generation: Some(failed) })
            &&& post.config == pre.config
            &&& post.policy == pre.policy
            &&& post.next_generation_id == pre.next_generation_id
            &&& post.next_txn_id == pre.next_txn_id
            &&& post.published_generation == pre.published_generation
            &&& (out matches Some(Err(RealtimeError::ProviderError(m))) && m@
                == "recovery exhausted: worker loop completed without terminalization"@)
        } else {
            post == pre && out is None
        },
        _ => post == pre && out is None,
    }
}

impl RecoverySupervisor {
    /// Well-formedness of the supervisor.
    pub open spec fn wf(&self) -> bool {
        &&& self.policy.wf()
        &&& self.next_txn_id >= 1
        &&& match self.state {
            ManagedState::Uninitialized => true,
            ManagedState::Serving { active, planned } => {
                &&& active.id < self.next_generation_id
                &&& self.published_generation == active.id
                &&& match planned {
                    Some(p) => {
                        &&& p.id < self.next_txn_id
                        &&& p.target_generation_id == active.id + 1
                        &&& p.phase is Planned
                    },
                    None => true,
                }
            },
            ManagedState::Recovering { failed, txn } => {
                &&& failed.id < self.next_generation_id
                &&& !failed.write_gate.open
                &&& self.published_generation == failed.id
                &&& txn.id < self.next_txn_id
                &&& txn.target_generation_id == failed.id + 1
                &&& txn.phase is Recovering
            },
            ManagedState::Terminal { reason, last_generation } => {
                &&& match last_generation {
                    Some(g) => g.id < self.next_generation_id && !g.write_gate.open,
                    None => true,
                }
                &&& reason == TerminalReason::ExplicitClose ==> self.published_generation == CLOSED_GENERATION
                    && last_generation is None
            },
        }
    }

    /// A supervisor with no session yet, configuration revision 0.
    pub fn new(policy: RecoveryPolicy, initial_config: RealtimeConfig) -> (s: Self)
        requires
            policy.wf(),
        ensures
            s.wf(),
            s.state is Uninitialized,
            s.policy == policy,
            s.config.config == initial_config,
            s.config.revision == 0,
            s.next_generation_id == 0,
            s.next_txn_id == 1,
            s.published_generation == 0,
    {
        RecoverySupervisor {
            policy,
            state: ManagedState::Uninitialized,
            config: ConfigSnapshot { config: initial_config, revision: 0 },
            next_generation_id: 0,
            next_txn_id: 1,
            published_generation: 0,
        }
    }

    /// A supervisor already serving generation 0.
    pub fn with_initial_session(policy: RecoveryPolicy, config: RealtimeConfig) -> (s: Self)
        requires
            policy.wf(),
        ensures
            s.wf(),
            s.state == (ManagedState::Serving {
                active: GenerationSlot { id: 0, write_gate: WriteGate { open: true } },
                planned: None,
            }),
            s.policy == policy,
            s.config.config == config,
            s.config.revision == 0,
            s.next_generation_id == 1,
            s.next_txn_id == 1,
            s.published_generation == 0,
    {
        RecoverySupervisor {
            policy,
            state: ManagedState::Serving {
                active: GenerationSlot { id: 0, write_gate: WriteGate { open: true } },
                planned: None,
            },
            config: ConfigSnapshot { config, revision: 0 },
            next_generation_id: 1,
            next_txn_id: 1,
            published_generation: 0,
        }
    }

    /// Install the initial session as the next generation; only from the
    /// uninitialized state.
    pub fn set_initial_session(&mut self) -> (r: Result<SessionGeneration, RealtimeError>)
        requires
            old(self).wf(),
            old(self).next_generation_id < u64::MAX,
        ensures
            keeps_laws(*old(self), *final(self)),
            final(self).config == old(self).config,
            match r {
                Ok(g) => {
                    &&& old(self).state is Uninitialized
                    &&& g == SessionGeneration { id: old(self).next_generation_id }
                    &&& final(self).state == (ManagedState::Serving {
                        active: GenerationSlot { id: g.id, write_gate: WriteGate { open: true } },
                        planned: None,
                    })
                    &&& final(self).next_generation_id == g.id + 1
                    &&& final(self).published_generation == g.id
                },
                Err(e) => {
                    &&& !(old(self).state is Uninitialized)
                    &&& e is ConfigError
                    &&& *final(self) == *old(self)
                },
            },
    {
        match self.state {
            ManagedState::Uninitialized => {},
            _ => {
                return Err(
                    RealtimeError::config(
                        new_error(
                            "cannot set initial session unless supervisor status is strictly Uninitialized",
                        ),
                    ),
                );
            },
        }
        let gen_id = self.next_generation_id;
        self.next_generation_id = gen_id + 1;
        let g = GenerationSlot { id: gen_id, write_gate: WriteGate { open: true } };
        self.state = ManagedState::Serving { active: g, planned: None };
        self.published_generation = gen_id;
        Ok(SessionGeneration { id: gen_id })
    }

    /// The transport status projection.
    pub fn status(&self) -> (t: TransportStatus)
        ensures
            t == status_of(self.state),
    {
        match &self.state {
            ManagedState::Uninitialized => TransportStatus::Uninitialized,
            ManagedState::Serving { active, .. } => {
                if active.write_gate.open {
                    TransportStatus::Healthy
                } else {
                    TransportStatus::Recovering
                }
            },
            ManagedState::Recovering { .. } => TransportStatus::Recovering,
            ManagedState::Terminal { reason, .. } => match reason {
                TerminalReason::ExplicitClose => TransportStatus::Closed,
                TerminalReason::Exhausted => TransportStatus::Exhausted,
            },
        }
    }

    /// Connected and healthy for writes: serving a writable generation whose
    /// session reports itself connected.
    pub fn is_connected(&self, session_connected: bool) -> (b: bool)
        ensures
            b == (match self.state {
                ManagedState::Serving { active, .. } => active.write_gate.open && session_connected,
                _ => false,
            }),
    {
        match &self.state {
            ManagedState::Serving { active, .. } => active.write_gate.open && session_connected,
            _ => false,
        }
    }

    /// Whether generation `id` is current and still writable.
    pub fn is_writable(&self, id: u64) -> (b: bool)
        ensures
            b == writable_gen(self.state, id),
    {
        match &self.state {
            ManagedState::Serving { active, .. } => active.id == id && active.write_gate.open,
            _ => false,
        }
    }

    /// The generation to read events from: the active one, or the failed one
    /// while recovery runs (so pending events can still be drained).
    pub fn get_active_generation(&self) -> (r: Result<SessionGeneration, RealtimeError>)
        ensures
            match self.state {
                ManagedState::Uninitialized => r matches Err(e) && e is NotConnected,
                ManagedState::Serving { active, .. } => r == Ok::<SessionGeneration, RealtimeError>(SessionGeneration { id: active.id }),
                ManagedState::Recovering { failed, .. } => r == Ok::<SessionGeneration, RealtimeError>(SessionGeneration { id: failed.id }),
                ManagedState::Terminal { reason, .. } => match reason {
                    TerminalReason::ExplicitClose => r matches Err(e) && e is SessionClosed,
                    TerminalReason::Exhausted => r matches Err(RealtimeError::ProviderError(m)) && m@ == "session exhausted"@,
                },
            },
    {
        match &self.state {
            ManagedState::Uninitialized => Err(RealtimeError::NotConnected),
            ManagedState::Serving { active, .. } => Ok(SessionGeneration { id: active.id }),
            ManagedState::Recovering { failed, .. } => Ok(SessionGeneration { id: failed.id }),
            ManagedState::Terminal { reason, .. } => match reason {
                TerminalReason::ExplicitClose => Err(RealtimeError::SessionClosed),
                TerminalReason::Exhausted => Err(
                    RealtimeError::provider(new_error("session exhausted")),
                ),
            },
        }
    }

    /// Admit a write before invoking the raw session: only a serving,
    /// writable generation is admitted.
    pub fn admit_write(&self) -> (r: Result<SessionGeneration, RealtimeError>)
        ensures
            match r {
                Ok(g) => writable_gen(self.state, g.id) && (self.state matches ManagedState::Serving {
                    active,
                    ..
                } && active.id == g.id),
                Err(e) => !(self.state matches ManagedState::Serving { active, .. } && active.write_gate.open)
                    && match self.state {
                    ManagedState::Terminal { reason, .. } => match reason {
                        TerminalReason::ExplicitClose => e is SessionClosed,
                        TerminalReason::Exhausted => (e matches RealtimeError::ProviderError(m) && m@ == "session exhausted"@),
                    },
                    _ => e is NotConnected,
                },
            },
    {
        match &self.state {
            ManagedState::Uninitialized | ManagedState::Recovering { .. } => Err(
                RealtimeError::NotConnected,
            ),
            ManagedState::Serving { active, .. } => {
                if active.write_gate.open {
                    Ok(SessionGeneration { id: active.id })
                } else {
                    Err(RealtimeError::NotConnected)
                }
            },
            ManagedState::Terminal { reason, .. } => match reason {
                TerminalReason::ExplicitClose => Err(RealtimeError::SessionClosed),
                TerminalReason::Exhausted => Err(
                    RealtimeError::provider(new_error("session exhausted")),
                ),
            },
        }
    }

    /// Replace the canonical configuration and advance the revision (wrapping).
    pub fn update_config(&mut self, config: RealtimeConfig) -> (revision: u64)
        requires
            old(self).wf(),
        ensures
            keeps_laws(*old(self), *final(self)),
            final(self).config.config == config,
            revision == final(self).config.revision,
            revision == if old(self).config.revision == u64::MAX {
                0
            } else {
                (old(self).config.revision + 1) as u64
            },
            final(self).state == old(self).state,
            final(self).next_generation_id == old(self).next_generation_id,
            final(self).next_txn_id == old(self).next_txn_id,
            final(self).published_generation == old(self).published_generation,
    {
        let revision = if self.config.revision == u64::MAX {
            0
        } else {
            self.config.revision + 1
        };
        self.config = ConfigSnapshot { config, revision };
        revision
    }

    /// Atomically publish a replacement session built under `expected_revision`.
    pub fn publish_replacement(&mut self, expected_revision: u64) -> (r: Result<Publication, RealtimeError>)
        requires
            old(self).wf(),
            old(self).next_generation_id < u64::MAX,
        ensures
            keeps_laws(*old(self), *final(self)),
            final(self).config == old(self).config,
            match r {
                Ok(p) => {
                    &&& old(self).config.revision == expected_revision
                    &&& p.generation == SessionGeneration { id: old(self).next_generation_id }
                    &&& final(self).state == (ManagedState::Serving {
                        active: GenerationSlot { id: p.generation.id, write_gate: WriteGate { open: true } },
                        planned: None,
                    })
                    &&& final(self).next_generation_id == p.generation.id + 1
                    &&& final(self).published_generation == p.generation.id
                    &&& match old(self).state {
                        ManagedState::Serving { active, planned } => p.retired_generation_id == active.id
                            && p.cancelled_txn_id == match planned {
                            Some(t) => Some(t.id),
                            None => None,
                        },
                        ManagedState::Recovering { failed, txn } => p.retired_generation_id == failed.id
                            && p.cancelled_txn_id == Some(txn.id),
                        _ => false,
                    }
                },
                Err(e) => {
                    &&& *final(self) == *old(self)
                    &&& if old(self).config.revision != expected_revision {
                        e is ConfigError
                    } else {
                        match old(self).state {
                            ManagedState::Terminal { .. } => e is SessionClosed,
                            ManagedState::Uninitialized => e is NotConnected,
                            _ => false,
                        }
                    }
                },
            },
    {
        if self.config.revision != expected_revision {
            return Err(RealtimeError::config(new_error("stale config revision during publication")));
        }
        let (retired, cancelled) = match &self.state {
            ManagedState::Terminal { .. } => {
                return Err(RealtimeError::SessionClosed);
            },
            ManagedState::Uninitialized => {
                return Err(RealtimeError::NotConnected);
            },
            ManagedState::Serving { active, planned } => (
                active.id,
                match planned {
                    Some(t) => Some(t.id),
                    None => None,
                },
            ),
            ManagedState::Recovering { failed, txn } => (failed.id, Some(txn.id)),
        };
        let next_gen = self.next_generation_id;
        self.next_generation_id = next_gen + 1;
        let g = GenerationSlot { id: next_gen, write_gate: WriteGate { open: true } };
        self.state = ManagedState::Serving { active: g, planned: None };
        self.published_generation = next_gen;
        Ok(Publication { generation: SessionGeneration { id: next_gen }, retired_generation_id: retired, cancelled_txn_id: cancelled })
    }

    /// Before connecting for an intentional context resumption: the revision
    /// must be the queued one and a generation must be serving; returns its id.
    pub fn check_context_resumption(&self, queued_revision: u64) -> (r: Result<u64, RealtimeError>)
        ensures
            match r {
                Ok(id) => self.config.revision == queued_revision && (self.state matches ManagedState::Serving {
                    active,
                    ..
                } && active.id == id),
                Err(e) => if self.config.revision != queued_revision {
                    e is ConfigError
                } else {
                    match self.state {
                        ManagedState::Terminal { .. } => e is SessionClosed,
                        _ => e is NotConnected && !(self.state is Serving),
                    }
                },
            },
    {
        if self.config.revision != queued_revision {
            return Err(
                RealtimeError::config(new_error("stale config revision prior to resumption connect")),
            );
        }
        match &self.state {
            ManagedState::Terminal { .. } => Err(RealtimeError::SessionClosed),
            ManagedState::Uninitialized | ManagedState::Recovering { .. } => Err(
                RealtimeError::NotConnected,
            ),
            ManagedState::Serving { active, .. } => Ok(active.id),
        }
    }

    /// After connecting for a context resumption: publish the new session if
    /// the revision is still the queued one and generation `expected_active`
    /// is still the one serving.
    pub fn commit_context_resumption(&mut self, queued_revision: u64, expected_active: u64) -> (r: Result<
        Publication,
        RealtimeError,
    >)
        requires
            old(self).wf(),
            old(self).next_generation_id < u64::MAX,
        ensures
            keeps_laws(*old(self), *final(self)),
            final(self).config == old(self).config,
            match r {
                Ok(p) => {
                    &&& old(self).config.revision == queued_revision
                    &&& old(self).state matches ManagedState::Serving { active, planned } && active.id
                        == expected_active && p.retired_generation_id == active.id
                        && p.cancelled_txn_id == match planned {
                        Some(t) => Some(t.id),
                        None => None,
                    }
                    &&& p.generation == SessionGeneration { id: old(self).next_generation_id }
                    &&& final(self).state == (ManagedState::Serving {
                        active: GenerationSlot { id: p.generation.id, write_gate: WriteGate { open: true } },
                        planned: None,
                    })
                    &&& final(self).next_generation_id == p.generation.id + 1
                    &&& final(self).published_generation == p.generation.id
                },
                Err(e) => {
                    &&& *final(self) == *old(self)
                    &&& if old(self).config.revision != queued_revision {
                        e is ConfigError
                    } else {
                        match old(self).state {
                            ManagedState::Terminal { .. } => e is SessionClosed,
                            ManagedState::Serving { active, .. } => active.id != expected_active
                                && e is ProviderError,
                            _ => e is NotConnected,
                        }
                    }
                },
            },
    {
        if self.config.revision != queued_revision {
            return Err(
                RealtimeError::config(new_error("stale config revision post-resumption connect")),
            );
        }
        let cancelled = match &self.state {
            ManagedState::Terminal { .. } => {
                return Err(RealtimeError::SessionClosed);
            },
            ManagedState::Serving { active, planned } => {
                if active.id != expected_active {
                    return Err(
                        RealtimeError::provider(
                            new_error("active generation changed during resumption"),
                        ),
                    );
                }
                match planned {
                    Some(t) => Some(t.id),
                    None => None,
                }
            },
            _ => {
                return Err(RealtimeError::NotConnected);
            },
        };
        let next_gen = self.next_generation_id;
        self.next_generation_id = next_gen + 1;
        let g = GenerationSlot { id: next_gen, write_gate: WriteGate { open: true } };
        self.state = ManagedState::Serving { active: g, planned: None };
        self.published_generation = next_gen;
        Ok(
            Publication {
                generation: SessionGeneration { id: next_gen },
                retired_generation_id: expected_active,
                cancelled_txn_id: cancelled,
            },
        )
    }

    /// Request a proactive, make-before-break replacement of generation
    /// `report_generation` at time `now`.
    pub fn begin_planned_replacement(&mut self, report_generation: u64, cause: RecoveryCause, now: Instant) -> (r:
        TxnStart)
        requires
            old(self).wf(),
            old(self).next_txn_id < u64::MAX,
        ensures
            keeps_laws(*old(self), *final(self)),
            final(self).config == old(self).config,
            final(self).next_generation_id == old(self).next_generation_id,
            final(self).published_generation == old(self).published_generation,
            match old(self).state {
                ManagedState::Terminal { reason, .. } => *final(self) == *old(self) && match reason {
                    TerminalReason::ExplicitClose => (r matches TxnStart::Done(Err(e)) && e is SessionClosed),
                    TerminalReason::Exhausted => r == TxnStart::Done(Ok(RecoveryOutcome::Exhausted)),
                },
                ManagedState::Uninitialized => *final(self) == *old(self) && (r matches TxnStart::Done(
                    Err(e),
                ) && e is NotConnected),
                ManagedState::Recovering { failed, .. } => *final(self) == *old(self) && if report_generation
                    <= failed.id {
                    r == TxnStart::Done(Ok(RecoveryOutcome::Stale { generation_id: failed.id }))
                } else {
                    (r matches TxnStart::Done(Err(e)) && e is NotConnected)
                },
                ManagedState::Serving { active, planned } => if report_generation < active.id {
                    *final(self) == *old(self) && r == TxnStart::Done(
                        Ok(RecoveryOutcome::Stale { generation_id: active.id }),
                    )
                } else if report_generation > active.id {
                    *final(self) == *old(self) && (r matches TxnStart::Done(Err(RealtimeError::ProviderError(m))) && m@ == "invalid future generation report"@)
                } else {
                    match planned {
                        Some(p) => *final(self) == *old(self) && r == TxnStart::Join { txn_id: p.id },
                        None => {
                            &&& r == TxnStart::Spawn {
                                txn_id: old(self).next_txn_id,
                                originating_generation_id: active.id,
                            }
                            &&& final(self).next_txn_id == old(self).next_txn_id + 1
                            &&& final(self).state == (ManagedState::Serving {
                                active,
                                planned: Some(
                                    ReplacementTxn {
                                        id: old(self).next_txn_id,
                                        target_generation_id: (active.id + 1) as u64,
                                        phase: ReplacementPhase::Planned {
                                            cause,
                                            deadline: planned_deadline(old(self).policy, cause, now),
                                        },
                                    },
                                ),
                            })
                        },
                    }
                },
            },
    {
        match &self.state {
            ManagedState::Terminal { reason, .. } => {
                return match reason {
                    TerminalReason::ExplicitClose => TxnStart::Done(Err(RealtimeError::SessionClosed)),
                    TerminalReason::Exhausted => TxnStart::Done(Ok(RecoveryOutcome::Exhausted)),
                };
            },
            ManagedState::Uninitialized => {
                return TxnStart::Done(Err(RealtimeError::NotConnected));
            },
            ManagedState::Recovering { failed, .. } => {
                if report_generation <= failed.id {
                    return TxnStart::Done(Ok(RecoveryOutcome::Stale { generation_id: failed.id }));
                }
                return TxnStart::Done(Err(RealtimeError::NotConnected));
            },
            ManagedState::Serving { active, planned } => {
                if report_generation < active.id {
                    return TxnStart::Done(Ok(RecoveryOutcome::Stale { generation_id: active.id }));
                }
                if report_generation > active.id {
                    return TxnStart::Done(
                        Err(RealtimeError::provider(new_error("invalid future generation report"))),
                    );
                }
                match planned {
                    Some(p) => {
                        return TxnStart::Join { txn_id: p.id };
                    },
                    None => {},
                }
            },
        }
        let active = match &self.state {
            ManagedState::Serving { active, .. } => GenerationSlot {
                id: active.id,
                write_gate: WriteGate { open: active.write_gate.open },
            },
            _ => {
                proof {
                    assert(false);
                }
                return TxnStart::Done(Err(RealtimeError::NotConnected));
            },
        };
        let deadline = planned_deadline_of(&self.policy, &cause, now);
        let txn_id = self.next_txn_id;
        self.next_txn_id = txn_id + 1;
        let txn = ReplacementTxn {
            id: txn_id,
            target_generation_id: active.id + 1,
            phase: ReplacementPhase::Planned { cause, deadline },
        };
        let active_id = active.id;
        self.state = ManagedState::Serving { active, planned: Some(txn) };
        TxnStart::Spawn { txn_id, originating_generation_id: active_id }
    }

    /// Report that generation `report_generation` failed with `cause` at `now`.
    ///
    /// A report for the current serving generation closes its write gate for
    /// good and starts (or promotes a planned replacement into) a reactive
    /// recovery whose deadline is `now` plus the policy deadline.
    pub fn report_failure(&mut self, report_generation: u64, cause: RecoveryCause, now: Instant) -> (r:
        TxnStart)
        requires
            old(self).wf(),
            old(self).next_txn_id < u64::MAX,
        ensures
            keeps_laws(*old(self), *final(self)),
            final(self).config == old(self).config,
            final(self).next_generation_id == old(self).next_generation_id,
            final(self).published_generation == old(self).published_generation,
            report_failure_effect(*old(self), report_generation, cause, now, *final(self), r),

    {
        match &self.state {
            ManagedState::Terminal { reason, .. } => {
                return match reason {
                    TerminalReason::ExplicitClose => TxnStart::Done(Err(RealtimeError::SessionClosed)),
                    TerminalReason::Exhausted => TxnStart::Done(Ok(RecoveryOutcome::Exhausted)),
                };
            },
            ManagedState::Uninitialized => {
                return TxnStart::Done(Err(RealtimeError::NotConnected));
            },
            ManagedState::Recovering { failed, txn } => {
                if report_generation < failed.id {
                    return TxnStart::Done(Ok(RecoveryOutcome::Stale { generation_id: failed.id }));
                }
                if report_generation > failed.id {
                    return TxnStart::Done(
                        Err(RealtimeError::provider(new_error("invalid future generation report"))),
                    );
                }
                return TxnStart::Join { txn_id: txn.id };
            },
            ManagedState::Serving { active, .. } => {
                if report_generation < active.id {
                    return TxnStart::Done(Ok(RecoveryOutcome::Stale { generation_id: active.id }));
                }
                if report_generation > active.id {
                    return TxnStart::Done(
                        Err(RealtimeError::provider(new_error("invalid future generation report"))),
                    );
                }
            },
        }
        let deadline = now.saturating_add(self.policy.deadline());
        let old_state = swap_state(&mut self.state, ManagedState::Uninitialized);
        match old_state {
            ManagedState::Serving { active, planned } => {
                let failed = GenerationSlot { id: active.id, write_gate: WriteGate { open: false } };
                let phase = ReplacementPhase::Recovering { cause, deadline };
                match planned {
                    Some(p) => {
                        let txn_id = p.id;
                        self.state = ManagedState::Recovering {
                            failed,
                            txn: ReplacementTxn {
                                id: p.id,
                                target_generation_id: p.target_generation_id,
                                phase,
                            },
                        };
                        TxnStart::Join { txn_id }
                    },
                    None => {
                        let txn_id = self.next_txn_id;
                        self.next_txn_id = txn_id + 1;
                        self.state = ManagedState::Recovering {
                            failed,
                            txn: ReplacementTxn { id: txn_id, target_generation_id: active.id + 1, phase },
                        };
                        TxnStart::Spawn { txn_id, originating_generation_id: active.id }
                    },
                }
            },
            _ => {
                proof {
                    assert(false);
                }
                TxnStart::Done(Err(RealtimeError::NotConnected))
            },
        }
    }

    /// The phase of transaction `txn_id` while the supervisor holds it.
    pub open spec fn txn_phase_spec(&self, txn_id: u64) -> Option<&ReplacementPhase> {
        match self.state {
            ManagedState::Serving { planned: Some(t), .. } => if t.id == txn_id {
                Some(&t.phase)
            } else {
                None
            },
            ManagedState::Recovering { txn, .. } => if txn.id == txn_id {
                Some(&txn.phase)
            } else {
                None
            },
            _ => None,
        }
    }

    /// The phase of transaction `txn_id` while the supervisor holds it.
    pub fn txn_phase(&self, txn_id: u64) -> (p: Option<&ReplacementPhase>)
        ensures
            p == self.txn_phase_spec(txn_id),
            match self.state {
                ManagedState::Serving { planned: Some(t), .. } => if t.id == txn_id {
                    p == Some(&t.phase)
                } else {
                    p is None
                },
                ManagedState::Recovering { txn, .. } => if txn.id == txn_id {
                    p == Some(&txn.phase)
                } else {
                    p is None
                },
                _ => p is None,
            },
    {
        match &self.state {
            ManagedState::Serving { planned: Some(t), .. } => {
                if t.id == txn_id {
                    Some(&t.phase)
                } else {
                    None
                }
            },
            ManagedState::Recovering { txn, .. } => {
                if txn.id == txn_id {
                    Some(&txn.phase)
                } else {
                    None
                }
            },
            _ => None,
        }
    }

    /// Apply the result of one replacement attempt for transaction `txn_id`.
    ///
    /// `dispositions` is the provider's classification of the transaction's
    /// current cause and of the attempt error; it decides, for a failed
    /// reactive attempt, whether recovery retries or is exhausted.
    pub fn apply_attempt_result(
        &mut self,
        txn_id: u64,
        ctx: AttemptContext,
        result: Result<RecoveryContinuity, RealtimeError>,
        dispositions: (RecoveryDisposition, RecoveryDisposition),
    ) -> (fx: AttemptEffects)
        requires
            old(self).wf(),
            old(self).next_generation_id < u64::MAX,
        ensures
            keeps_laws(*old(self), *final(self)),
            attempt_effect(*old(self), txn_id, ctx, result, dispositions, *final(self), fx),
    {
        let none_fx = |transition: AttemptTransition, e: RealtimeError| -> (fx: AttemptEffects)
            ensures
                fx == (AttemptEffects {
                    transition,
                    published: None,
                    retired_generation_id: None,
                    outcome: Some(Err(e)),
                }),
            { AttemptEffects { transition, published: None, retired_generation_id: None, outcome: Some(Err(e)) } };
        let old_state = swap_state(&mut self.state, ManagedState::Uninitialized);
        match old_state {
            ManagedState::Terminal { reason, last_generation } => {
                self.state = ManagedState::Terminal { reason, last_generation };
                none_fx(AttemptTransition::Terminal, RealtimeError::SessionClosed)
            },
            ManagedState::Uninitialized => {
                none_fx(AttemptTransition::Terminal, RealtimeError::NotConnected)
            },
            ManagedState::Serving { active, planned } => {
                let matches_txn = match &planned {
                    Some(p) => p.id == txn_id,
                    None => false,
                };
                if active.id != ctx.originating_gen_id || !matches_txn {
                    let msg = if active.id != ctx.originating_gen_id {
                        "originating generation changed during replacement"
                    } else {
                        "planned transaction missing or superseded"
                    };
                    self.state = ManagedState::Serving { active, planned };
                    return none_fx(AttemptTransition::Terminal, RealtimeError::config(new_error(msg)));
                }
                match result {
                    Ok(continuity) => {
                        let stale = match ctx.expected_revision {
                            Some(rev) => rev != self.config.revision,
                            None => false,
                        };
                        if stale {
                            self.state = ManagedState::Serving { active, planned: None };
                            none_fx(
                                AttemptTransition::KeepServing,
                                RealtimeError::config(
                                    new_error("candidate publication rejected: stale config revision"),
                                ),
                            )
                        } else {
                            self.publish_candidate(active.id, continuity)
                        }
                    },
                    Err(e) => {
                        self.state = ManagedState::Serving { active, planned: None };
                        none_fx(AttemptTransition::KeepServing, e)
                    },
                }
            },
            ManagedState::Recovering { failed, txn } => {
                if txn.id != txn_id {
                    self.state = ManagedState::Recovering { failed, txn };
                    return none_fx(
                        AttemptTransition::Terminal,
                        RealtimeError::config(new_error("recovery transaction superseded")),
                    );
                }
                let last = ctx.attempt_idx >= ctx.max_attempts;
                match result {
                    Ok(continuity) => {
                        let stale = match ctx.expected_revision {
                            Some(rev) => rev != self.config.revision,
                            None => false,
                        };
                        if stale {
                            if last {
                                self.state = ManagedState::Terminal {
                                    reason: TerminalReason::Exhausted,
                                    last_generation: Some(failed),
                                };
                                none_fx(
                                    AttemptTransition::Terminal,
                                    RealtimeError::config(
                                        new_error(
                                            "recovery exhausted: stale config revision on final attempt",
                                        ),
                                    ),
                                )
                            } else {
                                self.state = ManagedState::Recovering { failed, txn };
                                AttemptEffects {
                                    transition: AttemptTransition::RetryRecovering,
                                    published: None,
                                    retired_generation_id: None,
                                    outcome: None,
                                }
                            }
                        } else {
                            self.publish_candidate(failed.id, continuity)
                        }
                    },
                    Err(e) => {
                        if dispositions.0 == RecoveryDisposition::Fatal || dispositions.1
                            == RecoveryDisposition::Fatal || last {
                            self.state = ManagedState::Terminal {
                                reason: TerminalReason::Exhausted,
                                last_generation: Some(failed),
                            };
                            none_fx(AttemptTransition::Terminal, e)
                        } else {
                            self.state = ManagedState::Recovering { failed, txn };
                            AttemptEffects {
                                transition: AttemptTransition::RetryRecovering,
                                published: None,
                                retired_generation_id: None,
                                outcome: None,
                            }
                        }
                    },
                }
            },
        }
    }

    /// Publish the candidate as the next generation, retiring `retired`.
    fn publish_candidate(&mut self, retired: u64, continuity: RecoveryContinuity) -> (fx: AttemptEffects)
        requires
            old(self).next_generation_id < u64::MAX,
        ensures
            fx.transition == AttemptTransition::Published,
            fx.published == Some(SessionGeneration { id: old(self).next_generation_id }),
            fx.retired_generation_id == Some(retired),
            fx.outcome == Some(Ok::<RecoveryOutcome, RealtimeError>(RecoveryOutcome::Recovered {
                generation_id: old(self).next_generation_id,
                continuity,
            })),
            final(self).state == (ManagedState::Serving {
                active: GenerationSlot { id: old(self).next_generation_id, write_gate: WriteGate { open: true } },
                planned: None,
            }),
            final(self).next_generation_id == old(self).next_generation_id + 1,
            final(self).published_generation == old(self).next_generation_id,
            final(self).next_txn_id == old(self).next_txn_id,
            final(self).config == old(self).config,
            final(self).policy == old(self).policy,
    {
        let next_gen = self.next_generation_id;
        self.next_generation_id = next_gen + 1;
        let g = GenerationSlot { id: next_gen, write_gate: WriteGate { open: true } };
        self.state = ManagedState::Serving { active: g, planned: None };
        self.published_generation = next_gen;
        AttemptEffects {
            transition: AttemptTransition::Published,
            published: Some(SessionGeneration { id: next_gen }),
            retired_generation_id: Some(retired),
            outcome: Some(Ok(RecoveryOutcome::Recovered { generation_id: next_gen, continuity })),
        }
    }

    /// Close the supervisor for good. The generation watch moves to
    /// `CLOSED_GENERATION`.
    pub fn close(&mut self) -> (fx: CloseEffects)
        requires
            old(self).wf(),
        ensures
            keeps_laws(*old(self), *final(self)),
            final(self).state == (ManagedState::Terminal {
                reason: TerminalReason::ExplicitClose,
                last_generation: None,
            }),
            final(self).published_generation == CLOSED_GENERATION,
            final(self).config == old(self).config,
            final(self).next_generation_id == old(self).next_generation_id,
            final(self).next_txn_id == old(self).next_txn_id,
            fx == match old(self).state {
                ManagedState::Serving { active, planned } => CloseEffects {
                    session_to_close: Some(active.id),
                    cancelled_txn_id: match planned {
                        Some(p) => Some(p.id),
                        None => None,
                    },
                },
                ManagedState::Recovering { failed, txn } => CloseEffects {
                    session_to_close: Some(failed.id),
                    cancelled_txn_id: Some(txn.id),
                },
                _ => CloseEffects { session_to_close: None, cancelled_txn_id: None },
            },
    {
        let old_state = swap_state(
            &mut self.state,
            ManagedState::Terminal { reason: TerminalReason::ExplicitClose, last_generation: None },
        );
        self.published_generation = CLOSED_GENERATION;
        match old_state {
            ManagedState::Serving { active, planned } => CloseEffects {
                session_to_close: Some(active.id),
                cancelled_txn_id: match planned {
                    Some(p) => Some(p.id),
                    None => None,
                },
            },
            ManagedState::Recovering { failed, txn } => CloseEffects {
                session_to_close: Some(failed.id),
                cancelled_txn_id: Some(txn.id),
            },
            _ => CloseEffects { session_to_close: None, cancelled_txn_id: None },
        }
    }

    /// Defensive terminalization when a worker leaves its loop while its
    /// transaction still holds the supervisor in recovery: the supervisor
    /// becomes terminally exhausted and the waiters get an error.
    pub fn terminalize_if_current(&mut self, txn_id: u64) -> (out: Option<
        Result<RecoveryOutcome, RealtimeError>,
    >)
        requires
            old(self).wf(),
        ensures
            keeps_laws(*old(self), *final(self)),
            final(self).config == old(self).config,
            final(self).next_generation_id == old(self).next_generation_id,
            final(self).next_txn_id == old(self).next_txn_id,
            final(self).published_generation == old(self).published_generation,
            terminalize_effect(*old(self), txn_id, *final(self), out),
    {
        let current = match &self.state {
            ManagedState::Recovering { txn, .. } => txn.id == txn_id,
            _ => false,
        };
        if !current {
            return None;
        }
        let old_state = swap_state(&mut self.state, ManagedState::Uninitialized);
        match old_state {
            ManagedState::Recovering { failed, .. } => {
                self.state = ManagedState::Terminal {
                    reason: TerminalReason::Exhausted,
                    last_generation: Some(failed),
                };
                Some(
                    Err(
                        RealtimeError::provider(
                            new_error(
                                "recovery exhausted: worker loop completed without terminalization",
                            ),
                        ),
                    ),
                )
            },
            other => {
                proof {
                    assert(false);
                }
                self.state = other;
                None
            },
        }
    }
}

/// `2^k`.
pub open spec fn pow2(k: nat) -> nat
    decreases k,
{
    if k == 0 { 1 } else { 2 * pow2((k - 1) as nat) }
}

/// The backoff multiplier after attempt `attempt`: `2^(attempt-1)`, or
/// `u32::MAX` when that does not fit in 32 bits.
pub open spec fn backoff_factor(attempt: u32) -> u32 {
    if pow2((attempt - 1) as nat) <= u32::MAX { pow2((attempt - 1) as nat) as u32 } else { u32::MAX }
}

/// The exponential backoff after a failed attempt `attempt` (1-based):
/// `initial_delay * 2^(attempt-1)`, saturating, capped at `max_delay`.
pub open spec fn backoff_after(policy: RecoveryPolicy, attempt: u32) -> Duration {
    let raw = policy.spec_initial_delay().nanos * backoff_factor(attempt);
    let sat = if raw <= u64::MAX { raw as u64 } else { u64::MAX };
    if sat <= policy.spec_max_delay().nanos {
        Duration { nanos: sat }
    } else {
        policy.spec_max_delay()
    }
}

proof fn lemma_pow2_monotone(a: nat, b: nat)
    requires
        a <= b,
    ensures
        pow2(a) <= pow2(b),
    decreases b,
{
    if a < b {
        lemma_pow2_monotone(a, (b - 1) as nat);
    }
}

fn factor_for(attempt: u32) -> (f: u32)
    requires
        attempt >= 1,
    ensures
        f == backoff_factor(attempt),
{
    let k = attempt - 1;
    let mut f: u32 = 1;
    let mut i: u32 = 0;
    while i < k
        invariant
            i <= k,
            k == attempt - 1,
            f == pow2(i as nat),
        decreases k - i,
    {
        match f.checked_mul(2) {
            Some(n) => {
                f = n;
                i = i + 1;
            },
            None => {
                proof {
                    assert(f * 2 > u32::MAX);
                    assert(pow2((i + 1) as nat) == 2 * pow2(i as nat));
                    lemma_pow2_monotone((i + 1) as nat, k as nat);
                    assert(pow2(k as nat) > u32::MAX);
                    assert((attempt - 1) as nat == k as nat);
                }
                return u32::MAX;
            },
        }
    }
    f
}

/// The backoff to wait after a failed attempt `attempt`.
pub fn backoff_delay(policy: &RecoveryPolicy, attempt: u32) -> (d: Duration)
    requires
        attempt >= 1,
    ensures
        d == backoff_after(*policy, attempt),
        d.nanos <= policy.spec_max_delay().nanos,
{
    let factor = factor_for(attempt);
    policy.initial_delay().saturating_mul(factor).min(policy.max_delay())
}

/// What the driver of a replacement worker must do next.
#[derive(Debug)]
pub enum WorkerStep {
    /// Build one candidate, bounded by `deadline`, under configuration
    /// revision `expected_revision`; then report how it ended.
    Attempt { attempt: u32, deadline: Instant, expected_revision: u64 },
    /// Classify this error and apply it with `settle`.
    Settle(RealtimeError),
    /// Wait `delay` unless cancelled or `deadline` passes; then report.
    Backoff { delay: Duration, deadline: Instant },
    /// Call `next` again.
    Continue,
    /// The worker is done; deliver the outcome to the waiters if one is given.
    Done(Option<Result<RecoveryOutcome, RealtimeError>>),
}

/// The worker that owns a replacement transaction's attempts: planned
/// preparation and reactive recovery. When the transaction is promoted from
/// planned to reactive, the reactive phase gets a fresh attempt budget.
#[derive(Debug)]
pub struct ReplacementWorker {
    pub txn_id: u64,
    pub originating_gen_id: u64,
    pub max_attempts: u32,
    pub attempt_idx: u32,
    pub reactive_budget_started: bool,
    pub recovery_supported: bool,
    /// The revision the in-flight candidate is being built under.
    pub in_flight: Option<u64>,
    /// The context of a pending `Settle`.
    pub pending_settle: Option<AttemptContext>,
    pub done: bool,
}

/// The dispositions a worker applies: a session without recovery support
/// treats every cause and error as fatal.
pub open spec fn effective_dispositions(
    recovery_supported: bool,
    d: (RecoveryDisposition, RecoveryDisposition),
) -> (RecoveryDisposition, RecoveryDisposition) {
    if recovery_supported {
        d
    } else {
        (RecoveryDisposition::Fatal, RecoveryDisposition::Fatal)
    }
}

/// The pause before the next attempt after failed attempt `attempt` of
/// `max` at `now`, within a phase ending at `deadline`: the policy backoff,
/// cut to the time left.
pub open spec fn pause_before_retry(policy: RecoveryPolicy, attempt: u32, deadline: Instant, now: Instant) -> Duration {
    let b = backoff_after(policy, attempt).nanos;
    let left = (deadline.nanos - now.nanos) as u64;
    Duration { nanos: if b <= left { b } else { left } }
}

/// What the worker does after a retryable failure of attempt `attempt` (of
/// `max`) at `now`, in the transaction's phase `phase`: with budget left and
/// time left it waits `pause_before_retry` (or goes on at once when that is
/// zero); with the deadline passed it settles with a timeout; with no phase,
/// or no numbered attempt before, or the budget spent, it goes on to the top of
/// the loop (which ends the transaction when the budget is spent).
pub open spec fn retry_step(
    policy: RecoveryPolicy,
    phase: Option<&ReplacementPhase>,
    attempt: u32,
    max: u32,
    now: Instant,
    step: WorkerStep,
) -> bool {
    if attempt == 0 || attempt >= max {
        step is Continue
    } else {
        match phase {
            None => step is Continue,
            Some(p) => if now.nanos >= p.spec_deadline().nanos {
                step matches WorkerStep::Settle(RealtimeError::Timeout(m)) && m@
                    == "recovery deadline expired during backoff calculation"@
            } else {
                let d = pause_before_retry(policy, attempt, p.spec_deadline(), now);
                if d.nanos == 0 {
                    step is Continue
                } else {
                    step == (WorkerStep::Backoff { delay: d, deadline: p.spec_deadline() })
                }
            },
        }
    }
}

impl ReplacementWorker {
    pub open spec fn wf(&self) -> bool {
        &&& self.max_attempts >= 1
        &&& self.attempt_idx <= self.max_attempts
    }

    /// Ready for `next`: nothing in flight and nothing to settle.
    pub open spec fn idle(&self) -> bool {
        &&& self.wf()
        &&& !self.done
        &&& self.in_flight is None
        &&& self.pending_settle is None
    }

    fn settle_ctx(&self) -> (c: AttemptContext)
        ensures
            c == (AttemptContext {
                originating_gen_id: self.originating_gen_id,
                attempt_idx: self.attempt_idx,
                max_attempts: self.max_attempts,
                expected_revision: None,
            }),
    {
        AttemptContext {
            originating_gen_id: self.originating_gen_id,
            attempt_idx: self.attempt_idx,
            max_attempts: self.max_attempts,
            expected_revision: None,
        }
    }

    /// Start the worker for transaction `txn_id`. A session without recovery
    /// support, or a cause the provider classifies as fatal, settles at once
    /// with zero provider attempts.
    pub fn start(
        sup: &RecoverySupervisor,
        txn_id: u64,
        originating_gen_id: u64,
        recovery_supported: bool,
        initial_cause_disposition: RecoveryDisposition,
    ) -> (r: (ReplacementWorker, WorkerStep))
        requires
            sup.wf(),
        ensures
            r.0.wf(),
            r.0.txn_id == txn_id,
            r.0.originating_gen_id == originating_gen_id,
            r.0.max_attempts == sup.policy.spec_max_attempts(),
            r.0.recovery_supported == recovery_supported,
            r.0.in_flight is None,
            !r.0.done,
            if !recovery_supported || initial_cause_disposition == RecoveryDisposition::Fatal {
                &&& (r.1 matches WorkerStep::Settle(RealtimeError::ProviderError(m)) && m@ == if !recovery_supported {
                    "active session does not support recovery"@
                } else {
                    "fatal recovery cause detected; performing zero provider attempts"@
                })
                &&& r.0.pending_settle == Some(AttemptContext {
                    originating_gen_id,
                    attempt_idx: 1,
                    max_attempts: 1,
                    expected_revision: None,
                })
            } else {
                r.1 is Continue && r.0.idle() && r.0.attempt_idx == 0
            },
    {
        let max = sup.policy.max_attempts();
        let mut w = ReplacementWorker {
            txn_id,
            originating_gen_id,
            max_attempts: max,
            attempt_idx: 0,
            reactive_budget_started: false,
            recovery_supported,
            in_flight: None,
            pending_settle: None,
            done: false,
        };
        if !recovery_supported || initial_cause_disposition == RecoveryDisposition::Fatal {
            w.pending_settle = Some(
                AttemptContext {
                    originating_gen_id,
                    attempt_idx: 1,
                    max_attempts: 1,
                    expected_revision: None,
                },
            );
            let msg = if !recovery_supported {
                "active session does not support recovery"
            } else {
                "fatal recovery cause detected; performing zero provider attempts"
            };
            return (w, WorkerStep::Settle(RealtimeError::provider(new_error(msg))));
        }
        (w, WorkerStep::Continue)
    }

    /// The top of the attempt loop at time `now`. `cause_disposition` is the
    /// provider's classification of the transaction's current cause.
    pub fn next(&mut self, sup: &mut RecoverySupervisor, now: Instant, cause_disposition: RecoveryDisposition) -> (step:
        WorkerStep)
        requires
            old(self).idle(),
            old(sup).wf(),
        ensures
            keeps_laws(*old(sup), *final(sup)),
            final(self).wf(),
            old(self).reactive_budget_started ==> final(self).reactive_budget_started,
            final(self).reactive_budget_started == old(self).reactive_budget_started ==> final(self).attempt_idx
                >= old(self).attempt_idx,
            (step is Attempt && final(self).reactive_budget_started == old(self).reactive_budget_started)
                ==> final(self).attempt_idx == old(self).attempt_idx + 1,
            final(self).txn_id == old(self).txn_id,
            final(self).max_attempts == old(self).max_attempts,
            final(self).originating_gen_id == old(self).originating_gen_id,
            final(self).recovery_supported == old(self).recovery_supported,
            step is Attempt || step is Settle || step is Done,
            match step {
                WorkerStep::Attempt { attempt, deadline, expected_revision } => {
                    &&& 1 <= attempt <= final(self).max_attempts
                    &&& attempt == final(self).attempt_idx
                    &&& now.nanos < deadline.nanos
                    &&& expected_revision == old(sup).config.revision
                    &&& final(self).in_flight == Some(expected_revision)
                    &&& final(self).pending_settle is None
                    &&& !final(self).done
                    &&& *final(sup) == *old(sup)
                    &&& current_txn_id(old(sup).state) == Some(old(self).txn_id)
                },
                WorkerStep::Settle(_) => {
                    &&& final(self).pending_settle is Some
                    &&& final(self).in_flight is None
                    &&& !final(self).done
                    &&& *final(sup) == *old(sup)
                },
                WorkerStep::Done(out) => final(self).done && old(self).attempt_idx == old(self).max_attempts
                    && terminalize_effect(*old(sup), old(self).txn_id, *final(sup), out),
                _ => false,
            },
            (old(self).attempt_idx < old(self).max_attempts && (old(sup).txn_phase_spec(old(self).txn_id) matches Some(
                p,
            ) && p is Recovering) && cause_disposition == RecoveryDisposition::Fatal) ==> (step matches WorkerStep::Settle(
                RealtimeError::ProviderError(m),
            ) && m@ == "fatal failure cause classified during recovery; aborting attempts"@),
    {
        if self.attempt_idx >= self.max_attempts {
            let out = sup.terminalize_if_current(self.txn_id);
            self.done = true;
            return WorkerStep::Done(out);
        }
        self.attempt_idx = self.attempt_idx + 1;
        let (is_recovering, deadline) = match sup.txn_phase(self.txn_id) {
            None => {
                self.pending_settle = Some(self.settle_ctx());
                return WorkerStep::Settle(RealtimeError::SessionClosed);
            },
            Some(phase) => (
                match phase {
                    ReplacementPhase::Recovering { .. } => true,
                    ReplacementPhase::Planned { .. } => false,
                },
                phase.deadline(),
            ),
        };
        if is_recovering && !self.reactive_budget_started {
            self.reactive_budget_started = true;
            self.attempt_idx = 1;
        }
        if is_recovering && cause_disposition == RecoveryDisposition::Fatal {
            self.pending_settle = Some(self.settle_ctx());
            return WorkerStep::Settle(
                RealtimeError::provider(
                    new_error("fatal failure cause classified during recovery; aborting attempts"),
                ),
            );
        }
        if now.nanos >= deadline.nanos {
            self.pending_settle = Some(self.settle_ctx());
            return WorkerStep::Settle(
                RealtimeError::Timeout(new_error("replacement deadline expired before attempt")),
            );
        }
        let rev = sup.config.revision;
        self.in_flight = Some(rev);
        WorkerStep::Attempt { attempt: self.attempt_idx, deadline, expected_revision: rev }
    }

    /// The in-flight attempt was cancelled (the transaction was superseded or
    /// the supervisor closed).
    pub fn attempt_cancelled(&mut self) -> (step: WorkerStep)
        requires
            old(self).wf(),
            !old(self).done,
            old(self).in_flight is Some,
        ensures
            final(self).wf(),
            final(self).reactive_budget_started == old(self).reactive_budget_started,
            final(self).attempt_idx == old(self).attempt_idx,
            step matches WorkerStep::Settle(e) && e is SessionClosed,
            final(self).pending_settle == Some(old(self).settle_ctx_spec()),
            final(self).in_flight is None,
            !final(self).done,
            final(self).attempt_idx == old(self).attempt_idx,
            final(self).max_attempts == old(self).max_attempts,
            final(self).txn_id == old(self).txn_id,
    {
        self.in_flight = None;
        self.pending_settle = Some(self.settle_ctx());
        WorkerStep::Settle(RealtimeError::SessionClosed)
    }

    pub open spec fn settle_ctx_spec(&self) -> AttemptContext {
        AttemptContext {
            originating_gen_id: self.originating_gen_id,
            attempt_idx: self.attempt_idx,
            max_attempts: self.max_attempts,
            expected_revision: None,
        }
    }

    /// The in-flight attempt's deadline passed at `now`. If the transaction
    /// was meanwhile promoted to reactive recovery with a later deadline, the
    /// loop continues under it (with a fresh budget); otherwise it times out.
    pub fn attempt_deadline_fired(&mut self, sup: &RecoverySupervisor, now: Instant) -> (step: WorkerStep)
        requires
            old(self).wf(),
            !old(self).done,
            old(self).in_flight is Some,
            old(self).pending_settle is None,
        ensures
            final(self).wf(),
            old(self).reactive_budget_started ==> final(self).reactive_budget_started,
            final(self).reactive_budget_started == old(self).reactive_budget_started ==> final(self).attempt_idx
                >= old(self).attempt_idx,
            final(self).in_flight is None,
            !final(self).done,
            final(self).max_attempts == old(self).max_attempts,
            final(self).txn_id == old(self).txn_id,
            match step {
                WorkerStep::Continue => final(self).idle() && (sup.txn_phase_spec(old(self).txn_id) matches Some(p)
                    && p is Recovering && now.nanos < p.spec_deadline().nanos),
                WorkerStep::Settle(e) => (e matches RealtimeError::Timeout(m) && m@
                    == "replacement deadline expired during connection attempt"@) && final(self).pending_settle
                    == Some(old(self).settle_ctx_spec()),
                _ => false,
            },
    {
        self.in_flight = None;
        let promoted_later = match sup.txn_phase(self.txn_id) {
            Some(phase) => match phase {
                ReplacementPhase::Recovering { deadline, .. } => now.nanos < deadline.nanos,
                _ => false,
            },
            None => false,
        };
        if promoted_later {
            if !self.reactive_budget_started {
                self.reactive_budget_started = true;
                self.attempt_idx = 0;
            }
            return WorkerStep::Continue;
        }
        self.pending_settle = Some(self.settle_ctx());
        WorkerStep::Settle(
            RealtimeError::Timeout(new_error("replacement deadline expired during connection attempt")),
        )
    }

    /// Apply a pending `Settle` error; the worker is then done.
    pub fn settle(
        &mut self,
        sup: &mut RecoverySupervisor,
        error: RealtimeError,
        dispositions: (RecoveryDisposition, RecoveryDisposition),
    ) -> (fx: AttemptEffects)
        requires
            old(self).wf(),
            old(self).pending_settle is Some,
            old(sup).wf(),
            old(sup).next_generation_id < u64::MAX,
        ensures
            keeps_laws(*old(sup), *final(sup)),
            attempt_effect(
                *old(sup),
                old(self).txn_id,
                old(self).pending_settle.unwrap(),
                Err(error),
                effective_dispositions(old(self).recovery_supported, dispositions),
                *final(sup),
                fx,
            ),
            (old(sup).state matches ManagedState::Recovering { failed, txn } && txn.id == old(self).txn_id && (
            effective_dispositions(old(self).recovery_supported, dispositions).0 == RecoveryDisposition::Fatal
                || effective_dispositions(old(self).recovery_supported, dispositions).1
                == RecoveryDisposition::Fatal || old(self).pending_settle.unwrap().attempt_idx
                >= old(self).pending_settle.unwrap().max_attempts)) ==> {
                &&& final(sup).state matches ManagedState::Terminal { reason, .. } && reason
                    == TerminalReason::Exhausted
                &&& fx.transition == AttemptTransition::Terminal
                &&& fx.outcome == Some(Err::<RecoveryOutcome, RealtimeError>(error))
            },
            final(self).done,
            final(self).pending_settle is None,
            final(self).wf(),
            final(self).reactive_budget_started == old(self).reactive_budget_started,
            final(self).attempt_idx == old(self).attempt_idx,
            final(self).txn_id == old(self).txn_id,
            fx.transition != AttemptTransition::Published,
    {
        let ctx = self.pending_settle.unwrap();
        self.pending_settle = None;
        self.done = true;
        let d = if self.recovery_supported {
            dispositions
        } else {
            (RecoveryDisposition::Fatal, RecoveryDisposition::Fatal)
        };
        sup.apply_attempt_result(self.txn_id, ctx, Err(error), d)
    }

    /// The in-flight attempt ended with `result` at `now`.
    pub fn attempt_finished(
        &mut self,
        sup: &mut RecoverySupervisor,
        result: Result<RecoveryContinuity, RealtimeError>,
        dispositions: (RecoveryDisposition, RecoveryDisposition),
        now: Instant,
    ) -> (r: (AttemptEffects, WorkerStep))
        requires
            old(self).wf(),
            !old(self).done,
            old(self).in_flight is Some,
            old(self).pending_settle is None,
            old(sup).wf(),
            old(sup).next_generation_id < u64::MAX,
        ensures
            keeps_laws(*old(sup), *final(sup)),
            final(self).wf(),
            final(self).reactive_budget_started == old(self).reactive_budget_started,
            final(self).attempt_idx == old(self).attempt_idx,
            final(self).in_flight is None,
            final(self).txn_id == old(self).txn_id,
            final(self).max_attempts == old(self).max_attempts,
            r.0.transition == AttemptTransition::Published ==> old(self).in_flight
                == Some(old(sup).config.revision),
            r.0.transition != AttemptTransition::RetryRecovering ==> r.1 == WorkerStep::Done(None)
                && final(self).done,
            attempt_effect(
                *old(sup),
                old(self).txn_id,
                AttemptContext {
                    originating_gen_id: old(self).originating_gen_id,
                    attempt_idx: old(self).attempt_idx,
                    max_attempts: old(self).max_attempts,
                    expected_revision: old(self).in_flight,
                },
                result,
                effective_dispositions(old(self).recovery_supported, dispositions),
                *final(sup),
                r.0,
            ),
            r.0.transition == AttemptTransition::RetryRecovering ==> retry_step(
                old(sup).policy,
                final(sup).txn_phase_spec(old(self).txn_id),
                old(self).attempt_idx,
                old(self).max_attempts,
                now,
                r.1,
            ),
            r.0.transition == AttemptTransition::RetryRecovering ==> match r.1 {
                WorkerStep::Settle(_) => final(self).pending_settle is Some && !final(self).done,
                _ => final(self).idle(),
            },
    {
        let rev = self.in_flight;
        self.in_flight = None;
        let ctx = AttemptContext {
            originating_gen_id: self.originating_gen_id,
            attempt_idx: self.attempt_idx,
            max_attempts: self.max_attempts,
            expected_revision: rev,
        };
        let d = if self.recovery_supported {
            dispositions
        } else {
            (RecoveryDisposition::Fatal, RecoveryDisposition::Fatal)
        };
        let fx = sup.apply_attempt_result(self.txn_id, ctx, result, d);
        match fx.transition {
            AttemptTransition::RetryRecovering => {},
            _ => {
                self.done = true;
                return (fx, WorkerStep::Done(None));
            },
        }
        if self.attempt_idx >= self.max_attempts || self.attempt_idx == 0 {
            return (fx, WorkerStep::Continue);
        }
        let backoff = backoff_delay(&sup.policy, self.attempt_idx);
        let deadline = match sup.txn_phase(self.txn_id) {
            Some(phase) => phase.deadline(),
            None => {
                return (fx, WorkerStep::Continue);
            },
        };
        if now.nanos >= deadline.nanos {
            self.pending_settle = Some(self.settle_ctx());
            return (
                fx,
                WorkerStep::Settle(
                    RealtimeError::Timeout(
                        new_error("recovery deadline expired during backoff calculation"),
                    ),
                ),
            );
        }
        let delay = backoff.min(deadline.saturating_duration_since(now));
        if delay.is_zero() {
            (fx, WorkerStep::Continue)
        } else {
            (fx, WorkerStep::Backoff { delay, deadline })
        }
    }

    /// The backoff wait was cancelled.
    pub fn backoff_cancelled(&mut self) -> (step: WorkerStep)
        requires
            old(self).wf(),
        ensures
            final(self).wf(),
            final(self).reactive_budget_started == old(self).reactive_budget_started,
            final(self).attempt_idx == old(self).attempt_idx,
            step matches WorkerStep::Settle(e) && e is SessionClosed,
            final(self).pending_settle == Some(old(self).settle_ctx_spec()),
            final(self).txn_id == old(self).txn_id,
    {
        self.pending_settle = Some(self.settle_ctx());
        WorkerStep::Settle(RealtimeError::SessionClosed)
    }

    /// The deadline passed during the backoff wait.
    pub fn backoff_deadline_fired(&mut self) -> (step: WorkerStep)
        requires
            old(self).wf(),
        ensures
            final(self).wf(),
            final(self).reactive_budget_started == old(self).reactive_budget_started,
            final(self).attempt_idx == old(self).attempt_idx,
            step matches WorkerStep::Settle(RealtimeError::Timeout(m)) && m@
                == "recovery deadline expired during backoff sleep"@,
            final(self).pending_settle == Some(old(self).settle_ctx_spec()),
            final(self).txn_id == old(self).txn_id,
    {
        self.pending_settle = Some(self.settle_ctx());
        WorkerStep::Settle(
            RealtimeError::Timeout(new_error("recovery deadline expired during backoff sleep")),
        )
    }
}

// ---------------------------------------------------------------------------
// Laws of the supervisor.

/// The laws every operation keeps compose, so they hold across any sequence
/// of operations: the supervisor stays well formed, its id counters never go
/// back, a terminal supervisor stays terminal, and a generation whose write
/// gate closed never admits writes again.
pub proof fn law_laws_compose(a: RecoverySupervisor, b: RecoverySupervisor, c: RecoverySupervisor)
    requires
        keeps_laws(a, b),
        keeps_laws(b, c),
    ensures
        keeps_laws(a, c),
{
    assert forall|id: u64| id < a.next_generation_id && !writable_gen(a.state, id) implies !writable_gen(
        c.state,
        id,
    ) by {
        assert(id < b.next_generation_id);
        assert(!writable_gen(b.state, id));
    }
}

/// Concurrent failure reports of one serving generation coalesce: the first
/// closes the generation's write gate and opens (or promotes) a recovery
/// transaction; the second joins that same transaction and changes nothing.
pub proof fn law_reports_coalesce(
    s0: RecoverySupervisor,
    gen: u64,
    cause1: RecoveryCause,
    now1: Instant,
    s1: RecoverySupervisor,
    r1: TxnStart,
    cause2: RecoveryCause,
    now2: Instant,
    s2: RecoverySupervisor,
    r2: TxnStart,
)
    requires
        s0.wf(),
        (s0.state matches ManagedState::Serving { active, .. } && active.id == gen),
        report_failure_effect(s0, gen, cause1, now1, s1, r1),
        report_failure_effect(s1, gen, cause2, now2, s2, r2),
    ensures
        !writable_gen(s1.state, gen),
        s2 == s1,
        (r1 matches TxnStart::Spawn { txn_id, .. } ==> r2 == (TxnStart::Join { txn_id })),
        (r1 matches TxnStart::Join { txn_id } ==> r2 == (TxnStart::Join { txn_id })),
        (r1 is Spawn || r1 is Join),
{
}

/// A report naming a generation older than the current one is stale: it

/// The generation watch moves exactly when a candidate is published:
/// applying an attempt result changes the published generation if and only
/// if the transition is `Published`, and then to the new generation
/// (`next_generation_id` before the call), which is serving and writable;
/// failed or rejected candidates never move it.
pub proof fn law_watch_moves_only_on_publication(
    pre: RecoverySupervisor,
    txn_id: u64,
    ctx: AttemptContext,
    result: Result<RecoveryContinuity, RealtimeError>,
    dispositions: (RecoveryDisposition, RecoveryDisposition),
    post: RecoverySupervisor,
    fx: AttemptEffects,
)
    requires
        pre.wf(),
        attempt_effect(pre, txn_id, ctx, result, dispositions, post, fx),
    ensures
        (post.published_generation != pre.published_generation) <==> fx.transition == AttemptTransition::Published,
        fx.transition == AttemptTransition::Published ==> {
            &&& post.published_generation == pre.next_generation_id
            &&& post.next_generation_id == pre.next_generation_id + 1
            &&& writable_gen(post.state, pre.next_generation_id)
        },
{
}

/// A planned replacement whose candidate fails, or was built under a stale
/// configuration, leaves the serving generation untouched and writable and
/// clears the planned slot, so a later failure report starts a fresh
/// recovery.
pub proof fn law_failed_planned_candidate_keeps_serving(
    pre: RecoverySupervisor,
    txn_id: u64,
    ctx: AttemptContext,
    result: Result<RecoveryContinuity, RealtimeError>,
    dispositions: (RecoveryDisposition, RecoveryDisposition),
    post: RecoverySupervisor,
    fx: AttemptEffects,
)
    requires
        attempt_effect(pre, txn_id, ctx, result, dispositions, post, fx),
        pre.state matches ManagedState::Serving { active, planned } && active.id == ctx.originating_gen_id
            && active.write_gate.open && (planned matches Some(p) && p.id == txn_id),
        result is Err || (ctx.expected_revision matches Some(rev) && rev != pre.config.revision),
    ensures
        fx.transition == AttemptTransition::KeepServing,
        post.state matches ManagedState::Serving { active, planned } && planned is None && active.id
            == ctx.originating_gen_id,
        writable_gen(post.state, ctx.originating_gen_id),
        status_of(post.state) == TransportStatus::Healthy,
        fx.outcome matches Some(Err(_)),
{
}

/// The number of steps of a run that issued an attempt.
pub open spec fn count_issued(issued: Seq<bool>) -> nat
    decreases issued.len(),
{
    if issued.len() == 0 {
        0
    } else {
        count_issued(issued.drop_last()) + if issued.last() {
            1nat
        } else {
            0nat
        }
    }
}

/// One step of a worker within a phase (the reactive budget flag and the
/// budget stay as they are): the attempt counter never goes back, and a step
/// that issued an attempt raised it by one. The worker operations' contracts
/// give this of each of their steps that keeps the flag.
pub open spec fn phase_step(a: ReplacementWorker, b: ReplacementWorker, issued: bool) -> bool {
    &&& b.reactive_budget_started == a.reactive_budget_started
    &&& b.max_attempts == a.max_attempts
    &&& b.wf()
    &&& b.attempt_idx >= a.attempt_idx
    &&& issued ==> b.attempt_idx == a.attempt_idx + 1
}

/// A run of a worker within one phase: consecutive worker states, each step
/// a `phase_step`, `issued[i]` telling whether step `i` issued an attempt.
pub open spec fn phase_run(ws: Seq<ReplacementWorker>, issued: Seq<bool>) -> bool {
    &&& ws.len() == issued.len() + 1
    &&& forall|i: int| 0 <= i < issued.len() ==> #[trigger] phase_step(ws[i], ws[i + 1], issued[i])
}

/// The attempt budget holds across a whole phase: however the steps of a
/// worker's run within one phase interleave, it issues at most
/// `max_attempts` attempts (planned phase, then a fresh budget of
/// `max_attempts` once promoted to recovery).
pub proof fn law_attempt_budget_per_phase(ws: Seq<ReplacementWorker>, issued: Seq<bool>)
    requires
        phase_run(ws, issued),
        ws[0].wf(),
    ensures
        count_issued(issued) <= ws.last().attempt_idx - ws[0].attempt_idx,
        count_issued(issued) <= ws[0].max_attempts,
        ws.last().max_attempts == ws[0].max_attempts,
        ws.last().wf(),
    decreases issued.len(),
{
    if issued.len() > 0 {
        let n = issued.len() - 1;
        let ws2 = ws.drop_last();
        let is2 = issued.drop_last();
        assert forall|i: int| 0 <= i < is2.len() implies #[trigger] phase_step(ws2[i], ws2[i + 1], is2[i]) by {
            assert(phase_step(ws[i], ws[i + 1], issued[i]));
        }
        law_attempt_budget_per_phase(ws2, is2);
        assert(phase_step(ws[n], ws[n + 1], issued[n]));
        assert(ws2.last() == ws[n]);
        assert(ws.last() == ws[n + 1]);
    }
}

/// Once the cause of a recovery is classified fatal, the transaction ends:
/// applying the failed (or unattempted) result under a fatal disposition
/// leaves the supervisor `Terminal { Exhausted }` and hands the waiters the
/// error.
pub proof fn law_fatal_cause_ends_recovery(
    pre: RecoverySupervisor,
    txn_id: u64,
    ctx: AttemptContext,
    error: RealtimeError,
    error_disposition: RecoveryDisposition,
    post: RecoverySupervisor,
    fx: AttemptEffects,
)
    requires
        attempt_effect(pre, txn_id, ctx, Err(error), (RecoveryDisposition::Fatal, error_disposition), post, fx),
        pre.state matches ManagedState::Recovering { txn, .. } && txn.id == txn_id,
    ensures
        post.state matches ManagedState::Terminal { reason, .. } && reason == TerminalReason::Exhausted,
        fx.outcome == Some(Err::<RecoveryOutcome, RealtimeError>(error)),
        status_of(post.state) == TransportStatus::Exhausted,
{
}

/// Closing is final: after `close`, whatever operations follow (each keeps
/// the supervisor's laws, which compose by `law_laws_compose`), the
/// supervisor stays closed: its status is `Closed`, no generation is
/// writable, no transaction runs (so no candidate is ever published), and
/// the generation watch stays at `CLOSED_GENERATION`.
pub proof fn law_close_is_final(closed: RecoverySupervisor, later: RecoverySupervisor)
    requires
        closed.wf(),
        closed.state == (ManagedState::Terminal { reason: TerminalReason::ExplicitClose, last_generation: None }),
        keeps_laws(closed, later),
    ensures
        later.state == closed.state,
        status_of(later.state) == TransportStatus::Closed,
        forall|id: u64| !writable_gen(later.state, id),
        current_txn_id(later.state) is None,
        later.published_generation == CLOSED_GENERATION,
{
}

/// A failure is seen through every handle of the failed generation: once the
/// serving generation is reported failed, asking through any handle of it
/// finds it not writable (and by `law_laws_compose` it never becomes
/// writable again).
pub proof fn law_failure_closes_every_handle(
    s0: RecoverySupervisor,
    h: SessionGeneration,
    cause: RecoveryCause,
    now: Instant,
    s1: RecoverySupervisor,
    r: TxnStart,
)
    requires
        report_failure_effect(s0, h.id, cause, now, s1, r),
        s0.state matches ManagedState::Serving { active, .. } && active.id == h.id,
    ensures
        !writable_gen(s1.state, h.id),
{
}

/// changes nothing and names the current generation.
pub proof fn law_stale_report_changes_nothing(
    s0: RecoverySupervisor,
    gen: u64,
    cause: RecoveryCause,
    now: Instant,
    s1: RecoverySupervisor,
    r: TxnStart,
)
    requires
        report_failure_effect(s0, gen, cause, now, s1, r),
        ((s0.state matches ManagedState::Serving { active, .. } && gen < active.id) || (s0.state matches ManagedState::Recovering { failed, .. } && gen < failed.id)),
    ensures
        s1 == s0,
        (r matches TxnStart::Done(Ok(RecoveryOutcome::Stale { generation_id })) && generation_id > gen),
{
}

/// A terminal supervisor answers every report at once and stays as it is.
pub proof fn law_terminal_absorbs_reports(
    s0: RecoverySupervisor,
    gen: u64,
    cause: RecoveryCause,
    now: Instant,
    s1: RecoverySupervisor,
    r: TxnStart,
)
    requires
        report_failure_effect(s0, gen, cause, now, s1, r),
        (s0.state is Terminal),
    ensures
        s1 == s0,
        (r is Done),
{
}

/// A planned replacement never gets longer than the policy deadline.
pub proof fn law_planned_deadline_within_policy(policy: RecoveryPolicy, cause: RecoveryCause, now: Instant)
    ensures
        planned_deadline(policy, cause, now).nanos <= sat_add(now, policy.spec_deadline()).nanos,
{
}

} // verus!
