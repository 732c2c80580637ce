//! Provider-neutral vocabulary of managed recovery.
//!
//! A recovery *episode* rebuilds a failed or retiring provider session. The
//! supervisor (see `supervisor`) owns the retry loop, the absolute deadline,
//! generation publication and replacement ordering; a provider only builds one
//! ready candidate per attempt.

use vstd::prelude::*;
use crate::error::RealtimeError;
use crate::config::RealtimeConfig;
use crate::time::{Duration, Instant, NANOS_PER_MILLI, NANOS_PER_SEC};

verus! {

/// How much provider-level logical continuity survived recovery.
#[derive(Debug, Clone, Copy, PartialEq, Eq, Structural)]
pub enum RecoveryContinuity {
    /// Provider-native logical continuity was preserved.
    Resumed,
    /// Transport reconnected with the current effective configuration; prior
    /// conversation state is not guaranteed to have survived.
    Reconnected,
}

/// Disposition of a recovery cause or attempt failure.
#[derive(Debug, Clone, Copy, PartialEq, Eq, Structural)]
pub enum RecoveryDisposition {
    /// Recovery should be attempted or retried according to the policy.
    Recoverable,
    /// Recovery is impossible or has failed in an unrecoverable way.
    Fatal,
}

/// Whether a failed managed write crossed the provider invocation boundary.
#[derive(Debug, Clone, Copy, PartialEq, Eq, Structural)]
pub enum DeliveryCertainty {
    /// The provider session was not invoked by the operation.
    NotAttempted,
    /// The provider session was invoked; acceptance is unknown.
    Indeterminate,
}

/// Reason that triggered a managed recovery episode.
#[derive(Debug)]
pub enum RecoveryCause {
    /// A read failed with the given session error.
    ReadFailed(RealtimeError),
    /// A write failed after the raw session was invoked.
    WriteFailed(RealtimeError),
    /// Unexpected end of the connection stream.
    UnexpectedEof,
    /// The provider announced a planned connection rotation, with the time it
    /// says is left, as it wrote it.
    PlannedRotation { time_left: Option<String> },
}

impl Clone for RecoveryCause {
    fn clone(&self) -> (r: Self)
        ensures
            r == *self,
    {
        match self {
            RecoveryCause::ReadFailed(e) => RecoveryCause::ReadFailed(e.clone()),
            RecoveryCause::WriteFailed(e) => RecoveryCause::WriteFailed(e.clone()),
            RecoveryCause::UnexpectedEof => RecoveryCause::UnexpectedEof,
            RecoveryCause::PlannedRotation { time_left } => RecoveryCause::PlannedRotation {
                time_left: match time_left {
                    Some(t) => Some(t.clone()),
                    None => None,
                },
            },
        }
    }
}

/// Policy for scheduling managed recovery attempts.
#[derive(Debug, Clone, Copy, PartialEq, Eq, Structural)]
pub struct RecoveryPolicy {
    max_attempts: u32,
    deadline: Duration,
    initial_delay: Duration,
    max_delay: Duration,
}

impl RecoveryPolicy {
    /// The maximum number of attempts, never zero.
    pub closed spec fn spec_max_attempts(self) -> u32 {
        self.max_attempts
    }

    pub closed spec fn spec_deadline(self) -> Duration {
        self.deadline
    }

    pub closed spec fn spec_initial_delay(self) -> Duration {
        self.initial_delay
    }

    pub closed spec fn spec_max_delay(self) -> Duration {
        self.max_delay
    }

    /// The attempt budget is at least one.
    pub closed spec fn wf(self) -> bool {
        self.max_attempts >= 1
    }

    /// The recommended realtime defaults: 3 attempts, a 5 s episode deadline,
    /// 50 ms initial delay, 500 ms maximum delay.
    pub fn new() -> (p: Self)
        ensures
            p.wf(),
            p.spec_max_attempts() == 3,
            p.spec_deadline().nanos == 5 * NANOS_PER_SEC,
            p.spec_initial_delay().nanos == 50 * NANOS_PER_MILLI,
            p.spec_max_delay().nanos == 500 * NANOS_PER_MILLI,
    {
        RecoveryPolicy {
            max_attempts: 3,
            deadline: Duration::from_secs(5),
            initial_delay: Duration::from_millis(50),
            max_delay: Duration::from_millis(500),
        }
    }

    /// The maximum number of recovery attempts per phase.
    pub fn max_attempts(&self) -> (n: u32)
        requires
            self.wf(),
        ensures
            n == self.spec_max_attempts(),
            n >= 1,
    {
        self.max_attempts
    }

    /// Set the maximum number of attempts; `None` when `max_attempts` is zero
    /// (the attempt count is a non-zero number).
    pub fn with_max_attempts(self, max_attempts: u32) -> (p: Option<Self>)
        ensures
            match p {
                Some(q) => max_attempts >= 1 && q.wf() && q.spec_max_attempts() == max_attempts
                    && q.spec_deadline() == self.spec_deadline()
                    && q.spec_initial_delay() == self.spec_initial_delay()
                    && q.spec_max_delay() == self.spec_max_delay(),
                None => max_attempts == 0,
            },
    {
        if max_attempts == 0 {
            None
        } else {
            Some(RecoveryPolicy { max_attempts, ..self })
        }
    }

    /// The maximum total duration of a recovery episode.
    pub fn deadline(&self) -> (d: Duration)
        ensures
            d == self.spec_deadline(),
    {
        self.deadline
    }

    /// Set the maximum total duration of a recovery episode.
    pub fn with_deadline(self, deadline: Duration) -> (p: Self)
        ensures
            p.spec_deadline() == deadline,
            p.spec_max_attempts() == self.spec_max_attempts(),
            p.spec_initial_delay() == self.spec_initial_delay(),
            p.spec_max_delay() == self.spec_max_delay(),
            p.wf() == self.wf(),
    {
        RecoveryPolicy { deadline, ..self }
    }

    /// The delay before the second attempt.
    pub fn initial_delay(&self) -> (d: Duration)
        ensures
            d == self.spec_initial_delay(),
    {
        self.initial_delay
    }

    /// Set the delay before the second attempt.
    pub fn with_initial_delay(self, initial_delay: Duration) -> (p: Self)
        ensures
            p.spec_initial_delay() == initial_delay,
            p.spec_max_attempts() == self.spec_max_attempts(),
            p.spec_deadline() == self.spec_deadline(),
            p.spec_max_delay() == self.spec_max_delay(),
            p.wf() == self.wf(),
    {
        RecoveryPolicy { initial_delay, ..self }
    }

    /// The largest delay between attempts.
    pub fn max_delay(&self) -> (d: Duration)
        ensures
            d == self.spec_max_delay(),
    {
        self.max_delay
    }

    /// Set the largest delay between attempts.
    pub fn with_max_delay(self, max_delay: Duration) -> (p: Self)
        ensures
            p.spec_max_delay() == max_delay,
            p.spec_max_attempts() == self.spec_max_attempts(),
            p.spec_deadline() == self.spec_deadline(),
            p.spec_initial_delay() == self.spec_initial_delay(),
            p.wf() == self.wf(),
    {
        RecoveryPolicy { max_delay, ..self }
    }
}

/// Context passed to one provider candidate attempt. `deadline` is the
/// absolute boundary inherited from the managed recovery episode.
#[derive(Debug)]
pub struct RecoveryContext<'a> {
    attempt: u32,
    cause: &'a RecoveryCause,
    config: &'a RealtimeConfig,
    deadline: Instant,
}

impl<'a> RecoveryContext<'a> {
    /// Attempt numbers start at one.
    #[verifier::type_invariant]
    spec fn inv(self) -> bool {
        self.attempt >= 1
    }

    pub closed spec fn attempt_number(self) -> u32 {
        self.attempt
    }

    pub closed spec fn the_cause(self) -> &'a RecoveryCause {
        self.cause
    }

    pub closed spec fn the_config(self) -> &'a RealtimeConfig {
        self.config
    }

    pub closed spec fn the_deadline(self) -> Instant {
        self.deadline
    }

    /// A context for attempt `attempt` (at least one).
    pub fn new(attempt: u32, cause: &'a RecoveryCause, config: &'a RealtimeConfig, deadline: Instant) -> (c: Self)
        requires
            attempt >= 1,
        ensures
            c.attempt_number() == attempt,
            c.the_cause() == cause,
            c.the_config() == config,
            c.the_deadline() == deadline,
    {
        RecoveryContext { attempt, cause, config, deadline }
    }

    /// The current attempt number (at least one).
    pub fn attempt(&self) -> (n: u32)
        ensures
            n == self.attempt_number(),
            n >= 1,
    {
        proof {
            use_type_invariant(self);
        }
        self.attempt
    }

    /// The cause of the recovery attempt.
    pub fn cause(&self) -> (c: &'a RecoveryCause)
        ensures
            c == self.the_cause(),
    {
        self.cause
    }

    /// The active configuration captured for this attempt.
    pub fn config(&self) -> (c: &'a RealtimeConfig)
        ensures
            c == self.the_config(),
    {
        self.config
    }

    /// The absolute instant by which the attempt must complete.
    pub fn deadline(&self) -> (d: Instant)
        ensures
            d == self.the_deadline(),
    {
        self.deadline
    }
}

/// A provider candidate that is ready for managed publication, with the
/// continuity it achieved.
#[derive(Debug)]
pub struct RecoveredSession<S> {
    session: S,
    continuity: RecoveryContinuity,
}

impl<S> RecoveredSession<S> {
    pub closed spec fn the_session(self) -> S {
        self.session
    }

    pub closed spec fn the_continuity(self) -> RecoveryContinuity {
        self.continuity
    }

    /// Wraps a candidate that is ready for managed traffic.
    pub fn new(session: S, continuity: RecoveryContinuity) -> (r: Self)
        ensures
            r.the_session() == session,
            r.the_continuity() == continuity,
    {
        RecoveredSession { session, continuity }
    }

    /// The recovered session.
    pub fn session(&self) -> (s: &S)
        ensures
            *s == self.the_session(),
    {
        &self.session
    }

    /// The recovery continuity.
    pub fn continuity(&self) -> (c: RecoveryContinuity)
        ensures
            c == self.the_continuity(),
    {
        self.continuity
    }
}

/// Provider-facing classification of managed recovery. Building a candidate
/// (an asynchronous connection) is the provider's own affair; the supervisor
/// owns retries, backoff and publication.
pub trait RealtimeRecovery {
    /// Whether the triggering cause is recoverable or fatal for this provider.
    fn classify(&self, cause: &RecoveryCause) -> RecoveryDisposition;

    /// Whether an error returned by an attempt is retryable; by default no
    /// attempt failure is retried.
    fn classify_attempt_error(&self, error: &RealtimeError) -> (d: RecoveryDisposition)
        default_ensures
            d == RecoveryDisposition::Fatal,
    {
        RecoveryDisposition::Fatal
    }
}

} // verus!
