//! Decision logic of the realtime runner: the resumability state machine,
//! event routing, tool-call concurrency bookkeeping, the tool-execution
//! circuit breaker, and the single follow-up response owed after tools.
//!
//! The runner's I/O (provider writes, event-handler callbacks, tool handlers)
//! is performed by the caller, which feeds the outcomes back in.

use vstd::prelude::*;
use crate::config::{RealtimeConfig, SessionUpdateConfig};
use crate::error::RealtimeError;
use crate::events::{CallerActivitySource, ClientEvent, ServerEvent, ToolCallId};
use crate::json::{member_count, object1, object3, spec_as_str, spec_get, Json};
use crate::recovery::{DeliveryCertainty, RecoveryCause};
use crate::text::{decimal_text, u64_to_decimal};
use crate::supervisor::RecoveryOutcome;

verus! {

/// Resumability status of the runner.
#[derive(Debug)]
pub enum RunnerState {
    /// Ready to accept transport resumption immediately.
    Idle,
    /// The model is generating a response.
    Generating,
    /// A tool is executing.
    ExecutingTool,
    /// A context mutation queued while busy (last write wins).
    PendingResumption { config: Box<RealtimeConfig>, bridge_message: Option<String>, attempts: u8 },
}

/// Configuration of the runner.
#[derive(Debug, Clone, Copy, PartialEq, Eq, Structural)]
pub struct RunnerConfig {
    /// Whether to automatically execute tool calls.
    pub auto_execute_tools: bool,
    /// Whether to automatically send tool responses.
    pub auto_respond_tools: bool,
    /// Maximum concurrent tool executions.
    pub max_concurrent_tools: usize,
    /// Consecutive tool failures that trip the circuit breaker.
    pub max_consecutive_tool_failures: usize,
}

impl Default for RunnerConfig {
    /// Execute and answer tools automatically, four at a time, tripping after
    /// three consecutive failures.
    fn default() -> (c: Self)
        ensures
            c == (RunnerConfig {
                auto_execute_tools: true,
                auto_respond_tools: true,
                max_concurrent_tools: 4,
                max_consecutive_tool_failures: 3,
            }),
    {
        RunnerConfig {
            auto_execute_tools: true,
            auto_respond_tools: true,
            max_concurrent_tools: 4,
            max_consecutive_tool_failures: 3,
        }
    }
}

/// The number of tool permits: the configured bound, at least one.
pub fn tool_permits(config: &RunnerConfig) -> (n: usize)
    ensures
        n == if config.max_concurrent_tools >= 1 { config.max_concurrent_tools } else { 1 },
{
    if config.max_concurrent_tools >= 1 {
        config.max_concurrent_tools
    } else {
        1
    }
}

/// The caller-activity evidence a server event carries.
pub open spec fn spec_caller_activity(e: ServerEvent) -> Option<CallerActivitySource> {
    match e {
        ServerEvent::InputTranscriptDelta { .. } => Some(CallerActivitySource::TranscriptDelta),
        ServerEvent::InputTranscriptCompleted { .. } => Some(CallerActivitySource::TranscriptCompleted),
        ServerEvent::SpeechStopped { .. } => Some(CallerActivitySource::SpeechStopped),
        _ => None,
    }
}

/// Map a server event to the caller-activity evidence it carries.
pub fn caller_activity_source(event: &ServerEvent) -> (r: Option<CallerActivitySource>)
    ensures
        r == spec_caller_activity(*event),
{
    match event {
        ServerEvent::InputTranscriptDelta { .. } => Some(CallerActivitySource::TranscriptDelta),
        ServerEvent::InputTranscriptCompleted { .. } => Some(CallerActivitySource::TranscriptCompleted),
        ServerEvent::SpeechStopped { .. } => Some(CallerActivitySource::SpeechStopped),
        _ => None,
    }
}

/// The event-handler callback a server event is routed to.
#[derive(Debug)]
pub enum Route {
    Audio,
    Text,
    Transcript,
    InputTranscriptCompleted,
    SpeechStarted,
    SpeechStopped,
    ToolCallsCancelled,
    /// Start a planned replacement of the originating generation (or the
    /// active one when unknown) and notify the handler.
    PlannedRotation,
    /// The response was cancelled; tool bookkeeping was reset.
    ResponseCancelled,
    /// Notify the handler, then `respond_after_tools`, then
    /// `take_queued_resumption`.
    ResponseDone,
    /// Dispatch this tool call.
    DispatchTool,
    /// Report this server error to the handler.
    ServerError(RealtimeError),
    /// Nothing to do.
    Ignore,
}

/// The routing a server event gets.
pub open spec fn spec_route_kind(e: ServerEvent, auto_execute: bool) -> int {
    match e {
        ServerEvent::AudioDelta { .. } => 1,
        ServerEvent::TextDelta { .. } => 2,
        ServerEvent::TranscriptDelta { .. } => 3,
        ServerEvent::InputTranscriptCompleted { .. } => 4,
        ServerEvent::SpeechStarted { .. } => 5,
        ServerEvent::SpeechStopped { .. } => 6,
        ServerEvent::ToolCallCancelled { .. } => 7,
        ServerEvent::PlannedRotation { .. } => 8,
        ServerEvent::ResponseCancelled { .. } => 9,
        ServerEvent::ResponseDone { .. } => 10,
        ServerEvent::FunctionCallDone { .. } => if auto_execute { 11 } else { 13 },
        ServerEvent::Error { .. } => 12,
        _ => 13,
    }
}

pub open spec fn route_kind(r: Route) -> int {
    match r {
        Route::Audio => 1,
        Route::Text => 2,
        Route::Transcript => 3,
        Route::InputTranscriptCompleted => 4,
        Route::SpeechStarted => 5,
        Route::SpeechStopped => 6,
        Route::ToolCallsCancelled => 7,
        Route::PlannedRotation => 8,
        Route::ResponseCancelled => 9,
        Route::ResponseDone => 10,
        Route::DispatchTool => 11,
        Route::ServerError(_) => 12,
        Route::Ignore => 13,
    }
}

/// Each kind of server event reaches its own callback: a route whose kind is
/// the one `route_event` promises for an event is that event's route. Audio,
/// text and transcript deltas go to three different callbacks; a completed
/// tool call is dispatched only when tools run automatically; an error goes
/// to the error callback.
pub proof fn law_each_event_has_its_route(r: Route, e: ServerEvent, auto_execute: bool)
    requires
        route_kind(r) == spec_route_kind(e, auto_execute),
    ensures
        e is AudioDelta ==> r is Audio,
        e is TextDelta ==> r is Text,
        e is TranscriptDelta ==> r is Transcript,
        e is InputTranscriptCompleted ==> r is InputTranscriptCompleted,
        e is SpeechStarted ==> r is SpeechStarted,
        e is SpeechStopped ==> r is SpeechStopped,
        e is ToolCallCancelled ==> r is ToolCallsCancelled,
        e is PlannedRotation ==> r is PlannedRotation,
        e is ResponseCancelled ==> r is ResponseCancelled,
        e is ResponseDone ==> r is ResponseDone,
        e is FunctionCallDone ==> (if auto_execute { r is DispatchTool } else { r is Ignore }),
        e is Error ==> r is ServerError,
{
}

/// The state after a response starts, a tool call completes, or a response
/// is cancelled.
pub open spec fn state_after_event(s: RunnerState, e: ServerEvent) -> RunnerState {
    match e {
        ServerEvent::ResponseCreated { .. } => if s is Idle { RunnerState::Generating } else { s },
        ServerEvent::FunctionCallDone { .. } => if s is Idle || s is Generating {
            RunnerState::ExecutingTool
        } else {
            s
        },
        ServerEvent::ResponseCancelled { .. } => if s is Generating { RunnerState::Idle } else { s },
        _ => s,
    }
}

/// The value a tool-call output carries back to the model.
pub enum ToolStart {
    /// Run the registered handler.
    Run,
    /// Answer with this output without running anything.
    Answer(Json),
}

/// What to do after a turn when tool work may be owed a follow-up response.
#[derive(Debug, Clone, Copy, PartialEq, Eq, Structural)]
pub enum FollowUp {
    /// Ask the model for exactly one follow-up response.
    CreateResponse,
    /// Nothing is owed (or it waits for outstanding tools, or an output
    /// failed to deliver and the follow-up is suppressed).
    Nothing,
}

/// A resumption to execute now.
#[derive(Debug)]
pub struct QueuedResumption {
    pub config: Box<RealtimeConfig>,
    pub bridge_message: Option<String>,
    pub attempts: u8,
}

/// The runner's decision state.
#[derive(Debug)]
pub struct RunnerCore {
    pub config: RunnerConfig,
    pub state: RunnerState,
    /// A tool output was delivered this turn and is owed a follow-up response.
    pub pending_tool_response: bool,
    /// A tool output failed to deliver this turn.
    pub tool_output_failed: bool,
    /// Tool calls dispatched and not yet finished.
    pub outstanding_tools: usize,
    /// The response closed while tools were still running.
    pub response_closed_awaiting_tools: bool,
    pub consecutive_tool_failures: usize,
    pub circuit_breaker_tripped: bool,
}

/// Resumption attempts after which a queued mutation is dropped.
pub const MAX_RESUMPTION_ATTEMPTS: u8 = 3;

/// What deciding the follow-up response does (see `respond_after_tools`).
pub open spec fn respond_effect(pre: RunnerCore, post: RunnerCore, r: FollowUp) -> bool {
    &&& pre.outstanding_tools > 0 ==> {
        &&& r == FollowUp::Nothing
        &&& post.response_closed_awaiting_tools
        &&& post.pending_tool_response == pre.pending_tool_response
        &&& post.tool_output_failed == pre.tool_output_failed
    }
    &&& pre.outstanding_tools == 0 ==> {
        &&& r == (if !pre.tool_output_failed && pre.pending_tool_response {
            FollowUp::CreateResponse
        } else {
            FollowUp::Nothing
        })
        &&& !post.pending_tool_response
        &&& !post.tool_output_failed
        &&& post.response_closed_awaiting_tools == pre.response_closed_awaiting_tools
    }
    &&& post.state == pre.state
    &&& post.outstanding_tools == pre.outstanding_tools
    &&& post.consecutive_tool_failures == pre.consecutive_tool_failures
    &&& post.circuit_breaker_tripped == pre.circuit_breaker_tripped
    &&& post.config == pre.config
}

/// Where a client event sent through the runner goes.
#[derive(Debug)]
pub enum ClientSend {
    /// An update intent: merged into the configuration as a session update.
    Update(SessionUpdateConfig),
    /// Anything else: written to the active session.
    Write(ClientEvent),
}

/// Route a client event: an `UpdateSession` intent becomes a session update
/// carrying only its instruction and tools; every other event is written.
pub fn route_client_event(event: ClientEvent) -> (r: ClientSend)
    ensures
        match event {
            ClientEvent::UpdateSession { instructions, tools } => r matches ClientSend::Update(u)
                && u.0.instruction == instructions && u.0.tools == tools && (RealtimeConfig {
                instruction: None,
                tools: None,
                ..u.0
            }).is_empty(),
            other => r == ClientSend::Write(other),
        },
{
    match event {
        ClientEvent::UpdateSession { instructions, tools } => {
            let base = RealtimeConfig::default();
            ClientSend::Update(SessionUpdateConfig(RealtimeConfig { instruction: instructions, tools, ..base }))
        },
        other => ClientSend::Write(other),
    }
}

/// The event handler a runner uses when the application installs none: every
/// callback does nothing.
#[derive(Debug, Clone, Copy, Default)]
pub struct NoOpEventHandler;

/// A tool output is answered by at most one follow-up response: once the
/// decision is taken, deciding again (with no new output delivered) yields
/// nothing.
pub proof fn law_follow_up_at_most_once(a: RunnerCore, b: RunnerCore, c: RunnerCore, r1: FollowUp, r2: FollowUp)
    requires
        respond_effect(a, b, r1),
        respond_effect(b, c, r2),
        a.outstanding_tools == 0,
    ensures
        r2 == FollowUp::Nothing,
{
}

impl RunnerCore {
    /// A fresh runner: idle, nothing owed, breaker closed.
    pub fn new(config: RunnerConfig) -> (c: Self)
        ensures
            c.config == config,
            c.state is Idle,
            !c.pending_tool_response,
            !c.tool_output_failed,
            c.outstanding_tools == 0,
            !c.response_closed_awaiting_tools,
            c.consecutive_tool_failures == 0,
            !c.circuit_breaker_tripped,
    {
        RunnerCore {
            config,
            state: RunnerState::Idle,
            pending_tool_response: false,
            tool_output_failed: false,
            outstanding_tools: 0,
            response_closed_awaiting_tools: false,
            consecutive_tool_failures: 0,
            circuit_breaker_tripped: false,
        }
    }

    /// On (re)connection the circuit breaker resets.
    pub fn reset_circuit_breaker(&mut self)
        ensures
            final(self).consecutive_tool_failures == 0,
            !final(self).circuit_breaker_tripped,
            final(self).state == old(self).state,
            final(self).pending_tool_response == old(self).pending_tool_response,
            final(self).tool_output_failed == old(self).tool_output_failed,
            final(self).outstanding_tools == old(self).outstanding_tools,
            final(self).response_closed_awaiting_tools == old(self).response_closed_awaiting_tools,
            final(self).config == old(self).config,
    {
        self.consecutive_tool_failures = 0;
        self.circuit_breaker_tripped = false;
    }

    /// Route one server event: update the resumability state and the tool
    /// bookkeeping, and say which callback handles it.
    pub fn route_event(&mut self, event: &ServerEvent) -> (r: Route)
        ensures
            final(self).state == state_after_event(old(self).state, *event),
            route_kind(r) == spec_route_kind(*event, old(self).config.auto_execute_tools),
            (r matches Route::ServerError(err) ==> (*event matches ServerEvent::Error { error, .. }
                && err matches RealtimeError::ServerError { code, message } && message == error.message
                && code@ == match error.code {
                Some(c) => c@,
                None => Seq::empty(),
            })),
            if *event is ResponseCancelled {
                &&& !final(self).pending_tool_response
                &&& !final(self).tool_output_failed
                &&& !final(self).response_closed_awaiting_tools
            } else {
                &&& final(self).pending_tool_response == old(self).pending_tool_response
                &&& final(self).tool_output_failed == old(self).tool_output_failed
                &&& final(self).response_closed_awaiting_tools == old(self).response_closed_awaiting_tools
            },
            final(self).outstanding_tools == old(self).outstanding_tools,
            final(self).consecutive_tool_failures == old(self).consecutive_tool_failures,
            final(self).circuit_breaker_tripped == old(self).circuit_breaker_tripped,
            final(self).config == old(self).config,
    {
        let s = std_take_state(&mut self.state);
        self.state = match (s, event) {
            (RunnerState::Idle, ServerEvent::ResponseCreated { .. }) => RunnerState::Generating,
            (RunnerState::Idle, ServerEvent::FunctionCallDone { .. }) => RunnerState::ExecutingTool,
            (RunnerState::Generating, ServerEvent::FunctionCallDone { .. }) => RunnerState::ExecutingTool,
            (RunnerState::Generating, ServerEvent::ResponseCancelled { .. }) => RunnerState::Idle,
            (other, _) => other,
        };
        match event {
            ServerEvent::AudioDelta { .. } => Route::Audio,
            ServerEvent::TextDelta { .. } => Route::Text,
            ServerEvent::TranscriptDelta { .. } => Route::Transcript,
            ServerEvent::InputTranscriptCompleted { .. } => Route::InputTranscriptCompleted,
            ServerEvent::SpeechStarted { .. } => Route::SpeechStarted,
            ServerEvent::SpeechStopped { .. } => Route::SpeechStopped,
            ServerEvent::ToolCallCancelled { .. } => Route::ToolCallsCancelled,
            ServerEvent::PlannedRotation { .. } => Route::PlannedRotation,
            ServerEvent::ResponseCancelled { .. } => {
                self.pending_tool_response = false;
                self.tool_output_failed = false;
                self.response_closed_awaiting_tools = false;
                Route::ResponseCancelled
            },
            ServerEvent::ResponseDone { .. } => Route::ResponseDone,
            ServerEvent::FunctionCallDone { .. } => {
                if self.config.auto_execute_tools {
                    Route::DispatchTool
                } else {
                    Route::Ignore
                }
            },
            ServerEvent::Error { error, .. } => {
                let code = match &error.code {
                    Some(c) => c.clone(),
                    None => String::new(),
                };
                Route::ServerError(RealtimeError::server(code, error.message.clone()))
            },
            _ => Route::Ignore,
        }
    }

    /// A dispatched tool call enters the bound.
    pub fn tool_dispatched(&mut self)
        requires
            old(self).outstanding_tools < usize::MAX,
        ensures
            final(self).outstanding_tools == old(self).outstanding_tools + 1,
            final(self).pending_tool_response == old(self).pending_tool_response,
            final(self).tool_output_failed == old(self).tool_output_failed,
            final(self).response_closed_awaiting_tools == old(self).response_closed_awaiting_tools,
            final(self).state == old(self).state,
            final(self).consecutive_tool_failures == old(self).consecutive_tool_failures,
            final(self).circuit_breaker_tripped == old(self).circuit_breaker_tripped,
            final(self).config == old(self).config,
    {
        self.outstanding_tools = self.outstanding_tools + 1;
    }

    /// A tool call is about to run: answered at once with a rejection while
    /// the circuit breaker is open, with an error for an unknown tool, and
    /// otherwise run.
    pub fn begin_tool_call(&self, tool_name: &str, tool_registered: bool) -> (r: ToolStart)
        ensures
            self.circuit_breaker_tripped ==> (r matches ToolStart::Answer(out) && rejection_shape(
                out,
                "circuit_breaker_open"@,
            )),
            !self.circuit_breaker_tripped && !tool_registered ==> (r matches ToolStart::Answer(out)
                && member_count(out) == 1 && spec_as_str(spec_get(out, "error"@)) == Some(
                "Unknown tool: "@ + tool_name@,
            )),
            !self.circuit_breaker_tripped && tool_registered ==> r is Run,
    {
        proof {
            reveal_strlit("circuit_breaker_open");
        }
        if self.circuit_breaker_tripped {
            return ToolStart::Answer(rejection(String::from_str("circuit_breaker_open")));
        }
        if !tool_registered {
            let mut msg = String::from_str("Unknown tool: ");
            msg.append(tool_name);
            return ToolStart::Answer(object1("error", Json::Str(msg)));
        }
        ToolStart::Run
    }

    /// The tool handler returned a value: the failure streak resets.
    pub fn tool_succeeded(&mut self)
        ensures
            final(self).consecutive_tool_failures == 0,
            final(self).circuit_breaker_tripped == old(self).circuit_breaker_tripped,
            final(self).state == old(self).state,
            final(self).pending_tool_response == old(self).pending_tool_response,
            final(self).tool_output_failed == old(self).tool_output_failed,
            final(self).outstanding_tools == old(self).outstanding_tools,
            final(self).response_closed_awaiting_tools == old(self).response_closed_awaiting_tools,
            final(self).config == old(self).config,
    {
        self.consecutive_tool_failures = 0;
    }

    /// The tool handler failed with message `error`. Returns the output to
    /// send, and whether this failure tripped the breaker (which the handler
    /// must hear of once).
    pub fn tool_failed(&mut self, error: String) -> (r: (Json, bool))
        requires
            old(self).consecutive_tool_failures < usize::MAX,
        ensures
            final(self).consecutive_tool_failures == old(self).consecutive_tool_failures + 1,
            final(self).consecutive_tool_failures >= old(self).config.max_consecutive_tool_failures ==> {
                &&& final(self).circuit_breaker_tripped
                &&& r.1 == !old(self).circuit_breaker_tripped
                &&& rejection_shape(r.0, "circuit_breaker_tripped: "@ + error@)
            },
            final(self).consecutive_tool_failures < old(self).config.max_consecutive_tool_failures ==> {
                &&& final(self).circuit_breaker_tripped == old(self).circuit_breaker_tripped
                &&& !r.1
                &&& member_count(r.0) == 1 && spec_as_str(spec_get(r.0, "error"@)) == Some(error@)
            },
            final(self).state == old(self).state,
            final(self).pending_tool_response == old(self).pending_tool_response,
            final(self).tool_output_failed == old(self).tool_output_failed,
            final(self).outstanding_tools == old(self).outstanding_tools,
            final(self).response_closed_awaiting_tools == old(self).response_closed_awaiting_tools,
            final(self).config == old(self).config,
    {
        let failures = self.consecutive_tool_failures + 1;
        self.consecutive_tool_failures = failures;
        if failures >= self.config.max_consecutive_tool_failures {
            let newly = !self.circuit_breaker_tripped;
            self.circuit_breaker_tripped = true;
            let mut msg = String::from_str("circuit_breaker_tripped: ");
            msg.append(error.as_str());
            (rejection(msg), newly)
        } else {
            (object1("error", Json::Str(error)), false)
        }
    }

    /// The outcome of sending a tool output (only when tools are answered
    /// automatically): a failure marks the turn so that no follow-up response
    /// is created; a success makes a follow-up response owed.
    pub fn tool_output_sent(&mut self, delivered: bool)
        ensures
            delivered ==> final(self).pending_tool_response && final(self).tool_output_failed
                == old(self).tool_output_failed,
            !delivered ==> final(self).tool_output_failed && final(self).pending_tool_response
                == old(self).pending_tool_response,
            final(self).state == old(self).state,
            final(self).outstanding_tools == old(self).outstanding_tools,
            final(self).response_closed_awaiting_tools == old(self).response_closed_awaiting_tools,
            final(self).consecutive_tool_failures == old(self).consecutive_tool_failures,
            final(self).circuit_breaker_tripped == old(self).circuit_breaker_tripped,
            final(self).config == old(self).config,
    {
        if delivered {
            self.pending_tool_response = true;
        } else {
            self.tool_output_failed = true;
        }
    }

    /// Whether the follow-up response is owed now, and clear what it settles.
    ///
    /// With tools still running, the follow-up waits for the last one. A
    /// failed output delivery suppresses it (and the pending flag). Otherwise a
    /// pending tool output yields exactly one `CreateResponse`.
    pub fn respond_after_tools(&mut self) -> (r: FollowUp)
        ensures
            respond_effect(*old(self), *final(self), r),
    {
        if self.outstanding_tools > 0 {
            self.response_closed_awaiting_tools = true;
            return FollowUp::Nothing;
        }
        if self.tool_output_failed {
            self.tool_output_failed = false;
            self.pending_tool_response = false;
            return FollowUp::Nothing;
        }
        if self.pending_tool_response {
            self.pending_tool_response = false;
            return FollowUp::CreateResponse;
        }
        FollowUp::Nothing
    }

    /// A dispatched tool call finished. When it was the last one and the
    /// response had already closed, the follow-up decision is taken now.
    pub fn tool_finished(&mut self) -> (r: FollowUp)
        requires
            old(self).outstanding_tools > 0,
        ensures
            final(self).outstanding_tools == old(self).outstanding_tools - 1,
            (final(self).outstanding_tools > 0 || !old(self).response_closed_awaiting_tools) ==> r
                == FollowUp::Nothing && final(self).pending_tool_response == old(self).pending_tool_response
                && final(self).tool_output_failed == old(self).tool_output_failed
                && final(self).response_closed_awaiting_tools == old(self).response_closed_awaiting_tools,
            (final(self).outstanding_tools == 0 && old(self).response_closed_awaiting_tools) ==> {
                &&& r == (if !old(self).tool_output_failed && old(self).pending_tool_response {
                    FollowUp::CreateResponse
                } else {
                    FollowUp::Nothing
                })
                &&& !final(self).pending_tool_response
                &&& !final(self).tool_output_failed
                &&& !final(self).response_closed_awaiting_tools
            },
            final(self).state == old(self).state,
            final(self).consecutive_tool_failures == old(self).consecutive_tool_failures,
            final(self).circuit_breaker_tripped == old(self).circuit_breaker_tripped,
            final(self).config == old(self).config,
    {
        self.outstanding_tools = self.outstanding_tools - 1;
        if self.outstanding_tools == 0 && self.response_closed_awaiting_tools {
            self.response_closed_awaiting_tools = false;
            return self.respond_after_tools();
        }
        FollowUp::Nothing
    }

    /// At the end of a turn: the runner returns to idle, handing out any
    /// queued resumption to execute now.
    pub fn take_queued_resumption(&mut self) -> (r: Option<QueuedResumption>)
        ensures
            final(self).state is Idle,
            match old(self).state {
                RunnerState::PendingResumption { config, bridge_message, attempts } => r matches Some(q)
                    && q.config == config && q.bridge_message == bridge_message && q.attempts == attempts,
                _ => r is None,
            },
            final(self).pending_tool_response == old(self).pending_tool_response,
            final(self).tool_output_failed == old(self).tool_output_failed,
            final(self).outstanding_tools == old(self).outstanding_tools,
            final(self).response_closed_awaiting_tools == old(self).response_closed_awaiting_tools,
            final(self).consecutive_tool_failures == old(self).consecutive_tool_failures,
            final(self).circuit_breaker_tripped == old(self).circuit_breaker_tripped,
            final(self).config == old(self).config,
    {
        let s = std_take_state(&mut self.state);
        match s {
            RunnerState::PendingResumption { config, bridge_message, attempts } => Some(
                QueuedResumption { config, bridge_message, attempts },
            ),
            _ => None,
        }
    }

    /// A queued resumption failed. A newer queued intent is kept; otherwise
    /// the failed one is queued again with one more attempt, unless that
    /// reaches the attempt limit, when it is dropped.
    pub fn queued_resumption_failed(&mut self, q: QueuedResumption)
        ensures
            old(self).state is PendingResumption ==> final(self).state == old(self).state,
            !(old(self).state is PendingResumption) && q.attempts + 1 >= MAX_RESUMPTION_ATTEMPTS
                ==> final(self).state == old(self).state,
            !(old(self).state is PendingResumption) && q.attempts + 1 < MAX_RESUMPTION_ATTEMPTS
                ==> (final(self).state matches RunnerState::PendingResumption {
                config,
                bridge_message,
                attempts,
            } && config == q.config && bridge_message == q.bridge_message && attempts == q.attempts + 1),
            final(self).pending_tool_response == old(self).pending_tool_response,
            final(self).tool_output_failed == old(self).tool_output_failed,
            final(self).outstanding_tools == old(self).outstanding_tools,
            final(self).response_closed_awaiting_tools == old(self).response_closed_awaiting_tools,
            final(self).consecutive_tool_failures == old(self).consecutive_tool_failures,
            final(self).circuit_breaker_tripped == old(self).circuit_breaker_tripped,
            final(self).config == old(self).config,
    {
        match &self.state {
            RunnerState::PendingResumption { .. } => {},
            _ => {
                if q.attempts < MAX_RESUMPTION_ATTEMPTS - 1 {
                    self.state = RunnerState::PendingResumption {
                        config: q.config,
                        bridge_message: q.bridge_message,
                        attempts: q.attempts + 1,
                    };
                }
            },
        }
    }

    /// A context mutation needs a resumption. When idle it is executed now
    /// (returned); when busy it is queued, replacing any older queued one.
    pub fn request_resumption(&mut self, config: Box<RealtimeConfig>, bridge_message: Option<String>) -> (r:
        Option<QueuedResumption>)
        ensures
            old(self).state is Idle ==> final(self).state is Idle && (r matches Some(q) && q.config == config
                && q.bridge_message == bridge_message && q.attempts == 0),
            !(old(self).state is Idle) ==> r is None && final(self).state
                == (RunnerState::PendingResumption { config, bridge_message, attempts: 0 }),
            final(self).pending_tool_response == old(self).pending_tool_response,
            final(self).tool_output_failed == old(self).tool_output_failed,
            final(self).outstanding_tools == old(self).outstanding_tools,
            final(self).response_closed_awaiting_tools == old(self).response_closed_awaiting_tools,
            final(self).consecutive_tool_failures == old(self).consecutive_tool_failures,
            final(self).circuit_breaker_tripped == old(self).circuit_breaker_tripped,
            final(self).config == old(self).config,
    {
        match &self.state {
            RunnerState::Idle => Some(QueuedResumption { config, bridge_message, attempts: 0 }),
            _ => {
                self.state = RunnerState::PendingResumption { config, bridge_message, attempts: 0 };
                None
            },
        }
    }

    /// An immediate resumption failed: it is queued for retry (one attempt
    /// used) unless a newer intent was queued meanwhile.
    pub fn immediate_resumption_failed(&mut self, q: QueuedResumption)
        ensures
            old(self).state is PendingResumption ==> final(self).state == old(self).state,
            !(old(self).state is PendingResumption) ==> final(self).state
                == (RunnerState::PendingResumption {
                config: q.config,
                bridge_message: q.bridge_message,
                attempts: 1,
            }),
            final(self).pending_tool_response == old(self).pending_tool_response,
            final(self).tool_output_failed == old(self).tool_output_failed,
            final(self).outstanding_tools == old(self).outstanding_tools,
            final(self).response_closed_awaiting_tools == old(self).response_closed_awaiting_tools,
            final(self).consecutive_tool_failures == old(self).consecutive_tool_failures,
            final(self).circuit_breaker_tripped == old(self).circuit_breaker_tripped,
            final(self).config == old(self).config,
    {
        match &self.state {
            RunnerState::PendingResumption { .. } => {},
            _ => {
                self.state = RunnerState::PendingResumption {
                    config: q.config,
                    bridge_message: q.bridge_message,
                    attempts: 1,
                };
            },
        }
    }
}

/// The error the event handler hears of when `failures` consecutive tool
/// failures, the last with message `error`, trip the circuit breaker.
pub fn breaker_tripped_error(failures: usize, error: &str) -> (e: RealtimeError)
    ensures
        e matches RealtimeError::ProviderError(m) && m@ == "Tool execution circuit breaker tripped after "@
            + decimal_text(failures as nat) + " consecutive failures: "@ + error@,
{
    let mut m = String::from_str("Tool execution circuit breaker tripped after ");
    m.append(u64_to_decimal(failures as u64).as_str());
    m.append(" consecutive failures: ");
    m.append(error);
    RealtimeError::provider(m)
}

/// The rejection output `{"status": "rejected", "reason": "tool_unavailable",
/// "error": <error>}`.
pub open spec fn rejection_shape(out: Json, error: Seq<char>) -> bool {
    &&& member_count(out) == 3
    &&& spec_as_str(spec_get(out, "status"@)) == Some("rejected"@)
    &&& spec_as_str(spec_get(out, "reason"@)) == Some("tool_unavailable"@)
    &&& spec_as_str(spec_get(out, "error"@)) == Some(error)
}

fn rejection(error: String) -> (out: Json)
    ensures
        rejection_shape(out, error@),
{
    proof {
        reveal_strlit("status");
        reveal_strlit("reason");
        reveal_strlit("error");
        reveal_strlit("rejected");
        reveal_strlit("tool_unavailable");
        assert("status"@.len() == 6);
        assert("reason"@.len() == 6);
        assert("status"@[0] != "reason"@[0]);
        assert("status"@ != "reason"@);
        assert("error"@.len() == 5);
    }
    object3(
        "status",
        Json::Str(String::from_str("rejected")),
        "reason",
        Json::Str(String::from_str("tool_unavailable")),
        "error",
        Json::Str(error),
    )
}

fn std_take_state(slot: &mut RunnerState) -> (prev: RunnerState)
    ensures
        prev == *old(slot),
        *final(slot) is Idle,
{
    let mut tmp = RunnerState::Idle;
    std::mem::swap(&mut tmp, slot);
    tmp
}

/// The error a managed write reports: a rejection before the provider was
/// invoked is `NotAttempted`; a failure after invocation is `Indeterminate`.
pub fn write_failure(error: RealtimeError, provider_invoked: bool) -> (e: RealtimeError)
    ensures
        e == (RealtimeError::WriteFailed {
            error: Box::new(error),
            certainty: if provider_invoked {
                DeliveryCertainty::Indeterminate
            } else {
                DeliveryCertainty::NotAttempted
            },
        }),
{
    let certainty = if provider_invoked {
        DeliveryCertainty::Indeterminate
    } else {
        DeliveryCertainty::NotAttempted
    };
    RealtimeError::write_failed(error, certainty)
}

/// Whether a reported read failure was absorbed (a newer generation was
/// published or the report was stale), so the reader should carry on.
pub fn read_failure_absorbed(outcome: &Result<RecoveryOutcome, RealtimeError>) -> (b: bool)
    ensures
        b == (outcome matches Ok(o) && (o is Recovered || o is Stale)),
{
    match outcome {
        Ok(RecoveryOutcome::Recovered { .. }) | Ok(RecoveryOutcome::Stale { .. }) => true,
        _ => false,
    }
}


/// How a read of the active generation ended, when it ended without an event.
#[derive(Debug)]
pub enum ReadEnd {
    /// The read failed with this error.
    Error(RealtimeError),
    /// The stream of the generation ended.
    EndOfStream,
}

/// What the run loop observed.
#[derive(Debug)]
pub enum LoopEvent {
    /// The run was cancelled.
    Cancelled,
    /// No generation could be read from: the supervisor answered with this error.
    NoGeneration(RealtimeError),
    /// The active generation yielded an event.
    Event(ServerEvent),
    /// Reading the active generation failed.
    ReadError(RealtimeError),
    /// The active generation's stream ended; `watch_moved` when a newer
    /// generation was meanwhile published.
    EndOfStream { watch_moved: bool },
    /// The supervisor answered the failure report made after `after`.
    ReportOutcome { outcome: Result<RecoveryOutcome, RealtimeError>, after: ReadEnd },
    /// A running tool call finished with `result`; `connected` is whether the
    /// supervisor is still connected.
    ToolFinished { result: Result<(), RealtimeError>, connected: bool },
}

/// What the run loop does next.
#[derive(Debug)]
pub enum LoopAction {
    /// Close the runner, tell the handler of the disconnect, and end the run.
    CloseAndDisconnect,
    /// Tell the handler of the disconnect and end the run.
    Disconnect,
    /// End the run with this error.
    ReturnError(RealtimeError),
    /// Tell the handler of this error, then end the run with it.
    ReportErrorAndReturn(RealtimeError),
    /// Read the next item.
    Continue,
    /// Deliver this event (see `RunnerCore::route_event`).
    Deliver(ServerEvent),
    /// Report the generation's failure with this cause, then hand the answer
    /// back as `ReportOutcome`.
    ReportFailure(RecoveryCause),
    /// Wait for the running tool calls to finish (each as `ToolFinished`),
    /// then look at the end of the stream again.
    DrainTools,
    /// Tell the handler of this tool error and carry on.
    ReportToolError(RealtimeError),
}

/// The run loop's decision for `ev` with `tools_running` tool calls still
/// running. Only a cancellation, a closed or unconnected supervisor, or an end
/// of stream that recovery could not absorb disconnects; a read failure or an
/// end of stream is first reported for recovery, and the loop carries on when
/// the report is absorbed.
pub open spec fn loop_step(tools_running: bool, ev: LoopEvent) -> LoopAction {
    match ev {
        LoopEvent::Cancelled => LoopAction::CloseAndDisconnect,
        LoopEvent::NoGeneration(e) => if e is SessionClosed || e is NotConnected {
            LoopAction::Disconnect
        } else {
            LoopAction::ReturnError(e)
        },
        LoopEvent::Event(e) => LoopAction::Deliver(e),
        LoopEvent::ReadError(e) => LoopAction::ReportFailure(RecoveryCause::ReadFailed(e)),
        LoopEvent::EndOfStream { watch_moved } => if watch_moved {
            LoopAction::Continue
        } else if tools_running {
            LoopAction::DrainTools
        } else {
            LoopAction::ReportFailure(RecoveryCause::UnexpectedEof)
        },
        LoopEvent::ReportOutcome { outcome, after } => if outcome matches Ok(o) && (o is Recovered || o is Stale) {
            LoopAction::Continue
        } else {
            match after {
                ReadEnd::EndOfStream => LoopAction::Disconnect,
                ReadEnd::Error(e) => LoopAction::ReportErrorAndReturn(e),
            }
        },
        LoopEvent::ToolFinished { result, connected } => match result {
            Ok(_) => LoopAction::Continue,
            Err(e) => if connected {
                LoopAction::ReportToolError(e)
            } else {
                LoopAction::ReportErrorAndReturn(e)
            },
        },
    }
}

/// Whether an action tells the handler of a disconnect.
pub open spec fn disconnects(a: LoopAction) -> bool {
    a is CloseAndDisconnect || a is Disconnect
}

/// One step of the runner's event loop: what to do with what was observed.
pub fn run_loop_step(core: &RunnerCore, ev: LoopEvent) -> (a: LoopAction)
    ensures
        a == loop_step(core.outstanding_tools > 0, ev),
{
    match ev {
        LoopEvent::Cancelled => LoopAction::CloseAndDisconnect,
        LoopEvent::NoGeneration(e) => match e {
            RealtimeError::SessionClosed | RealtimeError::NotConnected => LoopAction::Disconnect,
            other => LoopAction::ReturnError(other),
        },
        LoopEvent::Event(e) => LoopAction::Deliver(e),
        LoopEvent::ReadError(e) => LoopAction::ReportFailure(RecoveryCause::ReadFailed(e)),
        LoopEvent::EndOfStream { watch_moved } => {
            if watch_moved {
                LoopAction::Continue
            } else if core.outstanding_tools > 0 {
                LoopAction::DrainTools
            } else {
                LoopAction::ReportFailure(RecoveryCause::UnexpectedEof)
            }
        },
        LoopEvent::ReportOutcome { outcome, after } => {
            if read_failure_absorbed(&outcome) {
                LoopAction::Continue
            } else {
                match after {
                    ReadEnd::EndOfStream => LoopAction::Disconnect,
                    ReadEnd::Error(e) => LoopAction::ReportErrorAndReturn(e),
                }
            }
        },
        LoopEvent::ToolFinished { result, connected } => match result {
            Ok(_) => LoopAction::Continue,
            Err(e) => {
                if connected {
                    LoopAction::ReportToolError(e)
                } else {
                    LoopAction::ReportErrorAndReturn(e)
                }
            },
        },
    }
}

/// The handler hears of a disconnect only when the transport ends for good:
/// the run was cancelled, the supervisor is closed or not connected, or an
/// end of stream was reported and recovery could not absorb it. A read
/// failure or an end of stream by itself never disconnects: it is reported
/// for recovery first.
pub proof fn law_disconnect_only_when_terminal(tools_running: bool, ev: LoopEvent)
    requires
        disconnects(loop_step(tools_running, ev)),
    ensures
        ev is Cancelled || (ev matches LoopEvent::NoGeneration(e) && (e is SessionClosed || e is NotConnected)) || (
        ev matches LoopEvent::ReportOutcome { outcome, after } && after is EndOfStream && !(outcome matches Ok(o)
            && (o is Recovered || o is Stale))),
        !(ev is ReadError),
        !(ev is EndOfStream),
{
}

} // verus!

