use adk_realtime::config::RealtimeConfig;
use adk_realtime::error::RealtimeError;
use adk_realtime::config::ToolDefinition;
use adk_realtime::events::{CallerActivitySource, ClientEvent, ServerEvent};
use adk_realtime::json::Json;
use adk_realtime::recovery::DeliveryCertainty;
use adk_realtime::runner::{
    breaker_tripped_error, caller_activity_source, read_failure_absorbed, route_client_event, run_loop_step, tool_permits, write_failure, ClientSend, FollowUp, LoopAction, LoopEvent, ReadEnd,
    Route, RunnerConfig, RunnerCore, RunnerState, ToolStart,
};
use adk_realtime::recovery::{RecoveryCause, RecoveryContinuity};
use adk_realtime::supervisor::RecoveryOutcome;

fn str_member<'a>(j: &'a Json, key: &str) -> Option<&'a str> {
    match j.get(key) {
        Some(Json::Str(s)) => Some(s.as_str()),
        _ => None,
    }
}

fn function_call() -> ServerEvent {
    ServerEvent::FunctionCallDone {
        event_id: "e".to_string(),
        response_id: "r".to_string(),
        item_id: "i".to_string(),
        output_index: 0,
        call_id: "c".to_string(),
        name: "tool".to_string(),
        arguments: Json::Null,
    }
}

#[test]
fn runner_config_defaults() {
    let c = RunnerConfig::default();
    assert!(c.auto_execute_tools && c.auto_respond_tools);
    assert_eq!(c.max_concurrent_tools, 4);
    assert_eq!(c.max_consecutive_tool_failures, 3);
    assert_eq!(tool_permits(&RunnerConfig { max_concurrent_tools: 0, ..c }), 1);
    assert_eq!(tool_permits(&c), 4);
}

#[test]
fn circuit_breaker_trips_after_consecutive_failures() {
    let mut core = RunnerCore::new(RunnerConfig::default());
    let (out1, tripped1) = core.tool_failed("boom".to_string());
    assert!(!tripped1);
    assert_eq!(str_member(&out1, "error"), Some("boom"));
    core.tool_failed("boom".to_string());
    let (out3, tripped3) = core.tool_failed("boom".to_string());
    assert!(tripped3, "the third consecutive failure trips the breaker");
    assert_eq!(str_member(&out3, "status"), Some("rejected"));
    assert_eq!(str_member(&out3, "reason"), Some("tool_unavailable"));
    assert_eq!(str_member(&out3, "error"), Some("circuit_breaker_tripped: boom"));
    // Further failures do not report a new trip.
    let (_, again) = core.tool_failed("boom".to_string());
    assert!(!again);
    match core.begin_tool_call("lookup", true) {
        ToolStart::Answer(out) => assert_eq!(str_member(&out, "error"), Some("circuit_breaker_open")),
        ToolStart::Run => panic!("an open breaker must reject"),
    }
    core.reset_circuit_breaker();
    assert!(matches!(core.begin_tool_call("lookup", true), ToolStart::Run));
}

#[test]
fn success_resets_the_failure_streak() {
    let mut core = RunnerCore::new(RunnerConfig::default());
    core.tool_failed("a".to_string());
    core.tool_failed("b".to_string());
    core.tool_succeeded();
    let (_, tripped) = core.tool_failed("c".to_string());
    assert!(!tripped);
    assert!(!core.circuit_breaker_tripped);
}

#[test]
fn unknown_tool_is_answered_with_an_error() {
    let core = RunnerCore::new(RunnerConfig::default());
    match core.begin_tool_call("lookup", false) {
        ToolStart::Answer(out) => assert_eq!(str_member(&out, "error"), Some("Unknown tool: lookup")),
        ToolStart::Run => panic!("unknown tool must not run"),
    }
}

#[test]
fn one_follow_up_response_per_delivered_tool_output() {
    let mut core = RunnerCore::new(RunnerConfig::default());
    core.tool_output_sent(true);
    assert_eq!(core.respond_after_tools(), FollowUp::CreateResponse);
    assert_eq!(core.respond_after_tools(), FollowUp::Nothing);
}

#[test]
fn follow_up_waits_for_outstanding_tools() {
    let mut core = RunnerCore::new(RunnerConfig::default());
    core.tool_dispatched();
    core.tool_dispatched();
    core.tool_output_sent(true);
    assert_eq!(core.respond_after_tools(), FollowUp::Nothing);
    assert_eq!(core.tool_finished(), FollowUp::Nothing);
    assert_eq!(core.tool_finished(), FollowUp::CreateResponse);
}

#[test]
fn failed_delivery_suppresses_the_follow_up() {
    let mut core = RunnerCore::new(RunnerConfig::default());
    core.tool_output_sent(true);
    core.tool_output_sent(false);
    assert_eq!(core.respond_after_tools(), FollowUp::Nothing);
    assert!(!core.pending_tool_response && !core.tool_output_failed);
}

#[test]
fn cancellation_clears_owed_follow_up() {
    let mut core = RunnerCore::new(RunnerConfig::default());
    core.route_event(&ServerEvent::ResponseCreated { event_id: "e".to_string(), response: Json::Null });
    assert!(matches!(core.state, RunnerState::Generating));
    core.tool_output_sent(true);
    let r = core.route_event(&ServerEvent::ResponseCancelled { event_id: "e".to_string() });
    assert!(matches!(r, Route::ResponseCancelled));
    assert!(matches!(core.state, RunnerState::Idle));
    assert_eq!(core.respond_after_tools(), FollowUp::Nothing);
}

#[test]
fn function_calls_dispatch_only_when_auto_executing() {
    let mut core = RunnerCore::new(RunnerConfig::default());
    assert!(matches!(core.route_event(&function_call()), Route::DispatchTool));
    assert!(matches!(core.state, RunnerState::ExecutingTool));
    let mut manual = RunnerCore::new(RunnerConfig { auto_execute_tools: false, ..RunnerConfig::default() });
    assert!(matches!(manual.route_event(&function_call()), Route::Ignore));
}

#[test]
fn server_errors_are_routed_with_code_and_message() {
    let mut core = RunnerCore::new(RunnerConfig::default());
    let ev = ServerEvent::Error {
        event_id: "e".to_string(),
        error: adk_realtime::events::ErrorInfo {
            error_type: "t".to_string(),
            code: Some("429".to_string()),
            message: "slow".to_string(),
            param: None,
        },
    };
    match core.route_event(&ev) {
        Route::ServerError(RealtimeError::ServerError { code, message }) => {
            assert_eq!(code, "429");
            assert_eq!(message, "slow");
        }
        other => panic!("expected a server error, got {other:?}"),
    }
}

#[test]
fn resumption_runs_now_when_idle_and_queues_when_busy() {
    let mut core = RunnerCore::new(RunnerConfig::default());
    let q = core.request_resumption(Box::new(RealtimeConfig::default()), None).expect("idle runs now");
    assert_eq!(q.attempts, 0);

    core.route_event(&ServerEvent::ResponseCreated { event_id: "e".to_string(), response: Json::Null });
    assert!(core.request_resumption(Box::new(RealtimeConfig::default()), Some("note".to_string())).is_none());
    assert!(matches!(core.state, RunnerState::PendingResumption { attempts: 0, .. }));

    let queued = core.take_queued_resumption().expect("queued intent");
    assert_eq!(queued.bridge_message.as_deref(), Some("note"));
    assert!(matches!(core.state, RunnerState::Idle));
    core.queued_resumption_failed(queued);
    assert!(matches!(core.state, RunnerState::PendingResumption { attempts: 1, .. }));
    let q2 = core.take_queued_resumption().unwrap();
    core.queued_resumption_failed(q2);
    let q3 = core.take_queued_resumption().unwrap();
    assert_eq!(q3.attempts, 2);
    core.queued_resumption_failed(q3);
    assert!(matches!(core.state, RunnerState::Idle), "dropped after the attempt limit");
}

#[test]
fn caller_activity_evidence() {
    let delta = ServerEvent::InputTranscriptDelta { item_id: "i".to_string(), content_index: 0, delta: "h".to_string() };
    assert_eq!(caller_activity_source(&delta), Some(CallerActivitySource::TranscriptDelta));
    let stopped = ServerEvent::SpeechStopped { event_id: "e".to_string(), audio_end_ms: 3 };
    assert_eq!(caller_activity_source(&stopped), Some(CallerActivitySource::SpeechStopped));
    assert_eq!(caller_activity_source(&ServerEvent::Unknown), None);
}

#[test]
fn write_failures_carry_delivery_certainty() {
    let before = write_failure(RealtimeError::NotConnected, false);
    assert_eq!(before.delivery_certainty(), Some(DeliveryCertainty::NotAttempted));
    let after = write_failure(RealtimeError::NotConnected, true);
    assert_eq!(after.delivery_certainty(), Some(DeliveryCertainty::Indeterminate));
}

#[test]
fn absorbed_read_failures() {
    assert!(read_failure_absorbed(&Ok(RecoveryOutcome::Stale { generation_id: 1 })));
    assert!(!read_failure_absorbed(&Ok(RecoveryOutcome::Exhausted)));
    assert!(!read_failure_absorbed(&Err(RealtimeError::SessionClosed)));
}

#[test]
fn an_update_intent_becomes_a_session_update_and_the_rest_is_written() {
    let tools = vec![ToolDefinition::new("lookup".to_string())];
    match route_client_event(ClientEvent::UpdateSession { instructions: Some("be brief".to_string()), tools: Some(tools) }) {
        ClientSend::Update(u) => {
            assert_eq!(u.0.instruction.as_deref(), Some("be brief"));
            assert_eq!(u.0.tools.as_ref().map(|t| t.len()), Some(1));
            assert!(u.0.voice.is_none() && u.0.model.is_none() && u.0.extra.is_none());
        }
        other => panic!("unexpected {other:?}"),
    }
    assert!(matches!(route_client_event(ClientEvent::ResponseCancel), ClientSend::Write(ClientEvent::ResponseCancel)));
}

#[test]
fn run_loop_disconnects_only_when_the_transport_ends_for_good() {
    let mut core = RunnerCore::new(RunnerConfig::default());
    assert!(matches!(run_loop_step(&core, LoopEvent::Cancelled), LoopAction::CloseAndDisconnect));
    assert!(matches!(run_loop_step(&core, LoopEvent::NoGeneration(RealtimeError::SessionClosed)), LoopAction::Disconnect));
    assert!(matches!(run_loop_step(&core, LoopEvent::NoGeneration(RealtimeError::NotConnected)), LoopAction::Disconnect));
    assert!(matches!(
        run_loop_step(&core, LoopEvent::NoGeneration(RealtimeError::provider("session exhausted".to_string()))),
        LoopAction::ReturnError(RealtimeError::ProviderError(_))
    ));
    // A read failure is reported for recovery, not surfaced.
    assert!(matches!(
        run_loop_step(&core, LoopEvent::ReadError(RealtimeError::connection("reset".to_string()))),
        LoopAction::ReportFailure(RecoveryCause::ReadFailed(_))
    ));
    // An end of stream after a newer generation was published is not a loss.
    assert!(matches!(run_loop_step(&core, LoopEvent::EndOfStream { watch_moved: true }), LoopAction::Continue));
    assert!(matches!(
        run_loop_step(&core, LoopEvent::EndOfStream { watch_moved: false }),
        LoopAction::ReportFailure(RecoveryCause::UnexpectedEof)
    ));
    // With tools still running they are drained first.
    core.tool_dispatched();
    assert!(matches!(run_loop_step(&core, LoopEvent::EndOfStream { watch_moved: false }), LoopAction::DrainTools));
    core.tool_finished();
    // An absorbed report carries on; an unabsorbed end of stream disconnects.
    let recovered = Ok(RecoveryOutcome::Recovered { generation_id: 1, continuity: RecoveryContinuity::Resumed });
    assert!(matches!(
        run_loop_step(&core, LoopEvent::ReportOutcome { outcome: recovered, after: ReadEnd::EndOfStream }),
        LoopAction::Continue
    ));
    assert!(matches!(
        run_loop_step(&core, LoopEvent::ReportOutcome { outcome: Ok(RecoveryOutcome::Exhausted), after: ReadEnd::EndOfStream }),
        LoopAction::Disconnect
    ));
    assert!(matches!(
        run_loop_step(
            &core,
            LoopEvent::ReportOutcome {
                outcome: Ok(RecoveryOutcome::Exhausted),
                after: ReadEnd::Error(RealtimeError::connection("reset".to_string()))
            }
        ),
        LoopAction::ReportErrorAndReturn(_)
    ));
    // A failed tool is reported; with the session gone it ends the run.
    let e = || Err(RealtimeError::connection("x".to_string()));
    assert!(matches!(
        run_loop_step(&core, LoopEvent::ToolFinished { result: e(), connected: true }),
        LoopAction::ReportToolError(_)
    ));
    assert!(matches!(
        run_loop_step(&core, LoopEvent::ToolFinished { result: e(), connected: false }),
        LoopAction::ReportErrorAndReturn(_)
    ));
}

#[test]
fn breaker_trip_error_names_the_count_and_the_failure() {
    match breaker_tripped_error(3, "boom") {
        RealtimeError::ProviderError(m) => {
            assert_eq!(m, "Tool execution circuit breaker tripped after 3 consecutive failures: boom")
        }
        other => panic!("unexpected {other:?}"),
    }
}
