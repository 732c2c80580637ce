use adk_realtime::audio::AudioFormat;
use adk_realtime::config::{RealtimeConfig, VadConfig, VadMode};
use adk_realtime::events::{ClientEvent, Part, ServerEvent, ToolResponse};
use adk_realtime::gemini::{
    build_vertex_live_url, connection_target, flush_threshold_bytes, normalize_model_id, CallNamesMap, GeminiLiveBackend,
    GeminiRealtimeModel, GEMINI_LIVE_URL,
};
use adk_realtime::gemini_frames::translate_frame;
use adk_realtime::gemini_outbound::{
    audio_input_message, gemini_realtime_input_config, plan_client_event, text_input_message, translate_client_message,
    video_frame_message, GeminiClientMessage, GeminiRealtimeInput, GeminiSend,
};
use adk_realtime::gemini_wire::{client_message_json, unparseable_frame_message, ParseCategory};
use adk_realtime::gemini_session::GeminiSessionState;
use adk_realtime::json::{Json, JsonMember};
use adk_realtime::time::{Duration, Instant};

fn to_json(v: &serde_json::Value) -> Json {
    match v {
        serde_json::Value::Null => Json::Null,
        serde_json::Value::Bool(b) => Json::Bool(*b),
        serde_json::Value::Number(n) => Json::Number(n.to_string()),
        serde_json::Value::String(s) => Json::Str(s.clone()),
        serde_json::Value::Array(a) => Json::Array(a.iter().map(to_json).collect()),
        serde_json::Value::Object(m) => Json::Object(
            m.iter().map(|(k, v)| JsonMember { key: k.clone(), value: to_json(v) }).collect(),
        ),
    }
}

fn frame(raw: &str) -> Json {
    to_json(&serde_json::from_str::<serde_json::Value>(raw).unwrap())
}

fn translate(raw: &str) -> Result<Vec<ServerEvent>, adk_realtime::error::RealtimeError> {
    translate_frame(frame(raw))
}

fn get<'a>(j: &'a Json, key: &str) -> Option<&'a Json> {
    j.get(key)
}

#[test]
fn test_affective_dialog_builder_sets_config() {
    let c = RealtimeConfig::default().with_affective_dialog(true);
    assert_eq!(c.affective_dialog, Some(true));
    assert_eq!(RealtimeConfig::default().affective_dialog, None);
}

#[test]
fn test_flush_threshold_bytes_pcm16_16khz_40ms() {
    let threshold = flush_threshold_bytes(&AudioFormat::pcm16_16khz());
    assert_eq!(threshold, 1280);
}

#[test]
fn test_build_vertex_live_url() {
    let url = build_vertex_live_url("us-central1", "my-project").unwrap();
    assert_eq!(
        url,
        "wss://us-central1-aiplatform.googleapis.com/ws/google.cloud.aiplatform.v1beta1.LlmBidiService/BidiGenerateContent?project_id=my-project"
    );
}

#[test]
fn test_normalize_model_id() {
    assert_eq!(normalize_model_id("gemini-2.5-flash-native-audio"), "models/gemini-2.5-flash-native-audio");
    assert_eq!(
        normalize_model_id("models/gemini-3.1-flash-live-preview"),
        "models/gemini-3.1-flash-live-preview"
    );
    assert_eq!(
        normalize_model_id("projects/123/locations/us-central1/publishers/google/models/gemini"),
        "projects/123/locations/us-central1/publishers/google/models/gemini"
    );
}

#[test]
fn test_call_names_map_fifo_eviction() {
    let mut map = CallNamesMap::new();
    for i in 0..1005 {
        map.insert(format!("call_{i}"), format!("tool_{i}"));
    }
    assert_eq!(map.len(), 1000);
    assert!(map.remove("call_0").is_none());
    assert!(map.remove("call_4").is_none());
    assert_eq!(map.remove("call_5"), Some("tool_5".to_string()));
    assert_eq!(map.remove("call_1004"), Some("tool_1004".to_string()));
}

#[test]
fn test_gemini_translate_text_only() {
    let parts = vec![Part::Text { text: "Hello".to_string() }];
    let msg = translate_client_message("user", parts);

    let content = msg.client_content.unwrap();
    assert_eq!(content.turns.len(), 1);
    assert_eq!(content.turns[0].role, "user");

    let gemini_parts = &content.turns[0].parts;
    assert_eq!(gemini_parts.len(), 1);
    assert_eq!(gemini_parts[0].text.as_deref(), Some("Hello"));
    assert!(gemini_parts[0].inline_data.is_none());
}

#[test]
fn test_gemini_translate_text_and_inline_data() {
    let parts = vec![
        Part::Text { text: "Look:".to_string() },
        Part::InlineData { mime_type: "image/png".to_string(), data: vec![0x1, 0x2] },
    ];
    let msg = translate_client_message("user", parts);

    let content = msg.client_content.unwrap();
    let gemini_parts = &content.turns[0].parts;
    assert_eq!(gemini_parts.len(), 2);
    assert_eq!(gemini_parts[0].text.as_deref(), Some("Look:"));

    let inline = gemini_parts[1].inline_data.as_ref().unwrap();
    assert_eq!(inline.mime_type, "image/png");
    assert_eq!(inline.data, "AQI=");
}

#[test]
fn test_gemini_system_override_text_first() {
    let parts = vec![Part::Text { text: "Be helpful".to_string() }];
    let msg = translate_client_message("system", parts);

    let content = msg.client_content.unwrap();
    assert_eq!(content.turns[0].role, "user");

    let gemini_parts = &content.turns[0].parts;
    assert_eq!(gemini_parts.len(), 1);
    assert_eq!(gemini_parts[0].text.as_deref(), Some("[CRITICAL SYSTEM DIRECTIVE OVERRIDE]\nBe helpful"));
}

#[test]
fn test_gemini_system_override_non_text_first() {
    let parts = vec![
        Part::InlineData { mime_type: "image/png".to_string(), data: vec![0x1] },
        Part::Text { text: "Analyze this".to_string() },
    ];
    let msg = translate_client_message("system", parts);

    let content = msg.client_content.unwrap();
    let gemini_parts = &content.turns[0].parts;
    assert_eq!(gemini_parts.len(), 2);
    assert!(gemini_parts[0].inline_data.is_some());
    assert_eq!(gemini_parts[1].text.as_deref(), Some("[CRITICAL SYSTEM DIRECTIVE OVERRIDE]\nAnalyze this"));
}

#[test]
fn test_gemini_system_override_no_text() {
    let parts = vec![Part::InlineData { mime_type: "image/png".to_string(), data: vec![0x1] }];
    let msg = translate_client_message("system", parts);

    let content = msg.client_content.unwrap();
    let gemini_parts = &content.turns[0].parts;
    assert_eq!(gemini_parts.len(), 2);
    assert_eq!(gemini_parts[0].text.as_deref(), Some("[CRITICAL SYSTEM DIRECTIVE OVERRIDE]"));
    assert!(gemini_parts[1].inline_data.is_some());
}

#[test]
fn test_gemini_skips_unsupported_parts() {
    let parts = vec![
        Part::Text { text: "First".to_string() },
        Part::FileData { file_uri: "http://example.com/img".to_string(), mime_type: "image/jpeg".to_string() },
        Part::Thinking { thinking: "Hmm".to_string() },
        Part::Text { text: "Last".to_string() },
    ];
    let msg = translate_client_message("user", parts);

    let content = msg.client_content.unwrap();
    let gemini_parts = &content.turns[0].parts;
    assert_eq!(gemini_parts.len(), 2);
    assert_eq!(gemini_parts[0].text.as_deref(), Some("First"));
    assert_eq!(gemini_parts[1].text.as_deref(), Some("Last"));
}

#[test]
fn translate_roles_map_to_gemini_roles() {
    for (role, expected) in
        [("assistant", "model"), ("model", "model"), ("developer", "user"), ("orchestrator", "user")]
    {
        let msg = translate_client_message(role, vec![Part::Text { text: "x".to_string() }]);
        let content = msg.client_content.unwrap();
        assert!(content.turn_complete);
        assert_eq!(content.turns[0].role, expected, "role {role}");
        assert!(msg.setup.is_none() && msg.realtime_input.is_none() && msg.tool_response.is_none());
    }
}

#[test]
fn test_translate_gemini_event_strict_validation() {
    let result = translate(r#"{"toolCall":{"functionCalls":[{"id":"call_1","args":{}}]}}"#);
    assert!(result.unwrap_err().to_string().contains("Gemini tool call missing 'name'"));

    let result = translate(r#"{"toolCall":{"functionCalls":[{"name":"test","args":{}}]}}"#);
    assert!(result.unwrap_err().to_string().contains("Gemini tool call missing 'id'"));

    let result = translate(r#"{"toolCall":{"functionCalls":[{"name":"test","id":"call_1"}]}}"#);
    assert!(result.unwrap_err().to_string().contains("Gemini tool call missing 'args'"));

    let result =
        translate(r#"{"toolCall":{"functionCalls":[{"name":"test","id":"call_1","args":"not_an_object"}]}}"#);
    assert!(result.unwrap_err().to_string().contains("Gemini tool call 'args' must be an object"));

    let events =
        translate(r#"{"toolCall":{"functionCalls":[{"name":"test","id":"call_1","args":{"key":"value"}}]}}"#)
            .unwrap();
    assert_eq!(events.len(), 1);
    if let ServerEvent::FunctionCallDone { name, call_id, arguments, .. } = &events[0] {
        assert_eq!(name, "test");
        assert_eq!(call_id, "call_1");
        match arguments {
            Json::Object(members) => {
                assert_eq!(members.len(), 1);
                assert_eq!(members[0].key, "key");
                assert!(matches!(&members[0].value, Json::Str(s) if s == "value"));
            }
            other => panic!("expected an object, got {other:?}"),
        }
    } else {
        panic!("Expected FunctionCallDone");
    }
}

#[test]
fn interrupted_translates_to_response_cancelled() {
    let events = translate(r#"{"serverContent":{"interrupted":true}}"#).unwrap();
    assert!(matches!(events.as_slice(), [ServerEvent::ResponseCancelled { .. }]), "got {events:?}");
}

#[test]
fn interrupted_frame_yields_no_playback_audio() {
    let raw = r#"{"serverContent":{"interrupted":true,"modelTurn":{"parts":[{"inlineData":{"data":"AAAA"}},{"text":"…as I was saying"}]}}}"#;
    let events = translate(raw).unwrap();
    assert!(matches!(events.as_slice(), [ServerEvent::ResponseCancelled { .. }]), "got {events:?}");
}

#[test]
fn interrupted_frame_still_surfaces_caller_speech() {
    let raw = r#"{"serverContent":{"interrupted":true,"modelTurn":{"parts":[{"inlineData":{"data":"AAAA"}}]},"inputTranscription":{"text":"actually, make it ravioli"}}}"#;
    let events = translate(raw).unwrap();
    assert!(events.iter().any(|e| matches!(e, ServerEvent::ResponseCancelled { .. })), "got {events:?}");
    assert!(events.iter().any(|e| matches!(e, ServerEvent::InputTranscriptDelta { .. })), "got {events:?}");
    assert!(!events.iter().any(|e| matches!(e, ServerEvent::AudioDelta { .. })), "got {events:?}");
}

#[test]
fn tool_call_cancellation_is_translated() {
    let events = translate(r#"{"toolCallCancellation":{"ids":["call_1","call_2"]}}"#).unwrap();
    match events.as_slice() {
        [ServerEvent::ToolCallCancelled { call_ids }] => {
            let ids: Vec<&str> = call_ids.iter().map(|id| id.as_str()).collect();
            assert_eq!(ids, ["call_1", "call_2"]);
        }
        other => panic!("expected one ToolCallCancelled, got {other:?}"),
    }
}

#[test]
fn go_away_translates_to_planned_rotation() {
    let events = translate(r#"{"goAway":{"timeLeft":"10s"}}"#).unwrap();
    match events.as_slice() {
        [ServerEvent::PlannedRotation { time_left }] => assert_eq!(time_left.as_deref(), Some("10s")),
        other => panic!("expected PlannedRotation, got {other:?}"),
    }
}

#[test]
fn go_away_without_time_left_translates_to_planned_rotation() {
    let events = translate(r#"{"goAway":{}}"#).unwrap();
    match events.as_slice() {
        [ServerEvent::PlannedRotation { time_left }] => assert_eq!(time_left.as_deref(), None),
        other => panic!("expected PlannedRotation, got {other:?}"),
    }
}

#[test]
fn cancellation_dto_tolerates_fields_google_adds_later() {
    let events =
        translate(r#"{"toolCallCancellation":{"ids":["call_1"],"someFutureField":{"nested":true}}}"#).unwrap();
    match events.as_slice() {
        [ServerEvent::ToolCallCancelled { call_ids }] => assert_eq!(call_ids[0].as_str(), "call_1"),
        other => panic!("expected one ToolCallCancelled, got {other:?}"),
    }
}

#[test]
fn malformed_cancellation_is_a_protocol_error_not_a_silent_drop() {
    let err = translate(r#"{"toolCallCancellation":{"ids":"call_1"}}"#)
        .expect_err("a non-array ids field must not parse");
    assert!(err.to_string().contains("toolCallCancellation"), "got {}", err.to_string());
}

#[test]
fn empty_ids_are_dropped_rather_than_carried() {
    let events = translate(r#"{"toolCallCancellation":{"ids":["","  ","call_1"]}}"#).unwrap();
    match events.as_slice() {
        [ServerEvent::ToolCallCancelled { call_ids }] => {
            assert_eq!(call_ids.len(), 1);
            assert_eq!(call_ids[0].as_str(), "call_1");
        }
        other => panic!("expected one ToolCallCancelled, got {other:?}"),
    }
}

#[test]
fn empty_tool_call_cancellation_is_not_an_event() {
    for raw in [r#"{"toolCallCancellation":{"ids":[]}}"#, r#"{"toolCallCancellation":{}}"#] {
        let events = translate(raw).unwrap();
        assert!(!events.iter().any(|e| matches!(e, ServerEvent::ToolCallCancelled { .. })), "got {events:?}");
    }
}

#[test]
fn absent_or_false_interrupted_emits_no_cancellation() {
    for raw in [
        r#"{"serverContent":{"turnComplete":true}}"#,
        r#"{"serverContent":{"interrupted":false,"turnComplete":true}}"#,
    ] {
        let events = translate(raw).unwrap();
        assert!(!events.iter().any(|e| matches!(e, ServerEvent::ResponseCancelled { .. })), "got {events:?}");
    }
}

#[test]
fn resumable_session_update_yields_no_public_event() {
    let events = translate(r#"{"sessionResumptionUpdate":{"newHandle":"handle-abc","resumable":true}}"#).unwrap();
    assert!(events.is_empty(), "got {events:?}");
}

#[test]
fn non_resumable_session_update_yields_no_handle() {
    for raw in [
        r#"{"sessionResumptionUpdate":{"newHandle":"handle-abc","resumable":false}}"#,
        r#"{"sessionResumptionUpdate":{"newHandle":"handle-abc"}}"#,
        r#"{"sessionResumptionUpdate":{"resumable":true}}"#,
        r#"{"sessionResumptionUpdate":{"resumptionToken":"handle-abc"}}"#,
    ] {
        let events = translate(raw).unwrap();
        assert!(events.is_empty(), "got {events:?}");
        let mut state = GeminiSessionState::new();
        state.handle_frame(frame(raw), Instant { nanos: 0 }).unwrap();
        assert!(state.last_resume_handle.is_none(), "{raw} must not store a handle");
    }
}

#[test]
fn server_vad_defaults_do_not_reach_the_wire() {
    let config = RealtimeConfig::default().with_turn_detection(VadConfig::server_vad());
    assert!(gemini_realtime_input_config(&config).is_none());
}

#[test]
fn explicitly_chosen_timings_do_reach_the_wire() {
    let config = RealtimeConfig::default().with_turn_detection(VadConfig {
        mode: VadMode::ServerVad,
        silence_duration_ms: Some(900),
        prefix_padding_ms: Some(300),
        interrupt_response: None,
        eagerness: None,
    });
    let projected = gemini_realtime_input_config(&config).expect("projection");
    let detection = get(&projected, "automaticActivityDetection").expect("detection");
    assert!(matches!(get(detection, "silenceDurationMs"), Some(Json::Number(n)) if n == "900"));
    assert!(matches!(get(detection, "prefixPaddingMs"), Some(Json::Number(n)) if n == "300"));
    assert!(get(&projected, "activityHandling").is_none());
}

#[test]
fn vad_timings_and_disable_map_to_googles_names() {
    let config = RealtimeConfig::default().with_turn_detection(VadConfig {
        mode: VadMode::Disabled,
        silence_duration_ms: Some(700),
        prefix_padding_ms: Some(300),
        interrupt_response: Some(false),
        eagerness: None,
    });
    let projected = gemini_realtime_input_config(&config).expect("projection");
    let detection = get(&projected, "automaticActivityDetection").expect("detection block");
    assert!(matches!(get(detection, "disabled"), Some(Json::Bool(true))));
    assert!(matches!(get(detection, "silenceDurationMs"), Some(Json::Number(n)) if n == "700"));
    assert!(matches!(get(detection, "prefixPaddingMs"), Some(Json::Number(n)) if n == "300"));
    assert!(matches!(get(&projected, "activityHandling"), Some(Json::Str(s)) if s == "NO_INTERRUPTION"));
}

#[test]
fn no_vad_configured_sends_no_input_config() {
    assert!(gemini_realtime_input_config(&RealtimeConfig::default()).is_none());
}

#[test]
fn interrupt_policy_alone_is_sent() {
    let config = RealtimeConfig::default().with_turn_detection(VadConfig {
        mode: VadMode::ServerVad,
        silence_duration_ms: None,
        prefix_padding_ms: None,
        interrupt_response: Some(true),
        eagerness: None,
    });
    let projected = gemini_realtime_input_config(&config).expect("projection");
    assert!(get(&projected, "automaticActivityDetection").is_none());
    assert!(
        matches!(get(&projected, "activityHandling"), Some(Json::Str(s)) if s == "START_OF_ACTIVITY_INTERRUPTS")
    );
}

#[test]
fn vertex_url_requires_region_and_project() {
    let e = build_vertex_live_url("", "p").unwrap_err();
    assert_eq!(e.to_string(), "Invalid configuration: Vertex AI Live requires a non-empty region");
    let e = build_vertex_live_url("r", "").unwrap_err();
    assert_eq!(e.to_string(), "Invalid configuration: Vertex AI Live requires a non-empty project_id");
}

#[test]
fn go_away_sets_the_replacement_deadline() {
    let mut state = GeminiSessionState::new();
    state.handle_frame(frame(r#"{"goAway":{"timeLeft":"10s"}}"#), Instant { nanos: 5 }).unwrap();
    assert_eq!(state.replacement_deadline, Some(Instant { nanos: 5 + Duration::from_secs(10).nanos }));

    let mut other = GeminiSessionState::new();
    other.handle_frame(frame(r#"{"goAway":{"timeLeft":"soon"}}"#), Instant { nanos: 5 }).unwrap();
    assert_eq!(other.replacement_deadline, None);
}

#[test]
fn resumable_update_stores_the_handle() {
    let mut state = GeminiSessionState::new();
    state
        .handle_frame(frame(r#"{"sessionResumptionUpdate":{"newHandle":"h1","resumable":true}}"#), Instant { nanos: 0 })
        .unwrap();
    assert_eq!(state.last_resume_handle.as_deref(), Some("h1"));
    // A later non-resumable update keeps the working handle.
    state
        .handle_frame(frame(r#"{"sessionResumptionUpdate":{"newHandle":"h2","resumable":false}}"#), Instant { nanos: 0 })
        .unwrap();
    assert_eq!(state.last_resume_handle.as_deref(), Some("h1"));
}

#[test]
fn tool_response_names_the_issued_call() {
    let mut state = GeminiSessionState::new();
    state
        .handle_frame(
            frame(r#"{"toolCall":{"functionCalls":[{"name":"lookup","id":"c1","args":{}}]}}"#),
            Instant { nanos: 0 },
        )
        .unwrap();
    let msg = state.tool_response_message(ToolResponse::from_string("c1".to_string(), "ok".to_string())).unwrap();
    let fr = get(&msg, "toolResponse").and_then(|t| get(t, "functionResponses")).expect("functionResponses");
    match fr {
        Json::Array(items) => {
            assert_eq!(items.len(), 1);
            assert!(matches!(get(&items[0], "name"), Some(Json::Str(s)) if s == "lookup"));
            assert!(matches!(get(&items[0], "id"), Some(Json::Str(s)) if s == "c1"));
        }
        other => panic!("expected an array, got {other:?}"),
    }
    // The name is consumed: a second response for the same call is refused.
    let again = state.tool_response_message(ToolResponse::from_string("c1".to_string(), "ok".to_string()));
    assert!(again.unwrap_err().to_string().contains("Missing tool name for call_id 'c1'"));
}

#[test]
fn cancellation_forgets_issued_calls() {
    let mut state = GeminiSessionState::new();
    state
        .handle_frame(
            frame(r#"{"toolCall":{"functionCalls":[{"name":"a","id":"c1","args":{}},{"name":"b","id":"c2","args":{}}]}}"#),
            Instant { nanos: 0 },
        )
        .unwrap();
    assert_eq!(state.call_names.len(), 2);
    state.handle_frame(frame(r#"{"toolCallCancellation":{"ids":["c1"]}}"#), Instant { nanos: 0 }).unwrap();
    assert_eq!(state.call_names.len(), 1);
}

#[test]
fn test_gemini_setup_serialization_includes_model() {
    let msg = adk_realtime::gemini_outbound::setup_message(
        "models/gemini-2.5-flash-native-audio-latest",
        RealtimeConfig::default(),
        None,
        None,
    );
    let setup = msg.setup.expect("setup missing");
    assert!(
        matches!(get(&setup, "model"), Some(Json::Str(m)) if m == "models/gemini-2.5-flash-native-audio-latest")
    );
}

#[test]
fn setup_frame_carries_the_configuration() {
    let extra = frame(r#"{"thinking_level":"low","other":1}"#);
    let config = RealtimeConfig::default()
        .with_instruction("Be brief".to_string())
        .with_voice("Puck".to_string())
        .with_modalities(vec!["audio".to_string(), "text".to_string()])
        .with_affective_dialog(true)
        .with_cached_content("cachedContents/abc".to_string())
        .with_extra(extra);
    let msg = adk_realtime::gemini_outbound::setup_message("gemini-live", config, None, Some("h1".to_string()));
    assert!(msg.client_content.is_none() && msg.realtime_input.is_none() && msg.tool_response.is_none());
    let setup = msg.setup.unwrap();
    assert!(matches!(get(&setup, "model"), Some(Json::Str(m)) if m == "models/gemini-live"));
    let si = get(&setup, "systemInstruction").and_then(|s| get(s, "parts")).expect("parts");
    assert!(matches!(si, Json::Array(ps) if ps.len() == 1 && matches!(get(&ps[0], "text"), Some(Json::Str(t)) if t == "Be brief")));
    let g = get(&setup, "generationConfig").expect("generationConfig");
    match get(g, "responseModalities") {
        Some(Json::Array(ms)) => {
            let texts: Vec<&str> = ms.iter().map(|m| match m { Json::Str(s) => s.as_str(), _ => "?" }).collect();
            assert_eq!(texts, ["AUDIO", "TEXT"]);
        }
        other => panic!("expected modalities, got {other:?}"),
    }
    let voice = get(g, "speechConfig")
        .and_then(|v| get(v, "voiceConfig"))
        .and_then(|v| get(v, "prebuiltVoiceConfig"))
        .and_then(|v| get(v, "voiceName"));
    assert!(matches!(voice, Some(Json::Str(v)) if v == "Puck"));
    assert!(matches!(get(g, "enableAffectiveDialog"), Some(Json::Bool(true))));
    assert!(matches!(get(g, "thinkingConfig").and_then(|t| get(t, "thinkingLevel")), Some(Json::Str(l)) if l == "low"));
    assert!(matches!(get(&setup, "cachedContent"), Some(Json::Str(c)) if c == "cachedContents/abc"));
    assert!(matches!(get(&setup, "sessionResumption").and_then(|s| get(s, "handle")), Some(Json::Str(h)) if h == "h1"));
    assert!(get(&setup, "tools").is_none());
    assert!(get(&setup, "inputAudioTranscription").is_none());
    assert!(get(&setup, "realtimeInputConfig").is_none());
}

#[test]
fn setup_frame_defaults_to_audio_and_an_empty_resumption() {
    let msg = adk_realtime::gemini_outbound::setup_message("m", RealtimeConfig::default(), Some(vec![Json::Null]), None);
    let setup = msg.setup.unwrap();
    let g = get(&setup, "generationConfig").unwrap();
    assert!(matches!(get(g, "responseModalities"), Some(Json::Array(ms)) if ms.len() == 1 && matches!(&ms[0], Json::Str(s) if s == "AUDIO")));
    assert!(get(g, "speechConfig").is_none() && get(g, "enableAffectiveDialog").is_none());
    assert!(matches!(get(&setup, "sessionResumption"), Some(Json::Object(ms)) if ms.is_empty()));
    assert!(matches!(get(&setup, "tools"), Some(Json::Array(t)) if t.len() == 1));
}

#[test]
fn client_events_plan() {
    let msg = plan_client_event(ClientEvent::Message { role: "user".to_string(), parts: vec![Part::Text { text: "hi".to_string() }] });
    assert!(matches!(msg, Ok(GeminiSend::Frame(m)) if m.client_content.is_some()));
    assert!(matches!(plan_client_event(ClientEvent::ResponseCancel), Ok(GeminiSend::Dropped)));
    assert!(matches!(plan_client_event(ClientEvent::InputAudioBufferCommit), Ok(GeminiSend::Dropped)));
    assert!(matches!(plan_client_event(ClientEvent::SessionUpdate { session: Json::Null }), Ok(GeminiSend::Setup(Json::Null))));
    let err = plan_client_event(ClientEvent::UpdateSession { instructions: None, tools: None }).unwrap_err();
    assert_eq!(err.to_string(), "Provider error: Internal intent leaked to transport");
}

#[test]
fn audio_input_frame_declares_the_rate_and_carries_the_data() {
    let m = audio_input_message("AAEC");
    assert!(m.setup.is_none() && m.tool_response.is_none() && m.client_content.is_none());
    let r = m.realtime_input.unwrap();
    assert!(r.text.is_none() && r.media_chunks.is_none());
    let a = r.audio.unwrap();
    assert_eq!(a.mime_type, "audio/pcm;rate=16000");
    assert_eq!(a.data, "AAEC");
}

#[test]
fn text_input_frame_carries_the_text() {
    let m = text_input_message("hello there");
    assert!(m.setup.is_none() && m.tool_response.is_none() && m.client_content.is_none());
    let r = m.realtime_input.unwrap();
    assert!(r.audio.is_none() && r.media_chunks.is_none());
    assert_eq!(r.text.as_deref(), Some("hello there"));
}

#[test]
fn video_frame_is_one_media_chunk() {
    let m = video_frame_message("image/jpeg", "/9j/4AAQ");
    let r = m.realtime_input.unwrap();
    assert!(r.audio.is_none() && r.text.is_none());
    let cs = r.media_chunks.unwrap();
    assert_eq!(cs.len(), 1);
    assert_eq!(cs[0].mime_type, "image/jpeg");
    assert_eq!(cs[0].data, "/9j/4AAQ");
}

#[test]
fn test_gemini_send_text_uses_realtime_input() {
    // Conversational text turns must serialize via realtimeInput.text for Gemini 3.1 Live API
    let msg = GeminiClientMessage {
        setup: None,
        realtime_input: Some(GeminiRealtimeInput { audio: None, media_chunks: None, text: Some("Hello 3.1".to_string()) }),
        tool_response: None,
        client_content: None,
    };

    let js = client_message_json(msg);
    assert!(js.get("clientContent").is_none());
    let text = match js.get("realtimeInput").and_then(|r| r.get("text")) {
        Some(Json::Str(s)) => Some(s.as_str()),
        _ => None,
    };
    assert_eq!(text, Some("Hello 3.1"));
}

#[test]
fn client_content_frame_json_names_turns_parts_and_completion() {
    let msg = translate_client_message("user", vec![Part::Text { text: "Hi".to_string() }]);
    let js = client_message_json(msg);
    assert!(js.get("realtimeInput").is_none() && js.get("setup").is_none() && js.get("toolResponse").is_none());
    let content = js.get("clientContent").unwrap();
    assert!(matches!(content.get("turnComplete"), Some(Json::Bool(true))));
    let turns = match content.get("turns") {
        Some(Json::Array(t)) => t,
        _ => panic!("turns is an array"),
    };
    assert_eq!(turns.len(), 1);
    assert!(matches!(turns[0].get("role"), Some(Json::Str(r)) if r == "user"));
    let parts = match turns[0].get("parts") {
        Some(Json::Array(p)) => p,
        _ => panic!("parts is an array"),
    };
    assert_eq!(parts.len(), 1);
    assert!(matches!(parts[0].get("text"), Some(Json::Str(t)) if t == "Hi"));
    assert!(parts[0].get("inlineData").is_none());
}

#[test]
fn audio_frame_json_carries_mime_type_and_data() {
    let js = client_message_json(audio_input_message("AAEC"));
    let audio = js.get("realtimeInput").and_then(|r| r.get("audio")).unwrap();
    assert!(matches!(audio.get("mimeType"), Some(Json::Str(m)) if m == "audio/pcm;rate=16000"));
    assert!(matches!(audio.get("data"), Some(Json::Str(d)) if d == "AAEC"));
    assert!(js.get("realtimeInput").unwrap().get("text").is_none());
}

#[test]
fn unparseable_frame_message_states_category_length_hash_and_position() {
    let m = unparseable_frame_message(ParseCategory::Eof, 42, 0xab, 1, 70);
    assert_eq!(
        m,
        "invalid Gemini frame (category=eof, byte_length=42, payload_hash=00000000000000ab, line=1, column=70)"
    );
}

#[test]
fn unparseable_frame_message_tells_hashes_apart() {
    let a = unparseable_frame_message(ParseCategory::Syntax, 5, u64::MAX, 1, 5);
    let b = unparseable_frame_message(ParseCategory::Syntax, 5, 0x0123456789abcdef, 1, 5);
    assert!(a.contains("payload_hash=ffffffffffffffff"));
    assert!(b.contains("payload_hash=0123456789abcdef"));
    assert_ne!(a, b);
}

#[test]
fn event_ids_are_hyphenated_version_four_uuids() {
    let events = translate(r#"{"serverContent":{"turnComplete":true}}"#).unwrap();
    let id = events
        .iter()
        .find_map(|e| match e {
            ServerEvent::ResponseDone { event_id, .. } => Some(event_id.clone()),
            _ => None,
        })
        .expect("a completed turn yields ResponseDone");
    let chars: Vec<char> = id.chars().collect();
    assert_eq!(chars.len(), 36);
    for (i, c) in chars.iter().enumerate() {
        if [8, 13, 18, 23].contains(&i) {
            assert_eq!(*c, '-');
        } else {
            assert!(c.is_ascii_digit() || ('a'..='f').contains(c), "{id}");
        }
    }
    assert_eq!(chars[14], '4');
    assert!(['8', '9', 'a', 'b'].contains(&chars[19]));
}

#[test]
fn studio_connects_with_the_key_in_the_query() {
    let t = connection_target(&GeminiLiveBackend::studio("k123".to_string())).unwrap();
    assert_eq!(t.url, format!("{}?key=k123", GEMINI_LIVE_URL));
    assert!(!t.bearer_from_adc);
}

#[test]
fn a_custom_endpoint_receives_no_credentials() {
    let studio = GeminiLiveBackend::studio("secret-key".to_string()).with_endpoint_url("wss://localhost/ws".to_string());
    let t = connection_target(&studio).unwrap();
    assert_eq!(t.url, "wss://localhost/ws");
    assert!(!t.bearer_from_adc);
    assert!(!t.url.contains("secret-key"));

    let vertex = GeminiLiveBackend::vertex_adc("my-project".to_string(), "us-central1".to_string())
        .with_endpoint_url("wss://proxy.internal/live".to_string());
    let t = connection_target(&vertex).unwrap();
    assert_eq!(t.url, "wss://proxy.internal/live");
    assert!(!t.bearer_from_adc);
}

#[test]
fn vertex_connects_regionally_with_an_adc_token() {
    let t = connection_target(&GeminiLiveBackend::vertex_adc("my-project".to_string(), "us-central1".to_string())).unwrap();
    assert_eq!(
        t.url,
        "wss://us-central1-aiplatform.googleapis.com/ws/google.cloud.aiplatform.v1beta1.LlmBidiService/BidiGenerateContent?project_id=my-project"
    );
    assert!(t.bearer_from_adc);
    let err = connection_target(&GeminiLiveBackend::vertex_adc("".to_string(), "us-central1".to_string()));
    assert!(matches!(err, Err(adk_realtime::error::RealtimeError::ConfigError(_))));
}

#[test]
fn the_model_id_is_normalized_and_the_formats_are_fixed() {
    let m = GeminiRealtimeModel::new(GeminiLiveBackend::studio("k".to_string()), "gemini-live-2.5-flash");
    assert_eq!(m.model_id, "models/gemini-live-2.5-flash");
    assert_eq!(m.supported_input_format().sample_rate, 16000);
    assert_eq!(m.supported_output_format().sample_rate, 24000);
    let m = GeminiRealtimeModel::new(GeminiLiveBackend::studio("k".to_string()), "projects/p/locations/l/x");
    assert_eq!(m.model_id, "projects/p/locations/l/x");
}
