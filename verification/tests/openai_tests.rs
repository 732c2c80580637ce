use adk_realtime::audio::{AudioChunk, AudioFormat};
use adk_realtime::error::RealtimeError;
use adk_realtime::events::{ClientEvent, ToolResponse};
use adk_realtime::json::Json;
use adk_realtime::openai::{
    audio_event, base64_audio_unsupported, interrupt_events, text_message_event, tool_output_event, OpenAiWebRtcModel,
};

fn text_of(j: Option<&Json>) -> Option<&str> {
    match j {
        Some(Json::Str(s)) => Some(s.as_str()),
        _ => None,
    }
}

#[test]
fn model_descriptor_keeps_its_fields() {
    let m = OpenAiWebRtcModel::new("gpt-realtime".to_string(), "sk-test".to_string());
    assert_eq!(m.model_id, "gpt-realtime");
    assert_eq!(m.api_key, "sk-test");
}

#[test]
fn text_becomes_a_user_message_item() {
    let item = match text_message_event("hello") {
        ClientEvent::ConversationItemCreate { item } => item,
        other => panic!("unexpected {other:?}"),
    };
    assert_eq!(text_of(item.get("type")), Some("message"));
    assert_eq!(text_of(item.get("role")), Some("user"));
    let parts = match item.get("content") {
        Some(Json::Array(p)) => p,
        _ => panic!("content is an array"),
    };
    assert_eq!(parts.len(), 1);
    assert_eq!(text_of(parts[0].get("type")), Some("input_text"));
    assert_eq!(text_of(parts[0].get("text")), Some("hello"));
}

#[test]
fn tool_output_names_the_call() {
    let r = ToolResponse { call_id: "call_7".to_string(), output: Json::Number("42".to_string()) };
    let item = match tool_output_event(r) {
        ClientEvent::ConversationItemCreate { item } => item,
        other => panic!("unexpected {other:?}"),
    };
    assert_eq!(text_of(item.get("type")), Some("function_call_output"));
    assert_eq!(text_of(item.get("call_id")), Some("call_7"));
    assert!(matches!(item.get("output"), Some(Json::Number(n)) if n == "42"));
}

#[test]
fn audio_goes_out_raw_with_its_format() {
    let chunk = AudioChunk { data: vec![1, 2, 3, 4], format: AudioFormat::pcm16_24khz() };
    match audio_event(chunk) {
        ClientEvent::AudioDelta { event_id, audio, format } => {
            assert!(event_id.is_none());
            assert_eq!(audio, vec![1, 2, 3, 4]);
            assert_eq!(format.map(|f| f.sample_rate), Some(24000));
        }
        other => panic!("unexpected {other:?}"),
    }
}

#[test]
fn interrupt_cancels_then_clears() {
    let es = interrupt_events();
    assert_eq!(es.len(), 2);
    assert!(matches!(es[0], ClientEvent::ResponseCancel));
    assert!(matches!(es[1], ClientEvent::InputAudioBufferClear));
}

#[test]
fn base64_audio_is_refused() {
    match base64_audio_unsupported() {
        RealtimeError::ConnectionError(m) => assert_eq!(m, "Base64 audio not supported in WebRTC"),
        other => panic!("unexpected {other:?}"),
    }
}
