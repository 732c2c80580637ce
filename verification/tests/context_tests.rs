use adk_realtime::context::InterruptionCompactor;
use adk_realtime::events::ServerEvent;
use adk_realtime::json::Json;

fn audio(n: u8) -> ServerEvent {
    ServerEvent::AudioDelta {
        event_id: format!("a{n}"),
        response_id: "r".to_string(),
        item_id: "i".to_string(),
        output_index: 0,
        content_index: 0,
        delta: vec![n],
    }
}

fn text(n: u8) -> ServerEvent {
    ServerEvent::TextDelta {
        event_id: format!("t{n}"),
        response_id: "r".to_string(),
        item_id: "i".to_string(),
        output_index: 0,
        content_index: 0,
        delta: "x".to_string(),
    }
}

#[test]
fn interruption_prunes_trailing_model_deltas() {
    let mut c = InterruptionCompactor::new();
    c.push(ServerEvent::SpeechStarted { event_id: "s".to_string(), audio_start_ms: 0 });
    c.push(audio(1));
    c.push(text(2));
    c.push(audio(3));
    c.handle_interruption(10);
    assert_eq!(c.history().len(), 1);
    assert!(matches!(c.history()[0], ServerEvent::SpeechStarted { .. }));
}

#[test]
fn interruption_stops_at_a_completed_response() {
    let mut c = InterruptionCompactor::default();
    c.push(audio(1));
    c.push(ServerEvent::ResponseDone { event_id: "d".to_string(), response: Json::Null });
    c.push(audio(2));
    c.handle_interruption(0);
    assert_eq!(c.history().len(), 2);
    assert!(matches!(c.history()[1], ServerEvent::ResponseDone { .. }));
    // Handling it again prunes nothing more.
    c.handle_interruption(0);
    assert_eq!(c.history().len(), 2);
}

#[test]
fn interruption_on_empty_history() {
    let mut c = InterruptionCompactor::new();
    c.handle_interruption(0);
    assert!(c.history().is_empty());
}
