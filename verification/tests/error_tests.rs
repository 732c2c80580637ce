use adk_realtime::error::{IoErrorKind, RealtimeError};
use adk_realtime::recovery::DeliveryCertainty;

#[test]
fn test_is_connection_reset_classification() {
    let err1 = RealtimeError::ConnectionError("read tcp: connection reset by peer".to_string());
    assert!(err1.is_connection_reset());

    let err2 = RealtimeError::MessageError("ECONNRESET occurred".to_string());
    assert!(err2.is_connection_reset());

    let err3 = RealtimeError::ConnectionError("Broken pipe on socket write".to_string());
    assert!(err3.is_connection_reset());

    let err4 = RealtimeError::MessageError("connection aborted by host".to_string());
    assert!(err4.is_connection_reset());

    let io_reset = RealtimeError::IoError { kind: IoErrorKind::ConnectionReset, message: "reset".to_string() };
    assert!(io_reset.is_connection_reset());

    let io_broken = RealtimeError::IoError { kind: IoErrorKind::BrokenPipe, message: "pipe".to_string() };
    assert!(io_broken.is_connection_reset());

    let io_aborted = RealtimeError::IoError { kind: IoErrorKind::ConnectionAborted, message: "aborted".to_string() };
    assert!(io_aborted.is_connection_reset());

    let write_failed_reset = RealtimeError::write_failed(io_reset.clone(), DeliveryCertainty::Indeterminate);
    assert!(write_failed_reset.is_connection_reset());

    let broad_closed = RealtimeError::ConnectionError("connection closed gracefully".to_string());
    assert!(!broad_closed.is_connection_reset());

    let broad_recv = RealtimeError::MessageError("receive error on channel".to_string());
    assert!(!broad_recv.is_connection_reset());

    let protocol_reset_text = RealtimeError::Protocol("connection reset by peer in payload".to_string());
    assert!(!protocol_reset_text.is_connection_reset());

    let provider_reset_text = RealtimeError::ProviderError("broken pipe on provider stream".to_string());
    assert!(!provider_reset_text.is_connection_reset());

    let quota_err =
        RealtimeError::ServerError { code: "429".into(), message: "RESOURCE_EXHAUSTED / Quota exceeded".into() };
    assert!(!quota_err.is_connection_reset());

    let auth_err = RealtimeError::AuthError("401 Unauthorized token expired".into());
    assert!(!auth_err.is_connection_reset());

    let config_err = RealtimeError::ConfigError("invalid parameter in setup".into());
    assert!(!config_err.is_connection_reset());

    let write_failed_config = RealtimeError::write_failed(config_err.clone(), DeliveryCertainty::NotAttempted);
    assert!(!write_failed_config.is_connection_reset());
}

#[test]
fn other_io_kinds_are_not_resets() {
    let e = RealtimeError::IoError { kind: IoErrorKind::Other, message: "connection reset".to_string() };
    assert!(!e.is_connection_reset());
}

#[test]
fn delivery_certainty_only_on_write_failures() {
    let w = RealtimeError::write_failed(RealtimeError::NotConnected, DeliveryCertainty::NotAttempted);
    assert_eq!(w.delivery_certainty(), Some(DeliveryCertainty::NotAttempted));
    assert_eq!(RealtimeError::NotConnected.delivery_certainty(), None);
}

#[test]
fn error_texts() {
    assert_eq!(RealtimeError::connection("x".to_string()).to_string(), "WebSocket connection error: x");
    assert_eq!(RealtimeError::NotConnected.to_string(), "Session not connected");
    assert_eq!(RealtimeError::SessionClosed.to_string(), "Session already closed");
    assert_eq!(RealtimeError::server("429".to_string(), "slow down".to_string()).to_string(), "Server error: 429 - slow down");
    assert_eq!(RealtimeError::provider("p".to_string()).to_string(), "Provider error: p");
    assert_eq!(RealtimeError::protocol("q".to_string()).to_string(), "Protocol error: q");
    assert_eq!(RealtimeError::config("c".to_string()).to_string(), "Invalid configuration: c");
    assert_eq!(RealtimeError::audio("a".to_string()).to_string(), "Audio format error: a");
    assert_eq!(RealtimeError::opus("o".to_string()).to_string(), "Opus codec error: o");
    assert_eq!(RealtimeError::webrtc("w".to_string()).to_string(), "WebRTC error: w");
    assert_eq!(RealtimeError::livekit("l".to_string()).to_string(), "LiveKit error: l");
    assert_eq!(RealtimeError::avatar("down").to_string(), "Provider error: avatar: down");
    assert_eq!(
        RealtimeError::write_failed(RealtimeError::SessionClosed, DeliveryCertainty::Indeterminate).to_string(),
        "Write failed (Indeterminate): Session already closed"
    );
}
