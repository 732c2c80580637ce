//! Error vocabulary of realtime operations.
//!
//! A managed write failure carries a [`DeliveryCertainty`]: whether the managed
//! layer rejected the operation before invoking the provider session
//! (`NotAttempted`) or the provider was invoked and the outcome is unknown
//! (`Indeterminate`).

use vstd::prelude::*;
use crate::recovery::DeliveryCertainty;
use crate::text::{contains_seq, lowercase_of, str_contains, to_lowercase};

verus! {

/// Kind of an operating-system I/O failure, as far as recovery cares.
#[derive(Debug, Clone, Copy, PartialEq, Eq, Structural)]
pub enum IoErrorKind {
    ConnectionReset,
    BrokenPipe,
    ConnectionAborted,
    Other,
}

/// Errors that can occur during realtime operations.
#[derive(Debug)]
pub enum RealtimeError {
    /// WebSocket connection error.
    ConnectionError(String),
    /// WebSocket message error.
    MessageError(String),
    /// Protocol error (malformed provider payloads).
    Protocol(String),
    /// Authentication error.
    AuthError(String),
    /// Session not connected.
    NotConnected,
    /// Session already closed.
    SessionClosed,
    /// Invalid configuration.
    ConfigError(String),
    /// Audio format error.
    AudioFormatError(String),
    /// Tool execution error.
    ToolError(String),
    /// Server returned an error.
    ServerError { code: String, message: String },
    /// Timeout waiting for response.
    Timeout(String),
    /// Serialization/deserialization error, by its message.
    SerializationError(String),
    /// Provider-specific error.
    ProviderError(String),
    /// Generic I/O error: its kind and message.
    IoError { kind: IoErrorKind, message: String },
    /// Opus codec error.
    OpusCodecError(String),
    /// WebRTC error.
    WebRTCError(String),
    /// LiveKit bridge error.
    LiveKitError(String),
    /// Managed write failure with local provider-invocation certainty.
    WriteFailed { error: Box<RealtimeError>, certainty: DeliveryCertainty },
}

/// The phrases whose presence (after lowercasing) marks a transport reset.
pub open spec fn has_reset_phrase(lower: Seq<char>) -> bool {
    contains_seq(lower, "connection reset"@) || contains_seq(lower, "econnreset"@)
        || contains_seq(lower, "broken pipe"@) || contains_seq(lower, "connection aborted"@)
        || contains_seq(lower, "econnaborted"@)
}


/// The human-readable text of an error.
pub open spec fn error_text(e: RealtimeError) -> Seq<char>
    decreases e,
{
    match e {
        RealtimeError::ConnectionError(m) => "WebSocket connection error: "@ + m@,
        RealtimeError::MessageError(m) => "WebSocket message error: "@ + m@,
        RealtimeError::Protocol(m) => "Protocol error: "@ + m@,
        RealtimeError::AuthError(m) => "Authentication error: "@ + m@,
        RealtimeError::NotConnected => "Session not connected"@,
        RealtimeError::SessionClosed => "Session already closed"@,
        RealtimeError::ConfigError(m) => "Invalid configuration: "@ + m@,
        RealtimeError::AudioFormatError(m) => "Audio format error: "@ + m@,
        RealtimeError::ToolError(m) => "Tool execution error: "@ + m@,
        RealtimeError::ServerError { code, message } => "Server error: "@ + code@ + " - "@ + message@,
        RealtimeError::Timeout(m) => "Timeout: "@ + m@,
        RealtimeError::SerializationError(m) => "Serialization error: "@ + m@,
        RealtimeError::ProviderError(m) => "Provider error: "@ + m@,
        RealtimeError::IoError { message, .. } => "IO error: "@ + message@,
        RealtimeError::OpusCodecError(m) => "Opus codec error: "@ + m@,
        RealtimeError::WebRTCError(m) => "WebRTC error: "@ + m@,
        RealtimeError::LiveKitError(m) => "LiveKit error: "@ + m@,
        RealtimeError::WriteFailed { error, certainty } => "Write failed ("@ + match certainty {
            DeliveryCertainty::NotAttempted => "NotAttempted"@,
            DeliveryCertainty::Indeterminate => "Indeterminate"@,
        } + "): "@ + error_text(*error),
    }
}

/// `prefix` followed by `rest`.
fn prefixed(prefix: &str, rest: &str) -> (s: String)
    ensures
        s@ == prefix@ + rest@,
{
    let mut s = String::from_str(prefix);
    s.append(rest);
    s
}

/// Whether an error is a low-level transport reset fact.
pub open spec fn spec_is_connection_reset(e: RealtimeError) -> bool
    decreases e,
{
    match e {
        RealtimeError::ConnectionError(m) => has_reset_phrase(lowercase_of(m@)),
        RealtimeError::MessageError(m) => has_reset_phrase(lowercase_of(m@)),
        RealtimeError::IoError { kind, .. } => kind == IoErrorKind::ConnectionReset
            || kind == IoErrorKind::BrokenPipe || kind == IoErrorKind::ConnectionAborted,
        RealtimeError::WriteFailed { error, .. } => spec_is_connection_reset(*error),
        _ => false,
    }
}

fn message_has_reset_phrase(msg: &String) -> (b: bool)
    ensures
        b == has_reset_phrase(lowercase_of(msg@)),
{
    let lower = to_lowercase(msg.as_str());
    let l = lower.as_str();
    proof {
        reveal_strlit("connection reset");
        reveal_strlit("econnreset");
        reveal_strlit("broken pipe");
        reveal_strlit("connection aborted");
        reveal_strlit("econnaborted");
    }
    str_contains(l, "connection reset") || str_contains(l, "econnreset") || str_contains(
        l,
        "broken pipe",
    ) || str_contains(l, "connection aborted") || str_contains(l, "econnaborted")
}

impl Clone for RealtimeError {
    fn clone(&self) -> (r: Self)
        ensures
            r == *self,
        decreases *self,
    {
        match self {
            RealtimeError::ConnectionError(m) => RealtimeError::ConnectionError(m.clone()),
            RealtimeError::MessageError(m) => RealtimeError::MessageError(m.clone()),
            RealtimeError::Protocol(m) => RealtimeError::Protocol(m.clone()),
            RealtimeError::AuthError(m) => RealtimeError::AuthError(m.clone()),
            RealtimeError::NotConnected => RealtimeError::NotConnected,
            RealtimeError::SessionClosed => RealtimeError::SessionClosed,
            RealtimeError::ConfigError(m) => RealtimeError::ConfigError(m.clone()),
            RealtimeError::AudioFormatError(m) => RealtimeError::AudioFormatError(m.clone()),
            RealtimeError::ToolError(m) => RealtimeError::ToolError(m.clone()),
            RealtimeError::ServerError { code, message } => RealtimeError::ServerError {
                code: code.clone(),
                message: message.clone(),
            },
            RealtimeError::Timeout(m) => RealtimeError::Timeout(m.clone()),
            RealtimeError::SerializationError(m) => RealtimeError::SerializationError(m.clone()),
            RealtimeError::ProviderError(m) => RealtimeError::ProviderError(m.clone()),
            RealtimeError::IoError { kind, message } => RealtimeError::IoError {
                kind: *kind,
                message: message.clone(),
            },
            RealtimeError::OpusCodecError(m) => RealtimeError::OpusCodecError(m.clone()),
            RealtimeError::WebRTCError(m) => RealtimeError::WebRTCError(m.clone()),
            RealtimeError::LiveKitError(m) => RealtimeError::LiveKitError(m.clone()),
            RealtimeError::WriteFailed { error, certainty } => {
                let inner: RealtimeError = (**error).clone();
                RealtimeError::WriteFailed { error: Box::new(inner), certainty: *certainty }
            },
        }
    }
}

impl RealtimeError {
    /// Create a new connection error.
    pub fn connection(msg: String) -> (e: Self)
        ensures
            e == RealtimeError::ConnectionError(msg),
    {
        RealtimeError::ConnectionError(msg)
    }

    /// Create a new server error.
    pub fn server(code: String, message: String) -> (e: Self)
        ensures
            e == (RealtimeError::ServerError { code, message }),
    {
        RealtimeError::ServerError { code, message }
    }

    /// Create a new provider error.
    pub fn provider(msg: String) -> (e: Self)
        ensures
            e == RealtimeError::ProviderError(msg),
    {
        RealtimeError::ProviderError(msg)
    }

    /// Create a new avatar provider error: a provider error whose message is
    /// prefixed with `avatar: `.
    pub fn avatar(msg: &str) -> (e: Self)
        ensures
            e matches RealtimeError::ProviderError(m) && m@ == "avatar: "@ + msg@,
    {
        let mut m = String::from_str("avatar: ");
        m.append(msg);
        proof {
            reveal_strlit("avatar: ");
        }
        RealtimeError::ProviderError(m)
    }

    /// Create a new configuration error.
    pub fn config(msg: String) -> (e: Self)
        ensures
            e == RealtimeError::ConfigError(msg),
    {
        RealtimeError::ConfigError(msg)
    }

    /// Create a new protocol error.
    pub fn protocol(msg: String) -> (e: Self)
        ensures
            e == RealtimeError::Protocol(msg),
    {
        RealtimeError::Protocol(msg)
    }

    /// Create a new audio format error.
    pub fn audio(msg: String) -> (e: Self)
        ensures
            e == RealtimeError::AudioFormatError(msg),
    {
        RealtimeError::AudioFormatError(msg)
    }

    /// Create a new Opus codec error.
    pub fn opus(msg: String) -> (e: Self)
        ensures
            e == RealtimeError::OpusCodecError(msg),
    {
        RealtimeError::OpusCodecError(msg)
    }

    /// Create a new WebRTC error.
    pub fn webrtc(msg: String) -> (e: Self)
        ensures
            e == RealtimeError::WebRTCError(msg),
    {
        RealtimeError::WebRTCError(msg)
    }

    /// Create a new LiveKit error.
    pub fn livekit(msg: String) -> (e: Self)
        ensures
            e == RealtimeError::LiveKitError(msg),
    {
        RealtimeError::LiveKitError(msg)
    }

    /// Create a managed write failure with the supplied delivery certainty.
    pub fn write_failed(err: RealtimeError, certainty: DeliveryCertainty) -> (e: Self)
        ensures
            e == (RealtimeError::WriteFailed { error: Box::new(err), certainty }),
    {
        RealtimeError::WriteFailed { error: Box::new(err), certainty }
    }

    /// The delivery certainty carried by a managed write failure; `None` for
    /// every other error.
    pub fn delivery_certainty(&self) -> (c: Option<DeliveryCertainty>)
        ensures
            c == match *self {
                RealtimeError::WriteFailed { certainty, .. } => Some(certainty),
                _ => None,
            },
    {
        match self {
            RealtimeError::WriteFailed { certainty, .. } => Some(*certainty),
            _ => None,
        }
    }

    /// The human-readable text of the error (see `error_text`).
    pub fn to_string(&self) -> (s: String)
        ensures
            s@ == error_text(*self),
        decreases *self,
    {
        match self {
            RealtimeError::ConnectionError(m) => prefixed("WebSocket connection error: ", m.as_str()),
            RealtimeError::MessageError(m) => prefixed("WebSocket message error: ", m.as_str()),
            RealtimeError::Protocol(m) => prefixed("Protocol error: ", m.as_str()),
            RealtimeError::AuthError(m) => prefixed("Authentication error: ", m.as_str()),
            RealtimeError::NotConnected => String::from_str("Session not connected"),
            RealtimeError::SessionClosed => String::from_str("Session already closed"),
            RealtimeError::ConfigError(m) => prefixed("Invalid configuration: ", m.as_str()),
            RealtimeError::AudioFormatError(m) => prefixed("Audio format error: ", m.as_str()),
            RealtimeError::ToolError(m) => prefixed("Tool execution error: ", m.as_str()),
            RealtimeError::ServerError { code, message } => {
                let mut s = prefixed("Server error: ", code.as_str());
                s.append(" - ");
                s.append(message.as_str());
                s
            },
            RealtimeError::Timeout(m) => prefixed("Timeout: ", m.as_str()),
            RealtimeError::SerializationError(m) => prefixed("Serialization error: ", m.as_str()),
            RealtimeError::ProviderError(m) => prefixed("Provider error: ", m.as_str()),
            RealtimeError::IoError { message, .. } => prefixed("IO error: ", message.as_str()),
            RealtimeError::OpusCodecError(m) => prefixed("Opus codec error: ", m.as_str()),
            RealtimeError::WebRTCError(m) => prefixed("WebRTC error: ", m.as_str()),
            RealtimeError::LiveKitError(m) => prefixed("LiveKit error: ", m.as_str()),
            RealtimeError::WriteFailed { error, certainty } => {
                let mut s = String::from_str("Write failed (");
                match certainty {
                    DeliveryCertainty::NotAttempted => s.append("NotAttempted"),
                    DeliveryCertainty::Indeterminate => s.append("Indeterminate"),
                }
                s.append("): ");
                let inner = error.to_string();
                s.append(inner.as_str());
                s
            },
        }
    }

    /// Whether this error is a conservative transport-reset fact: a
    /// connection/message error whose lowercased text names a reset, broken
    /// pipe or aborted connection; an I/O error of one of those kinds; or a
    /// write failure wrapping such an error.
    pub fn is_connection_reset(&self) -> (b: bool)
        ensures
            b == spec_is_connection_reset(*self),
        decreases *self,
    {
        match self {
            RealtimeError::ConnectionError(msg) => message_has_reset_phrase(msg),
            RealtimeError::MessageError(msg) => message_has_reset_phrase(msg),
            RealtimeError::IoError { kind, .. } => {
                *kind == IoErrorKind::ConnectionReset || *kind == IoErrorKind::BrokenPipe
                    || *kind == IoErrorKind::ConnectionAborted
            },
            RealtimeError::WriteFailed { error, .. } => error.is_connection_reset(),
            _ => false,
        }
    }
}

} // verus!
