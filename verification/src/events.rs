//! Event vocabulary of realtime communication, abstracting over
//! provider-specific formats. Audio is carried as raw bytes; free-form JSON
//! payloads as [`Json`] values.

use vstd::prelude::*;
use crate::audio::AudioFormat;
use crate::config::ToolDefinition;
use crate::json::Json;
use crate::text::{all_ws, is_blank};

verus! {

/// A content part of a standard message.
#[derive(Debug)]
pub enum Part {
    Text { text: String },
    InlineData { mime_type: String, data: Vec<u8> },
    FileData { file_uri: String, mime_type: String },
    Thinking { thinking: String },
    FunctionCall { name: String, args: Json },
    FunctionResponse { name: String, response: Json },
    ServerToolCall { name: String },
    ServerToolResponse { name: String },
    EmbeddedResource { uri: String },
}

/// Events sent from the client to the realtime server.
#[derive(Debug)]
pub enum ClientEvent {
    /// Update session configuration.
    SessionUpdate { session: Json },
    /// Append audio to the input buffer.
    AudioDelta { event_id: Option<String>, audio: Vec<u8>, format: Option<AudioFormat> },
    /// Commit the current audio buffer.
    InputAudioBufferCommit,
    /// Clear the audio input buffer.
    InputAudioBufferClear,
    /// Send a text message or tool response.
    ConversationItemCreate { item: Json },
    /// Trigger a response from the model.
    ResponseCreate { config: Option<Json> },
    /// Cancel the current response.
    ResponseCancel,
    /// A standard message with a role and content parts.
    Message { role: String, parts: Vec<Part> },
    /// An intent to update the session configuration mid-flight; intercepted
    /// by the runner, never sent to a provider.
    UpdateSession { instructions: Option<String>, tools: Option<Vec<ToolDefinition>> },
}

/// A conversation item for text or tool responses.
#[derive(Debug)]
pub struct ConversationItem {
    pub id: Option<String>,
    /// `message` or `function_call_output`.
    pub item_type: String,
    pub role: Option<String>,
    pub content: Option<Vec<ContentPart>>,
    pub call_id: Option<String>,
    pub output: Option<String>,
}

/// A content part within a conversation item.
#[derive(Debug)]
pub struct ContentPart {
    pub content_type: String,
    pub text: Option<String>,
    pub audio: Option<String>,
    pub transcript: Option<String>,
}

impl ConversationItem {
    /// A user text message: type `message`, role `user`, one `input_text` part.
    pub fn user_text(text: String) -> (c: Self)
        ensures
            c.id is None,
            c.item_type@ == "message"@,
            c.role matches Some(r) && r@ == "user"@,
            c.content matches Some(parts) && parts@.len() == 1 && parts@[0].content_type@
                == "input_text"@ && parts@[0].text == Some(text) && parts@[0].audio is None
                && parts@[0].transcript is None,
            c.call_id is None,
            c.output is None,
    {
        proof {
            reveal_strlit("message");
            reveal_strlit("user");
            reveal_strlit("input_text");
        }
        let part = ContentPart {
            content_type: String::from_str("input_text"),
            text: Some(text),
            audio: None,
            transcript: None,
        };
        let mut parts: Vec<ContentPart> = Vec::new();
        parts.push(part);
        ConversationItem {
            id: None,
            item_type: String::from_str("message"),
            role: Some(String::from_str("user")),
            content: Some(parts),
            call_id: None,
            output: None,
        }
    }

    /// A tool response item: type `function_call_output` with the call id and
    /// output.
    pub fn tool_response(call_id: String, output: String) -> (c: Self)
        ensures
            c.id is None,
            c.item_type@ == "function_call_output"@,
            c.role is None,
            c.content is None,
            c.call_id == Some(call_id),
            c.output == Some(output),
    {
        proof {
            reveal_strlit("function_call_output");
        }
        ConversationItem {
            id: None,
            item_type: String::from_str("function_call_output"),
            role: None,
            content: None,
            call_id: Some(call_id),
            output: Some(output),
        }
    }
}

/// Identifier of a provider-issued function call; never empty or blank.
#[derive(Debug, Clone, PartialEq, Eq, Hash)]
pub struct ToolCallId(String);

/// A tool call id was empty or whitespace-only.
#[derive(Debug, Clone, Copy, PartialEq, Eq, Structural)]
pub struct EmptyToolCallId;

impl EmptyToolCallId {
    /// The error message: `tool call id is empty`.
    pub fn to_string(&self) -> (s: String)
        ensures
            s@ == "tool call id is empty"@,
    {
        proof {
            reveal_strlit("tool call id is empty");
        }
        String::from_str("tool call id is empty")
    }
}

impl ToolCallId {
    /// The identifier text.
    pub closed spec fn view(&self) -> Seq<char> {
        self.0@
    }

    /// The identifier carries at least one non-whitespace character.
    pub closed spec fn wf(&self) -> bool {
        !all_ws(self.0@)
    }

    /// Accept a provider-supplied call id, rejecting one that is empty or
    /// whitespace-only.
    pub fn parse(value: String) -> (r: Result<Self, EmptyToolCallId>)
        ensures
            match r {
                Ok(id) => !all_ws(value@) && id.view() == value@ && id.wf(),
                Err(_) => all_ws(value@),
            },
    {
        if is_blank(value.as_str()) {
            return Err(EmptyToolCallId);
        }
        Ok(ToolCallId(value))
    }

    /// Borrow the identifier.
    pub fn as_str(&self) -> (s: &str)
        ensures
            s@ == self.view(),
    {
        self.0.as_str()
    }

    /// The identifier as an owned string.
    pub fn to_string(&self) -> (s: String)
        ensures
            s@ == self.view(),
    {
        self.0.clone()
    }
}

/// Error information from the server.
#[derive(Debug)]
pub struct ErrorInfo {
    pub error_type: String,
    pub code: Option<String>,
    pub message: String,
    pub param: Option<String>,
}

/// Rate limit information (the reset time, a fraction of seconds, is not held).
#[derive(Debug)]
pub struct RateLimit {
    pub name: String,
    pub limit: u64,
    pub remaining: u64,
}

/// Events received from the realtime server.
#[derive(Debug)]
pub enum ServerEvent {
    SessionCreated { event_id: String, session: Json },
    SessionUpdated { event_id: String, session: Json },
    Error { event_id: String, error: ErrorInfo },
    SpeechStarted { event_id: String, audio_start_ms: u64 },
    SpeechStopped { event_id: String, audio_end_ms: u64 },
    AudioCommitted { event_id: String, item_id: String },
    AudioCleared { event_id: String },
    ItemCreated { event_id: String, item: Json },
    ResponseCreated { event_id: String, response: Json },
    ResponseDone { event_id: String, response: Json },
    /// The in-flight response was cancelled (barge-in); queued playback must
    /// be discarded.
    ResponseCancelled { event_id: String },
    /// The provider withdrew function calls it had issued.
    ToolCallCancelled { call_ids: Vec<ToolCallId> },
    /// The provider announced a planned connection rotation.
    PlannedRotation { time_left: Option<String> },
    OutputItemAdded { event_id: String, response_id: String, output_index: u32, item: Json },
    OutputItemDone { event_id: String, response_id: String, output_index: u32, item: Json },
    AudioDelta {
        event_id: String,
        response_id: String,
        item_id: String,
        output_index: u32,
        content_index: u32,
        delta: Vec<u8>,
    },
    AudioDone {
        event_id: String,
        response_id: String,
        item_id: String,
        output_index: u32,
        content_index: u32,
    },
    TextDelta {
        event_id: String,
        response_id: String,
        item_id: String,
        output_index: u32,
        content_index: u32,
        delta: String,
    },
    TextDone {
        event_id: String,
        response_id: String,
        item_id: String,
        output_index: u32,
        content_index: u32,
        text: String,
    },
    TranscriptDelta {
        event_id: String,
        response_id: String,
        item_id: String,
        output_index: u32,
        content_index: u32,
        delta: String,
    },
    TranscriptDone {
        event_id: String,
        response_id: String,
        item_id: String,
        output_index: u32,
        content_index: u32,
        transcript: String,
    },
    FunctionCallDelta {
        event_id: String,
        response_id: String,
        item_id: String,
        output_index: u32,
        call_id: String,
        delta: String,
    },
    FunctionCallDone {
        event_id: String,
        response_id: String,
        item_id: String,
        output_index: u32,
        call_id: String,
        name: String,
        arguments: Json,
    },
    RateLimitsUpdated { event_id: String, rate_limits: Vec<RateLimit> },
    /// Streaming partial transcript of the caller's audio.
    InputTranscriptDelta { item_id: String, content_index: u32, delta: String },
    /// Final transcript of one caller input item.
    InputTranscriptCompleted { item_id: String, content_index: u32, transcript: String },
    /// Unknown event type.
    Unknown,
}

/// Which server event showed the caller was active.
#[derive(Debug, Clone, Copy, PartialEq, Eq, Structural)]
pub enum CallerActivitySource {
    TranscriptDelta,
    TranscriptCompleted,
    SpeechStopped,
}

/// A simplified tool call representation.
#[derive(Debug)]
pub struct ToolCall {
    pub call_id: String,
    pub name: String,
    pub arguments: Json,
}

/// A tool response to send back to the model.
#[derive(Debug)]
pub struct ToolResponse {
    pub call_id: String,
    pub output: Json,
}

impl ToolResponse {
    /// A tool response whose output is the JSON string `output`.
    pub fn from_string(call_id: String, output: String) -> (r: Self)
        ensures
            r.call_id == call_id,
            r.output == Json::Str(output),
    {
        ToolResponse { call_id, output: Json::Str(output) }
    }
}

} // verus!
