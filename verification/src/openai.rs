//! OpenAI realtime over WebRTC: the model descriptor, and the client events
//! that the session's operations send over the data channel. The peer
//! connection itself is transport and lives outside the verified library.

use vstd::prelude::*;
use crate::audio::AudioChunk;
use crate::error::RealtimeError;
use crate::events::{ClientEvent, ToolResponse};
use crate::gemini_frames::spec_as_array;
use crate::json::{member_count, push_member, spec_as_str, spec_get, Json, JsonMember};

verus! {

/// An OpenAI realtime model reached over WebRTC.
#[derive(Debug)]
pub struct OpenAiWebRtcModel {
    pub model_id: String,
    pub api_key: String,
}

impl OpenAiWebRtcModel {
    /// A descriptor for `model_id`, authenticated with `api_key`.
    pub fn new(model_id: String, api_key: String) -> (m: Self)
        ensures
            m.model_id == model_id,
            m.api_key == api_key,
    {
        OpenAiWebRtcModel { model_id, api_key }
    }
}

/// `item` is a user message holding the one input text `text`:
/// `{"type": "message", "role": "user", "content": [{"type": "input_text", "text": text}]}`.
pub open spec fn user_text_item(item: Json, text: Seq<char>) -> bool {
    &&& item is Object
    &&& member_count(item) == 3
    &&& spec_as_str(spec_get(item, "type"@)) == Some("message"@)
    &&& spec_as_str(spec_get(item, "role"@)) == Some("user"@)
    &&& spec_as_array(spec_get(item, "content"@)) matches Some(parts) && parts.len() == 1 && parts[0] is Object
        && member_count(parts[0]) == 2 && spec_as_str(spec_get(parts[0], "type"@)) == Some("input_text"@)
        && spec_as_str(spec_get(parts[0], "text"@)) == Some(text)
}

/// The event that sends `text` as a user message.
pub fn text_message_event(text: &str) -> (e: ClientEvent)
    ensures
        e matches ClientEvent::ConversationItemCreate { item } && user_text_item(item, text@),
{
    proof {
        reveal_strlit("type");
        reveal_strlit("role");
        reveal_strlit("content");
        reveal_strlit("text");
        reveal_strlit("message");
        reveal_strlit("user");
        reveal_strlit("input_text");
        assert("type"@.len() == 4 && "role"@.len() == 4 && "content"@.len() == 7 && "text"@.len() == 4);
        assert("type"@[0] != "role"@[0] && "type"@[1] != "text"@[1]);
    }
    let mut part: Vec<JsonMember> = Vec::new();
    push_member(&mut part, "type", Json::Str(String::from_str("input_text")));
    push_member(&mut part, "text", Json::Str(text.to_owned()));
    let mut content: Vec<Json> = Vec::new();
    content.push(Json::Object(part));
    let mut item: Vec<JsonMember> = Vec::new();
    push_member(&mut item, "type", Json::Str(String::from_str("message")));
    push_member(&mut item, "role", Json::Str(String::from_str("user")));
    push_member(&mut item, "content", Json::Array(content));
    ClientEvent::ConversationItemCreate { item: Json::Object(item) }
}

/// The event that answers a tool call:
/// `{"type": "function_call_output", "call_id": <call id>, "output": <output>}`.
pub fn tool_output_event(response: ToolResponse) -> (e: ClientEvent)
    ensures
        e matches ClientEvent::ConversationItemCreate { item } && {
            &&& item is Object
            &&& member_count(item) == 3
            &&& spec_as_str(spec_get(item, "type"@)) == Some("function_call_output"@)
            &&& spec_as_str(spec_get(item, "call_id"@)) == Some(response.call_id@)
            &&& spec_get(item, "output"@) == Some(response.output)
        },
{
    proof {
        reveal_strlit("type");
        reveal_strlit("call_id");
        reveal_strlit("output");
        reveal_strlit("function_call_output");
        assert("type"@.len() == 4 && "call_id"@.len() == 7 && "output"@.len() == 6);
    }
    let ToolResponse { call_id, output } = response;
    let mut item: Vec<JsonMember> = Vec::new();
    push_member(&mut item, "type", Json::Str(String::from_str("function_call_output")));
    push_member(&mut item, "call_id", Json::Str(call_id));
    push_member(&mut item, "output", output);
    ClientEvent::ConversationItemCreate { item: Json::Object(item) }
}

/// The event that carries a chunk of audio over the data channel: the raw
/// bytes with their format.
pub fn audio_event(audio: AudioChunk) -> (e: ClientEvent)
    ensures
        e == (ClientEvent::AudioDelta { event_id: None, audio: audio.data, format: Some(audio.format) }),
{
    let AudioChunk { data, format } = audio;
    ClientEvent::AudioDelta { event_id: None, audio: data, format: Some(format) }
}

/// The events that interrupt the model: cancel the response, then clear the
/// input buffer.
pub fn interrupt_events() -> (es: Vec<ClientEvent>)
    ensures
        es@ == seq![ClientEvent::ResponseCancel, ClientEvent::InputAudioBufferClear],
{
    let mut es: Vec<ClientEvent> = Vec::new();
    es.push(ClientEvent::ResponseCancel);
    es.push(ClientEvent::InputAudioBufferClear);
    es
}

/// Base64 audio has no WebRTC path: the refusal.
pub fn base64_audio_unsupported() -> (e: RealtimeError)
    ensures
        e matches RealtimeError::ConnectionError(m) && m@ == "Base64 audio not supported in WebRTC"@,
{
    RealtimeError::connection(String::from_str("Base64 audio not supported in WebRTC"))
}

} // verus!
