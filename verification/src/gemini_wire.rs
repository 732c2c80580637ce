//! The JSON form of Gemini Live client frames: camel-case member names, and
//! an absent optional field left out rather than written as `null`.

use vstd::prelude::*;
use crate::gemini_frames::spec_as_array;
use crate::gemini_outbound::{
    GeminiClientContent, GeminiClientMessage, GeminiInlineData, GeminiMediaChunk, GeminiPart, GeminiRealtimeInput,
    GeminiTurn,
};
use crate::json::{member_count, push_member, spec_as_bool, spec_as_str, spec_get, Json, JsonMember};
use crate::text::{decimal_text, hex_fixed, u64_to_decimal, u64_to_hex_fixed};

verus! {

/// One for a present optional field, zero for an absent one.
pub open spec fn present<T>(o: Option<T>) -> nat {
    if o is Some {
        1
    } else {
        0
    }
}

/// `j` is the JSON of a media chunk (or of inline data) with these fields.
pub open spec fn blob_json(j: Json, mime_type: Seq<char>, data: Seq<char>) -> bool {
    &&& j is Object
    &&& member_count(j) == 2
    &&& spec_as_str(spec_get(j, "mimeType"@)) == Some(mime_type)
    &&& spec_as_str(spec_get(j, "data"@)) == Some(data)
}

/// `v` is the JSON of an optional text field.
pub open spec fn text_field(v: Option<Json>, t: Option<String>) -> bool {
    match t {
        Some(s) => spec_as_str(v) == Some(s@),
        None => v is None,
    }
}

/// `j` is the JSON of part `p`.
pub open spec fn part_json_of(j: Json, p: GeminiPart) -> bool {
    &&& j is Object
    &&& member_count(j) == present(p.text) + present(p.inline_data)
    &&& text_field(spec_get(j, "text"@), p.text)
    &&& match p.inline_data {
        Some(d) => spec_get(j, "inlineData"@) matches Some(x) && blob_json(x, d.mime_type@, d.data@),
        None => spec_get(j, "inlineData"@) is None,
    }
}

/// `j` is the JSON of turn `t`.
pub open spec fn turn_json_of(j: Json, t: GeminiTurn) -> bool {
    &&& j is Object
    &&& member_count(j) == 2
    &&& spec_as_str(spec_get(j, "role"@)) == Some(t.role@)
    &&& spec_as_array(spec_get(j, "parts"@)) matches Some(a) && a.len() == t.parts@.len() && forall|i: int|
        0 <= i < a.len() ==> #[trigger] part_json_of(a[i], t.parts@[i])
}

/// `j` is the JSON of a `clientContent` envelope `c`.
pub open spec fn content_json_of(j: Json, c: GeminiClientContent) -> bool {
    &&& j is Object
    &&& member_count(j) == 2
    &&& spec_as_bool(spec_get(j, "turnComplete"@)) == Some(c.turn_complete)
    &&& spec_as_array(spec_get(j, "turns"@)) matches Some(a) && a.len() == c.turns@.len() && forall|i: int|
        0 <= i < a.len() ==> #[trigger] turn_json_of(a[i], c.turns@[i])
}

/// `j` is the JSON of a `realtimeInput` envelope `r`.
pub open spec fn realtime_json_of(j: Json, r: GeminiRealtimeInput) -> bool {
    &&& j is Object
    &&& member_count(j) == present(r.audio) + present(r.media_chunks) + present(r.text)
    &&& match r.audio {
        Some(a) => spec_get(j, "audio"@) matches Some(x) && blob_json(x, a.mime_type@, a.data@),
        None => spec_get(j, "audio"@) is None,
    }
    &&& match r.media_chunks {
        Some(cs) => spec_as_array(spec_get(j, "mediaChunks"@)) matches Some(a) && a.len() == cs@.len()
            && forall|i: int| 0 <= i < a.len() ==> #[trigger] blob_json(a[i], cs@[i].mime_type@, cs@[i].data@),
        None => spec_get(j, "mediaChunks"@) is None,
    }
    &&& text_field(spec_get(j, "text"@), r.text)
}

/// `j` is the JSON of client frame `m`: one member per present envelope, the
/// setup and tool-response values as carried.
pub open spec fn message_json_of(j: Json, m: GeminiClientMessage) -> bool {
    &&& j is Object
    &&& member_count(j) == present(m.setup) + present(m.realtime_input) + present(m.tool_response) + present(
        m.client_content,
    )
    &&& spec_get(j, "setup"@) == m.setup
    &&& spec_get(j, "toolResponse"@) == m.tool_response
    &&& match m.realtime_input {
        Some(r) => spec_get(j, "realtimeInput"@) matches Some(x) && realtime_json_of(x, r),
        None => spec_get(j, "realtimeInput"@) is None,
    }
    &&& match m.client_content {
        Some(c) => spec_get(j, "clientContent"@) matches Some(x) && content_json_of(x, c),
        None => spec_get(j, "clientContent"@) is None,
    }
}

fn blob(mime_type: &String, data: &String) -> (j: Json)
    ensures
        blob_json(j, mime_type@, data@),
{
    proof {
        reveal_strlit("mimeType");
        reveal_strlit("data");
        assert("mimeType"@.len() == 8 && "data"@.len() == 4);
    }
    let mut members: Vec<JsonMember> = Vec::new();
    push_member(&mut members, "mimeType", Json::Str(mime_type.clone()));
    push_member(&mut members, "data", Json::Str(data.clone()));
    Json::Object(members)
}

fn media_chunk_json(c: &GeminiMediaChunk) -> (j: Json)
    ensures
        blob_json(j, c.mime_type@, c.data@),
{
    blob(&c.mime_type, &c.data)
}

fn inline_data_json(d: &GeminiInlineData) -> (j: Json)
    ensures
        blob_json(j, d.mime_type@, d.data@),
{
    blob(&d.mime_type, &d.data)
}

fn part_json(p: &GeminiPart) -> (j: Json)
    ensures
        part_json_of(j, *p),
{
    proof {
        reveal_strlit("text");
        reveal_strlit("inlineData");
        assert("text"@.len() == 4 && "inlineData"@.len() == 10);
    }
    let mut members: Vec<JsonMember> = Vec::new();
    match &p.text {
        Some(t) => push_member(&mut members, "text", Json::Str(t.clone())),
        None => {},
    }
    match &p.inline_data {
        Some(d) => push_member(&mut members, "inlineData", inline_data_json(d)),
        None => {},
    }
    Json::Object(members)
}

fn turn_json(t: &GeminiTurn) -> (j: Json)
    ensures
        turn_json_of(j, *t),
{
    proof {
        reveal_strlit("role");
        reveal_strlit("parts");
        assert("role"@.len() == 4 && "parts"@.len() == 5);
    }
    let mut parts: Vec<Json> = Vec::new();
    let mut i: usize = 0;
    while i < t.parts.len()
        invariant
            i <= t.parts@.len(),
            parts@.len() == i,
            forall|k: int| 0 <= k < i ==> #[trigger] part_json_of(parts@[k], t.parts@[k]),
        decreases t.parts@.len() - i,
    {
        parts.push(part_json(&t.parts[i]));
        i = i + 1;
    }
    let mut members: Vec<JsonMember> = Vec::new();
    push_member(&mut members, "role", Json::Str(t.role.clone()));
    push_member(&mut members, "parts", Json::Array(parts));
    Json::Object(members)
}

fn content_json(c: &GeminiClientContent) -> (j: Json)
    ensures
        content_json_of(j, *c),
{
    proof {
        reveal_strlit("turns");
        reveal_strlit("turnComplete");
        assert("turns"@.len() == 5 && "turnComplete"@.len() == 12);
    }
    let mut turns: Vec<Json> = Vec::new();
    let mut i: usize = 0;
    while i < c.turns.len()
        invariant
            i <= c.turns@.len(),
            turns@.len() == i,
            forall|k: int| 0 <= k < i ==> #[trigger] turn_json_of(turns@[k], c.turns@[k]),
        decreases c.turns@.len() - i,
    {
        turns.push(turn_json(&c.turns[i]));
        i = i + 1;
    }
    let mut members: Vec<JsonMember> = Vec::new();
    push_member(&mut members, "turns", Json::Array(turns));
    push_member(&mut members, "turnComplete", Json::Bool(c.turn_complete));
    Json::Object(members)
}

fn realtime_json(r: &GeminiRealtimeInput) -> (j: Json)
    ensures
        realtime_json_of(j, *r),
{
    proof {
        reveal_strlit("audio");
        reveal_strlit("mediaChunks");
        reveal_strlit("text");
        assert("audio"@.len() == 5 && "mediaChunks"@.len() == 11 && "text"@.len() == 4);
    }
    let mut members: Vec<JsonMember> = Vec::new();
    match &r.audio {
        Some(a) => push_member(&mut members, "audio", media_chunk_json(a)),
        None => {},
    }
    match &r.media_chunks {
        Some(cs) => {
            let mut items: Vec<Json> = Vec::new();
            let mut i: usize = 0;
            while i < cs.len()
                invariant
                    i <= cs@.len(),
                    items@.len() == i,
                    forall|k: int|
                        0 <= k < i ==> #[trigger] blob_json(items@[k], cs@[k].mime_type@, cs@[k].data@),
                decreases cs@.len() - i,
            {
                items.push(media_chunk_json(&cs[i]));
                i = i + 1;
            }
            push_member(&mut members, "mediaChunks", Json::Array(items));
        },
        None => {},
    }
    match &r.text {
        Some(t) => push_member(&mut members, "text", Json::Str(t.clone())),
        None => {},
    }
    Json::Object(members)
}

/// The JSON of a client frame.
pub fn client_message_json(msg: GeminiClientMessage) -> (j: Json)
    ensures
        message_json_of(j, msg),
{
    proof {
        reveal_strlit("setup");
        reveal_strlit("realtimeInput");
        reveal_strlit("toolResponse");
        reveal_strlit("clientContent");
        assert("setup"@.len() == 5 && "toolResponse"@.len() == 12);
        assert("realtimeInput"@.len() == 13 && "clientContent"@.len() == 13);
        assert("realtimeInput"@[0] != "clientContent"@[0]);
    }
    let ghost m = msg;
    let GeminiClientMessage { setup, realtime_input, tool_response, client_content } = msg;
    let mut members: Vec<JsonMember> = Vec::new();
    match setup {
        Some(s) => push_member(&mut members, "setup", s),
        None => {},
    }
    match &realtime_input {
        Some(r) => push_member(&mut members, "realtimeInput", realtime_json(r)),
        None => {},
    }
    match tool_response {
        Some(t) => push_member(&mut members, "toolResponse", t),
        None => {},
    }
    match &client_content {
        Some(c) => push_member(&mut members, "clientContent", content_json(c)),
        None => {},
    }
    Json::Object(members)
}

/// Why a server frame did not parse as JSON.
#[derive(Debug, Clone, Copy, PartialEq, Eq)]
pub enum ParseCategory {
    Io,
    Syntax,
    Data,
    Eof,
}

/// The name of a parse category.
pub open spec fn category_name(c: ParseCategory) -> Seq<char> {
    match c {
        ParseCategory::Io => "io"@,
        ParseCategory::Syntax => "syntax"@,
        ParseCategory::Data => "data"@,
        ParseCategory::Eof => "eof"@,
    }
}

/// The description of a frame that did not parse: its category, its length
/// in bytes, its hash as sixteen hexadecimal digits, and where parsing
/// stopped. Nothing of the frame's text appears in it.
pub open spec fn unparseable_text(c: ParseCategory, byte_length: nat, payload_hash: nat, line: nat, column: nat) -> Seq<
    char,
> {
    "invalid Gemini frame (category="@ + category_name(c) + ", byte_length="@ + decimal_text(byte_length)
        + ", payload_hash="@ + hex_fixed(payload_hash, 16) + ", line="@ + decimal_text(line) + ", column="@
        + decimal_text(column) + ")"@
}

fn category_text(c: ParseCategory) -> (s: &'static str)
    ensures
        s@ == category_name(c),
{
    match c {
        ParseCategory::Io => "io",
        ParseCategory::Syntax => "syntax",
        ParseCategory::Data => "data",
        ParseCategory::Eof => "eof",
    }
}

/// Describes a frame that could not be parsed, without quoting it: the parse
/// category, the frame's length, a hash of it (to tell frames apart and to
/// correlate with a capture) and the line and column where parsing stopped.
pub fn unparseable_frame_message(category: ParseCategory, byte_length: u64, payload_hash: u64, line: u64, column: u64) -> (m:
    String)
    ensures
        m@ == unparseable_text(category, byte_length as nat, payload_hash as nat, line as nat, column as nat),
{
    let mut m = String::from_str("invalid Gemini frame (category=");
    m.append(category_text(category));
    m.append(", byte_length=");
    m.append(u64_to_decimal(byte_length).as_str());
    m.append(", payload_hash=");
    m.append(u64_to_hex_fixed(payload_hash, 16).as_str());
    m.append(", line=");
    m.append(u64_to_decimal(line).as_str());
    m.append(", column=");
    m.append(u64_to_decimal(column).as_str());
    m.append(")");
    m
}

} // verus!
