//! Translation of Gemini Live server frames into unified server events.
//!
//! A frame arrives as a parsed [`Json`] value. The translation is stated by
//! `spec_translate`, which describes each resulting event up to its random
//! event id.

use vstd::prelude::*;
use crate::audio::{base64_decoding, decode_base64};
use crate::error::RealtimeError;
use crate::events::{ServerEvent, ToolCallId};
use crate::json::{
    as_bool, as_str, spec_as_bool, spec_as_str, spec_get, spec_get_opt, Json, JsonMember,
};
use crate::text::all_ws;

verus! {

/// The description of one translated event, without its event id.
pub enum Expected {
    Created(Json),
    Rotation(Option<Seq<char>>),
    Cancelled,
    Audio(Seq<u8>),
    Text(Seq<char>),
    Transcript(Seq<char>),
    InputTranscript(Seq<char>),
    Done(Json),
    ToolCancel(Seq<Seq<char>>),
    Call { index: int, id: Seq<char>, name: Seq<char>, args: Json },
    Unknown,
}

pub open spec fn opt_view(s: Option<String>) -> Option<Seq<char>> {
    match s {
        Some(x) => Some(x@),
        None => None,
    }
}

/// `e` is the event that `x` describes.
pub open spec fn event_matches(e: ServerEvent, x: Expected) -> bool {
    match x {
        Expected::Created(v) => e matches ServerEvent::SessionCreated { session, .. } && session == v,
        Expected::Rotation(t) => e matches ServerEvent::PlannedRotation { time_left } && opt_view(
            time_left,
        ) == t,
        Expected::Cancelled => e is ResponseCancelled,
        Expected::Audio(b) => e matches ServerEvent::AudioDelta {
            response_id,
            item_id,
            output_index,
            content_index,
            delta,
            ..
        } && response_id@.len() == 0 && item_id@.len() == 0 && output_index == 0 && content_index
            == 0 && delta@ == b,
        Expected::Text(t) => e matches ServerEvent::TextDelta {
            response_id,
            item_id,
            output_index,
            content_index,
            delta,
            ..
        } && response_id@.len() == 0 && item_id@.len() == 0 && output_index == 0 && content_index
            == 0 && delta@ == t,
        Expected::Transcript(t) => e matches ServerEvent::TranscriptDelta {
            response_id,
            item_id,
            output_index,
            content_index,
            delta,
            ..
        } && response_id@.len() == 0 && item_id@.len() == 0 && output_index == 0 && content_index
            == 0 && delta@ == t,
        Expected::InputTranscript(t) => e matches ServerEvent::InputTranscriptDelta {
            item_id,
            content_index,
            delta,
        } && item_id@.len() == 0 && content_index == 0 && delta@ == t,
        Expected::Done(v) => e matches ServerEvent::ResponseDone { response, .. } && response == v,
        Expected::ToolCancel(ids) => e matches ServerEvent::ToolCallCancelled { call_ids } && call_ids@.len()
            == ids.len() && forall|i: int| 0 <= i < ids.len() ==> #[trigger] call_ids@[i].view() == ids[i],
        Expected::Call { index, id, name, args } => e matches ServerEvent::FunctionCallDone {
            response_id,
            item_id,
            output_index,
            call_id,
            name: n,
            arguments,
            ..
        } && response_id@.len() == 0 && item_id@.len() == 0 && output_index == index as u32 && call_id@ == id
            && n@ == name && arguments == args,
        Expected::Unknown => e is Unknown,
    }
}

/// `events` are, in order, the events `xs` describes.
pub open spec fn events_match(events: Seq<ServerEvent>, xs: Seq<Expected>) -> bool {
    events.len() == xs.len() && forall|i: int| 0 <= i < xs.len() ==> #[trigger] event_matches(events[i], xs[i])
}

pub open spec fn spec_as_array(v: Option<Json>) -> Option<Seq<Json>> {
    match v {
        Some(Json::Array(items)) => Some(items@),
        _ => None,
    }
}

/// Audio bytes of base64 text, or none when it does not decode.
pub open spec fn decoded_or_empty(text: Seq<char>) -> Seq<u8> {
    match base64_decoding(text) {
        Ok(b) => b,
        Err(_) => Seq::empty(),
    }
}

/// Events of one model-turn part: its inline audio, then its text.
pub open spec fn part_events(p: Json) -> Seq<Expected> {
    let audio = match spec_as_str(spec_get_opt(spec_get(p, "inlineData"@), "data"@)) {
        Some(d) => seq![Expected::Audio(decoded_or_empty(d))],
        None => Seq::empty(),
    };
    let text = match spec_as_str(spec_get(p, "text"@)) {
        Some(t) => seq![Expected::Text(t)],
        None => Seq::empty(),
    };
    audio + text
}

/// Events of the model-turn parts, in order.
pub open spec fn parts_events(parts: Seq<Json>) -> Seq<Expected>
    decreases parts.len(),
{
    if parts.len() == 0 {
        Seq::empty()
    } else {
        parts_events(parts.drop_last()) + part_events(parts.last())
    }
}

/// A transcript event for a non-empty `text` member of `content[key]`.
pub open spec fn transcript_text(content: Json, key: Seq<char>) -> Option<Seq<char>> {
    match spec_as_str(spec_get_opt(spec_get(content, key), "text"@)) {
        Some(t) => if t.len() > 0 { Some(t) } else { None },
        None => None,
    }
}

/// Events of a `serverContent` frame: a cancellation when interrupted; the
/// model-turn parts unless interrupted; output and input transcripts; and a
/// completed response (carrying the whole frame) on `turnComplete`.
pub open spec fn content_events(frame: Json, content: Json) -> Seq<Expected> {
    let interrupted = spec_as_bool(spec_get(content, "interrupted"@)) == Some(true);
    let cancel = if interrupted { seq![Expected::Cancelled] } else { Seq::empty() };
    let parts = if !interrupted {
        match spec_as_array(spec_get_opt(spec_get(content, "modelTurn"@), "parts"@)) {
            Some(ps) => parts_events(ps),
            None => Seq::empty(),
        }
    } else {
        Seq::empty()
    };
    let out = match transcript_text(content, "outputTranscription"@) {
        Some(t) => seq![Expected::Transcript(t)],
        None => Seq::empty(),
    };
    let inp = match transcript_text(content, "inputTranscription"@) {
        Some(t) => seq![Expected::InputTranscript(t)],
        None => Seq::empty(),
    };
    let done = if spec_as_bool(spec_get(content, "turnComplete"@)) == Some(true) {
        seq![Expected::Done(frame)]
    } else {
        Seq::empty()
    };
    cancel + parts + out + inp + done
}

/// The strings of `items`, or `None` when one is not a string.
pub open spec fn all_strings(items: Seq<Json>) -> Option<Seq<Seq<char>>>
    decreases items.len(),
{
    if items.len() == 0 {
        Some(Seq::empty())
    } else {
        match (all_strings(items.drop_last()), items.last()) {
            (Some(prefix), Json::Str(s)) => Some(prefix.push(s@)),
            _ => None,
        }
    }
}

/// The non-blank ids of a `toolCallCancellation` payload (an absent `ids`
/// means none); `None` when the payload has the wrong shape.
pub open spec fn cancellation_ids(raw: Json) -> Option<Seq<Seq<char>>> {
    match raw {
        Json::Object(_) => match spec_get(raw, "ids"@) {
            None => Some(Seq::empty()),
            Some(Json::Array(items)) => match all_strings(items@) {
                Some(ids) => Some(ids.filter(|id: Seq<char>| !all_ws(id))),
                None => None,
            },
            Some(_) => None,
        },
        _ => None,
    }
}

/// The event for function call number `index`, when it names a tool and an
/// id and carries object arguments.
pub open spec fn call_event(index: int, call: Json) -> Option<Expected> {
    match (spec_as_str(spec_get(call, "name"@)), spec_as_str(spec_get(call, "id"@)), spec_get(call, "args"@)) {
        (Some(name), Some(id), Some(args)) => if args is Object {
            Some(Expected::Call { index, id, name, args })
        } else {
            None
        },
        _ => None,
    }
}

/// Events of the function calls `calls[0..n]`, or `None` when one is malformed.
pub open spec fn calls_events(calls: Seq<Json>, n: int) -> Option<Seq<Expected>>
    decreases n,
{
    if n <= 0 {
        Some(Seq::empty())
    } else {
        match (calls_events(calls, n - 1), call_event(n - 1, calls[n - 1])) {
            (Some(prefix), Some(e)) => Some(prefix.push(e)),
            _ => None,
        }
    }
}

/// The protocol error a malformed function call gives, checking in turn
/// its `name`, its `id`, the presence of `args` and that `args` is an object;
/// `None` for a well-formed call.
pub open spec fn call_error(call: Json) -> Option<Seq<char>> {
    if spec_as_str(spec_get(call, "name"@)) is None {
        Some("Gemini tool call missing 'name'"@)
    } else if spec_as_str(spec_get(call, "id"@)) is None {
        Some("Gemini tool call missing 'id'"@)
    } else if spec_get(call, "args"@) is None {
        Some("Gemini tool call missing 'args'"@)
    } else if !(spec_get(call, "args"@).unwrap() is Object) {
        Some("Gemini tool call 'args' must be an object"@)
    } else {
        None
    }
}

/// The error of the first malformed call among `calls[0..n]`, if any.
pub open spec fn calls_error(calls: Seq<Json>, n: int) -> Option<Seq<char>>
    decreases n,
{
    if n <= 0 {
        None
    } else {
        match calls_error(calls, n - 1) {
            Some(m) => Some(m),
            None => call_error(calls[n - 1]),
        }
    }
}

/// The message of the protocol error a frame gives when it has no
/// translation: a malformed cancellation, or the first malformed call.
pub open spec fn translate_error(v: Json) -> Seq<char> {
    if spec_get(v, "toolCallCancellation"@) is Some && cancellation_ids(
        spec_get(v, "toolCallCancellation"@).unwrap(),
    ) is None {
        "Malformed toolCallCancellation: unexpected shape"@
    } else {
        match spec_as_array(spec_get_opt(spec_get(v, "toolCall"@), "functionCalls"@)) {
            Some(calls) => match calls_error(calls, calls.len() as int) {
                Some(m) => m,
                None => Seq::empty(),
            },
            None => Seq::empty(),
        }
    }
}

proof fn lemma_calls_error_matches(calls: Seq<Json>, n: int)
    requires
        0 <= n <= calls.len(),
    ensures
        calls_events(calls, n) is None <==> calls_error(calls, n) is Some,
    decreases n,
{
    if n > 0 {
        lemma_calls_error_matches(calls, n - 1);
    }
}

proof fn lemma_calls_error_extends(calls: Seq<Json>, k: int, m: Seq<char>)
    requires
        0 < k <= calls.len(),
        calls_error(calls, k) == Some(m),
    ensures
        calls_error(calls, calls.len() as int) == Some(m),
    decreases calls.len() - k,
{
    if k < calls.len() {
        lemma_calls_error_extends(calls, k + 1, m);
    }
}

/// The translation of a frame: the events it yields, or `None` for a
/// protocol error.
pub open spec fn spec_translate(v: Json) -> Option<Seq<Expected>> {
    if spec_get(v, "setupComplete"@) is Some {
        Some(seq![Expected::Created(v)])
    } else if spec_get(v, "goAway"@) is Some {
        Some(seq![Expected::Rotation(spec_as_str(spec_get_opt(spec_get(v, "goAway"@), "timeLeft"@)))])
    } else if spec_get(v, "serverContent"@) is Some && content_events(
        v,
        spec_get(v, "serverContent"@).unwrap(),
    ).len() > 0 {
        Some(content_events(v, spec_get(v, "serverContent"@).unwrap()))
    } else if spec_get(v, "sessionResumptionUpdate"@) is Some {
        Some(Seq::empty())
    } else if spec_get(v, "toolCallCancellation"@) is Some && cancellation_ids(
        spec_get(v, "toolCallCancellation"@).unwrap(),
    ) is None {
        None
    } else if spec_get(v, "toolCallCancellation"@) is Some && cancellation_ids(
        spec_get(v, "toolCallCancellation"@).unwrap(),
    ).unwrap().len() > 0 {
        Some(seq![Expected::ToolCancel(cancellation_ids(spec_get(v, "toolCallCancellation"@).unwrap()).unwrap())])
    } else {
        match spec_as_array(spec_get_opt(spec_get(v, "toolCall"@), "functionCalls"@)) {
            Some(calls) => if calls.len() > 0 {
                calls_events(calls, calls.len() as int)
            } else {
                Some(seq![Expected::Unknown])
            },
            None => Some(seq![Expected::Unknown]),
        }
    }
}

/// Whether `c` is a lower-case hexadecimal digit.
pub open spec fn is_lower_hex(c: char) -> bool {
    (48 <= c as u32 <= 57) || (97 <= c as u32 <= 102)
}

/// Calls `uuid::Uuid::new_v4` and renders it (`Display` is the lower-case
/// hyphenated form): 36 characters, hyphens after the 8th, 12th, 16th and
/// 20th hex digit, version digit `4`, variant digit one of `8 9 a b`. The
/// digits are random; nothing else is stated of them.
#[verifier::external_body]
pub(crate) fn new_event_id() -> (s: String)
    ensures
        s@.len() == 36,
        forall|i: int|
            0 <= i < 36 ==> if i == 8 || i == 13 || i == 18 || i == 23 {
                s@[i] == '-'
            } else {
                is_lower_hex(#[trigger] s@[i])
            },
        s@[14] == '4',
        s@[19] == '8' || s@[19] == '9' || s@[19] == 'a' || s@[19] == 'b',
{
    uuid::Uuid::new_v4().to_string()
}

fn empty() -> (s: String)
    ensures
        s@.len() == 0,
{
    String::new()
}

/// Move out the member `key` of an object.
fn take_member(v: &mut Json, key: &str) -> (r: Option<Json>)
    ensures
        r == spec_get(*old(v), key@),
{
    let mut tmp = Json::Null;
    std::mem::swap(&mut tmp, v);
    match tmp {
        Json::Object(mut members) => {
            let ghost orig = members@;
            let mut i: usize = 0;
            while i < members.len()
                invariant
                    members@ == orig,
                    i <= members.len(),
                    spec_get(*old(v), key@) == crate::json::lookup_from(orig, key@, i as int),
                decreases members.len() - i,
            {
                if crate::json::str_eq(members[i].key.as_str(), key) {
                    let m = members.remove(i);
                    return Some(m.value);
                }
                i = i + 1;
            }
            None
        },
        other => {
            *v = other;
            None
        },
    }
}

fn str_member<'a>(v: &'a Json, key: &str) -> (r: Option<&'a String>)
    ensures
        match r {
            Some(s) => spec_as_str(spec_get(*v, key@)) == Some(s@),
            None => spec_as_str(spec_get(*v, key@)) is None,
        },
{
    as_str(v.get(key))
}

/// The events of one model-turn part.
fn push_part_events(events: &mut Vec<ServerEvent>, part: &Json)
    ensures
        final(events)@.len() == old(events)@.len() + part_events(*part).len(),
        forall|i: int| 0 <= i < old(events)@.len() ==> final(events)@[i] == old(events)@[i],
        forall|i: int|
            0 <= i < part_events(*part).len() ==> #[trigger] event_matches(
                final(events)@[old(events)@.len() + i],
                part_events(*part)[i],
            ),
{
    let inline = part.get("inlineData");
    let data = match inline {
        Some(d) => str_member(d, "data"),
        None => None,
    };
    match data {
        Some(d) => {
            let bytes = match decode_base64(d.as_str()) {
                Ok(b) => b,
                Err(_) => Vec::new(),
            };
            events.push(
                ServerEvent::AudioDelta {
                    event_id: new_event_id(),
                    response_id: empty(),
                    item_id: empty(),
                    output_index: 0,
                    content_index: 0,
                    delta: bytes,
                },
            );
        },
        None => {},
    }
    match str_member(part, "text") {
        Some(t) => {
            events.push(
                ServerEvent::TextDelta {
                    event_id: new_event_id(),
                    response_id: empty(),
                    item_id: empty(),
                    output_index: 0,
                    content_index: 0,
                    delta: t.clone(),
                },
            );
        },
        None => {},
    }
}

/// Events of the model-turn parts.
fn push_parts_events(events: &mut Vec<ServerEvent>, parts: &Vec<Json>)
    ensures
        final(events)@.len() == old(events)@.len() + parts_events(parts@).len(),
        forall|i: int| 0 <= i < old(events)@.len() ==> final(events)@[i] == old(events)@[i],
        forall|i: int|
            0 <= i < parts_events(parts@).len() ==> #[trigger] event_matches(
                final(events)@[old(events)@.len() + i],
                parts_events(parts@)[i],
            ),
{
    let ghost start = old(events)@.len();
    let mut k: usize = 0;
    while k < parts.len()
        invariant
            k <= parts.len(),
            events@.len() == start + parts_events(parts@.subrange(0, k as int)).len(),
            start == old(events)@.len(),
            forall|i: int| 0 <= i < start ==> events@[i] == old(events)@[i],
            forall|i: int|
                0 <= i < parts_events(parts@.subrange(0, k as int)).len() ==> #[trigger] event_matches(
                    events@[start + i],
                    parts_events(parts@.subrange(0, k as int))[i],
                ),
        decreases parts.len() - k,
    {
        let ghost before = events@;
        push_part_events(events, &parts[k]);
        proof {
            let s = parts@.subrange(0, k + 1);
            assert(s.drop_last() =~= parts@.subrange(0, k as int));
            assert(s.last() == parts@[k as int]);
            let prev = parts_events(parts@.subrange(0, k as int));
            let cur = part_events(parts@[k as int]);
            assert(parts_events(s) == prev + cur);
            assert forall|i: int| 0 <= i < parts_events(s).len() implies #[trigger] event_matches(
                events@[start + i],
                parts_events(s)[i],
            ) by {
                if i < prev.len() {
                    assert(events@[start + i] == before[start + i]);
                } else {
                    let j = i - prev.len();
                    assert(event_matches(events@[before.len() + j], cur[j]));
                }
            }
        }
        k = k + 1;
    }
    proof {
        assert(parts@.subrange(0, parts@.len() as int) =~= parts@);
    }
}

proof fn lemma_match_push(events: Seq<ServerEvent>, xs: Seq<Expected>, e: ServerEvent, x: Expected)
    requires
        events_match(events, xs),
        event_matches(e, x),
    ensures
        events_match(events.push(e), xs.push(x)),
{
    assert forall|i: int| 0 <= i < xs.push(x).len() implies #[trigger] event_matches(
        events.push(e)[i],
        xs.push(x)[i],
    ) by {
        if i < xs.len() {
            assert(events.push(e)[i] == events[i]);
        }
    }
}

/// The event ids of a cancellation, in order: the strings that are not blank.
fn cancellation_call_ids(raw: &Json) -> (r: Option<Vec<ToolCallId>>)
    ensures
        match r {
            Some(ids) => cancellation_ids(*raw) matches Some(xs) && ids@.len() == xs.len() && forall|
                i: int,
            | 0 <= i < xs.len() ==> #[trigger] ids@[i].view() == xs[i],
            None => cancellation_ids(*raw) is None,
        },
{
    if !raw.is_object() {
        return None;
    }
    let items = match raw.get("ids") {
        None => {
            return Some(Vec::new());
        },
        Some(Json::Array(items)) => items,
        Some(_) => {
            return None;
        },
    };
    let mut out: Vec<ToolCallId> = Vec::new();
    let mut k: usize = 0;
    while k < items.len()
        invariant
            k <= items.len(),
            spec_get(*raw, "ids"@) == Some(Json::Array(*items)),
            *raw is Object,
            all_strings(items@.subrange(0, k as int)) matches Some(strs) && out@.len() == strs.filter(
                |id: Seq<char>| !all_ws(id),
            ).len() && forall|i: int|
                0 <= i < out@.len() ==> #[trigger] out@[i].view() == strs.filter(
                    |id: Seq<char>| !all_ws(id),
                )[i],
        decreases items.len() - k,
    {
        let ghost prev = all_strings(items@.subrange(0, k as int)).unwrap();
        proof {
            assert(items@.subrange(0, k + 1).drop_last() =~= items@.subrange(0, k as int));
        }
        match &items[k] {
            Json::Str(s) => {
                let ghost strs = prev.push(s@);
                proof {
                    assert(all_strings(items@.subrange(0, k + 1)) == Some(strs));
                    reveal_with_fuel(Seq::filter, 1);
                    assert(strs.drop_last() =~= prev);
                }
                match ToolCallId::parse(s.clone()) {
                    Ok(id) => {
                        out.push(id);
                        proof {
                            assert(strs.filter(|id: Seq<char>| !all_ws(id)) == prev.filter(
                                |id: Seq<char>| !all_ws(id),
                            ).push(s@));
                        }
                    },
                    Err(_) => {
                        proof {
                            assert(strs.filter(|id: Seq<char>| !all_ws(id)) == prev.filter(
                                |id: Seq<char>| !all_ws(id),
                            ));
                        }
                    },
                }
            },
            _ => {
                proof {
                    assert(all_strings(items@.subrange(0, k + 1)) is None);
                    lemma_all_strings_prefix_none(items@, k as int + 1);
                    assert(items@.subrange(0, items@.len() as int) =~= items@);

                }
                return None;
            },
        }
        k = k + 1;
    }
    proof {
        assert(items@.subrange(0, items@.len() as int) =~= items@);
    }
    Some(out)
}

proof fn lemma_all_strings_prefix_none(items: Seq<Json>, k: int)
    requires
        0 <= k <= items.len(),
        all_strings(items.subrange(0, k)) is None,
    ensures
        all_strings(items.subrange(0, items.len() as int)) is None,
    decreases items.len() - k,
{
    if k < items.len() {
        assert(items.subrange(0, k + 1).drop_last() =~= items.subrange(0, k));
        lemma_all_strings_prefix_none(items, k + 1);
    }
}

/// The content events of a `serverContent` member, except the final
/// completed response; and whether the turn completed.
fn content_events_exec(content: &Json, Ghost(frame): Ghost<Json>) -> (r: (Vec<ServerEvent>, bool))
    ensures
        r.1 == (spec_as_bool(spec_get(*content, "turnComplete"@)) == Some(true)),
        events_match(
            r.0@,
            content_events(frame, *content).subrange(
                0,
                content_events(frame, *content).len() - if r.1 { 1int } else { 0int },
            ),
        ),
{
    let mut events: Vec<ServerEvent> = Vec::new();
    let ghost mut xs: Seq<Expected> = Seq::empty();
    let interrupted = match as_bool(content.get("interrupted")) {
        Some(b) => b,
        None => false,
    };
    if interrupted {
        let e = ServerEvent::ResponseCancelled { event_id: new_event_id() };
        proof {
            lemma_match_push(events@, xs, e, Expected::Cancelled);
            xs = xs.push(Expected::Cancelled);
        }
        events.push(e);
    }
    let ghost cancel = xs;
    if !interrupted {
        let parts = match content.get("modelTurn") {
            Some(t) => t.get("parts"),
            None => None,
        };
        match parts {
            Some(Json::Array(ps)) => {
                let ghost before = events@;
                push_parts_events(&mut events, ps);
                proof {
                    let pe = parts_events(ps@);
                    assert forall|i: int| 0 <= i < (xs + pe).len() implies #[trigger] event_matches(
                        events@[i],
                        (xs + pe)[i],
                    ) by {
                        if i < xs.len() {
                            assert(events@[i] == before[i]);
                        } else {
                            assert(event_matches(events@[before.len() + (i - xs.len())], pe[i - xs.len()]));
                        }
                    }
                    xs = xs + pe;
                }
            },
            _ => {},
        }
    }
    let ghost with_parts = xs;
    let out_t = match content.get("outputTranscription") {
        Some(o) => str_member(o, "text"),
        None => None,
    };
    match out_t {
        Some(t) => {
            if t.unicode_len() > 0 {
                let e = ServerEvent::TranscriptDelta {
                    event_id: new_event_id(),
                    response_id: empty(),
                    item_id: empty(),
                    output_index: 0,
                    content_index: 0,
                    delta: t.clone(),
                };
                proof {
                    lemma_match_push(events@, xs, e, Expected::Transcript(t@));
                    xs = xs.push(Expected::Transcript(t@));
                }
                events.push(e);
            }
        },
        None => {},
    }
    let ghost with_out = xs;
    let in_t = match content.get("inputTranscription") {
        Some(o) => str_member(o, "text"),
        None => None,
    };
    match in_t {
        Some(t) => {
            if t.unicode_len() > 0 {
                let e = ServerEvent::InputTranscriptDelta {
                    item_id: empty(),
                    content_index: 0,
                    delta: t.clone(),
                };
                proof {
                    lemma_match_push(events@, xs, e, Expected::InputTranscript(t@));
                    xs = xs.push(Expected::InputTranscript(t@));
                }
                events.push(e);
            }
        },
        None => {},
    }
    let done = match as_bool(content.get("turnComplete")) {
        Some(b) => b,
        None => false,
    };
    proof {
        let ce = content_events(frame, *content);
        let tail: Seq<Expected> = if done { seq![Expected::Done(frame)] } else { Seq::empty() };
        assert(ce =~= xs + tail);
        assert(ce.subrange(0, ce.len() - if done { 1int } else { 0int }) =~= xs);
    }
    (events, done)
}

/// Translate one Gemini Live server frame into unified events; a protocol
/// error when a tool call or cancellation is malformed.
pub fn translate_frame(value: Json) -> (r: Result<Vec<ServerEvent>, RealtimeError>)
    ensures
        match r {
            Ok(events) => spec_translate(value) matches Some(xs) && events_match(events@, xs),
            Err(e) => spec_translate(value) is None && (e matches RealtimeError::Protocol(m) && m@
                == translate_error(value)),
        },
{
    let ghost v = value;
    if value.get("setupComplete").is_some() {
        let e = ServerEvent::SessionCreated { event_id: new_event_id(), session: value };
        let mut out: Vec<ServerEvent> = Vec::new();
        out.push(e);
        proof {
            assert(events_match(out@, seq![Expected::Created(v)]));
        }
        return Ok(out);
    }
    match value.get("goAway") {
        Some(g) => {
            let tl = match str_member(g, "timeLeft") {
                Some(t) => Some(t.clone()),
                None => None,
            };
            let mut out: Vec<ServerEvent> = Vec::new();
            out.push(ServerEvent::PlannedRotation { time_left: tl });
            proof {
                assert(events_match(
                    out@,
                    seq![Expected::Rotation(spec_as_str(spec_get_opt(spec_get(v, "goAway"@), "timeLeft"@)))],
                ));
            }
            return Ok(out);
        },
        None => {},
    }
    let content_result = match value.get("serverContent") {
        Some(content) => {
            let (events, done) = content_events_exec(content, Ghost(v));
            proof {
                let ce = content_events(v, *content);
                assert(events_match(events@, ce.subrange(0, ce.len() - if done { 1int } else { 0int })));
            }
            Some((events, done))
        },
        None => None,
    };
    match content_result {
        Some((mut events, done)) => {
            let ghost content = spec_get(v, "serverContent"@).unwrap();
            let ghost ce = content_events(v, content);
            if done {
                let e = ServerEvent::ResponseDone { event_id: new_event_id(), response: value };
                proof {
                    assert(ce.last() == Expected::Done(v));
                    assert(ce.subrange(0, ce.len() - 1).push(ce.last()) =~= ce);
                    lemma_match_push(events@, ce.subrange(0, ce.len() - 1), e, Expected::Done(v));
                }
                events.push(e);
                return Ok(events);
            }
            if events.len() > 0 {
                proof {
                    assert(ce.subrange(0, ce.len() as int) =~= ce);
                }
                return Ok(events);
            }
            proof {
                assert(ce.subrange(0, ce.len() as int) =~= ce);
                assert(ce.len() == 0);
            }
        },
        None => {},
    }
    if value.get("sessionResumptionUpdate").is_some() {
        return Ok(Vec::new());
    }
    match value.get("toolCallCancellation") {
        Some(raw) => {
            match cancellation_call_ids(raw) {
                None => {
                    return Err(
                        RealtimeError::protocol(
                            String::from_str("Malformed toolCallCancellation: unexpected shape"),
                        ),
                    );
                },
                Some(ids) => {
                    if ids.len() > 0 {
                        let ghost xs = cancellation_ids(*raw).unwrap();
                        let mut out: Vec<ServerEvent> = Vec::new();
                        out.push(ServerEvent::ToolCallCancelled { call_ids: ids });
                        proof {
                            assert(events_match(out@, seq![Expected::ToolCancel(xs)]));
                        }
                        return Ok(out);
                    }
                },
            }
        },
        None => {},
    }
    let mut frame = value;
    let tool_call = take_member(&mut frame, "toolCall");
    let calls = match tool_call {
        Some(mut tc) => take_member(&mut tc, "functionCalls"),
        None => None,
    };
    let mut calls = match calls {
        Some(Json::Array(c)) => c,
        _ => {
            let mut out: Vec<ServerEvent> = Vec::new();
            out.push(ServerEvent::Unknown);
            proof {
                assert(events_match(out@, seq![Expected::Unknown]));
            }
            return Ok(out);
        },
    };
    if calls.len() == 0 {
        let mut out: Vec<ServerEvent> = Vec::new();
        out.push(ServerEvent::Unknown);
        proof {
            assert(events_match(out@, seq![Expected::Unknown]));
        }
        return Ok(out);
    }
    let ghost all = calls@;
    let n = calls.len();
    assert(spec_translate(v) == calls_events(all, all.len() as int));
    let mut out: Vec<ServerEvent> = Vec::new();
    let mut k: usize = 0;
    while k < n
        invariant
            n == all.len(),
            k <= n,
            calls@ == all.subrange(k as int, n as int),
            calls_events(all, k as int) matches Some(xs) && events_match(out@, xs),
            spec_translate(v) == calls_events(all, all.len() as int),
            calls_error(all, k as int) is None,
            translate_error(v) == match calls_error(all, all.len() as int) {
                Some(m) => m,
                None => Seq::<char>::empty(),
            },
            v == value,
        decreases n - k,
    {
        let mut call = calls.remove(0);
        assert(call == all[k as int]);
        let ghost c = call;
        let name = match str_member(&call, "name") {
            Some(s) => s.clone(),
            None => {
                proof {
                    lemma_calls_events_none_extends(all, k as int + 1);
                    reveal_strlit("name");
                    reveal_strlit("id");
                    reveal_strlit("args");
                    assert(call_error(c) == Some("Gemini tool call missing 'name'"@));
                    lemma_calls_error_extends(all, k as int + 1, "Gemini tool call missing 'name'"@);
                }
                return Err(RealtimeError::protocol(String::from_str("Gemini tool call missing 'name'")));
            },
        };
        let id = match str_member(&call, "id") {
            Some(s) => s.clone(),
            None => {
                proof {
                    lemma_calls_events_none_extends(all, k as int + 1);
                    reveal_strlit("name");
                    reveal_strlit("id");
                    reveal_strlit("args");
                    assert(call_error(c) == Some("Gemini tool call missing 'id'"@));
                    lemma_calls_error_extends(all, k as int + 1, "Gemini tool call missing 'id'"@);
                }
                return Err(RealtimeError::protocol(String::from_str("Gemini tool call missing 'id'")));
            },
        };
        let args = match take_member(&mut call, "args") {
            Some(a) => a,
            None => {
                proof {
                    lemma_calls_events_none_extends(all, k as int + 1);
                    reveal_strlit("name");
                    reveal_strlit("id");
                    reveal_strlit("args");
                    assert(call_error(c) == Some("Gemini tool call missing 'args'"@));
                    lemma_calls_error_extends(all, k as int + 1, "Gemini tool call missing 'args'"@);
                }
                return Err(RealtimeError::protocol(String::from_str("Gemini tool call missing 'args'")));
            },
        };
        if !args.is_object() {
            proof {
                lemma_calls_events_none_extends(all, k as int + 1);
                assert(call_error(c) == Some("Gemini tool call 'args' must be an object"@));
                lemma_calls_error_extends(all, k as int + 1, "Gemini tool call 'args' must be an object"@);
            }
            return Err(
                RealtimeError::protocol(String::from_str("Gemini tool call 'args' must be an object")),
            );
        }
        let ghost x = Expected::Call { index: k as int, id: id@, name: name@, args };
        let e = ServerEvent::FunctionCallDone {
            event_id: new_event_id(),
            response_id: empty(),
            item_id: empty(),
            output_index: #[verifier::truncate] (k as u32),
            call_id: id,
            name,
            arguments: args,
        };
        proof {
            let xs = calls_events(all, k as int).unwrap();
            assert(call_event(k as int, c) == Some(x));
            lemma_match_push(out@, xs, e, x);
        }
        out.push(e);
        k = k + 1;
    }
    proof {
        assert(calls_events(all, all.len() as int) == calls_events(all, n as int));
    }
    Ok(out)
}

proof fn lemma_calls_events_none_extends(calls: Seq<Json>, k: int)
    requires
        0 < k <= calls.len(),
        calls_events(calls, k) is None,
    ensures
        calls_events(calls, calls.len() as int) is None,
    decreases calls.len() - k,
{
    if k < calls.len() {
        lemma_calls_events_none_extends(calls, k + 1);
    }
}

/// A barge-in frame carries no model output: the translation of a
/// `serverContent` frame marked `interrupted` begins with a cancellation and
/// holds no model audio or text; caller transcripts and the turn's
/// completion still come through.
pub proof fn law_interrupted_frame_has_no_model_output(v: Json)
    requires
        spec_get(v, "setupComplete"@) is None,
        spec_get(v, "goAway"@) is None,
        spec_get(v, "serverContent"@) is Some,
        spec_as_bool(spec_get(spec_get(v, "serverContent"@).unwrap(), "interrupted"@)) == Some(true),
    ensures
        spec_translate(v) is Some,
        spec_translate(v).unwrap().len() > 0,
        spec_translate(v).unwrap()[0] is Cancelled,
        forall|i: int|
            0 <= i < spec_translate(v).unwrap().len() ==> !(#[trigger] spec_translate(v).unwrap()[i] is Audio)
                && !(spec_translate(v).unwrap()[i] is Text),
{
    let c = spec_get(v, "serverContent"@).unwrap();
    let xs = content_events(v, c);
    let out = match transcript_text(c, "outputTranscription"@) {
        Some(t) => seq![Expected::Transcript(t)],
        None => Seq::<Expected>::empty(),
    };
    let inp = match transcript_text(c, "inputTranscription"@) {
        Some(t) => seq![Expected::InputTranscript(t)],
        None => Seq::<Expected>::empty(),
    };
    let done = if spec_as_bool(spec_get(c, "turnComplete"@)) == Some(true) {
        seq![Expected::Done(v)]
    } else {
        Seq::<Expected>::empty()
    };
    assert(xs =~= seq![Expected::Cancelled] + Seq::<Expected>::empty() + out + inp + done);
    assert(xs.len() > 0);
    assert(spec_translate(v) == Some(xs));
    assert forall|i: int| 0 <= i < xs.len() implies !(#[trigger] xs[i] is Audio) && !(xs[i] is Text) by {
        let tail = out + inp + done;
        if i > 0 {
            assert(xs[i] == tail[i - 1]);
            if i - 1 < out.len() {
                assert(tail[i - 1] == out[i - 1]);
            } else if i - 1 < out.len() + inp.len() {
                assert(tail[i - 1] == inp[i - 1 - out.len()]);
            } else {
                assert(tail[i - 1] == done[i - 1 - out.len() - inp.len()]);
            }
        }
    }
}


} // verus!
