//! Frames the library sends to Gemini Live: mid-flight context turns
//! (`clientContent`), realtime input, and the voice-activity settings of the
//! setup frame.

use vstd::prelude::*;
use crate::audio::{base64_encoding, encode_base64};
use crate::text::{decimal_text, u64_to_decimal, uppercase_of};
use crate::config::{RealtimeConfig, VadConfig, VadMode};
use crate::error::RealtimeError;
use crate::events::{ClientEvent, Part};
use crate::gemini::{gemini_response_modalities, normalize_model_id, normalized_model_id};
use crate::json::{find_member, lemma_lookup_push, lookup_from, member_count, object1, push_member, spec_get, str_eq, Json, JsonMember};

verus! {

/// Binary data in a Gemini part, base64-encoded.
#[derive(Debug)]
pub struct GeminiInlineData {
    pub mime_type: String,
    pub data: String,
}

/// One part of a Gemini turn: text or inline data.
#[derive(Debug)]
pub struct GeminiPart {
    pub text: Option<String>,
    pub inline_data: Option<GeminiInlineData>,
}

/// One conversation turn.
#[derive(Debug)]
pub struct GeminiTurn {
    pub role: String,
    pub parts: Vec<GeminiPart>,
}

/// The `clientContent` envelope.
#[derive(Debug)]
pub struct GeminiClientContent {
    pub turns: Vec<GeminiTurn>,
    pub turn_complete: bool,
}

/// A media chunk of realtime input.
#[derive(Debug)]
pub struct GeminiMediaChunk {
    pub mime_type: String,
    pub data: String,
}

/// The `realtimeInput` envelope.
#[derive(Debug)]
pub struct GeminiRealtimeInput {
    pub audio: Option<GeminiMediaChunk>,
    pub media_chunks: Option<Vec<GeminiMediaChunk>>,
    pub text: Option<String>,
}

/// A client frame; exactly one envelope is set. The setup and tool
/// response envelopes are carried as JSON values.
#[derive(Debug)]
pub struct GeminiClientMessage {
    pub setup: Option<Json>,
    pub realtime_input: Option<GeminiRealtimeInput>,
    pub tool_response: Option<Json>,
    pub client_content: Option<GeminiClientContent>,
}

/// Whether a content part has a counterpart in a Gemini turn (text and
/// inline data; every other kind is dropped).
pub open spec fn is_turn_part(p: Part) -> bool {
    p is Text || p is InlineData
}

/// The parts of `ps` that have a Gemini counterpart, in order.
pub open spec fn turn_parts(ps: Seq<Part>) -> Seq<Part>
    decreases ps.len(),
{
    if ps.len() == 0 {
        Seq::empty()
    } else if is_turn_part(ps.last()) {
        turn_parts(ps.drop_last()).push(ps.last())
    } else {
        turn_parts(ps.drop_last())
    }
}

/// `g` is the Gemini form of `p`: text as text, inline data base64-encoded.
pub open spec fn gemini_part_of(g: GeminiPart, p: Part) -> bool {
    match p {
        Part::Text { text } => g.text == Some(text) && g.inline_data is None,
        Part::InlineData { mime_type, data } => g.text is None && (g.inline_data matches Some(d)
            && d.mime_type == mime_type && d.data@ == base64_encoding(data@)),
        _ => false,
    }
}

/// `gs` are the Gemini forms of `ps`, one for one.
pub open spec fn gemini_parts_of(gs: Seq<GeminiPart>, ps: Seq<Part>) -> bool {
    &&& gs.len() == ps.len()
    &&& forall|i: int| 0 <= i < gs.len() ==> gemini_part_of(#[trigger] gs[i], ps[i])
}

/// The index of the first text part of `ps` at or after `i`, or `ps.len()`.
pub open spec fn first_text_from(ps: Seq<Part>, i: int) -> int
    decreases ps.len() - i,
{
    if i < 0 || i >= ps.len() {
        ps.len() as int
    } else if ps[i] is Text {
        i
    } else {
        first_text_from(ps, i + 1)
    }
}

/// A role that Gemini does not accept inside a turn and that is carried as
/// a directive of the user.
pub open spec fn is_directive_role(role: Seq<char>) -> bool {
    role == "system"@ || role == "developer"@
}

/// The Gemini role for `role`: `model` for the model's own turns, `user`
/// for everything else.
pub open spec fn gemini_role(role: Seq<char>) -> Seq<char> {
    if role == "model"@ || role == "assistant"@ {
        "model"@
    } else {
        "user"@
    }
}

/// The parts of the directive turn built from `kept`: the first text part
/// is prefixed with the override marker and a line break; without a text
/// part, a part holding the marker alone comes first.
pub open spec fn directive_parts_of(out: Seq<GeminiPart>, kept: Seq<Part>) -> bool {
    let k = first_text_from(kept, 0);
    if k < kept.len() {
        &&& out.len() == kept.len()
        &&& forall|i: int| 0 <= i < out.len() && i != k ==> gemini_part_of(#[trigger] out[i], kept[i])
        &&& out[k].inline_data is None
        &&& out[k].text matches Some(t) && t@ == "[CRITICAL SYSTEM DIRECTIVE OVERRIDE]\n"@ + kept[k]->Text_text@
    } else {
        &&& out.len() == kept.len() + 1
        &&& out[0].inline_data is None
        &&& out[0].text matches Some(t) && t@ == "[CRITICAL SYSTEM DIRECTIVE OVERRIDE]"@
        &&& forall|i: int| 0 <= i < kept.len() ==> gemini_part_of(#[trigger] out[i + 1], kept[i])
    }
}

proof fn lemma_first_text_skips(ps: Seq<Part>, i: int, j: int)
    requires
        0 <= i <= j <= ps.len(),
        forall|t: int| i <= t < j ==> !(#[trigger] ps[t] is Text),
    ensures
        first_text_from(ps, i) == first_text_from(ps, j),
    decreases j - i,
{
    if i < j {
        lemma_first_text_skips(ps, i + 1, j);
    }
}

/// `msg` is the `clientContent` frame for a message of `role` with `parts`:
/// one complete turn whose role is `gemini_role(role)` and whose parts are
/// the Gemini forms of the parts that have one, the first text marked as a
/// directive for `system` and `developer` roles.
pub open spec fn translated_message(msg: GeminiClientMessage, role: Seq<char>, parts: Seq<Part>) -> bool {
    &&& msg.setup is None
    &&& msg.realtime_input is None
    &&& msg.tool_response is None
    &&& msg.client_content matches Some(c) && c.turn_complete && c.turns@.len() == 1 && ({
        let turn = c.turns@[0];
        let kept = turn_parts(parts);
        &&& turn.role@ == gemini_role(role)
        &&& is_directive_role(role) ==> directive_parts_of(turn.parts@, kept)
        &&& !is_directive_role(role) ==> gemini_parts_of(turn.parts@, kept)
    })
}

/// Translates a message of a role and content parts into a Gemini
/// `clientContent` frame with one complete turn. Text and inline data (as
/// base64) carry over in order; other parts are dropped. `system` and
/// `developer` turns are carried as `user` turns marked as a directive;
/// `model` and `assistant` become `model`; any other role becomes `user`.
pub fn translate_client_message(role: &str, parts: Vec<Part>) -> (msg: GeminiClientMessage)
    ensures
        translated_message(msg, role@, parts@),
{
    let ghost orig = parts@;
    let mut rest = parts;
    let mut gparts: Vec<GeminiPart> = Vec::new();
    let mut j: usize = 0;
    assert(orig.len() == rest.len());
    while rest.len() > 0
        invariant
            j <= orig.len(),
            orig.len() == j + rest@.len(),
            orig.len() <= usize::MAX,
            rest@ == orig.skip(j as int),
            gemini_parts_of(gparts@, turn_parts(orig.take(j as int))),
        decreases rest.len(),
    {
        let ghost before = gparts@;
        let p = rest.remove(0);
        proof {
            assert(p == orig[j as int]);
            assert(orig.take(j + 1).drop_last() =~= orig.take(j as int));
            assert(orig.take(j + 1).last() == p);
            assert(rest@ =~= orig.skip(j + 1));
        }
        match p {
            Part::Text { text } => {
                gparts.push(GeminiPart { text: Some(text), inline_data: None });
            },
            Part::InlineData { mime_type, data } => {
                let encoded = encode_base64(data.as_slice());
                gparts.push(
                    GeminiPart { text: None, inline_data: Some(GeminiInlineData { mime_type, data: encoded }) },
                );
            },
            _ => {},
        }
        proof {
            let kept = turn_parts(orig.take(j + 1));
            assert forall|i: int| 0 <= i < gparts@.len() implies gemini_part_of(#[trigger] gparts@[i], kept[i]) by {
                if i < before.len() {
                    assert(gparts@[i] == before[i]);
                }
            }
        }
        j = j + 1;
    }
    proof {
        assert(orig.take(j as int) =~= orig);
    }
    let ghost kept = turn_parts(orig);
    let directive = str_eq(role, "system") || str_eq(role, "developer");
    let is_model = str_eq(role, "model") || str_eq(role, "assistant");
    if directive {
        let mut k: usize = 0;
        while k < gparts.len() && gparts[k].text.is_none()
            invariant
                k <= gparts.len(),
                gemini_parts_of(gparts@, kept),
                forall|t: int| 0 <= t < k ==> !(#[trigger] kept[t] is Text),
            decreases gparts.len() - k,
        {
            proof {
                assert(gemini_part_of(gparts@[k as int], kept[k as int]));
            }
            k = k + 1;
        }
        proof {
            lemma_first_text_skips(kept, 0, k as int);
            if k < gparts.len() {
                assert(gemini_part_of(gparts@[k as int], kept[k as int]));
                assert(kept[k as int] is Text);
            }
        }
        if k < gparts.len() {
            let ghost before = gparts@;
            let gp = gparts.remove(k);
            let old_text = match gp.text {
                Some(t) => t,
                None => String::new(),
            };
            let mut nt = String::from_str("[CRITICAL SYSTEM DIRECTIVE OVERRIDE]\n");
            nt.append(old_text.as_str());
            gparts.insert(k, GeminiPart { text: Some(nt), inline_data: gp.inline_data });
            proof {
                assert(gemini_part_of(before[k as int], kept[k as int]));
                assert forall|i: int| 0 <= i < gparts@.len() && i != k implies gemini_part_of(
                    #[trigger] gparts@[i],
                    kept[i],
                ) by {
                    assert(gparts@[i] == before[i]);
                }
            }
        } else {
            let ghost before = gparts@;
            gparts.insert(
                0,
                GeminiPart { text: Some(String::from_str("[CRITICAL SYSTEM DIRECTIVE OVERRIDE]")), inline_data: None },
            );
            proof {
                assert forall|i: int| 0 <= i < kept.len() implies gemini_part_of(#[trigger] gparts@[i + 1], kept[i]) by {
                    assert(gparts@[i + 1] == before[i]);
                }
            }
        }
    }
    let gemini_role_name = if is_model && !directive {
        String::from_str("model")
    } else {
        String::from_str("user")
    };
    proof {
        if directive {
            assert(is_directive_role(role@));
            reveal_strlit("system");
            reveal_strlit("developer");
            reveal_strlit("model");
            reveal_strlit("assistant");
            assert("system"@.len() == 6);
            assert("model"@.len() == 5);
            assert("developer"@.len() == 9);
            assert("assistant"@.len() == 9);
            assert("developer"@[0] != "assistant"@[0]);
            assert(role@ != "model"@);
            assert(role@ != "assistant"@);
        }
    }
    assert(gemini_role_name@ == gemini_role(role@));
    assert(is_directive_role(role@) ==> directive_parts_of(gparts@, kept));
    assert(!is_directive_role(role@) ==> gemini_parts_of(gparts@, kept));
    let turn = GeminiTurn { role: gemini_role_name, parts: gparts };
    GeminiClientMessage {
        setup: None,
        realtime_input: None,
        tool_response: None,
        client_content: Some(GeminiClientContent { turns: vec![turn], turn_complete: true }),
    }
}

/// `j` holds the decimal number `v`, or is absent when `v` is.
pub open spec fn number_member(j: Option<Json>, v: Option<u32>) -> bool {
    match v {
        None => j is None,
        Some(n) => j matches Some(Json::Number(s)) && s@ == decimal_text(n as nat),
    }
}

/// Whether the settings call for an `automaticActivityDetection` object:
/// detection is off, or a timing was chosen.
pub open spec fn has_detection(vad: VadConfig) -> bool {
    vad.mode == VadMode::Disabled || vad.silence_duration_ms is Some || vad.prefix_padding_ms is Some
}

/// `j` is the `automaticActivityDetection` object of `vad`: `disabled` when
/// detection is off, and each timing the caller chose.
pub open spec fn detection_matches(j: Option<Json>, vad: VadConfig) -> bool {
    j matches Some(d) && d is Object && member_count(d) == (if vad.mode == VadMode::Disabled {
        1nat
    } else {
        0
    }) + (if vad.silence_duration_ms is Some {
        1nat
    } else {
        0
    }) + (if vad.prefix_padding_ms is Some {
        1nat
    } else {
        0
    }) && spec_get(d, "disabled"@) == (if vad.mode == VadMode::Disabled {
        Some(Json::Bool(true))
    } else {
        None
    }) && number_member(spec_get(d, "silenceDurationMs"@), vad.silence_duration_ms) && number_member(
        spec_get(d, "prefixPaddingMs"@),
        vad.prefix_padding_ms,
    )
}

/// `j` is the `activityHandling` value for `interrupt`.
pub open spec fn activity_matches(j: Option<Json>, interrupt: Option<bool>) -> bool {
    match interrupt {
        None => j is None,
        Some(b) => j matches Some(Json::Str(s)) && s@ == (if b {
            "START_OF_ACTIVITY_INTERRUPTS"@
        } else {
            "NO_INTERRUPTION"@
        }),
    }
}

/// `r` is the `realtimeInputConfig` for the turn-detection settings `td`.
pub open spec fn input_config_matches(r: Option<Json>, td: Option<VadConfig>) -> bool {
    match td {
        None => r is None,
        Some(vad) => {
            &&& (r is None <==> (!has_detection(vad) && vad.interrupt_response is None))
            &&& r matches Some(o) ==> {
                &&& o is Object
                &&& member_count(o) == (if has_detection(vad) {
                    1nat
                } else {
                    0
                }) + (if vad.interrupt_response is Some {
                    1nat
                } else {
                    0
                })
                &&& has_detection(vad) ==> detection_matches(spec_get(o, "automaticActivityDetection"@), vad)
                &&& !has_detection(vad) ==> spec_get(o, "automaticActivityDetection"@) is None
                &&& activity_matches(spec_get(o, "activityHandling"@), vad.interrupt_response)
            }
        },
    }
}

/// The `realtimeInputConfig` of the setup frame for `config`: none without
/// turn detection settings or when none of them maps. Only choices the caller
/// made reach the wire (a timing left to the provider is not sent). The
/// threshold and eagerness settings have no Gemini counterpart and are not
/// sent.
pub fn gemini_realtime_input_config(config: &RealtimeConfig) -> (r: Option<Json>)
    ensures
        input_config_matches(r, config.turn_detection),
{
    let vad = match &config.turn_detection {
        Some(v) => v,
        None => {
            return None;
        },
    };
    proof {
        reveal_strlit("disabled");
        reveal_strlit("silenceDurationMs");
        reveal_strlit("prefixPaddingMs");
        reveal_strlit("automaticActivityDetection");
        reveal_strlit("activityHandling");
        assert("disabled"@.len() == 8);
        assert("silenceDurationMs"@.len() == 17);
        assert("prefixPaddingMs"@.len() == 15);
        assert("automaticActivityDetection"@.len() == 26);
        assert("activityHandling"@.len() == 16);
    }
    let mut detection: Vec<JsonMember> = Vec::new();
    if vad.mode == VadMode::Disabled {
        let ghost before = detection@;
        let m = JsonMember { key: String::from_str("disabled"), value: Json::Bool(true) };
        detection.push(m);
        proof {
            lemma_lookup_push(before, m, "disabled"@, 0);
            lemma_lookup_push(before, m, "silenceDurationMs"@, 0);
            lemma_lookup_push(before, m, "prefixPaddingMs"@, 0);
        }
    }
    assert(lookup_from(detection@, "silenceDurationMs"@, 0) is None);
    assert(lookup_from(detection@, "prefixPaddingMs"@, 0) is None);
    match vad.silence_duration_ms {
        Some(ms) => {
            let ghost before = detection@;
            let m = JsonMember { key: String::from_str("silenceDurationMs"), value: Json::Number(u64_to_decimal(ms as u64)) };
            detection.push(m);
            proof {
                lemma_lookup_push(before, m, "disabled"@, 0);
                lemma_lookup_push(before, m, "silenceDurationMs"@, 0);
                lemma_lookup_push(before, m, "prefixPaddingMs"@, 0);
            }
        },
        None => {},
    }
    match vad.prefix_padding_ms {
        Some(ms) => {
            let ghost before = detection@;
            let m = JsonMember { key: String::from_str("prefixPaddingMs"), value: Json::Number(u64_to_decimal(ms as u64)) };
            detection.push(m);
            proof {
                lemma_lookup_push(before, m, "disabled"@, 0);
                lemma_lookup_push(before, m, "silenceDurationMs"@, 0);
                lemma_lookup_push(before, m, "prefixPaddingMs"@, 0);
            }
        },
        None => {},
    }
    let mut input: Vec<JsonMember> = Vec::new();
    if detection.len() > 0 {
        let ghost before = input@;
        let m = JsonMember { key: String::from_str("automaticActivityDetection"), value: Json::Object(detection) };
        input.push(m);
        proof {
            lemma_lookup_push(before, m, "automaticActivityDetection"@, 0);
            lemma_lookup_push(before, m, "activityHandling"@, 0);
        }
    }
    assert(lookup_from(input@, "activityHandling"@, 0) is None);
    match vad.interrupt_response {
        Some(b) => {
            let ghost before = input@;
            let text = if b {
                String::from_str("START_OF_ACTIVITY_INTERRUPTS")
            } else {
                String::from_str("NO_INTERRUPTION")
            };
            let m = JsonMember { key: String::from_str("activityHandling"), value: Json::Str(text) };
            input.push(m);
            proof {
                lemma_lookup_push(before, m, "automaticActivityDetection"@, 0);
                lemma_lookup_push(before, m, "activityHandling"@, 0);
            }
        },
        None => {},
    }
    if input.len() == 0 {
        None
    } else {
        let r = Json::Object(input);
        assert(has_detection(*vad) ==> detection_matches(spec_get(r, "automaticActivityDetection"@), *vad));
        assert(activity_matches(spec_get(r, "activityHandling"@), vad.interrupt_response));
        Some(r)
    }
}

/// The `thinking_level` the extra settings carry, if any.
pub open spec fn thinking_level(extra: Option<Json>) -> Option<Json> {
    match extra {
        Some(e) => spec_get(e, "thinking_level"@),
        None => None,
    }
}

/// The texts of `responseModalities`: each modality uppercased, or `AUDIO`
/// when none are given.
pub open spec fn response_modality_texts(m: Option<Vec<String>>) -> Seq<Seq<char>> {
    if m is Some && m->Some_0@.len() > 0 {
        m->Some_0@.map_values(|s: String| uppercase_of(s@))
    } else {
        seq!["AUDIO"@]
    }
}

/// `j` is an array of the strings `ts`.
pub open spec fn texts_array(j: Option<Json>, ts: Seq<Seq<char>>) -> bool {
    j matches Some(Json::Array(items)) && items@.len() == ts.len() && forall|i: int|
        0 <= i < ts.len() ==> (#[trigger] items@[i] matches Json::Str(s) && s@ == ts[i])
}

/// `j` is an object with the single member `key: v`.
pub open spec fn single_member(j: Option<Json>, key: Seq<char>, v: Json) -> bool {
    j matches Some(o) && o is Object && member_count(o) == 1 && spec_get(o, key) == Some(v)
}

/// `j` is `{"voiceConfig": {"prebuiltVoiceConfig": {"voiceName": voice}}}`.
pub open spec fn voice_matches(j: Option<Json>, voice: String) -> bool {
    j matches Some(a) && a is Object && member_count(a) == 1 && (spec_get(a, "voiceConfig"@) matches Some(b)
        && b is Object && member_count(b) == 1 && single_member(
        spec_get(b, "prebuiltVoiceConfig"@),
        "voiceName"@,
        Json::Str(voice),
    ))
}

/// `g` is the `generationConfig` for `config`: the response modalities, the
/// voice, affective dialog when it is on, and the thinking level of the
/// extra settings.
pub open spec fn generation_config_matches(g: Json, config: RealtimeConfig) -> bool {
    &&& g is Object
    &&& member_count(g) == 1 + (if config.voice is Some {
        1nat
    } else {
        0
    }) + (if config.affective_dialog == Some(true) {
        1nat
    } else {
        0
    }) + (if thinking_level(config.extra) is Some {
        1nat
    } else {
        0
    })
    &&& texts_array(spec_get(g, "responseModalities"@), response_modality_texts(config.modalities))
    &&& match config.voice {
        Some(v) => voice_matches(spec_get(g, "speechConfig"@), v),
        None => spec_get(g, "speechConfig"@) is None,
    }
    &&& spec_get(g, "enableAffectiveDialog"@) == (if config.affective_dialog == Some(true) {
        Some(Json::Bool(true))
    } else {
        None
    })
    &&& match thinking_level(config.extra) {
        Some(t) => single_member(spec_get(g, "thinkingConfig"@), "thinkingLevel"@, t),
        None => spec_get(g, "thinkingConfig"@) is None,
    }
}

/// `s` is the `setup` object for `model` and `config`, with the compiled
/// tool declarations `tools` and the provider's own resume handle `handle`.
pub open spec fn setup_matches(
    s: Json,
    model: Seq<char>,
    config: RealtimeConfig,
    tools: Option<Vec<Json>>,
    handle: Option<String>,
) -> bool {
    &&& s is Object
    &&& member_count(s) == 3 + (if config.instruction is Some {
        1nat
    } else {
        0
    }) + (if tools is Some {
        1nat
    } else {
        0
    }) + (if config.cached_content is Some {
        1nat
    } else {
        0
    }) + (if config.input_audio_transcription is Some {
        2nat
    } else {
        0
    }) + (if gemini_input_present(config.turn_detection) {
        1nat
    } else {
        0
    })
    &&& spec_get(s, "model"@) matches Some(Json::Str(m)) && m@ == normalized_model_id(model)
    &&& match config.instruction {
        Some(i) => spec_get(s, "systemInstruction"@) matches Some(si) && si is Object && member_count(si) == 1
            && (spec_get(si, "parts"@) matches Some(Json::Array(ps)) && ps@.len() == 1 && single_member(
            Some(ps@[0]),
            "text"@,
            Json::Str(i),
        )),
        None => spec_get(s, "systemInstruction"@) is None,
    }
    &&& spec_get(s, "generationConfig"@) matches Some(g) && generation_config_matches(g, config)
    &&& spec_get(s, "tools"@) == match tools {
        Some(t) => Some(Json::Array(t)),
        None => None,
    }
    &&& spec_get(s, "cachedContent"@) == match config.cached_content {
        Some(c) => Some(Json::Str(c)),
        None => None,
    }
    &&& spec_get(s, "sessionResumption"@) matches Some(sr) && sr is Object && member_count(sr) == (if handle is Some {
        1nat
    } else {
        0
    }) && spec_get(sr, "handle"@) == match handle {
        Some(h) => Some(Json::Str(h)),
        None => None,
    }
    &&& config.input_audio_transcription is Some ==> (spec_get(s, "inputAudioTranscription"@) matches Some(
        Json::Object(a),
    ) && a@.len() == 0 && (spec_get(s, "outputAudioTranscription"@) matches Some(Json::Object(b))
        && b@.len() == 0))
    &&& config.input_audio_transcription is None ==> spec_get(s, "inputAudioTranscription"@) is None
        && spec_get(s, "outputAudioTranscription"@) is None
    &&& input_config_matches(spec_get(s, "realtimeInputConfig"@), config.turn_detection)
}

/// Whether the turn-detection settings produce a `realtimeInputConfig`.
pub open spec fn gemini_input_present(td: Option<VadConfig>) -> bool {
    match td {
        Some(vad) => has_detection(vad) || vad.interrupt_response is Some,
        None => false,
    }
}

/// The strings `texts` as a JSON array.
fn texts_to_array(texts: Vec<String>) -> (j: Json)
    ensures
        j matches Json::Array(items) && items@.len() == texts@.len() && forall|i: int|
            0 <= i < texts@.len() ==> (#[trigger] items@[i] matches Json::Str(s) && s@ == texts@[i]@),
{
    let ghost orig = texts@;
    let mut rest = texts;
    let mut items: Vec<Json> = Vec::new();
    let mut j: usize = 0;
    assert(orig.len() == rest.len());
    while rest.len() > 0
        invariant
            j <= orig.len(),
            orig.len() == j + rest@.len(),
            orig.len() <= usize::MAX,
            rest@ == orig.skip(j as int),
            items@.len() == j,
            forall|i: int| 0 <= i < j ==> (#[trigger] items@[i] matches Json::Str(s) && s@ == orig[i]@),
        decreases rest.len(),
    {
        let t = rest.remove(0);
        assert(t == orig[j as int]);
        assert(rest@ =~= orig.skip(j + 1));
        items.push(Json::Str(t));
        j = j + 1;
    }
    Json::Array(items)
}

/// The Gemini Live `setup` frame for `model` and `config`, with the compiled
/// tool declarations and the provider's own resume handle (see
/// `setup_matches`). The sampling temperature is not held by the
/// configuration and is not sent.
pub fn setup_message(model: &str, config: RealtimeConfig, compiled_tools: Option<Vec<Json>>, resume_handle: Option<String>) -> (msg: GeminiClientMessage)
    ensures
        msg.realtime_input is None,
        msg.tool_response is None,
        msg.client_content is None,
        msg.setup matches Some(s) && setup_matches(s, model@, config, compiled_tools, resume_handle),
{
    let ghost cfg = config;
    let input_config = gemini_realtime_input_config(&config);
    let mods = gemini_response_modalities(config.modalities.as_ref());
    let transcribe = config.input_audio_transcription.is_some();
    let RealtimeConfig {
        model: _,
        instruction,
        voice,
        modalities: _,
        tools: _,
        turn_detection: _,
        affective_dialog,
        cached_content,
        input_audio_transcription: _,
        extra,
    } = config;
    proof {
        reveal_strlit("responseModalities");
        reveal_strlit("speechConfig");
        reveal_strlit("enableAffectiveDialog");
        reveal_strlit("thinkingConfig");
        reveal_strlit("model");
        reveal_strlit("systemInstruction");
        reveal_strlit("generationConfig");
        reveal_strlit("tools");
        reveal_strlit("cachedContent");
        reveal_strlit("sessionResumption");
        reveal_strlit("inputAudioTranscription");
        reveal_strlit("outputAudioTranscription");
        reveal_strlit("realtimeInputConfig");
        reveal_strlit("AUDIO");
        assert("responseModalities"@.len() == 18);
        assert("speechConfig"@.len() == 12);
        assert("enableAffectiveDialog"@.len() == 21);
        assert("thinkingConfig"@.len() == 14);
        assert("model"@.len() == 5);
        assert("systemInstruction"@.len() == 17);
        assert("generationConfig"@.len() == 16);
        assert("tools"@.len() == 5);
        assert("model"@[0] != "tools"@[0]);
        assert("cachedContent"@.len() == 13);
        assert("sessionResumption"@.len() == 17);
        assert("systemInstruction"@[1] != "sessionResumption"@[1]);
        assert("inputAudioTranscription"@.len() == 23);
        assert("outputAudioTranscription"@.len() == 24);
        assert("realtimeInputConfig"@.len() == 19);
    }
    let texts = texts_to_array(mods);
    proof {
        assert(response_modality_texts(cfg.modalities).len() == mods@.len());
        assert forall|i: int| 0 <= i < mods@.len() implies mods@[i]@ == #[trigger] response_modality_texts(
            cfg.modalities,
        )[i] by {}
    }
    let mut gen: Vec<JsonMember> = Vec::new();
    push_member(&mut gen, "responseModalities", texts);
    match voice {
        Some(v) => {
            let inner = object1("voiceName", Json::Str(v));
            let mid = object1("prebuiltVoiceConfig", inner);
            push_member(&mut gen, "speechConfig", object1("voiceConfig", mid));
        },
        None => {},
    }
    if affective_dialog == Some(true) {
        push_member(&mut gen, "enableAffectiveDialog", Json::Bool(true));
    }
    match extra {
        Some(Json::Object(members)) => {
            let mut ms = members;
            match find_member(&ms, "thinking_level") {
                Some(i) => {
                    let m = ms.remove(i);
                    push_member(&mut gen, "thinkingConfig", object1("thinkingLevel", m.value));
                },
                None => {},
            }
        },
        _ => {},
    }
    let gen_json = Json::Object(gen);
    assert(generation_config_matches(gen_json, cfg));
    let mut setup: Vec<JsonMember> = Vec::new();
    push_member(&mut setup, "model", Json::Str(normalize_model_id(model)));
    match instruction {
        Some(i) => {
            let part = object1("text", Json::Str(i));
            push_member(&mut setup, "systemInstruction", object1("parts", Json::Array(vec![part])));
        },
        None => {},
    }
    push_member(&mut setup, "generationConfig", gen_json);
    match compiled_tools {
        Some(t) => push_member(&mut setup, "tools", Json::Array(t)),
        None => {},
    }
    match cached_content {
        Some(c) => push_member(&mut setup, "cachedContent", Json::Str(c)),
        None => {},
    }
    let mut sr: Vec<JsonMember> = Vec::new();
    match resume_handle {
        Some(h) => push_member(&mut sr, "handle", Json::Str(h)),
        None => {},
    }
    push_member(&mut setup, "sessionResumption", Json::Object(sr));
    if transcribe {
        push_member(&mut setup, "inputAudioTranscription", Json::Object(Vec::new()));
        push_member(&mut setup, "outputAudioTranscription", Json::Object(Vec::new()));
    }
    match input_config {
        Some(ic) => push_member(&mut setup, "realtimeInputConfig", ic),
        None => {},
    }
    let s = Json::Object(setup);
    GeminiClientMessage { setup: Some(s), realtime_input: None, tool_response: None, client_content: None }
}

/// Whether `m` is a frame whose only envelope is realtime input `r`.
pub open spec fn realtime_only(m: GeminiClientMessage, r: GeminiRealtimeInput) -> bool {
    &&& m.setup is None
    &&& m.tool_response is None
    &&& m.client_content is None
    &&& m.realtime_input == Some(r)
}

fn realtime_frame(input: GeminiRealtimeInput) -> (m: GeminiClientMessage)
    ensures
        realtime_only(m, input),
{
    GeminiClientMessage { setup: None, realtime_input: Some(input), tool_response: None, client_content: None }
}

/// The realtime-input frame carrying base64-encoded PCM16 audio at 16 kHz;
/// the mime type declares the rate.
pub fn audio_input_message(audio_base64: &str) -> (m: GeminiClientMessage)
    ensures
        m.setup is None && m.tool_response is None && m.client_content is None,
        m.realtime_input is Some,
        m.realtime_input->0.media_chunks is None && m.realtime_input->0.text is None,
        m.realtime_input->0.audio is Some,
        m.realtime_input->0.audio->0.mime_type@ == "audio/pcm;rate=16000"@,
        m.realtime_input->0.audio->0.data@ == audio_base64@,
{
    let audio = GeminiMediaChunk { mime_type: String::from_str("audio/pcm;rate=16000"), data: audio_base64.to_owned() };
    realtime_frame(GeminiRealtimeInput { audio: Some(audio), media_chunks: None, text: None })
}

/// The realtime-input frame carrying a conversational text turn.
pub fn text_input_message(text: &str) -> (m: GeminiClientMessage)
    ensures
        m.setup is None && m.tool_response is None && m.client_content is None,
        m.realtime_input is Some,
        m.realtime_input->0.audio is None && m.realtime_input->0.media_chunks is None,
        m.realtime_input->0.text is Some,
        m.realtime_input->0.text->0@ == text@,
{
    realtime_frame(GeminiRealtimeInput { audio: None, media_chunks: None, text: Some(text.to_owned()) })
}

/// The realtime-input frame carrying one video frame as a media chunk.
pub fn video_frame_message(mime_type: &str, data_base64: &str) -> (m: GeminiClientMessage)
    ensures
        m.setup is None && m.tool_response is None && m.client_content is None,
        m.realtime_input is Some,
        m.realtime_input->0.audio is None && m.realtime_input->0.text is None,
        m.realtime_input->0.media_chunks is Some,
        m.realtime_input->0.media_chunks->0@.len() == 1,
        m.realtime_input->0.media_chunks->0@[0].mime_type@ == mime_type@,
        m.realtime_input->0.media_chunks->0@[0].data@ == data_base64@,
{
    let chunk = GeminiMediaChunk { mime_type: mime_type.to_owned(), data: data_base64.to_owned() };
    let mut chunks: Vec<GeminiMediaChunk> = Vec::new();
    chunks.push(chunk);
    realtime_frame(GeminiRealtimeInput { audio: None, media_chunks: Some(chunks), text: None })
}

/// What sending a client event to Gemini Live amounts to.
#[derive(Debug)]
pub enum GeminiSend {
    /// Send this frame.
    Frame(GeminiClientMessage),
    /// Rebuild the setup frame from this session configuration (see
    /// `setup_message`) and send it.
    Setup(Json),
    /// Nothing is sent: the event has no Gemini Live counterpart (audio goes
    /// through the audio path, and turns and responses follow voice activity).
    Dropped,
}

/// The plan for sending `event`: a message becomes a `clientContent` turn; a
/// session update becomes a new setup frame; an update intent that only the
/// runner may handle is an error; every other event has no counterpart.
pub fn plan_client_event(event: ClientEvent) -> (r: Result<GeminiSend, RealtimeError>)
    ensures
        match event {
            ClientEvent::Message { role, parts } => r matches Ok(GeminiSend::Frame(m)) && translated_message(
                m,
                role@,
                parts@,
            ),
            ClientEvent::SessionUpdate { session } => r == Ok::<GeminiSend, RealtimeError>(GeminiSend::Setup(session)),
            ClientEvent::UpdateSession { .. } => r matches Err(RealtimeError::ProviderError(m)) && m@
                == "Internal intent leaked to transport"@,
            _ => r == Ok::<GeminiSend, RealtimeError>(GeminiSend::Dropped),
        },
{
    match event {
        ClientEvent::Message { role, parts } => Ok(GeminiSend::Frame(translate_client_message(role.as_str(), parts))),
        ClientEvent::SessionUpdate { session } => Ok(GeminiSend::Setup(session)),
        ClientEvent::UpdateSession { .. } => Err(
            RealtimeError::ProviderError(String::from_str("Internal intent leaked to transport")),
        ),
        _ => Ok(GeminiSend::Dropped),
    }
}

/// `g` is the `generationConfig` of a session update for `config`: the
/// response modalities when the update names some, and the voice.
pub open spec fn update_generation_matches(g: Json, config: RealtimeConfig) -> bool {
    &&& g is Object
    &&& member_count(g) == (if config.modalities is Some {
        1nat
    } else {
        0
    }) + (if config.voice is Some {
        1nat
    } else {
        0
    })
    &&& config.modalities is Some ==> texts_array(
        spec_get(g, "responseModalities"@),
        response_modality_texts(config.modalities),
    )
    &&& config.modalities is None ==> spec_get(g, "responseModalities"@) is None
    &&& match config.voice {
        Some(v) => voice_matches(spec_get(g, "speechConfig"@), v),
        None => spec_get(g, "speechConfig"@) is None,
    }
}

/// `s` is the `setup` object that a session update to `config` sends: the
/// configuration's own model as given, the instruction, the generation
/// settings when there are any, the tools, the cached context, the
/// provider's resume handle and the voice-activity settings.
pub open spec fn update_setup_matches(s: Json, config: RealtimeConfig, tools: Option<Vec<Json>>, handle: Option<String>) -> bool {
    &&& s is Object
    &&& member_count(s) == 1 + (if config.model is Some {
        1nat
    } else {
        0
    }) + (if config.instruction is Some {
        1nat
    } else {
        0
    }) + (if config.modalities is Some || config.voice is Some {
        1nat
    } else {
        0
    }) + (if tools is Some {
        1nat
    } else {
        0
    }) + (if config.cached_content is Some {
        1nat
    } else {
        0
    }) + (if gemini_input_present(config.turn_detection) {
        1nat
    } else {
        0
    })
    &&& spec_get(s, "model"@) == match config.model {
        Some(m) => Some(Json::Str(m)),
        None => None,
    }
    &&& match config.instruction {
        Some(i) => spec_get(s, "systemInstruction"@) matches Some(si) && si is Object && member_count(si) == 1
            && (spec_get(si, "parts"@) matches Some(Json::Array(ps)) && ps@.len() == 1 && single_member(
            Some(ps@[0]),
            "text"@,
            Json::Str(i),
        )),
        None => spec_get(s, "systemInstruction"@) is None,
    }
    &&& (config.modalities is Some || config.voice is Some) ==> (spec_get(s, "generationConfig"@) matches Some(g)
        && update_generation_matches(g, config))
    &&& !(config.modalities is Some || config.voice is Some) ==> spec_get(s, "generationConfig"@) is None
    &&& spec_get(s, "tools"@) == match tools {
        Some(t) => Some(Json::Array(t)),
        None => None,
    }
    &&& spec_get(s, "cachedContent"@) == match config.cached_content {
        Some(c) => Some(Json::Str(c)),
        None => None,
    }
    &&& spec_get(s, "sessionResumption"@) matches Some(sr) && sr is Object && member_count(sr) == (if handle is Some {
        1nat
    } else {
        0
    }) && spec_get(sr, "handle"@) == match handle {
        Some(h) => Some(Json::Str(h)),
        None => None,
    }
    &&& spec_get(s, "inputAudioTranscription"@) is None
    &&& spec_get(s, "outputAudioTranscription"@) is None
    &&& input_config_matches(spec_get(s, "realtimeInputConfig"@), config.turn_detection)
}

/// The setup frame a mid-session configuration update sends (see
/// `update_setup_matches`). The sampling temperature is not held by the
/// configuration and is not sent.
pub fn session_update_message(config: RealtimeConfig, compiled_tools: Option<Vec<Json>>, resume_handle: Option<String>) -> (msg: GeminiClientMessage)
    ensures
        msg.realtime_input is None,
        msg.tool_response is None,
        msg.client_content is None,
        msg.setup matches Some(s) && update_setup_matches(s, config, compiled_tools, resume_handle),
{
    let ghost cfg = config;
    let input_config = gemini_realtime_input_config(&config);
    let has_modalities = config.modalities.is_some();
    let mods = gemini_response_modalities(config.modalities.as_ref());
    let RealtimeConfig {
        model,
        instruction,
        voice,
        modalities: _,
        tools: _,
        turn_detection: _,
        affective_dialog: _,
        cached_content,
        input_audio_transcription: _,
        extra: _,
    } = config;
    proof {
        reveal_strlit("responseModalities");
        reveal_strlit("speechConfig");
        reveal_strlit("model");
        reveal_strlit("systemInstruction");
        reveal_strlit("generationConfig");
        reveal_strlit("tools");
        reveal_strlit("cachedContent");
        reveal_strlit("sessionResumption");
        reveal_strlit("inputAudioTranscription");
        reveal_strlit("outputAudioTranscription");
        reveal_strlit("realtimeInputConfig");
        assert("responseModalities"@.len() == 18);
        assert("speechConfig"@.len() == 12);
        assert("model"@.len() == 5);
        assert("systemInstruction"@.len() == 17);
        assert("generationConfig"@.len() == 16);
        assert("tools"@.len() == 5);
        assert("model"@[0] != "tools"@[0]);
        assert("cachedContent"@.len() == 13);
        assert("sessionResumption"@.len() == 17);
        assert("systemInstruction"@[1] != "sessionResumption"@[1]);
        assert("inputAudioTranscription"@.len() == 23);
        assert("outputAudioTranscription"@.len() == 24);
        assert("realtimeInputConfig"@.len() == 19);
    }
    let mut gen: Vec<JsonMember> = Vec::new();
    if has_modalities {
        let texts = texts_to_array(mods);
        proof {
            assert forall|i: int| 0 <= i < mods@.len() implies mods@[i]@ == #[trigger] response_modality_texts(
                cfg.modalities,
            )[i] by {}
        }
        push_member(&mut gen, "responseModalities", texts);
    }
    let has_voice = voice.is_some();
    match voice {
        Some(v) => {
            let inner = object1("voiceName", Json::Str(v));
            let mid = object1("prebuiltVoiceConfig", inner);
            push_member(&mut gen, "speechConfig", object1("voiceConfig", mid));
        },
        None => {},
    }
    let mut setup: Vec<JsonMember> = Vec::new();
    match model {
        Some(m) => push_member(&mut setup, "model", Json::Str(m)),
        None => {},
    }
    match instruction {
        Some(i) => {
            let part = object1("text", Json::Str(i));
            push_member(&mut setup, "systemInstruction", object1("parts", Json::Array(vec![part])));
        },
        None => {},
    }
    if has_modalities || has_voice {
        let gen_json = Json::Object(gen);
        assert(update_generation_matches(gen_json, cfg));
        push_member(&mut setup, "generationConfig", gen_json);
    }
    match compiled_tools {
        Some(t) => push_member(&mut setup, "tools", Json::Array(t)),
        None => {},
    }
    match cached_content {
        Some(c) => push_member(&mut setup, "cachedContent", Json::Str(c)),
        None => {},
    }
    let mut sr: Vec<JsonMember> = Vec::new();
    match resume_handle {
        Some(h) => push_member(&mut sr, "handle", Json::Str(h)),
        None => {},
    }
    push_member(&mut setup, "sessionResumption", Json::Object(sr));
    match input_config {
        Some(ic) => push_member(&mut setup, "realtimeInputConfig", ic),
        None => {},
    }
    let s = Json::Object(setup);
    GeminiClientMessage { setup: Some(s), realtime_input: None, tool_response: None, client_content: None }
}

} // verus!
