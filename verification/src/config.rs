//! Session configuration.
//!
//! Free-form JSON carried by the configuration (tool parameter schemas,
//! provider extras) is held as [`Json`] values. The sampling temperature, a
//! floating-point setting, is not held.

use vstd::prelude::*;
use crate::json::Json;

verus! {

/// Voice-activity-detection mode.
#[derive(Debug, Clone, Copy, PartialEq, Eq, Structural)]
pub enum VadMode {
    /// The server detects turns from audio energy.
    ServerVad,
    /// The server detects turns from meaning.
    SemanticVad,
    /// No automatic detection; the client drives turns.
    Disabled,
}

/// Turn-detection settings. Every optional field left `None` is a library
/// default, not a caller's choice.
#[derive(Debug)]
pub struct VadConfig {
    pub mode: VadMode,
    pub silence_duration_ms: Option<u32>,
    pub prefix_padding_ms: Option<u32>,
    pub interrupt_response: Option<bool>,
    pub eagerness: Option<String>,
}

/// A tool the model may call.
#[derive(Debug)]
pub struct ToolDefinition {
    pub name: String,
    pub description: Option<String>,
    /// JSON Schema of the parameters.
    pub parameters: Option<Json>,
}

/// Configuration of a realtime session.
#[derive(Debug)]
pub struct RealtimeConfig {
    /// The model to use.
    pub model: Option<String>,
    pub instruction: Option<String>,
    pub voice: Option<String>,
    pub modalities: Option<Vec<String>>,
    pub tools: Option<Vec<ToolDefinition>>,
    pub turn_detection: Option<VadConfig>,
    pub affective_dialog: Option<bool>,
    /// Cached context to resume from (a provider cache name).
    pub cached_content: Option<String>,
    /// Transcription of the caller's audio; when set, both directions are
    /// transcribed.
    pub input_audio_transcription: Option<Json>,
    /// Provider-specific extra settings.
    pub extra: Option<Json>,
}

/// A configuration delta: every `Some` field replaces the current value.
#[derive(Debug)]
pub struct SessionUpdateConfig(pub RealtimeConfig);

impl VadConfig {
    /// Server-side VAD with every timing left to the provider.
    pub fn server_vad() -> (v: Self)
        ensures
            v.mode == VadMode::ServerVad,
            v.silence_duration_ms.is_none(),
            v.prefix_padding_ms.is_none(),
            v.interrupt_response.is_none(),
            v.eagerness.is_none(),
    {
        VadConfig {
            mode: VadMode::ServerVad,
            silence_duration_ms: None,
            prefix_padding_ms: None,
            interrupt_response: None,
            eagerness: None,
        }
    }
}

impl ToolDefinition {
    /// A tool with only a name.
    pub fn new(name: String) -> (t: Self)
        ensures
            t.name == name,
            t.description.is_none(),
            t.parameters.is_none(),
    {
        ToolDefinition { name, description: None, parameters: None }
    }

    /// Set the description.
    pub fn with_description(self, description: String) -> (t: Self)
        ensures
            t.name == self.name,
            t.description == Some(description),
            t.parameters == self.parameters,
    {
        ToolDefinition { description: Some(description), ..self }
    }

    /// Set the parameter schema.
    pub fn with_parameters(self, parameters: Json) -> (t: Self)
        ensures
            t.name == self.name,
            t.description == self.description,
            t.parameters == Some(parameters),
    {
        ToolDefinition { parameters: Some(parameters), ..self }
    }
}

impl RealtimeConfig {
    /// A configuration with nothing set.
    pub open spec fn is_empty(self) -> bool {
        &&& self.model.is_none()
        &&& self.instruction.is_none()
        &&& self.voice.is_none()
        &&& self.modalities.is_none()
        &&& self.tools.is_none()
        &&& self.turn_detection.is_none()
        &&& self.affective_dialog.is_none()
        &&& self.cached_content.is_none()
        &&& self.input_audio_transcription.is_none()
        &&& self.extra.is_none()
    }

    /// Set the model, leaving everything else.
    pub fn with_model(self, model: String) -> (c: Self)
        ensures
            c == (RealtimeConfig { model: Some(model), ..self }),
    {
        RealtimeConfig { model: Some(model), ..self }
    }

    /// Set the affective-dialog flag, leaving everything else.
    pub fn with_affective_dialog(self, enabled: bool) -> (c: Self)
        ensures
            c == (RealtimeConfig { affective_dialog: Some(enabled), ..self }),
    {
        RealtimeConfig { affective_dialog: Some(enabled), ..self }
    }

    /// Set the system instruction, leaving everything else.
    pub fn with_instruction(self, instruction: String) -> (c: Self)
        ensures
            c == (RealtimeConfig { instruction: Some(instruction), ..self }),
    {
        RealtimeConfig { instruction: Some(instruction), ..self }
    }

    /// Set the voice, leaving everything else.
    pub fn with_voice(self, voice: String) -> (c: Self)
        ensures
            c == (RealtimeConfig { voice: Some(voice), ..self }),
    {
        RealtimeConfig { voice: Some(voice), ..self }
    }

    /// Set the response modalities, leaving everything else.
    pub fn with_modalities(self, modalities: Vec<String>) -> (c: Self)
        ensures
            c == (RealtimeConfig { modalities: Some(modalities), ..self }),
    {
        RealtimeConfig { modalities: Some(modalities), ..self }
    }

    /// Set the tools, leaving everything else.
    pub fn with_tools(self, tools: Vec<ToolDefinition>) -> (c: Self)
        ensures
            c == (RealtimeConfig { tools: Some(tools), ..self }),
    {
        RealtimeConfig { tools: Some(tools), ..self }
    }

    /// Set turn detection, leaving everything else.
    pub fn with_turn_detection(self, vad: VadConfig) -> (c: Self)
        ensures
            c == (RealtimeConfig { turn_detection: Some(vad), ..self }),
    {
        RealtimeConfig { turn_detection: Some(vad), ..self }
    }

    /// Turn on server-side voice activity detection with provider timings.
    pub fn with_server_vad(self) -> (c: Self)
        ensures
            c == (RealtimeConfig {
                turn_detection: Some(
                    VadConfig {
                        mode: VadMode::ServerVad,
                        silence_duration_ms: None,
                        prefix_padding_ms: None,
                        interrupt_response: None,
                        eagerness: None,
                    },
                ),
                ..self
            }),
    {
        self.with_turn_detection(VadConfig::server_vad())
    }

    /// Set cached context, leaving everything else.
    pub fn with_cached_content(self, cached_content: String) -> (c: Self)
        ensures
            c == (RealtimeConfig { cached_content: Some(cached_content), ..self }),
    {
        RealtimeConfig { cached_content: Some(cached_content), ..self }
    }

    /// Set provider-specific extra settings, leaving everything else.
    pub fn with_extra(self, extra: Json) -> (c: Self)
        ensures
            c == (RealtimeConfig { extra: Some(extra), ..self }),
    {
        RealtimeConfig { extra: Some(extra), ..self }
    }
}

impl Default for RealtimeConfig {
    fn default() -> (c: Self)
        ensures
            c.is_empty(),
    {
        RealtimeConfig {
            model: None,
            instruction: None,
            voice: None,
            modalities: None,
            tools: None,
            turn_detection: None,
            affective_dialog: None,
            cached_content: None,
            input_audio_transcription: None,
            extra: None,
        }
    }
}

/// The configuration that results from applying `update` to `base`: each field
/// set in the update replaces the base field (instruction, tools, voice, extra).
pub open spec fn merged(base: RealtimeConfig, update: RealtimeConfig) -> RealtimeConfig {
    RealtimeConfig {
        instruction: if update.instruction.is_some() { update.instruction } else { base.instruction },
        tools: if update.tools.is_some() { update.tools } else { base.tools },
        voice: if update.voice.is_some() { update.voice } else { base.voice },
        extra: if update.extra.is_some() { update.extra } else { base.extra },
        ..base
    }
}

/// A session update takes effect field by field: every field the update
/// sets (instruction, tools, voice, extra settings) has the update's value
/// afterwards, every field it leaves unset keeps the base value, and the
/// fields a session update does not carry are untouched.
pub proof fn law_update_sets_what_it_names(base: RealtimeConfig, update: RealtimeConfig)
    ensures
        update.instruction is Some ==> merged(base, update).instruction == update.instruction,
        update.instruction is None ==> merged(base, update).instruction == base.instruction,
        update.tools is Some ==> merged(base, update).tools == update.tools,
        update.tools is None ==> merged(base, update).tools == base.tools,
        update.voice is Some ==> merged(base, update).voice == update.voice,
        update.voice is None ==> merged(base, update).voice == base.voice,
        update.extra is Some ==> merged(base, update).extra == update.extra,
        update.extra is None ==> merged(base, update).extra == base.extra,
        merged(base, update).model == base.model,
        merged(base, update).modalities == base.modalities,
        merged(base, update).turn_detection == base.turn_detection,
        merged(base, update).affective_dialog == base.affective_dialog,
        merged(base, update).cached_content == base.cached_content,
        merged(base, update).input_audio_transcription == base.input_audio_transcription,
{
}

/// Merge a configuration delta into `base` (instruction, tools, voice and
/// extra settings; other fields are not carried by a session update).
pub fn merge_config(base: &mut RealtimeConfig, update: SessionUpdateConfig)
    ensures
        *final(base) == merged(*old(base), update.0),
{
    let SessionUpdateConfig(u) = update;
    if u.instruction.is_some() {
        base.instruction = u.instruction;
    }
    if u.tools.is_some() {
        base.tools = u.tools;
    }
    if u.voice.is_some() {
        base.voice = u.voice;
    }
    if u.extra.is_some() {
        base.extra = u.extra;
    }
}

/// The instruction that results from prepending `block` to `existing`:
/// `block`, a blank line, then the existing instruction when it is non-empty.
pub open spec fn prepended_instruction(block: Seq<char>, existing: Option<Seq<char>>) -> Seq<char> {
    match existing {
        Some(e) => if e.len() > 0 { block + "\n\n"@ + e } else { block },
        None => block,
    }
}

/// Prepend a context block to the system instruction. An empty block changes
/// nothing.
pub fn prepend_instruction_context(config: &mut RealtimeConfig, block: &str)
    ensures
        block@.len() == 0 ==> *final(config) == *old(config),
        block@.len() > 0 ==> final(config).instruction is Some && final(config).instruction.unwrap()@
            == prepended_instruction(
            block@,
            match old(config).instruction {
                Some(s) => Some(s@),
                None => None,
            },
        ),
        *final(config) == (RealtimeConfig { instruction: final(config).instruction, ..*old(config) }),
{
    if block.unicode_len() == 0 {
        return ;
    }
    let existing = config.instruction.take();
    proof {
        reveal_strlit("\n\n");
    }
    let next = match existing {
        Some(e) => {
            if e.unicode_len() > 0 {
                let mut s = String::from_str(block);
                s.append("\n\n");
                s.append(e.as_str());
                s
            } else {
                String::from_str(block)
            }
        },
        None => String::from_str(block),
    };
    config.instruction = Some(next);
}

} // verus!
