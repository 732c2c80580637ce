//! Verified core of a realtime voice-session library: audio formats and
//! buffering, event vocabulary, managed recovery supervision, and the
//! decision logic of the runner and the provider adapters.

pub mod time;
pub mod text;
pub mod audio;
pub mod error;
pub mod recovery;
pub mod config;
pub mod duration;
pub mod supervisor;
pub mod json;
pub mod events;
pub mod gemini;
pub mod gemini_frames;
pub mod gemini_laws;
pub mod gemini_session;
pub mod runner;
pub mod livekit;
pub mod context;
pub mod openai;
pub mod gemini_outbound;
pub mod gemini_audio;
pub mod gemini_wire;
