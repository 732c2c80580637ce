# adk_realtime

A realtime voice-session library for Gemini Live (and an OpenAI WebRTC
descriptor), whose decision logic is verified with Verus.

## Layout

- `src/` — the verified library.
  - `time`, `text`, `json`: monotonic time, text helpers (trimming, decimal
    and hexadecimal rendering), and the JSON value model that frames are read
    into and built from.
  - `audio`, `gemini_audio`: audio formats, little-endian PCM16 packing, base64,
    the smart audio buffer, G.711 µ-law decoding and the Gemini audio batcher.
  - `duration`: the exact decimal parser of `timeLeft` durations.
  - `events`, `config`, `error`: the event vocabulary, session configuration
    and its builders, and the error type with its texts and classification.
  - `gemini`, `gemini_frames`, `gemini_session`, `gemini_outbound`,
    `gemini_wire`: model ids, endpoints and credential policy, the call-name
    registry, translation of server frames into events, per-connection state,
    the client frames (setup, realtime input, context turns, tool responses)
    and their JSON form.
  - `recovery`, `supervisor`: the recovery policy and the supervisor state
    machine (generations, write gates, replacement transactions, the attempt
    loop), with its laws.
  - `runner`: the runner's routing, tool bookkeeping, circuit breaker,
    follow-up responses and queued resumptions.
  - `livekit`, `context`, `openai`: the LiveKit audio framing, the interruption
    compactor, and the OpenAI WebRTC client events.
- `app/` — the I/O around the library: the Gemini Live WebSocket, JSON text,
  serde forms of the library's types, the async drivers of the replacement
  worker and of event delivery, and the pieces that need floating point.
- `tests/` — tests of the library.

Verification: `verus` on `src/lib.rs`; the contracts state each function's
result over spec functions, and the `law_*` proof functions state the
properties that span operations.
