use adk_realtime::audio::{AudioChunk, AudioEncoding, AudioFormat};
use adk_realtime::gemini_audio::{decode_ulaw, GeminiAudioBatch, GEMINI_FLUSH_BYTES};

#[test]
fn ulaw_decoding_known_values() {
    assert_eq!(decode_ulaw(0xFF), 0);
    assert_eq!(decode_ulaw(0x7F), 0);
    assert_eq!(decode_ulaw(0x00), -32124);
    assert_eq!(decode_ulaw(0x80), 32124);
    assert_eq!(decode_ulaw(0xF0), 120);
}

#[test]
fn small_chunks_wait_until_the_threshold() {
    let mut batch = GeminiAudioBatch::new();
    let chunk = AudioChunk::new(vec![0; 1000], AudioFormat::pcm16_16khz());
    assert!(batch.push_chunk(&chunk).unwrap().is_empty());
    let out = batch.push_chunk(&chunk).unwrap();
    assert_eq!(out.len(), 1);
    assert_eq!(out[0].len(), 2000);
    assert!(batch.flush().is_none());
}

#[test]
fn a_large_chunk_goes_out_after_what_waited() {
    let mut batch = GeminiAudioBatch::new();
    batch.push_chunk(&AudioChunk::new(vec![1; 10], AudioFormat::pcm16_16khz())).unwrap();
    let out = batch.push_chunk(&AudioChunk::new(vec![2; GEMINI_FLUSH_BYTES], AudioFormat::pcm16_16khz())).unwrap();
    assert_eq!(out.len(), 2);
    assert_eq!(out[0], vec![1; 10]);
    assert_eq!(out[1].len(), GEMINI_FLUSH_BYTES);
}

#[test]
fn ulaw_telephony_audio_is_upsampled() {
    let mut batch = GeminiAudioBatch::new();
    let chunk = AudioChunk::new(vec![0xFF, 0x80], AudioFormat::g711_ulaw());
    assert!(batch.push_chunk(&chunk).unwrap().is_empty());
    let pending = batch.flush().unwrap();
    // Each 8 kHz sample is repeated: 0, 0, 32124, 32124 as little-endian PCM16.
    assert_eq!(pending, vec![0, 0, 0, 0, 0x7C, 0x7D, 0x7C, 0x7D]);
}

#[test]
fn unsupported_formats_are_refused() {
    let mut batch = GeminiAudioBatch::new();
    let err = batch.push_chunk(&AudioChunk::new(vec![0; 4], AudioFormat::pcm16_24khz())).unwrap_err();
    assert_eq!(
        err.to_string(),
        "Invalid configuration: this Gemini adapter currently supports only pcm16 at 16kHz mono or g711_ulaw at 8kHz, received: AudioFormat { sample_rate: 24000, channels: 1, bits_per_sample: 16, encoding: Pcm16 }"
    );
    let alaw = AudioFormat::new(8000, 1, 8, AudioEncoding::G711Alaw);
    assert!(batch.push_chunk(&AudioChunk::new(vec![0; 4], alaw)).is_err());
    batch.clear();
    assert!(batch.flush().is_none());
}
