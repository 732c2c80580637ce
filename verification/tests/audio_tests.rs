use adk_realtime::audio::{AudioChunk, AudioEncoding, AudioFormat, SmartAudioBuffer};

#[test]
fn test_smart_audio_buffer_flush_threshold() {
    let sample_rate = 1000;
    let target_ms = 100;
    // 1000 samples/sec -> 1 sample = 1ms; target 100ms -> 100 samples.
    let mut buffer = SmartAudioBuffer::new(sample_rate, target_ms);

    buffer.push(&[0; 50]);
    assert!(buffer.flush().is_none());

    buffer.push(&[0; 49]);
    assert!(buffer.flush().is_none());

    buffer.push(&[0; 1]);
    let flushed = buffer.flush();
    assert!(flushed.is_some());
    assert_eq!(flushed.unwrap().len(), 100);
    assert_eq!(buffer.len(), 0);
}

#[test]
fn test_smart_audio_buffer_flush_remaining() {
    let mut buffer = SmartAudioBuffer::new(1000, 100);

    buffer.push(&[0; 50]);
    assert!(buffer.flush().is_none());

    let remaining = buffer.flush_remaining();
    assert!(remaining.is_some());
    assert_eq!(remaining.unwrap().len(), 50);
    assert_eq!(buffer.len(), 0);
}

#[test]
fn test_smart_audio_buffer_empty_flush() {
    let mut buffer = SmartAudioBuffer::new(1000, 100);
    assert!(buffer.flush().is_none());
    assert!(buffer.flush_remaining().is_none());
}

#[test]
fn test_smart_audio_buffer_pop_threshold() {
    // target 100ms at 1000 Hz -> 100 samples (200 bytes).
    let mut buffer = SmartAudioBuffer::new(1000, 100);

    buffer.push(&[0; 50]);
    assert!(buffer.pop_chunk(AudioFormat::pcm16_24khz()).is_none());

    buffer.push(&[0; 49]);
    assert!(buffer.pop_chunk(AudioFormat::pcm16_24khz()).is_none());

    buffer.push(&[0; 1]);
    let popped = buffer.pop_chunk(AudioFormat::pcm16_24khz());
    assert!(popped.is_some());
    assert_eq!(popped.unwrap().data.len(), 200);
    assert_eq!(buffer.len(), 0);
}

#[test]
fn test_smart_audio_buffer_pop_remaining() {
    let mut buffer = SmartAudioBuffer::new(1000, 100);

    buffer.push(&[0; 50]);
    assert!(buffer.pop_chunk(AudioFormat::pcm16_24khz()).is_none());

    let remaining = buffer.pop_remaining_chunk(AudioFormat::pcm16_24khz());
    assert!(remaining.is_some());
    assert_eq!(remaining.unwrap().data.len(), 100);
    assert_eq!(buffer.len(), 0);
}

#[test]
fn test_smart_audio_buffer_empty_pop() {
    let mut buffer = SmartAudioBuffer::new(1000, 100);
    assert!(buffer.pop_chunk(AudioFormat::pcm16_24khz()).is_none());
    assert!(buffer.pop_remaining_chunk(AudioFormat::pcm16_24khz()).is_none());
}

#[test]
fn test_smart_audio_buffer_zero_duration_guard() {
    let mut buffer = SmartAudioBuffer::new(1000, 0);
    buffer.push(&[0; 50]);
    assert!(buffer.pop_chunk(AudioFormat::pcm16_24khz()).is_none());
}

#[test]
fn test_audio_format_bytes_per_second() {
    let pcm16_24k = AudioFormat::pcm16_24khz();
    assert_eq!(pcm16_24k.bytes_per_second(), 48000);

    let pcm16_16k = AudioFormat::pcm16_16khz();
    assert_eq!(pcm16_16k.bytes_per_second(), 32000);
}

#[test]
fn test_audio_chunk_base64() {
    let original = AudioChunk::pcm16_24khz(vec![0, 1, 2, 3, 4, 5]);
    let encoded = original.to_base64();
    let decoded = AudioChunk::from_base64(&encoded, AudioFormat::pcm16_24khz()).unwrap();
    assert_eq!(original.data, decoded.data);
}

#[test]
fn test_i16_samples_roundtrip() {
    let samples: Vec<i16> = vec![0, 1, -1, 32767, -32768, 1000, -1000];
    let chunk = AudioChunk::from_i16_samples(&samples, AudioFormat::pcm16_24khz());
    let recovered = chunk.to_i16_samples().unwrap();
    assert_eq!(samples.as_slice(), recovered.as_slice());
}

#[test]
fn test_i16_samples_empty() {
    let chunk = AudioChunk::from_i16_samples(&[], AudioFormat::pcm16_24khz());
    assert!(chunk.data.is_empty());
    assert_eq!(chunk.to_i16_samples().unwrap().as_slice(), Vec::<i16>::new().as_slice());
}

#[test]
fn test_i16_samples_odd_bytes_error() {
    let chunk = AudioChunk::pcm16_24khz(vec![0, 1, 2]);
    assert!(chunk.to_i16_samples().is_err());
}

#[test]
fn test_smart_audio_buffer_capacity_retention() {
    let mut buffer = SmartAudioBuffer::new(1000, 10);
    buffer.push(&[0; 100]);
    let initial_cap = buffer.capacity();
    assert!(initial_cap >= 200);

    let processed = buffer.pop_chunk(AudioFormat::pcm16_24khz());
    assert!(processed.is_some());
}

// ---------------------------------------------------------------------------

#[test]
fn audio_presets_have_expected_fields() {
    let f = AudioFormat::pcm16_8khz();
    assert_eq!((f.sample_rate, f.channels, f.bits_per_sample, f.encoding), (8000, 1, 16, AudioEncoding::Pcm16));
    let u = AudioFormat::g711_ulaw();
    assert_eq!((u.sample_rate, u.channels, u.bits_per_sample, u.encoding), (8000, 1, 8, AudioEncoding::G711Ulaw));
    let a = AudioFormat::g711_alaw();
    assert_eq!((a.sample_rate, a.channels, a.bits_per_sample, a.encoding), (8000, 1, 8, AudioEncoding::G711Alaw));
    assert_eq!(u.bytes_per_second(), 8000);
    assert_eq!(AudioFormat::default(), AudioFormat::pcm16_24khz());
}

#[test]
fn encoding_wire_names() {
    assert_eq!(AudioEncoding::Pcm16.to_string(), "pcm16");
    assert_eq!(AudioEncoding::G711Ulaw.to_string(), "g711_ulaw");
    assert_eq!(AudioEncoding::G711Alaw.to_string(), "g711_alaw");
}

#[test]
fn pcm16_samples_are_little_endian() {
    let chunk = AudioChunk::from_i16_samples(&[0x0201, -2], AudioFormat::pcm16_24khz());
    assert_eq!(chunk.data, vec![0x01, 0x02, 0xFE, 0xFF]);
}

#[test]
fn base64_text_of_known_bytes() {
    let chunk = AudioChunk::pcm16_24khz(vec![1, 2]);
    assert_eq!(chunk.to_base64(), "AQI=");
    let back = AudioChunk::from_base64("AQI=", AudioFormat::pcm16_16khz()).unwrap();
    assert_eq!(back.data, vec![1, 2]);
    assert_eq!(back.format, AudioFormat::pcm16_16khz());
}

#[test]
fn invalid_base64_is_an_error() {
    assert!(AudioChunk::from_base64("@@not base64@@", AudioFormat::pcm16_24khz()).is_err());
}

#[test]
fn odd_pcm_length_error_names_the_length() {
    let chunk = AudioChunk::pcm16_24khz(vec![0, 1, 2, 3, 4]);
    let err = chunk.to_i16_samples().unwrap_err();
    assert!(err.contains('5'), "got {err}");
}

#[test]
fn pop_chunk_leaves_the_excess_buffered() {
    // 10 ms at 1000 Hz is 10 samples (20 bytes); 25 samples were pushed.
    let mut buffer = SmartAudioBuffer::new(1000, 10);
    buffer.push(&[7; 25]);
    let c = buffer.pop_chunk(AudioFormat::pcm16_24khz()).unwrap();
    assert_eq!(c.data.len(), 20);
    assert_eq!(buffer.len(), 30);
    let rest = buffer.pop_remaining_chunk(AudioFormat::pcm16_24khz()).unwrap();
    assert_eq!(rest.data.len(), 30);
}

#[test]
fn flushed_samples_are_the_pushed_samples() {
    let mut buffer = SmartAudioBuffer::new(1000, 2);
    buffer.push(&[1, -2]);
    buffer.push(&[3]);
    assert_eq!(buffer.flush().unwrap(), vec![1, -2, 3]);
}

#[test]
fn process_and_clear_runs_only_when_due() {
    let mut buffer = SmartAudioBuffer::new(1000, 3);
    buffer.push(&[1, 2]);
    assert!(buffer.process_and_clear(|s| s.len()).is_none());
    buffer.push(&[3]);
    assert_eq!(buffer.process_and_clear(|s| s.iter().map(|&x| x as i32).sum::<i32>()), Some(6));
    assert_eq!(buffer.len(), 0);
}
