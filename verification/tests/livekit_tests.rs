use adk_realtime::livekit::{plan_frame, LiveKitAudioOutput, RemainderState};

#[test]
fn test_aligned_even_length() {
    let mut state = RemainderState::new();
    let input = vec![0x01, 0x02, 0x03, 0x04];
    let samples = state.assemble(&input, "item_a");
    assert_eq!(samples.as_slice(), &[0x0201, 0x0403]);
    assert_eq!(state.pending_byte, None);
    assert_eq!(state.item_id, None);
}

#[test]
fn test_unaligned_even_length() {
    let mut state = RemainderState::new();
    let input_vec = vec![0x00, 0x01, 0x02, 0x03, 0x04, 0x00];
    let input = &input_vec[1..5];
    let samples = state.assemble(input, "item_a");
    assert_eq!(samples.as_slice(), &[0x0201, 0x0403]);
    assert_eq!(state.pending_byte, None);
    assert_eq!(state.item_id, None);
}

#[test]
fn test_two_same_item_split_reconstruct() {
    let mut state = RemainderState::new();
    let samples1 = state.assemble(&[0x01, 0x02, 0x03], "item_a");
    assert_eq!(samples1.as_slice(), &[0x0201]);
    assert_eq!(state.pending_byte, Some(0x03));
    assert_eq!(state.item_id.as_deref(), Some("item_a"));

    let samples2 = state.assemble(&[0x04], "item_a");
    assert_eq!(samples2.as_slice(), &[0x0403]);
    assert_eq!(state.pending_byte, None);
    assert_eq!(state.item_id, None);
}

#[test]
fn test_different_items_prevent_contamination() {
    let mut state = RemainderState::new();
    let samples1 = state.assemble(&[0x01, 0x02, 0x03], "item_a");
    assert_eq!(samples1.as_slice(), &[0x0201]);
    assert_eq!(state.pending_byte, Some(0x03));

    let samples2 = state.assemble(&[0x04, 0x05], "item_b");
    assert_eq!(samples2.as_slice(), &[0x0504]);
    assert_eq!(state.pending_byte, None);
    assert_eq!(state.item_id, None);
}

#[test]
fn test_clear_at_boundary_response_done() {
    let mut state = RemainderState::new();
    state.assemble(&[0x01, 0x02, 0x03], "item_a");
    assert_eq!(state.pending_byte, Some(0x03));

    state.clear_pending_state("response_done");
    assert_eq!(state.pending_byte, None);
    assert_eq!(state.item_id, None);
}

#[test]
fn test_clear_at_boundary_error() {
    let mut state = RemainderState::new();
    state.assemble(&[0x01, 0x02, 0x03], "item_a");
    assert_eq!(state.pending_byte, Some(0x03));

    state.clear_pending_state("error");
    assert_eq!(state.pending_byte, None);
    assert_eq!(state.item_id, None);
}

#[test]
fn empty_chunk_keeps_the_carried_byte() {
    let mut state = RemainderState::new();
    state.assemble(&[0x01], "item_a");
    let s = state.assemble(&[], "item_a");
    assert!(s.is_empty());
    assert_eq!(state.pending_byte, Some(0x01));
    assert_eq!(state.item_id.as_deref(), Some("item_a"));
}

#[test]
fn split_chunks_of_one_item_decode_as_their_concatenation() {
    let whole: Vec<u8> = (1..=9).collect();
    let mut joined = RemainderState::new();
    let expected = joined.assemble(&whole, "i");
    let mut state = RemainderState::new();
    let mut got = state.assemble(&whole[..3], "i");
    got.extend(state.assemble(&whole[3..4], "i"));
    got.extend(state.assemble(&whole[4..], "i"));
    assert_eq!(got, expected);
    assert_eq!(state.pending_byte, Some(9));
}

#[test]
fn frames_are_shaped_by_channels() {
    let f = plan_frame(vec![1, 2, 3, 4], 24000, 2).unwrap().unwrap();
    assert_eq!((f.sample_rate, f.num_channels, f.samples_per_channel), (24000, 2, 2));
    assert_eq!(f.data, vec![1, 2, 3, 4]);
    assert!(plan_frame(vec![1, 2, 3], 24000, 2).unwrap().is_none());
    assert!(plan_frame(vec![], 24000, 0).unwrap().is_none());
    let e = plan_frame(vec![1], 24000, 0).unwrap_err();
    assert_eq!(e.to_string(), "Provider error: Cannot push audio to LiveKit NativeAudioSource: num_channels is 0");
}

#[test]
fn audio_output_discards_carry_at_boundaries() {
    let mut out = LiveKitAudioOutput::new(16000, 1);
    assert!(out.on_audio(&[1], "x").unwrap().is_none());
    out.on_response_done();
    let f = out.on_audio(&[2, 0], "x").unwrap().unwrap();
    assert_eq!(f.data, vec![2]);
    assert!(out.on_audio(&[7], "y").unwrap().is_none());
    out.on_error();
    assert_eq!(out.state.pending_byte, None);
}

#[test]
fn audio_output_carries_the_odd_byte_into_the_next_chunk() {
    let mut out = LiveKitAudioOutput::new(24000, 2);
    // The sample 1, then the first byte of -1.
    let first = out.on_audio(&[0x01, 0x00, 0xff], "item_a").unwrap();
    assert!(first.is_none(), "one sample is not a whole stereo frame");
    assert_eq!(out.state.pending_byte, Some(0xff));
    assert_eq!(out.state.item_id.as_deref(), Some("item_a"));
    // The second byte of -1, then 2.
    let frame = out.on_audio(&[0xff, 0x02, 0x00], "item_a").unwrap().expect("two samples make a stereo frame");
    assert_eq!(frame.data, vec![-1i16, 2]);
    assert_eq!((frame.sample_rate, frame.num_channels, frame.samples_per_channel), (24000, 2, 1));
    assert_eq!(out.state.pending_byte, None);
    assert_eq!(out.state.item_id, None);
}

#[test]
fn audio_output_without_channels_is_refused() {
    let mut out = LiveKitAudioOutput::new(24000, 0);
    match out.on_audio(&[0x01, 0x00], "item_a") {
        Err(adk_realtime::error::RealtimeError::ProviderError(m)) => {
            assert_eq!(m, "Cannot push audio to LiveKit NativeAudioSource: num_channels is 0")
        }
        other => panic!("unexpected {other:?}"),
    }
}
