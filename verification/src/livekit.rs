//! Model audio for a LiveKit room: PCM16 bytes may arrive split in the middle
//! of a sample. An odd trailing byte is carried into the next chunk of the
//! same item and discarded at an item, response or error boundary; whole
//! samples are shaped into frames for the room's audio source.

use vstd::prelude::*;
use crate::audio::{decode_le_samples, le_samples, lemma_le_samples_concat};
use crate::error::RealtimeError;
use crate::json::str_eq;

verus! {

/// Carry-over between the audio chunks of one item.
#[derive(Debug)]
pub struct RemainderState {
    /// The first byte of a sample whose second byte has not arrived.
    pub pending_byte: Option<u8>,
    /// The item that byte belongs to.
    pub item_id: Option<String>,
}

/// The state names an item other than `id`.
pub open spec fn crosses_item(item_id: Option<String>, id: Seq<char>) -> bool {
    item_id matches Some(old) && old@ != id
}

/// The byte carried into a chunk of item `id`: a byte left by another item
/// is dropped.
pub open spec fn carried_byte(pending: Option<u8>, item_id: Option<String>, id: Seq<char>) -> Option<u8> {
    if crosses_item(item_id, id) {
        None
    } else {
        pending
    }
}

/// The bytes to decode: the carried byte, then the chunk.
pub open spec fn assembly_stream(carried: Option<u8>, audio: Seq<u8>) -> Seq<u8> {
    match carried {
        Some(b) => seq![b] + audio,
        None => audio,
    }
}

impl RemainderState {
    /// Nothing carried.
    pub fn new() -> (s: Self)
        ensures
            s.pending_byte is None,
            s.item_id is None,
    {
        RemainderState { pending_byte: None, item_id: None }
    }

    /// Discards a carried byte at a response or error boundary (named by
    /// `boundary`).
    pub fn clear_pending_state(&mut self, boundary: &str)
        ensures
            final(self).pending_byte is None,
            final(self).item_id is None,
    {
        self.pending_byte = None;
        self.item_id = None;
    }

    /// The whole samples of a chunk of item `item_id`, little-endian, after
    /// the byte carried from the same item's previous chunk; an odd final
    /// byte is carried on.
    pub fn assemble(&mut self, audio: &[u8], item_id: &str) -> (samples: Vec<i16>)
        ensures
            ({
                let c = carried_byte(old(self).pending_byte, old(self).item_id, item_id@);
                let st = assembly_stream(c, audio@);
                &&& samples@ == le_samples(st)
                &&& st.len() % 2 == 1 ==> final(self).pending_byte == Some(st.last())
                    && (final(self).item_id matches Some(x) && x@ == item_id@)
                &&& st.len() % 2 == 0 ==> final(self).pending_byte is None
                    && final(self).item_id == (if c is Some || crosses_item(old(self).item_id, item_id@) {
                        None
                    } else {
                        old(self).item_id
                    })
            }),
    {
        let crosses = match &self.item_id {
            Some(old_id) => !str_eq(old_id.as_str(), item_id),
            None => false,
        };
        if crosses {
            self.pending_byte = None;
            self.item_id = None;
        }
        let had = self.pending_byte;
        let mut st: Vec<u8> = Vec::new();
        match had {
            Some(b) => st.push(b),
            None => {},
        }
        let ghost head = st@;
        let mut i: usize = 0;
        while i < audio.len()
            invariant
                i <= audio.len(),
                st@ == head + audio@.subrange(0, i as int),
            decreases audio.len() - i,
        {
            st.push(audio[i]);
            i = i + 1;
        }
        let n = st.len();
        let even = n - n % 2;
        let samples = decode_le_samples(&st, 0, even);
        proof {
            assert(audio@.subrange(0, audio@.len() as int) =~= audio@);
            assert(st@ =~= assembly_stream(had, audio@));
            assert(st@.subrange(0, even as int).len() / 2 == st@.len() / 2);
            assert(le_samples(st@.subrange(0, even as int)) =~= le_samples(st@));
        }
        if n % 2 == 1 {
            self.pending_byte = Some(st[n - 1]);
            self.item_id = Some(String::from_str(item_id));
        } else {
            self.pending_byte = None;
            if had.is_some() {
                self.item_id = None;
            }
        }
        samples
    }
}

/// One frame for the room's audio source.
#[derive(Debug)]
pub struct AudioFrame {
    pub data: Vec<i16>,
    pub sample_rate: u32,
    pub num_channels: u32,
    pub samples_per_channel: u32,
}

/// The frame for `samples`: none when there are none or when their count
/// is not a multiple of the channel count; an error when there are no
/// channels.
pub fn plan_frame(samples: Vec<i16>, sample_rate: u32, num_channels: u32) -> (r: Result<Option<AudioFrame>, RealtimeError>)
    ensures
        samples@.len() == 0 ==> r == Ok::<Option<AudioFrame>, RealtimeError>(None),
        samples@.len() > 0 && num_channels == 0 ==> (r matches Err(RealtimeError::ProviderError(m))
            && m@ == "Cannot push audio to LiveKit NativeAudioSource: num_channels is 0"@),
        samples@.len() > 0 && num_channels > 0 && samples@.len() % (num_channels as nat) != 0 ==> r
            == Ok::<Option<AudioFrame>, RealtimeError>(None),
        samples@.len() > 0 && num_channels > 0 && samples@.len() % (num_channels as nat) == 0 ==> (r
            matches Ok(Some(f)) && f.data@ == samples@ && f.sample_rate == sample_rate && f.num_channels
            == num_channels && f.samples_per_channel == (samples@.len() as u32) / num_channels),
{
    if samples.len() == 0 {
        return Ok(None);
    }
    if num_channels == 0 {
        return Err(
            RealtimeError::provider(
                String::from_str("Cannot push audio to LiveKit NativeAudioSource: num_channels is 0"),
            ),
        );
    }
    if samples.len() % (num_channels as usize) != 0 {
        return Ok(None);
    }
    #[verifier::truncate]
    let count = samples.len() as u32;
    let samples_per_channel = count / num_channels;
    Ok(Some(AudioFrame { data: samples, sample_rate, num_channels, samples_per_channel }))
}

/// The LiveKit side of a model's audio output: the carry-over state and the
/// frame shape of the room's audio source.
#[derive(Debug)]
pub struct LiveKitAudioOutput {
    pub state: RemainderState,
    pub sample_rate: u32,
    pub num_channels: u32,
}

impl LiveKitAudioOutput {
    /// Output of frames at `sample_rate` Hz with `num_channels` channels.
    pub fn new(sample_rate: u32, num_channels: u32) -> (o: Self)
        ensures
            o.state.pending_byte is None,
            o.state.item_id is None,
            o.sample_rate == sample_rate,
            o.num_channels == num_channels,
    {
        LiveKitAudioOutput { state: RemainderState::new(), sample_rate, num_channels }
    }

    /// An audio chunk of item `item_id`: the frame to push, if any (see
    /// `RemainderState::assemble` and `plan_frame`).
    pub fn on_audio(&mut self, audio: &[u8], item_id: &str) -> (r: Result<Option<AudioFrame>, RealtimeError>)
        ensures
            ({
                let c = carried_byte(old(self).state.pending_byte, old(self).state.item_id, item_id@);
                let st = assembly_stream(c, audio@);
                let samples = le_samples(st);
                &&& samples.len() == 0 ==> r == Ok::<Option<AudioFrame>, RealtimeError>(None)
                &&& samples.len() > 0 && old(self).num_channels == 0 ==> (r matches Err(
                    RealtimeError::ProviderError(m),
                ) && m@ == "Cannot push audio to LiveKit NativeAudioSource: num_channels is 0"@)
                &&& samples.len() > 0 && old(self).num_channels > 0 && samples.len() % (old(self).num_channels as nat)
                    != 0 ==> r == Ok::<Option<AudioFrame>, RealtimeError>(None)
                &&& samples.len() > 0 && old(self).num_channels > 0 && samples.len() % (old(self).num_channels as nat)
                    == 0 ==> (r matches Ok(Some(f)) && f.data@ == samples && f.sample_rate == old(self).sample_rate
                    && f.num_channels == old(self).num_channels && f.samples_per_channel == (samples.len() as u32)
                    / old(self).num_channels)
                &&& st.len() % 2 == 1 ==> final(self).state.pending_byte == Some(st.last())
                    && (final(self).state.item_id matches Some(x) && x@ == item_id@)
                &&& st.len() % 2 == 0 ==> final(self).state.pending_byte is None
                    && final(self).state.item_id == (if c is Some || crosses_item(old(self).state.item_id, item_id@) {
                        None
                    } else {
                        old(self).state.item_id
                    })
            }),
            final(self).sample_rate == old(self).sample_rate,
            final(self).num_channels == old(self).num_channels,
    {
        let samples = self.state.assemble(audio, item_id);
        plan_frame(samples, self.sample_rate, self.num_channels)
    }

    /// The response finished: a carried byte is discarded.
    pub fn on_response_done(&mut self)
        ensures
            final(self).state.pending_byte is None,
            final(self).state.item_id is None,
            final(self).sample_rate == old(self).sample_rate,
            final(self).num_channels == old(self).num_channels,
    {
        self.state.clear_pending_state("response_done");
    }

    /// An error arrived: a carried byte is discarded.
    pub fn on_error(&mut self)
        ensures
            final(self).state.pending_byte is None,
            final(self).state.item_id is None,
            final(self).sample_rate == old(self).sample_rate,
            final(self).num_channels == old(self).num_channels,
    {
        self.state.clear_pending_state("error");
    }
}

/// The byte a chunk leaves carried: the odd final byte of its stream.
pub open spec fn carry_out(st: Seq<u8>) -> Option<u8> {
    if st.len() % 2 == 1 {
        Some(st.last())
    } else {
        None
    }
}

/// Chunks of one item decode as if they had arrived joined: the samples of a
/// chunk, followed by those of the next chunk assembled after the byte the
/// first left carried, are the samples of the two chunks together.
pub proof fn law_chunks_reassemble(c: Option<u8>, a: Seq<u8>, b: Seq<u8>)
    ensures
        le_samples(assembly_stream(c, a)) + le_samples(assembly_stream(carry_out(assembly_stream(c, a)), b))
            == le_samples(assembly_stream(c, a + b)),
{
    let st = assembly_stream(c, a);
    assert(assembly_stream(c, a + b) =~= st + b);
    if st.len() % 2 == 0 {
        assert(assembly_stream(None, b) == b);
        lemma_le_samples_concat(st, b);
    } else {
        let head = st.drop_last();
        let l = st.last();
        assert(st =~= head + seq![l]);
        lemma_le_samples_concat(head, seq![l]);
        assert(le_samples(seq![l]) =~= Seq::<i16>::empty());
        assert(le_samples(head) + Seq::<i16>::empty() =~= le_samples(head));
        assert(st + b =~= head + (seq![l] + b));
        lemma_le_samples_concat(head, seq![l] + b);
    }
}

} // verus!
