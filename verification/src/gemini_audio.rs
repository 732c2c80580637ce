//! Caller audio on its way to Gemini Live: telephony μ-law is decoded and
//! upsampled to the PCM16 16 kHz mono that the adapter sends, and small
//! chunks are batched to at least 40 ms before they are sent.

use vstd::prelude::*;
use crate::audio::{extend_le_bytes, le_bytes, AudioChunk, AudioEncoding, AudioFormat};
use crate::error::RealtimeError;
use crate::text::{decimal_text, u64_to_decimal};

verus! {

/// Bytes of 40 ms of PCM16 16 kHz mono: the batching threshold.
pub const GEMINI_FLUSH_BYTES: usize = 1280;

pub open spec fn pow2_small(e: nat) -> nat
    decreases e,
{
    if e == 0 {
        1
    } else {
        2 * pow2_small((e - 1) as nat)
    }
}

/// The linear sample of a G.711 μ-law byte (ITU-T G.711): the byte is
/// complemented; its top bit is the sign, the next three the segment and
/// the low four the step within it.
pub open spec fn ulaw_sample(b: u8) -> i16 {
    let u = 255 - b;
    let segment = (u / 16) % 8;
    let step = u % 16;
    let magnitude = (step * 8 + 132) * pow2_small(segment as nat) - 132;
    if u >= 128 {
        (-magnitude) as i16
    } else {
        magnitude as i16
    }
}

/// The samples of μ-law bytes at 8 kHz, each repeated to make 16 kHz.
pub open spec fn ulaw_upsampled(data: Seq<u8>) -> Seq<i16> {
    Seq::new(2 * data.len(), |i: int| ulaw_sample(data[i / 2]))
}

/// The PCM16 16 kHz mono bytes the adapter sends for `audio`; none for a
/// format it does not take (only PCM16 16 kHz mono and μ-law 8 kHz).
pub open spec fn gemini_pcm(audio: AudioChunk) -> Option<Seq<u8>> {
    if audio.format == AudioFormat::pcm16_16khz_spec() {
        Some(audio.data@)
    } else if audio.format.encoding == AudioEncoding::G711Ulaw && audio.format.sample_rate == 8000 {
        Some(le_bytes(ulaw_upsampled(audio.data@)))
    } else {
        None
    }
}

/// The name of an encoding as `Debug` prints it.
pub open spec fn encoding_debug_name(e: AudioEncoding) -> Seq<char> {
    match e {
        AudioEncoding::Pcm16 => "Pcm16"@,
        AudioEncoding::G711Ulaw => "G711Ulaw"@,
        AudioEncoding::G711Alaw => "G711Alaw"@,
    }
}

/// A format as `Debug` prints it.
pub open spec fn format_debug_text(f: AudioFormat) -> Seq<char> {
    "AudioFormat { sample_rate: "@ + decimal_text(f.sample_rate as nat) + ", channels: "@ + decimal_text(
        f.channels as nat,
    ) + ", bits_per_sample: "@ + decimal_text(f.bits_per_sample as nat) + ", encoding: "@
        + encoding_debug_name(f.encoding) + " }"@
}

/// The message of the error for a format the adapter does not take.
pub open spec fn unsupported_format_message(f: AudioFormat) -> Seq<char> {
    "this Gemini adapter currently supports only pcm16 at 16kHz mono or g711_ulaw at 8kHz, received: "@
        + format_debug_text(f)
}

fn pow2_segment(e: u8) -> (p: i32)
    requires
        e < 8,
    ensures
        p == pow2_small(e as nat),
        1 <= p <= 128,
{
    proof {
        reveal_with_fuel(pow2_small, 8);
    }
    match e {
        0 => 1,
        1 => 2,
        2 => 4,
        3 => 8,
        4 => 16,
        5 => 32,
        6 => 64,
        _ => 128,
    }
}

/// Decodes one G.711 μ-law byte.
pub fn decode_ulaw(b: u8) -> (s: i16)
    ensures
        s == ulaw_sample(b),
{
    let u: u8 = 255 - b;
    let segment: u8 = (u / 16) % 8;
    let step: i32 = (u % 16) as i32;
    let p = pow2_segment(segment);
    assert((step * 8 + 132) * p <= 252 * 128) by (nonlinear_arith)
        requires
            0 <= step <= 15,
            1 <= p <= 128,
    ;
    assert((step * 8 + 132) * p >= 132) by (nonlinear_arith)
        requires
            0 <= step <= 15,
            1 <= p,
    ;
    let magnitude: i32 = (step * 8 + 132) * p - 132;
    if u >= 128 {
        (-magnitude) as i16
    } else {
        magnitude as i16
    }
}

/// The PCM16 16 kHz bytes of μ-law 8 kHz audio.
pub fn ulaw_to_pcm16_16khz(data: &[u8]) -> (pcm: Vec<u8>)
    ensures
        pcm@ == le_bytes(ulaw_upsampled(data@)),
{
    let mut samples: Vec<i16> = Vec::new();
    let mut i: usize = 0;
    while i < data.len()
        invariant
            i <= data.len(),
            samples@ == ulaw_upsampled(data@.subrange(0, i as int)),
        decreases data.len() - i,
    {
        let s = decode_ulaw(data[i]);
        samples.push(s);
        samples.push(s);
        proof {
            let a = data@.subrange(0, i as int);
            let b = data@.subrange(0, i + 1);
            assert forall|k: int| 0 <= k < 2 * b.len() implies #[trigger] samples@[k] == ulaw_sample(b[k / 2]) by {
                if k < 2 * a.len() {
                    assert(b[k / 2] == a[k / 2]);
                }
            }
            assert(samples@ =~= ulaw_upsampled(b));
        }
        i = i + 1;
    }
    assert(data@.subrange(0, data@.len() as int) =~= data@);
    let mut pcm: Vec<u8> = Vec::new();
    extend_le_bytes(&mut pcm, samples.as_slice());
    assert(pcm@ =~= le_bytes(samples@));
    pcm
}

/// The `Debug` text of a format.
fn format_debug(f: &AudioFormat) -> (s: String)
    ensures
        s@ == format_debug_text(*f),
{
    proof {
        reveal_strlit("Pcm16");
        reveal_strlit("G711Ulaw");
        reveal_strlit("G711Alaw");
    }
    let mut s = String::from_str("AudioFormat { sample_rate: ");
    s.append(u64_to_decimal(f.sample_rate as u64).as_str());
    s.append(", channels: ");
    s.append(u64_to_decimal(f.channels as u64).as_str());
    s.append(", bits_per_sample: ");
    s.append(u64_to_decimal(f.bits_per_sample as u64).as_str());
    s.append(", encoding: ");
    match f.encoding {
        AudioEncoding::Pcm16 => s.append("Pcm16"),
        AudioEncoding::G711Ulaw => s.append("G711Ulaw"),
        AudioEncoding::G711Alaw => s.append("G711Alaw"),
    }
    s.append(" }");
    s
}

/// The PCM16 16 kHz mono bytes to send for `audio` (see `gemini_pcm`); a
/// configuration error naming the format when the adapter does not take it.
pub fn gemini_pcm_of(audio: &AudioChunk) -> (r: Result<Vec<u8>, RealtimeError>)
    ensures
        match gemini_pcm(*audio) {
            Some(pcm) => r matches Ok(v) && v@ == pcm,
            None => r matches Err(RealtimeError::ConfigError(m)) && m@ == unsupported_format_message(
                audio.format,
            ),
        },
{
    let f = audio.format;
    if f == AudioFormat::pcm16_16khz() {
        let mut v: Vec<u8> = Vec::new();
        let mut i: usize = 0;
        while i < audio.data.len()
            invariant
                i <= audio.data.len(),
                v@ == audio.data@.subrange(0, i as int),
            decreases audio.data.len() - i,
        {
            v.push(audio.data[i]);
            i = i + 1;
        }
        assert(audio.data@.subrange(0, audio.data@.len() as int) =~= audio.data@);
        Ok(v)
    } else if f.encoding == AudioEncoding::G711Ulaw && f.sample_rate == 8000 {
        Ok(ulaw_to_pcm16_16khz(audio.data.as_slice()))
    } else {
        let mut m = String::from_str(
            "this Gemini adapter currently supports only pcm16 at 16kHz mono or g711_ulaw at 8kHz, received: ",
        );
        m.append(format_debug(&f).as_str());
        Err(RealtimeError::config(m))
    }
}

/// Audio of one Gemini connection waiting to be sent.
#[derive(Debug)]
pub struct GeminiAudioBatch {
    buffer: Vec<u8>,
}

impl GeminiAudioBatch {
    /// The PCM bytes waiting.
    pub closed spec fn pending(&self) -> Seq<u8> {
        self.buffer@
    }

    /// Nothing waiting.
    pub fn new() -> (b: Self)
        ensures
            b.pending() == Seq::<u8>::empty(),
    {
        GeminiAudioBatch { buffer: Vec::new() }
    }

    /// Takes a chunk of caller audio and returns the PCM payloads to send
    /// now, in order. A chunk of at least the threshold is sent at once,
    /// after whatever was waiting; a smaller one waits with the rest until
    /// together they reach the threshold. An unsupported format is an
    /// error and changes nothing.
    pub fn push_chunk(&mut self, audio: &AudioChunk) -> (r: Result<Vec<Vec<u8>>, RealtimeError>)
        ensures
            match gemini_pcm(*audio) {
                None => r matches Err(RealtimeError::ConfigError(m)) && m@ == unsupported_format_message(
                    audio.format,
                ) && final(self).pending() == old(self).pending(),
                Some(pcm) => r matches Ok(out) && if pcm.len() >= GEMINI_FLUSH_BYTES {
                    &&& final(self).pending() == Seq::<u8>::empty()
                    &&& if old(self).pending().len() > 0 {
                        out@.len() == 2 && out@[0]@ == old(self).pending() && out@[1]@ == pcm
                    } else {
                        out@.len() == 1 && out@[0]@ == pcm
                    }
                } else if old(self).pending().len() + pcm.len() >= GEMINI_FLUSH_BYTES {
                    &&& final(self).pending() == Seq::<u8>::empty()
                    &&& out@.len() == 1 && out@[0]@ == old(self).pending() + pcm
                } else {
                    &&& final(self).pending() == old(self).pending() + pcm
                    &&& out@.len() == 0
                },
            },
    {
        let pcm = match gemini_pcm_of(audio) {
            Ok(p) => p,
            Err(e) => {
                return Err(e);
            },
        };
        let mut out: Vec<Vec<u8>> = Vec::new();
        if pcm.len() >= GEMINI_FLUSH_BYTES {
            match self.flush() {
                Some(b) => out.push(b),
                None => {},
            }
            out.push(pcm);
            return Ok(out);
        }
        let ghost before = self.buffer@;
        let mut i: usize = 0;
        while i < pcm.len()
            invariant
                i <= pcm.len(),
                self.buffer@ == before + pcm@.subrange(0, i as int),
            decreases pcm.len() - i,
        {
            self.buffer.push(pcm[i]);
            i = i + 1;
        }
        assert(pcm@.subrange(0, pcm@.len() as int) =~= pcm@);
        if self.buffer.len() >= GEMINI_FLUSH_BYTES {
            let mut b: Vec<u8> = Vec::new();
            std::mem::swap(&mut b, &mut self.buffer);
            out.push(b);
        }
        Ok(out)
    }

    /// Takes whatever is waiting, if anything.
    pub fn flush(&mut self) -> (r: Option<Vec<u8>>)
        ensures
            final(self).pending() == Seq::<u8>::empty(),
            old(self).pending().len() == 0 ==> r is None,
            old(self).pending().len() > 0 ==> (r matches Some(b) && b@ == old(self).pending()),
    {
        if self.buffer.len() == 0 {
            None
        } else {
            let mut b: Vec<u8> = Vec::new();
            std::mem::swap(&mut b, &mut self.buffer);
            Some(b)
        }
    }

    /// Discards whatever is waiting (a clear or an interruption).
    pub fn clear(&mut self)
        ensures
            final(self).pending() == Seq::<u8>::empty(),
    {
        self.buffer.clear();
    }
}

} // verus!
