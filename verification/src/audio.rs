//! Audio formats, PCM16 sample packing, base64 transport encoding, and the
//! smart audio buffer that aggregates small frames into target-sized chunks.

use vstd::prelude::*;
use crate::text::{decimal_text, u64_to_decimal};
use base64::Engine;

verus! {

/// Audio encoding formats supported by realtime APIs.
#[derive(Debug, Clone, Copy, PartialEq, Eq, Structural)]
pub enum AudioEncoding {
    /// 16-bit PCM audio.
    Pcm16,
    /// G.711 μ-law encoding.
    G711Ulaw,
    /// G.711 A-law encoding.
    G711Alaw,
}

/// The wire name of an encoding.
pub open spec fn encoding_name(e: AudioEncoding) -> Seq<char> {
    match e {
        AudioEncoding::Pcm16 => "pcm16"@,
        AudioEncoding::G711Ulaw => "g711_ulaw"@,
        AudioEncoding::G711Alaw => "g711_alaw"@,
    }
}

impl AudioEncoding {
    /// The wire name: `pcm16`, `g711_ulaw` or `g711_alaw`.
    pub fn to_string(&self) -> (s: String)
        ensures
            s@ == encoding_name(*self),
    {
        proof {
            reveal_strlit("pcm16");
            reveal_strlit("g711_ulaw");
            reveal_strlit("g711_alaw");
        }
        match self {
            AudioEncoding::Pcm16 => String::from_str("pcm16"),
            AudioEncoding::G711Ulaw => String::from_str("g711_ulaw"),
            AudioEncoding::G711Alaw => String::from_str("g711_alaw"),
        }
    }
}

impl Default for AudioEncoding {
    fn default() -> (e: Self)
        ensures
            e == AudioEncoding::Pcm16,
    {
        AudioEncoding::Pcm16
    }
}

/// Description of an audio format.
#[derive(Debug, Clone, Copy, PartialEq, Eq, Structural)]
pub struct AudioFormat {
    /// Sample rate in Hz.
    pub sample_rate: u32,
    /// Number of channels.
    pub channels: u8,
    /// Bits per sample.
    pub bits_per_sample: u8,
    /// The encoding.
    pub encoding: AudioEncoding,
}

/// Bytes per second of a format: rate × channels × whole bytes per sample.
pub open spec fn spec_bytes_per_second(f: AudioFormat) -> int {
    f.sample_rate * f.channels * (f.bits_per_sample / 8)
}

impl AudioFormat {
    /// A format with the given fields.
    pub fn new(sample_rate: u32, channels: u8, bits_per_sample: u8, encoding: AudioEncoding) -> (f: Self)
        ensures
            f == (AudioFormat { sample_rate, channels, bits_per_sample, encoding }),
    {
        AudioFormat { sample_rate, channels, bits_per_sample, encoding }
    }

    /// PCM16 mono at 24 kHz.
    pub fn pcm16_24khz() -> (f: Self)
        ensures
            f == (AudioFormat {
                sample_rate: 24000,
                channels: 1,
                bits_per_sample: 16,
                encoding: AudioEncoding::Pcm16,
            }),
    {
        AudioFormat { sample_rate: 24000, channels: 1, bits_per_sample: 16, encoding: AudioEncoding::Pcm16 }
    }

    /// PCM16 mono at 16 kHz.
    pub fn pcm16_16khz() -> (f: Self)
        ensures
            f == (AudioFormat {
                sample_rate: 16000,
                channels: 1,
                bits_per_sample: 16,
                encoding: AudioEncoding::Pcm16,
            }),
    {
        AudioFormat { sample_rate: 16000, channels: 1, bits_per_sample: 16, encoding: AudioEncoding::Pcm16 }
    }

    /// PCM16 mono at 8 kHz.
    pub fn pcm16_8khz() -> (f: Self)
        ensures
            f == (AudioFormat {
                sample_rate: 8000,
                channels: 1,
                bits_per_sample: 16,
                encoding: AudioEncoding::Pcm16,
            }),
    {
        AudioFormat { sample_rate: 8000, channels: 1, bits_per_sample: 16, encoding: AudioEncoding::Pcm16 }
    }

    /// G.711 μ-law mono at 8 kHz, 8 bits per sample.
    pub fn g711_ulaw() -> (f: Self)
        ensures
            f == (AudioFormat {
                sample_rate: 8000,
                channels: 1,
                bits_per_sample: 8,
                encoding: AudioEncoding::G711Ulaw,
            }),
    {
        AudioFormat { sample_rate: 8000, channels: 1, bits_per_sample: 8, encoding: AudioEncoding::G711Ulaw }
    }

    /// G.711 A-law mono at 8 kHz, 8 bits per sample.
    pub fn g711_alaw() -> (f: Self)
        ensures
            f == (AudioFormat {
                sample_rate: 8000,
                channels: 1,
                bits_per_sample: 8,
                encoding: AudioEncoding::G711Alaw,
            }),
    {
        AudioFormat { sample_rate: 8000, channels: 1, bits_per_sample: 8, encoding: AudioEncoding::G711Alaw }
    }

    /// The number of bytes per second of this format.
    pub fn bytes_per_second(&self) -> (n: usize)
        requires
            spec_bytes_per_second(*self) <= u32::MAX,
        ensures
            n == spec_bytes_per_second(*self),
    {
        let per = (self.bits_per_sample / 8) as u32;
        let ch = self.channels as u32;
        if per == 0 {
            assert(spec_bytes_per_second(*self) == 0) by (nonlinear_arith)
                requires
                    per == 0,
                    spec_bytes_per_second(*self) == self.sample_rate * ch * per,
            {
            }
            return 0;
        }
        assert(self.sample_rate * ch <= u32::MAX) by (nonlinear_arith)
            requires
                self.sample_rate * ch * per <= u32::MAX,
                per >= 1,
                self.sample_rate * ch >= 0,
        {
        }
        (self.sample_rate * ch * per) as usize
    }
}

impl Default for AudioFormat {
    /// PCM16 mono at 24 kHz.
    fn default() -> (f: Self)
        ensures
            f == (AudioFormat {
                sample_rate: 24000,
                channels: 1,
                bits_per_sample: 16,
                encoding: AudioEncoding::Pcm16,
            }),
    {
        AudioFormat::pcm16_24khz()
    }
}

/// The unsigned 16-bit pattern of a sample (two's complement).
pub open spec fn sample_bits(x: i16) -> int {
    if x < 0 { x + 65536 } else { x as int }
}

/// The sample whose little-endian bytes are `lo`, `hi`.
pub open spec fn sample_of(lo: u8, hi: u8) -> i16 {
    let u = hi * 256 + lo;
    if u >= 32768 { (u - 65536) as i16 } else { u as i16 }
}

/// Little-endian PCM16 bytes of `samples`.
pub open spec fn le_bytes(samples: Seq<i16>) -> Seq<u8>
    decreases samples.len(),
{
    if samples.len() == 0 {
        Seq::empty()
    } else {
        le_bytes(samples.drop_last()) + seq![
            (sample_bits(samples.last()) % 256) as u8,
            (sample_bits(samples.last()) / 256) as u8,
        ]
    }
}

/// The samples whose little-endian PCM16 bytes are `bytes` (an odd trailing
/// byte is ignored).
pub open spec fn le_samples(bytes: Seq<u8>) -> Seq<i16> {
    Seq::new((bytes.len() / 2) as nat, |i: int| sample_of(bytes[2 * i], bytes[2 * i + 1]))
}

/// Each sample packs into two bytes.
pub proof fn lemma_le_bytes_len(samples: Seq<i16>)
    ensures
        le_bytes(samples).len() == 2 * samples.len(),
    decreases samples.len(),
{
    if samples.len() > 0 {
        lemma_le_bytes_len(samples.drop_last());
    }
}

/// Sample `i` packs into bytes `2i` (low) and `2i + 1` (high).
pub proof fn lemma_le_bytes_index(samples: Seq<i16>, i: int)
    requires
        0 <= i < samples.len(),
    ensures
        le_bytes(samples)[2 * i] == (sample_bits(samples[i]) % 256) as u8,
        le_bytes(samples)[2 * i + 1] == (sample_bits(samples[i]) / 256) as u8,
    decreases samples.len(),
{
    lemma_le_bytes_len(samples);
    lemma_le_bytes_len(samples.drop_last());
    if i < samples.len() - 1 {
        lemma_le_bytes_index(samples.drop_last(), i);
    }
}

/// Packing then unpacking gives the samples back.
pub proof fn lemma_le_roundtrip(samples: Seq<i16>)
    ensures
        le_samples(le_bytes(samples)) == samples,
{
    lemma_le_bytes_len(samples);
    let b = le_bytes(samples);
    assert forall|i: int| 0 <= i < samples.len() implies #[trigger] le_samples(b)[i] == samples[i] by {
        lemma_le_bytes_index(samples, i);
    }
    assert(le_samples(b) =~= samples);
}

fn sample_to_bytes(x: i16) -> (r: (u8, u8))
    ensures
        r.0 == (sample_bits(x) % 256) as u8,
        r.1 == (sample_bits(x) / 256) as u8,
{
    let u: u32 = if x < 0 {
        (x as i32 + 65536) as u32
    } else {
        x as u32
    };
    ((u % 256) as u8, (u / 256) as u8)
}

fn bytes_to_sample(lo: u8, hi: u8) -> (x: i16)
    ensures
        x == sample_of(lo, hi),
{
    let u: u32 = hi as u32 * 256 + lo as u32;
    if u >= 32768 {
        (u as i32 - 65536) as i16
    } else {
        u as i16
    }
}

/// Decoding splits across a concatenation whose first part has an even
/// number of bytes.
pub proof fn lemma_le_samples_concat(x: Seq<u8>, y: Seq<u8>)
    requires
        x.len() % 2 == 0,
    ensures
        le_samples(x + y) == le_samples(x) + le_samples(y),
{
    let k = x.len() / 2;
    let xy = x + y;
    assert(xy.len() / 2 == k + y.len() / 2);
    let l = le_samples(xy);
    let r = le_samples(x) + le_samples(y);
    assert forall|i: int| 0 <= i < l.len() implies #[trigger] l[i] == r[i] by {
        if i < k {
            assert(xy[2 * i] == x[2 * i]);
            assert(xy[2 * i + 1] == x[2 * i + 1]);
        } else {
            let j = i - k;
            assert(2 * i - x.len() == 2 * j);
            assert(xy[2 * i] == y[2 * j]);
            assert(xy[2 * i + 1] == y[2 * j + 1]);
        }
    }
    assert(l =~= r);
}

/// Samples survive being split: the little-endian bytes of consecutive runs
/// of samples decode to the runs, in order.
pub proof fn law_le_concat_roundtrip(s1: Seq<i16>, s2: Seq<i16>)
    ensures
        le_samples(le_bytes(s1) + le_bytes(s2)) == s1 + s2,
{
    lemma_le_bytes_len(s1);
    lemma_le_samples_concat(le_bytes(s1), le_bytes(s2));
    lemma_le_roundtrip(s1);
    lemma_le_roundtrip(s2);
}

/// Append the little-endian bytes of `samples` to `out`.
pub fn extend_le_bytes(out: &mut Vec<u8>, samples: &[i16])
    ensures
        final(out)@ == old(out)@ + le_bytes(samples@),
{
    let mut i: usize = 0;
    while i < samples.len()
        invariant
            i <= samples.len(),
            out@ == old(out)@ + le_bytes(samples@.subrange(0, i as int)),
        decreases samples.len() - i,
    {
        let (lo, hi) = sample_to_bytes(samples[i]);
        out.push(lo);
        out.push(hi);
        proof {
            assert(samples@.subrange(0, i + 1).drop_last() =~= samples@.subrange(0, i as int));
        }
        i = i + 1;
    }
    proof {
        assert(samples@.subrange(0, samples@.len() as int) =~= samples@);
    }
}

/// The samples of the little-endian bytes `bytes[lo..hi]`.
pub fn decode_le_samples(bytes: &Vec<u8>, lo: usize, hi: usize) -> (s: Vec<i16>)
    requires
        lo <= hi <= bytes.len(),
        (hi - lo) % 2 == 0,
    ensures
        s@ == le_samples(bytes@.subrange(lo as int, hi as int)),
{
    let mut s: Vec<i16> = Vec::new();
    let mut i = lo;
    let ghost b = bytes@.subrange(lo as int, hi as int);
    while i < hi
        invariant
            lo <= i <= hi <= bytes.len(),
            (hi - lo) % 2 == 0,
            (i - lo) % 2 == 0,
            b == bytes@.subrange(lo as int, hi as int),
            s.len() == (i - lo) / 2,
            forall|k: int| 0 <= k < s.len() ==> s@[k] == sample_of(b[2 * k], b[2 * k + 1]),
        decreases hi - i,
    {
        let x = bytes_to_sample(bytes[i], bytes[i + 1]);
        s.push(x);
        i = i + 2;
    }
    assert(s@ =~= le_samples(b));
    s
}

/// An error from decoding base64 text.
#[derive(Debug, Clone, Copy, PartialEq, Eq, Structural)]
pub enum Base64Error {
    /// An invalid symbol at the offset.
    InvalidByte { offset: usize, byte: u8 },
    /// The number of symbols is invalid.
    InvalidLength { length: usize },
    /// The last symbol has nonzero bits that would be discarded.
    InvalidLastSymbol { offset: usize, byte: u8 },
    /// The padding is absent or incorrect.
    InvalidPadding,
}

/// The character of a six-bit value in the standard base64 alphabet
/// (`A`–`Z`, `a`–`z`, `0`–`9`, `+`, `/`).
pub open spec fn base64_symbol(v: int) -> char {
    if v < 26 {
        ((v + 65) as u32) as char
    } else if v < 52 {
        ((v + 71) as u32) as char
    } else if v < 62 {
        ((v - 4) as u32) as char
    } else if v == 62 {
        '+'
    } else {
        '/'
    }
}

/// The standard (RFC 4648, padded) base64 text of `data`: each group of
/// three bytes becomes four symbols of six bits each; a final group of one
/// or two bytes is padded with `=`.
pub open spec fn base64_encoding(data: Seq<u8>) -> Seq<char>
    decreases data.len(),
{
    if data.len() == 0 {
        Seq::empty()
    } else if data.len() == 1 {
        let a = data[0] as int;
        seq![base64_symbol(a / 4), base64_symbol((a % 4) * 16), '=', '=']
    } else if data.len() == 2 {
        let a = data[0] as int;
        let b = data[1] as int;
        seq![base64_symbol(a / 4), base64_symbol((a % 4) * 16 + b / 16), base64_symbol((b % 16) * 4), '=']
    } else {
        let a = data[0] as int;
        let b = data[1] as int;
        let c = data[2] as int;
        seq![
            base64_symbol(a / 4),
            base64_symbol((a % 4) * 16 + b / 16),
            base64_symbol((b % 16) * 4 + c / 64),
            base64_symbol(c % 64),
        ] + base64_encoding(data.subrange(3, data.len() as int))
    }
}

/// What standard base64 decoding gives for `text`.
pub uninterp spec fn base64_decoding(text: Seq<char>) -> Result<Seq<u8>, Base64Error>;

/// Calls `base64::engine::general_purpose::STANDARD.encode`: the standard,
/// padded base64 text of the bytes (`base64_encoding`).
#[verifier::external_body]
fn base64_encode(data: &[u8]) -> (s: String)
    ensures
        s@ == base64_encoding(data@),
{
    base64::engine::general_purpose::STANDARD.encode(data)
}

/// Calls `base64::engine::general_purpose::STANDARD.decode` and maps its
/// `DecodeError` variant for variant. Besides naming the result, states that
/// decoding the encoding of some bytes gives those bytes back.
#[verifier::external_body]
fn base64_decode(text: &str) -> (r: Result<Vec<u8>, Base64Error>)
    ensures
        r is Ok ==> base64_decoding(text@) == Ok::<Seq<u8>, Base64Error>(r->Ok_0@),
        r is Err ==> base64_decoding(text@) == Err::<Seq<u8>, Base64Error>(r->Err_0),
        forall|d: Seq<u8>| text@ == base64_encoding(d) ==> r is Ok && r->Ok_0@ == d,
{
    match base64::engine::general_purpose::STANDARD.decode(text) {
        Ok(v) => Ok(v),
        Err(base64::DecodeError::InvalidByte(offset, byte)) => Err(Base64Error::InvalidByte { offset, byte }),
        Err(base64::DecodeError::InvalidLength(length)) => Err(Base64Error::InvalidLength { length }),
        Err(base64::DecodeError::InvalidLastSymbol(offset, byte)) => Err(
            Base64Error::InvalidLastSymbol { offset, byte },
        ),
        Err(base64::DecodeError::InvalidPadding) => Err(Base64Error::InvalidPadding),
    }
}

/// Encode bytes as standard base64 text.
pub fn encode_base64(data: &[u8]) -> (s: String)
    ensures
        s@ == base64_encoding(data@),
{
    base64_encode(data)
}

/// Decode standard base64 text.
pub fn decode_base64(text: &str) -> (r: Result<Vec<u8>, Base64Error>)
    ensures
        match r {
            Ok(v) => base64_decoding(text@) == Ok::<Seq<u8>, Base64Error>(v@),
            Err(e) => base64_decoding(text@) == Err::<Seq<u8>, Base64Error>(e),
        },
        forall|d: Seq<u8>| text@ == base64_encoding(d) ==> (r matches Ok(v) && v@ == d),
{
    base64_decode(text)
}

/// A block of audio bytes with its format.
#[derive(Debug, Clone, PartialEq, Eq)]
pub struct AudioChunk {
    pub data: Vec<u8>,
    pub format: AudioFormat,
}

impl AudioChunk {
    /// A chunk of `data` in `format`.
    pub fn new(data: Vec<u8>, format: AudioFormat) -> (c: Self)
        ensures
            c.data@ == data@,
            c.format == format,
    {
        AudioChunk { data, format }
    }

    /// A PCM16 24 kHz chunk.
    pub fn pcm16_24khz(data: Vec<u8>) -> (c: Self)
        ensures
            c.data@ == data@,
            c.format == AudioFormat::pcm16_24khz_spec(),
    {
        AudioChunk { data, format: AudioFormat::pcm16_24khz() }
    }

    /// A PCM16 16 kHz chunk.
    pub fn pcm16_16khz(data: Vec<u8>) -> (c: Self)
        ensures
            c.data@ == data@,
            c.format == AudioFormat::pcm16_16khz_spec(),
    {
        AudioChunk { data, format: AudioFormat::pcm16_16khz() }
    }

    /// The audio data as standard base64 text.
    pub fn to_base64(&self) -> (s: String)
        ensures
            s@ == base64_encoding(self.data@),
    {
        base64_encode(self.data.as_slice())
    }

    /// Decode base64 text into a chunk of the given format.
    pub fn from_base64(encoded: &str, format: AudioFormat) -> (r: Result<Self, Base64Error>)
        ensures
            match r {
                Ok(c) => base64_decoding(encoded@) == Ok::<Seq<u8>, Base64Error>(c.data@) && c.format
                    == format,
                Err(e) => base64_decoding(encoded@) == Err::<Seq<u8>, Base64Error>(e),
            },
            forall|d: Seq<u8>| encoded@ == base64_encoding(d) ==> (r matches Ok(c) && c.data@ == d),
    {
        match decode_base64(encoded) {
            Ok(data) => Ok(AudioChunk { data, format }),
            Err(e) => Err(e),
        }
    }

    /// A chunk whose data are the little-endian PCM16 bytes of `samples`.
    pub fn from_i16_samples(samples: &[i16], format: AudioFormat) -> (c: Self)
        ensures
            c.data@ == le_bytes(samples@),
            c.format == format,
    {
        let mut data: Vec<u8> = Vec::new();
        extend_le_bytes(&mut data, samples);
        AudioChunk { data, format }
    }

    /// The PCM16 little-endian samples of the data; an error naming the
    /// length when the data length is odd.
    pub fn to_i16_samples(&self) -> (r: Result<Vec<i16>, String>)
        ensures
            match r {
                Ok(s) => self.data.len() % 2 == 0 && s@ == le_samples(self.data@),
                Err(m) => self.data.len() % 2 == 1 && m@ == "Invalid data length for PCM16: "@
                    + decimal_text(self.data.len() as nat) + " (must be even)"@,
            },
    {
        let n = self.data.len();
        if n % 2 != 0 {
            let mut m = String::from_str("Invalid data length for PCM16: ");
            let d = u64_to_decimal(n as u64);
            m.append(d.as_str());
            m.append(" (must be even)");
            proof {
                reveal_strlit("Invalid data length for PCM16: ");
                reveal_strlit(" (must be even)");
            }
            return Err(m);
        }
        let s = decode_le_samples(&self.data, 0, n);
        proof {
            assert(self.data@.subrange(0, n as int) =~= self.data@);
        }
        Ok(s)
    }
}

impl AudioFormat {
    pub open spec fn pcm16_24khz_spec() -> AudioFormat {
        AudioFormat { sample_rate: 24000, channels: 1, bits_per_sample: 16, encoding: AudioEncoding::Pcm16 }
    }

    pub open spec fn pcm16_16khz_spec() -> AudioFormat {
        AudioFormat { sample_rate: 16000, channels: 1, bits_per_sample: 16, encoding: AudioEncoding::Pcm16 }
    }
}

/// Calls `Vec::capacity`, which is never less than the length.
#[verifier::external_body]
fn vec_capacity(v: &Vec<u8>) -> (c: usize)
    ensures
        c >= v.len(),
{
    v.capacity()
}

/// Bytes in `target_ms` of mono PCM16 at `sample_rate`: the sample count
/// rounded up, times two.
pub open spec fn target_bytes(sample_rate: u32, target_ms: u32) -> int {
    ((sample_rate * target_ms + 999) / 1000) * 2
}

/// Buffers PCM16 samples until a target duration is reached.
#[derive(Debug, Clone)]
pub struct SmartAudioBuffer {
    buffer: Vec<u8>,
    sample_rate: u32,
    target_duration_ms: u32,
}

impl SmartAudioBuffer {
    /// The buffered bytes.
    pub closed spec fn bytes(&self) -> Seq<u8> {
        self.buffer@
    }

    pub closed spec fn rate(&self) -> u32 {
        self.sample_rate
    }

    pub closed spec fn target_ms(&self) -> u32 {
        self.target_duration_ms
    }

    /// The buffer holds whole samples.
    pub closed spec fn wf(&self) -> bool {
        self.buffer@.len() % 2 == 0
    }

    /// The buffer has reached its target and the target is meaningful.
    pub open spec fn due(&self) -> bool {
        self.bytes().len() >= target_bytes(self.rate(), self.target_ms()) && self.target_ms() > 0
            && self.rate() > 0
    }

    /// An empty buffer for `sample_rate` Hz and a target of `target_duration_ms`.
    pub fn new(sample_rate: u32, target_duration_ms: u32) -> (b: Self)
        ensures
            b.wf(),
            b.bytes() == Seq::<u8>::empty(),
            b.rate() == sample_rate,
            b.target_ms() == target_duration_ms,
    {
        SmartAudioBuffer { buffer: Vec::new(), sample_rate, target_duration_ms }
    }

    /// Append samples.
    pub fn push(&mut self, samples: &[i16])
        requires
            old(self).wf(),
        ensures
            final(self).wf(),
            final(self).bytes() == old(self).bytes() + le_bytes(samples@),
            final(self).rate() == old(self).rate(),
            final(self).target_ms() == old(self).target_ms(),
    {
        extend_le_bytes(&mut self.buffer, samples);
        proof {
            lemma_le_bytes_len(samples@);
        }
    }

    /// The target size in bytes.
    fn target_bytes_len(&self) -> (n: u64)
        ensures
            n == target_bytes(self.sample_rate, self.target_duration_ms),
    {
        let a = self.sample_rate as u64;
        let b = self.target_duration_ms as u64;
        assert(a * b <= 0xffff_fffe_0000_0001u64) by (nonlinear_arith)
            requires
                a <= 0xffff_ffffu64,
                b <= 0xffff_ffffu64,
        {
        }
        let prod = a * b;
        let samples = prod / 1000 + if prod % 1000 == 0 {
            0
        } else {
            1
        };
        samples * 2
    }

    fn should_flush(&self) -> (b: bool)
        ensures
            b == self.due(),
    {
        let t = self.target_bytes_len();
        (self.buffer.len() as u64) >= t && self.target_duration_ms > 0 && self.sample_rate > 0
    }

    /// When due, take every buffered sample out; otherwise `None`.
    pub fn flush(&mut self) -> (r: Option<Vec<i16>>)
        requires
            old(self).wf(),
        ensures
            final(self).wf(),
            final(self).rate() == old(self).rate(),
            final(self).target_ms() == old(self).target_ms(),
            match r {
                Some(s) => old(self).due() && s@ == le_samples(old(self).bytes()) && final(self).bytes()
                    == Seq::<u8>::empty(),
                None => !old(self).due() && final(self).bytes() == old(self).bytes(),
            },
    {
        if self.should_flush() {
            let n = self.buffer.len();
            let s = decode_le_samples(&self.buffer, 0, n);
            proof {
                assert(self.buffer@.subrange(0, n as int) =~= self.buffer@);
            }
            self.buffer.clear();
            Some(s)
        } else {
            None
        }
    }

    /// Take every buffered sample out; `None` when the buffer is empty.
    pub fn flush_remaining(&mut self) -> (r: Option<Vec<i16>>)
        requires
            old(self).wf(),
        ensures
            final(self).wf(),
            final(self).rate() == old(self).rate(),
            final(self).target_ms() == old(self).target_ms(),
            final(self).bytes() == Seq::<u8>::empty(),
            match r {
                Some(s) => old(self).bytes().len() > 0 && s@ == le_samples(old(self).bytes()),
                None => old(self).bytes().len() == 0,
            },
    {
        if self.buffer.len() == 0 {
            None
        } else {
            let n = self.buffer.len();
            let s = decode_le_samples(&self.buffer, 0, n);
            proof {
                assert(self.buffer@.subrange(0, n as int) =~= self.buffer@);
            }
            self.buffer.clear();
            Some(s)
        }
    }

    /// The capacity of the underlying storage in bytes (at least the length).
    pub fn capacity(&self) -> (c: usize)
        ensures
            c >= self.bytes().len(),
    {
        vec_capacity(&self.buffer)
    }

    /// The number of buffered bytes.
    pub fn len(&self) -> (n: usize)
        ensures
            n == self.bytes().len(),
    {
        self.buffer.len()
    }

    /// When due, hand the buffered samples to `f` and clear the buffer,
    /// returning what `f` returned; otherwise `None` and `f` is not called.
    pub fn process_and_clear<F, R>(&mut self, f: F) -> (r: Option<R>)
        where
            F: FnOnce(&[i16]) -> R,
        requires
            old(self).wf(),
            forall|s: &[i16]| call_requires(f, (s,)),
        ensures
            final(self).wf(),
            final(self).rate() == old(self).rate(),
            final(self).target_ms() == old(self).target_ms(),
            match r {
                Some(v) => old(self).due() && final(self).bytes() == Seq::<u8>::empty() && exists|s: &[i16]|
                    s@ == le_samples(old(self).bytes()) && call_ensures(f, (s,), v),
                None => !old(self).due() && final(self).bytes() == old(self).bytes(),
            },
    {
        if self.should_flush() {
            let n = self.buffer.len();
            let s = decode_le_samples(&self.buffer, 0, n);
            proof {
                assert(self.buffer@.subrange(0, n as int) =~= self.buffer@);
            }
            let v = f(s.as_slice());
            self.buffer.clear();
            Some(v)
        } else {
            None
        }
    }

    /// When due, take exactly the target number of bytes as a chunk of
    /// `format`, leaving any excess buffered; otherwise `None`.
    pub fn pop_chunk(&mut self, format: AudioFormat) -> (r: Option<AudioChunk>)
        requires
            old(self).wf(),
        ensures
            final(self).wf(),
            final(self).rate() == old(self).rate(),
            final(self).target_ms() == old(self).target_ms(),
            match r {
                Some(c) => {
                    let t = target_bytes(old(self).rate(), old(self).target_ms());
                    &&& old(self).due()
                    &&& c.format == format
                    &&& c.data@ == old(self).bytes().subrange(0, t)
                    &&& final(self).bytes() == old(self).bytes().subrange(t, old(self).bytes().len() as int)
                },
                None => !old(self).due() && final(self).bytes() == old(self).bytes(),
            },
    {
        if self.should_flush() {
            let t64 = self.target_bytes_len();
            assert(t64 <= self.buffer.len());
            let t = t64 as usize;
            let ghost len = self.buffer@.len() as int;
            proof {
                assert(t64 % 2 == 0);
                assert((len - t) % 2 == 0) by (nonlinear_arith)
                    requires
                        len % 2 == 0,
                        t % 2 == 0,
                        t <= len,
                {
                }
            }
            let ghost before = self.buffer@;
            let rest = self.buffer.split_off(t);
            let mut chunk = rest;
            std::mem::swap(&mut chunk, &mut self.buffer);
            Some(AudioChunk { data: chunk, format })
        } else {
            None
        }
    }

    /// Take every buffered byte as a chunk of `format`; `None` when empty.
    pub fn pop_remaining_chunk(&mut self, format: AudioFormat) -> (r: Option<AudioChunk>)
        requires
            old(self).wf(),
        ensures
            final(self).wf(),
            final(self).rate() == old(self).rate(),
            final(self).target_ms() == old(self).target_ms(),
            final(self).bytes() == Seq::<u8>::empty(),
            match r {
                Some(c) => old(self).bytes().len() > 0 && c.data@ == old(self).bytes() && c.format == format,
                None => old(self).bytes().len() == 0,
            },
    {
        if self.buffer.len() == 0 {
            None
        } else {
            let rest: Vec<u8> = Vec::new();
            let mut chunk = rest;
            std::mem::swap(&mut chunk, &mut self.buffer);
            Some(AudioChunk { data: chunk, format })
        }
    }
}

} // verus!
