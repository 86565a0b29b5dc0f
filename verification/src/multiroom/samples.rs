//! The format of the audio: interleaved 16-bit little-endian samples.

use vstd::prelude::*;

verus! {

/// The sample rate, in hertz.
pub const BASELINE_SAMPLE_RATE_HZ: u32 = 48_000;

/// The number of channels.
pub const BASELINE_CHANNELS: u16 = 2;

/// The frames of a chunk: 20 ms.
pub const FRAMES_PER_CHUNK: usize = 960;

/// The samples of a chunk, one for each channel of each frame.
pub const SAMPLES_PER_CHUNK: usize = 1920;

/// The bytes of a chunk.
pub const BYTES_PER_CHUNK: usize = 3840;

/// The name of the format.
pub const CODEC: &'static str = "pcm_s16_le";

/// The time between two chunks, in microseconds.
pub const CHUNK_PERIOD_US: u64 = 20_000;

/// A sample as an unsigned number.
pub open spec fn unsigned(s: i16) -> int {
    if s < 0 {
        s + 0x1_0000
    } else {
        s as int
    }
}

/// The two bytes of a sample, the lower one first.
pub open spec fn sample_bytes(s: i16) -> Seq<u8> {
    seq![(unsigned(s) % 256) as u8, (unsigned(s) / 256) as u8]
}

/// The bytes of samples.
pub open spec fn encoded(samples: Seq<i16>) -> Seq<u8>
    decreases samples.len(),
{
    if samples.len() == 0 {
        seq![]
    } else {
        encoded(samples.drop_last()) + sample_bytes(samples.last())
    }
}

/// The sample of two bytes.
pub open spec fn sample_of(lo: u8, hi: u8) -> i16 {
    let v = lo as int + 256 * hi;
    if v >= 0x8000 {
        (v - 0x1_0000) as i16
    } else {
        v as i16
    }
}

/// The samples in bytes; an odd byte at the end counts for nothing.
pub open spec fn decoded(bytes: Seq<u8>) -> Seq<i16> {
    Seq::new(bytes.len() / 2, |i: int| sample_of(bytes[2 * i], bytes[2 * i + 1]))
}

proof fn lemma_encoded(samples: Seq<i16>)
    ensures
        encoded(samples).len() == 2 * samples.len(),
        forall|i: int|
            0 <= i < samples.len() ==> encoded(samples)[2 * i] == sample_bytes(#[trigger] samples[i])[0]
                && encoded(samples)[2 * i + 1] == sample_bytes(samples[i])[1],
    decreases samples.len(),
{
    if samples.len() > 0 {
        let rest = samples.drop_last();
        lemma_encoded(rest);
        assert forall|i: int| 0 <= i < samples.len() implies encoded(samples)[2 * i] == sample_bytes(
            #[trigger] samples[i],
        )[0] && encoded(samples)[2 * i + 1] == sample_bytes(samples[i])[1] by {
            if i < rest.len() {
                assert(rest[i] == samples[i]);
            }
        }
    }
}

/// Samples come back from their bytes as they were.
pub proof fn samples_read_back(samples: Seq<i16>)
    ensures
        decoded(encoded(samples)) == samples,
{
    lemma_encoded(samples);
    let bytes = encoded(samples);
    assert forall|i: int| 0 <= i < samples.len() implies #[trigger] decoded(bytes)[i] == samples[i] by {
        let s = samples[i];
        let u = unsigned(s);
        assert(0 <= u < 0x1_0000);
        assert(bytes[2 * i] == (u % 256) as u8);
        assert(bytes[2 * i + 1] == (u / 256) as u8);
        assert((u % 256) as u8 as int == u % 256);
        assert((u / 256) as u8 as int == u / 256);
        assert(u == u % 256 + 256 * (u / 256));
    }
    assert(decoded(bytes) =~= samples);
}

/// Writes the first samples of a buffer as bytes.
pub fn encode_samples(buf: &[i16], count: usize) -> (r: Vec<u8>)
    requires
        count <= buf@.len(),
    ensures
        r@ == encoded(buf@.take(count as int)),
{
    let mut out: Vec<u8> = Vec::new();
    let mut i: usize = 0;
    while i < count
        invariant
            i <= count <= buf@.len(),
            out@ == encoded(buf@.take(i as int)),
        decreases count - i,
    {
        let s: i16 = buf[i];
        let u: u32 = if s < 0 {
            (s as i32 + 0x1_0000) as u32
        } else {
            s as u32
        };
        out.push((u % 256) as u8);
        out.push((u / 256) as u8);
        proof {
            let t = buf@.take(i as int + 1);
            assert(t.drop_last() =~= buf@.take(i as int));
            assert(t.last() == s);
            assert(out@ =~= encoded(buf@.take(i as int)) + sample_bytes(s));
        }
        i += 1;
    }
    out
}

/// Reads samples out of bytes.
pub fn decode_samples(bytes: &Vec<u8>) -> (r: Vec<i16>)
    ensures
        r@ == decoded(bytes@),
{
    let total: usize = bytes.len();
    let n: usize = total / 2;
    let mut out: Vec<i16> = Vec::new();
    let mut i: usize = 0;
    while i < n
        invariant
            i <= n,
            total == bytes@.len(),
            n == total / 2,
            out@ == decoded(bytes@).take(i as int),
        decreases n - i,
    {
        let v: i32 = bytes[2 * i] as i32 + 256 * (bytes[2 * i + 1] as i32);
        let s: i16 = if v >= 0x8000 {
            (v - 0x1_0000) as i16
        } else {
            v as i16
        };
        proof {
            assert(s == decoded(bytes@)[i as int]);
            assert(decoded(bytes@).take(i as int + 1) =~= decoded(bytes@).take(i as int).push(s));
        }
        out.push(s);
        i += 1;
    }
    proof {
        assert(decoded(bytes@).take(n as int) =~= decoded(bytes@));
    }
    out
}

/// A chunk of silence.
pub open spec fn silent_chunk() -> Seq<u8> {
    Seq::new(BYTES_PER_CHUNK as nat, |i: int| 0u8)
}

/// Makes a chunk of silence.
pub fn silence() -> (r: Vec<u8>)
    ensures
        r@ == silent_chunk(),
{
    let mut out: Vec<u8> = Vec::new();
    while out.len() < BYTES_PER_CHUNK
        invariant
            out@.len() <= BYTES_PER_CHUNK,
            out@ == silent_chunk().take(out@.len() as int),
        decreases BYTES_PER_CHUNK - out@.len(),
    {
        proof {
            let n = out@.len() as int;
            assert(silent_chunk().take(n + 1) =~= silent_chunk().take(n).push(0u8));
        }
        out.push(0);
    }
    proof {
        assert(silent_chunk().take(BYTES_PER_CHUNK as int) =~= silent_chunk());
    }
    out
}

/// A frame that is ready to be sent.
#[derive(Debug, Clone)]
pub struct AudioFrameSeed {
    pub sequence: u64,
    pub presentation_time_ms: u64,
    pub codec: String,
    pub rate_hz: u32,
    pub channels: u16,
    /// The samples' bytes in base64.
    pub payload_b64: String,
}

/// [`AudioFrameSeed`] over mathematical values.
#[verifier::ext_equal]
pub struct SeedView {
    pub sequence: u64,
    pub presentation_time_ms: u64,
    pub codec: Seq<char>,
    pub rate_hz: u32,
    pub channels: u16,
    pub payload_b64: Seq<char>,
}

impl View for AudioFrameSeed {
    type V = SeedView;

    open spec fn view(&self) -> SeedView {
        SeedView {
            sequence: self.sequence,
            presentation_time_ms: self.presentation_time_ms,
            codec: self.codec@,
            rate_hz: self.rate_hz,
            channels: self.channels,
            payload_b64: self.payload_b64@,
        }
    }
}

/// Samples travel as two bytes each, the lower one first: the bytes of a sample, and the
/// sample of two bytes, are the same number but for a multiple of 65,536.
pub proof fn samples_are_little_endian(samples: Seq<i16>, bytes: Seq<u8>, i: int)
    ensures
        encoded(samples).len() == 2 * samples.len(),
        0 <= i < samples.len() ==> {
            let v = encoded(samples)[2 * i] + 256 * encoded(samples)[2 * i + 1];
            v == samples[i] || v == samples[i] + 65_536
        },
        decoded(bytes).len() == bytes.len() / 2,
        0 <= i < bytes.len() / 2 ==> {
            let v = bytes[2 * i] + 256 * bytes[2 * i + 1];
            decoded(bytes)[i] == v || decoded(bytes)[i] == v - 65_536
        },
{
    lemma_encoded(samples);
    if 0 <= i < samples.len() {
        let u = unsigned(samples[i]);
        assert((u % 256) as u8 as int == u % 256);
        assert((u / 256) as u8 as int == u / 256);
        assert(u == u % 256 + 256 * (u / 256));
        assert(encoded(samples)[2 * i] == sample_bytes(samples[i])[0]);
    }
}

/// A chunk of silence is twenty milliseconds of it: 960 frames of two samples of two bytes,
/// all of them 0.
pub proof fn silence_is_twenty_milliseconds()
    ensures
        silent_chunk().len() == 960 * 2 * 2,
        forall|i: int| 0 <= i < silent_chunk().len() ==> #[trigger] silent_chunk()[i] == 0,
        BASELINE_SAMPLE_RATE_HZ * CHUNK_PERIOD_US == FRAMES_PER_CHUNK * 1_000_000,
        BASELINE_SAMPLE_RATE_HZ == 48_000,
{
}

/// Each field is seen under its own name, as it is.
pub proof fn fields_are_seen_under_their_names(audio_frame_seed: AudioFrameSeed)
    ensures
        audio_frame_seed@.sequence == audio_frame_seed.sequence,
        audio_frame_seed@.presentation_time_ms == audio_frame_seed.presentation_time_ms,
        audio_frame_seed@.codec == audio_frame_seed.codec@,
        audio_frame_seed@.rate_hz == audio_frame_seed.rate_hz,
        audio_frame_seed@.channels == audio_frame_seed.channels,
        audio_frame_seed@.payload_b64 == audio_frame_seed.payload_b64@,
{
}

} // verus!
