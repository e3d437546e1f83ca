//! The decisions of the WAV writer: which stream files a session writes,
//! what they are called, their sample format, how packet bytes become
//! samples, and which files a packet goes to.
use vstd::prelude::*;
use crate::audio::StreamId;
use crate::error::CaptureError;

verus! {

/// The file-name suffix of each stream's WAV file.
pub open spec fn stream_suffix(stream_id: StreamId) -> Seq<char> {
    match stream_id {
        StreamId::Mic => "_mic.wav"@,
        StreamId::System => "_system.wav"@,
        StreamId::Mixed => "_mixed.wav"@,
    }
}

/// The name of a session's WAV file for a stream:
/// "{session_id}_mic.wav", "{session_id}_system.wav" or
/// "{session_id}_mixed.wav".
pub fn wav_file_name(session_id: &str, stream_id: StreamId) -> (r: String)
    ensures
        r@ == session_id@ + stream_suffix(stream_id),
{
    let mut name = String::from_str(session_id);
    match stream_id {
        StreamId::Mic => name.append("_mic.wav"),
        StreamId::System => name.append("_system.wav"),
        StreamId::Mixed => name.append("_mixed.wav"),
    }
    name
}

/// The streams a session writes, in order: microphone, system audio and
/// mixed, each when enabled.
pub open spec fn sink_order(enable_mic: bool, enable_system: bool, enable_mixed: bool) -> Seq<StreamId> {
    (if enable_mic { seq![StreamId::Mic] } else { Seq::empty() })
        + (if enable_system { seq![StreamId::System] } else { Seq::empty() })
        + (if enable_mixed { seq![StreamId::Mixed] } else { Seq::empty() })
}

/// A session writes the microphone file exactly when microphone output is
/// enabled, the system file exactly when system output is, and the mixed
/// file exactly when mixed output is, each whatever the other flags are, in
/// that order and each once.
pub proof fn lemma_sink_flags(enable_mic: bool, enable_system: bool, enable_mixed: bool)
    ensures
        sink_order(enable_mic, enable_system, enable_mixed).contains(StreamId::Mic) <==> enable_mic,
        sink_order(enable_mic, enable_system, enable_mixed).contains(StreamId::System) <==> enable_system,
        sink_order(enable_mic, enable_system, enable_mixed).contains(StreamId::Mixed) <==> enable_mixed,
        enable_mic ==> sink_order(enable_mic, enable_system, enable_mixed)[0] == StreamId::Mic,
        enable_mixed ==> sink_order(enable_mic, enable_system, enable_mixed).last() == StreamId::Mixed,
{
    let s = sink_order(enable_mic, enable_system, enable_mixed);
    if enable_mic {
        assert(s[0] == StreamId::Mic);
    }
    if enable_system {
        let k = if enable_mic { 1int } else { 0int };
        assert(s[k] == StreamId::System);
    }
    if enable_mixed {
        assert(s[s.len() - 1] == StreamId::Mixed);
    }
}

/// Decide which stream files a session writes, in order.
pub fn sink_streams(enable_mic: bool, enable_system: bool, enable_mixed: bool) -> (r: Vec<StreamId>)
    ensures
        r@ == sink_order(enable_mic, enable_system, enable_mixed),
        r@.contains(StreamId::Mic) <==> enable_mic,
        r@.contains(StreamId::System) <==> enable_system,
        r@.contains(StreamId::Mixed) <==> enable_mixed,
        r@.no_duplicates(),
{
    proof {
        lemma_sink_flags(enable_mic, enable_system, enable_mixed);
        lemma_stream_files_distinct(Seq::empty(), StreamId::Mic, StreamId::Mic, enable_mic, enable_system, enable_mixed);
    }
    let mut v: Vec<StreamId> = Vec::new();
    if enable_mic {
        v.push(StreamId::Mic);
    }
    if enable_system {
        v.push(StreamId::System);
    }
    if enable_mixed {
        v.push(StreamId::Mixed);
    }
    assert(v@ =~= sink_order(enable_mic, enable_system, enable_mixed));
    v
}

/// The message of the error a write gives once the file is finalized.
pub open spec fn finalized_message() -> Seq<char> {
    "writer already finalized"@
}

/// Whether a packet can be written to a sink: only while its writer is open
/// (`ChannelClosed` once the file has been finalized).
pub fn writer_open(open: bool) -> (r: Result<(), CaptureError>)
    ensures
        open <==> r is Ok,
        !open ==> (r matches Err(CaptureError::ChannelClosed(m)) && m@ == finalized_message()),
{
    if open {
        Ok(())
    } else {
        Err(CaptureError::ChannelClosed(String::from_str("writer already finalized")))
    }
}

/// The sample format of a WAV file: channel count, sample rate and bits per
/// sample; samples are signed integers.
#[derive(Debug, Clone, Copy, PartialEq, Eq, Structural)]
pub struct WavFormat {
    pub channels: u16,
    pub sample_rate: u32,
    pub bits_per_sample: u16,
}

/// The format the writer uses: the session's channels and rate, 16-bit
/// integer samples.
pub fn wav_format(sample_rate: u32, channels: u16) -> (r: WavFormat)
    ensures
        r == (WavFormat { channels, sample_rate, bits_per_sample: 16 }),
{
    WavFormat { channels, sample_rate, bits_per_sample: 16 }
}

/// The signed 16-bit value of two bytes, least significant first (as
/// `i16::from_le_bytes` reads them).
pub open spec fn i16_from_le(lo: u8, hi: u8) -> int {
    let u = lo + 256 * hi;
    if u >= 32768 { u - 65536 } else { u }
}

/// The samples of raw little-endian 16-bit PCM: one per whole pair of
/// bytes; a trailing odd byte is ignored.
pub open spec fn pcm16_samples(data: Seq<u8>) -> Seq<i16> {
    Seq::new(data.len() / 2, |i: int| i16_from_le(data[2 * i], data[2 * i + 1]) as i16)
}

/// The sample of two little-endian bytes.
fn sample_from_le(lo: u8, hi: u8) -> (r: i16)
    ensures
        r as int == i16_from_le(lo, hi),
{
    let u: u32 = (lo as u32) + (hi as u32) * 256;
    if u >= 32768 {
        (u as i32 - 65536) as i16
    } else {
        u as i16
    }
}

/// Interpret raw PCM bytes as 16-bit little-endian samples.
pub fn decode_pcm16_le(data: &[u8]) -> (r: Vec<i16>)
    ensures
        r@ == pcm16_samples(data@),
{
    let len = data.len();
    let n = len / 2;
    let mut samples: Vec<i16> = Vec::new();
    let mut i: usize = 0;
    while i < n
        invariant
            len == data@.len(),
            n == len / 2,
            i <= n,
            samples@.len() == i,
            forall|j: int| 0 <= j < i ==> samples@[j] as int == #[trigger] i16_from_le(data@[2 * j], data@[2 * j + 1]),
        decreases n - i,
    {
        assert(2 * i + 1 < data@.len()) by {
            assert(2 * (data@.len() / 2) <= data@.len());
        }
        let s = sample_from_le(data[2 * i], data[2 * i + 1]);
        samples.push(s);
        i = i + 1;
    }
    assert(samples@ =~= pcm16_samples(data@));
    samples
}

/// The little-endian bytes of a sample (as `i16::to_le_bytes` gives them).
pub open spec fn i16_le_bytes(x: i16) -> (u8, u8) {
    let u = if x < 0 { x + 65536 } else { x as int };
    ((u % 256) as u8, (u / 256) as u8)
}

/// A sample read from two bytes is a 16-bit value congruent to the low byte
/// plus 256 times the high byte, modulo 2^16.
pub proof fn lemma_from_le_value(lo: u8, hi: u8)
    ensures
        -32768 <= i16_from_le(lo, hi) <= 32767,
        (i16_from_le(lo, hi) - (lo + 256 * hi)) % 65536 == 0,
{
}

/// Reading the bytes of a sample gives the sample back, and the bytes of a
/// read sample are the bytes it was read from.
pub proof fn lemma_le_roundtrip(x: i16, lo: u8, hi: u8)
    ensures
        i16_from_le(i16_le_bytes(x).0, i16_le_bytes(x).1) == x,
        i16_le_bytes(i16_from_le(lo, hi) as i16) == (lo, hi),
{
}

/// The little-endian bytes of a run of samples, in order.
pub open spec fn pcm16_bytes(samples: Seq<i16>) -> Seq<u8>
    decreases samples.len(),
{
    if samples.len() == 0 {
        Seq::empty()
    } else {
        pcm16_bytes(samples.drop_last()) + seq![i16_le_bytes(samples.last()).0, i16_le_bytes(samples.last()).1]
    }
}

/// The bytes of a run of samples are two per sample.
proof fn lemma_pcm16_bytes_len(samples: Seq<i16>)
    ensures
        pcm16_bytes(samples).len() == 2 * samples.len(),
    decreases samples.len(),
{
    if samples.len() > 0 {
        lemma_pcm16_bytes_len(samples.drop_last());
    }
}

/// The bytes at positions `2i` and `2i + 1` are those of sample `i`.
proof fn lemma_pcm16_bytes_at(samples: Seq<i16>, i: int)
    requires
        0 <= i < samples.len(),
    ensures
        pcm16_bytes(samples)[2 * i] == i16_le_bytes(samples[i]).0,
        pcm16_bytes(samples)[2 * i + 1] == i16_le_bytes(samples[i]).1,
    decreases samples.len(),
{
    let init = samples.drop_last();
    lemma_pcm16_bytes_len(init);
    if i < samples.len() - 1 {
        lemma_pcm16_bytes_at(init, i);
    }
}

/// Decoding the little-endian bytes of any run of samples gives back the
/// samples.
pub proof fn lemma_decode_encoded(samples: Seq<i16>)
    ensures
        pcm16_samples(pcm16_bytes(samples)) == samples,
{
    lemma_pcm16_bytes_len(samples);
    let bytes = pcm16_bytes(samples);
    assert forall|i: int| 0 <= i < samples.len() implies #[trigger] pcm16_samples(bytes)[i] == samples[i] by {
        lemma_pcm16_bytes_at(samples, i);
        lemma_le_roundtrip(samples[i], 0, 0);
    }
    assert(pcm16_samples(bytes) =~= samples);
}

/// A session's files for different streams have different names, and the
/// streams a session writes are distinct, one per enabled flag.
pub proof fn lemma_stream_files_distinct(session_id: Seq<char>, a: StreamId, b: StreamId, enable_mic: bool, enable_system: bool, enable_mixed: bool)
    ensures
        a != b ==> session_id + stream_suffix(a) != session_id + stream_suffix(b),
        sink_order(enable_mic, enable_system, enable_mixed).no_duplicates(),
        sink_order(enable_mic, enable_system, enable_mixed).len()
            == (if enable_mic { 1int } else { 0 }) + (if enable_system { 1int } else { 0 }) + (if enable_mixed { 1int } else { 0 }),
{
    reveal_strlit("_mic.wav");
    reveal_strlit("_system.wav");
    reveal_strlit("_mixed.wav");
    if a != b {
        assert((session_id + stream_suffix(a)).len() != (session_id + stream_suffix(b)).len());
    }
    let s = sink_order(enable_mic, enable_system, enable_mixed);
    assert forall|i: int, j: int| 0 <= i < s.len() && 0 <= j < s.len() && i != j implies s[i] != s[j] by {
    }
}

/// The positions among the first `n` sinks that take a packet of
/// `stream_id`: every sink of that stream, in order.
pub open spec fn matching_sinks(sinks: Seq<StreamId>, stream_id: StreamId, n: int) -> Seq<usize>
    decreases n,
{
    if n <= 0 {
        Seq::empty()
    } else if sinks[n - 1] == stream_id {
        matching_sinks(sinks, stream_id, n - 1).push((n - 1) as usize)
    } else {
        matching_sinks(sinks, stream_id, n - 1)
    }
}

/// The positions of the sinks a packet of `stream_id` is written to.
pub fn sinks_for_stream(sinks: &[StreamId], stream_id: StreamId) -> (r: Vec<usize>)
    ensures
        r@ == matching_sinks(sinks@, stream_id, sinks@.len() as int),
        r@.len() <= sinks@.len(),
        forall|k: int| 0 <= k < r@.len() ==> r@[k] < sinks@.len() && sinks@[r@[k] as int] == stream_id,
        forall|k: int, l: int| 0 <= k < l < r@.len() ==> r@[k] < r@[l],
        forall|j: int| 0 <= j < sinks@.len() && sinks@[j] == stream_id ==> r@.contains(j as usize),
{
    let mut r: Vec<usize> = Vec::new();
    let mut i: usize = 0;
    while i < sinks.len()
        invariant
            i <= sinks@.len(),
            r@ == matching_sinks(sinks@, stream_id, i as int),
            r@.len() <= i,
            forall|k: int| 0 <= k < r@.len() ==> r@[k] < i && sinks@[r@[k] as int] == stream_id,
            forall|k: int, l: int| 0 <= k < l < r@.len() ==> r@[k] < r@[l],
            forall|j: int| 0 <= j < i && sinks@[j] == stream_id ==> r@.contains(j as usize),
        decreases sinks@.len() - i,
    {
        if sinks[i] == stream_id {
            let ghost old_r = r@;
            r.push(i);
            assert forall|j: int| 0 <= j < i + 1 && sinks@[j] == stream_id implies r@.contains(j as usize) by {
                if j < i {
                    let k = choose|k: int| 0 <= k < old_r.len() && old_r[k] == j as usize;
                    assert(r@[k] == j as usize);
                } else {
                    assert(r@[r@.len() - 1] == i);
                }
            }
        }
        i = i + 1;
    }
    r
}

} // verus!
