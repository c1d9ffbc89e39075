//! Sample counts, device configuration choices and sample layout conversions.
//!
//! Layout conversions take the sample type as a parameter: they only move samples.
use vstd::prelude::*;
use crate::text::str_equals;

verus! {

/// Interleaved samples in `duration_ms` milliseconds of audio.
pub open spec fn spec_opus_samples_count(sample_rate: u32, channels: u16, duration_ms: u32) -> int {
    ((sample_rate / 1000) as int * duration_ms as int) * channels as int
}

/// Number of interleaved samples in `duration` milliseconds at `sample_rate` with
/// `channels` channels (the rate is taken in whole kilohertz).
pub fn get_opus_samples_count(sample_rate: u32, channels: u16, duration: u32) -> (n: usize)
    requires
        (sample_rate / 1000) as int * duration as int <= usize::MAX,
        spec_opus_samples_count(sample_rate, channels, duration) <= usize::MAX,
    ensures
        n == spec_opus_samples_count(sample_rate, channels, duration),
{
    let per_ms = (sample_rate / 1000) as usize;
    let d = duration as usize;
    let c = channels as usize;
    (per_ms * d) * c
}

/// The device buffer size to ask for: the ideal one when the device's supported
/// range holds it, else the range's minimum; none when the range is unknown.
pub fn choose_buffer_size(range: Option<(u32, u32)>, ideal: u32) -> (r: Option<u32>)
    ensures
        r == (match range {
            Some((min, max)) => Some(if min <= ideal && ideal <= max { ideal } else { min }),
            None => None,
        }),
{
    match range {
        Some((min, max)) => {
            if min <= ideal && ideal <= max {
                Some(ideal)
            } else {
                Some(min)
            }
        },
        None => None,
    }
}

/// Whether one of the supported `(min, max)` sample-rate ranges holds `rate`.
pub fn supports_sample_rate(ranges: &[(u32, u32)], rate: u32) -> (b: bool)
    ensures
        b == exists|i: int| 0 <= i < ranges@.len() && #[trigger] ranges@[i].0 <= rate && rate <= ranges@[i].1,
{
    let mut i: usize = 0;
    while i < ranges.len()
        invariant
            i <= ranges@.len(),
            forall|k: int| 0 <= k < i ==> !(#[trigger] ranges@[k].0 <= rate && rate <= ranges@[k].1),
        decreases ranges@.len() - i,
    {
        let (min, max) = ranges[i];
        if max >= rate && min <= rate {
            assert(ranges@[i as int].0 <= rate && rate <= ranges@[i as int].1);
            return true;
        }
        i = i + 1;
    }
    false
}

/// The sample rate to open a device at: the preferred rate when supported, else
/// the device's default rate.
pub fn choose_sample_rate(supports_preferred: bool, preferred: u32, default_rate: u32) -> (r: u32)
    ensures
        r == (if supports_preferred { preferred } else { default_rate }),
{
    if supports_preferred { preferred } else { default_rate }
}

/// The playback buffer size aimed for: 480 frames when the device natively runs at
/// the output rate (10 ms at 48 kHz, in step with echo cancellation), else 441.
pub fn output_ideal_buffer_size(native_rate_is_default: bool) -> (n: u32)
    ensures
        n == (if native_rate_is_default { 480u32 } else { 441u32 }),
{
    if native_rate_is_default { 480 } else { 441 }
}

/// Length of a resampler input chunk.
#[derive(Clone, Copy, Debug, PartialEq, Eq, Structural)]
pub enum Chunk {
    TenMs,
    FiveMs,
    TwoAndHalfMs,
}

/// Frames (samples per channel) in one resampler chunk.
pub open spec fn spec_resampler_chunk_size(input_sample_rate: u32, channels: u16, chunk: Chunk) -> int {
    let s10 = spec_opus_samples_count(input_sample_rate, channels, 10);
    let total = match chunk {
        Chunk::TenMs => s10,
        Chunk::TwoAndHalfMs => s10 / 4,
        Chunk::FiveMs => s10 / 2,
    };
    total / channels as int
}

/// Frames per channel the resampler processes at once.
pub fn resampler_chunk_size(input_sample_rate: u32, channels: u16, chunk: Chunk) -> (n: usize)
    requires
        channels >= 1,
        (input_sample_rate / 1000) as int * 10 <= usize::MAX,
        spec_opus_samples_count(input_sample_rate, channels, 10) <= usize::MAX,
    ensures
        n == spec_resampler_chunk_size(input_sample_rate, channels, chunk),
{
    let samples_count_10ms = get_opus_samples_count(input_sample_rate, channels, 10);
    let total = if chunk == Chunk::TenMs {
        samples_count_10ms
    } else if chunk == Chunk::TwoAndHalfMs {
        samples_count_10ms / 4
    } else {
        samples_count_10ms / 2
    };
    total / channels as usize
}

/// Splits interleaved samples into a left and a right channel.  Stereo input is
/// taken in pairs (a trailing odd sample is left out); any other channel count is
/// read as mono and copied to both channels.  Also returns the input length divided
/// by the channel count.
pub fn deinterleave<S: Copy>(input: &[S], channels: u16) -> (r: (Vec<S>, Vec<S>, usize))
    requires
        channels >= 1,
    ensures
        r.2 == input@.len() as int / channels as int,
        if channels == 2 {
            &&& r.0@ == Seq::new(input@.len() / 2, |i: int| input@[2 * i])
            &&& r.1@ == Seq::new(input@.len() / 2, |i: int| input@[2 * i + 1])
        } else {
            &&& r.0@ == input@
            &&& r.1@ == input@
        },
{
    let mut left: Vec<S> = Vec::new();
    let mut right: Vec<S> = Vec::new();
    if channels == 2 {
        let n = input.len();
        let pairs = n / 2;
        let mut i: usize = 0;
        while i < pairs
            invariant
                n == input@.len(),
                pairs == n / 2,
                i <= pairs,
                left@ == Seq::new(i as nat, |k: int| input@[2 * k]),
                right@ == Seq::new(i as nat, |k: int| input@[2 * k + 1]),
            decreases pairs - i,
        {
            assert(2 * i + 1 < input@.len());
            left.push(input[2 * i]);
            right.push(input[2 * i + 1]);
            assert(left@ =~= Seq::new((i + 1) as nat, |k: int| input@[2 * k]));
            assert(right@ =~= Seq::new((i + 1) as nat, |k: int| input@[2 * k + 1]));
            i = i + 1;
        }
    } else {
        let mut i: usize = 0;
        while i < input.len()
            invariant
                i <= input@.len(),
                left@ == input@.take(i as int),
                right@ == input@.take(i as int),
            decreases input@.len() - i,
        {
            left.push(input[i]);
            right.push(input[i]);
            assert(input@.take(i + 1) == input@.take(i as int).push(input@[i as int]));
            i = i + 1;
        }
        assert(input@.take(input@.len() as int) == input@);
    }
    (left, right, input.len() / channels as usize)
}

/// Interleaves two channels of equal length: left, right, left, right, ...
pub fn interleave_stereo<S: Copy>(left: &[S], right: &[S]) -> (out: Vec<S>)
    requires
        left@.len() == right@.len(),
    ensures
        out@.len() == 2 * left@.len(),
        forall|i: int| 0 <= i < left@.len() ==> out@[2 * i] == left@[i] && out@[2 * i + 1] == right@[i],
{
    let mut out: Vec<S> = Vec::new();
    let mut i: usize = 0;
    while i < left.len()
        invariant
            left@.len() == right@.len(),
            i <= left@.len(),
            out@.len() == 2 * i,
            forall|k: int| 0 <= k < i ==> out@[2 * k] == left@[k] && out@[2 * k + 1] == right@[k],
        decreases left@.len() - i,
    {
        out.push(left[i]);
        out.push(right[i]);
        i = i + 1;
    }
    out
}

/// Duplicates each mono sample into a left and a right sample.
pub fn upmix_mono<S: Copy>(mono: &[S]) -> (out: Vec<S>)
    requires
        2 * mono@.len() <= usize::MAX,
    ensures
        out@.len() == 2 * mono@.len(),
        forall|i: int| 0 <= i < out@.len() ==> out@[i] == mono@[i / 2],
{
    let mut out: Vec<S> = Vec::new();
    let mut i: usize = 0;
    while i < mono.len()
        invariant
            i <= mono@.len(),
            out@.len() == 2 * i,
            forall|k: int| 0 <= k < out@.len() ==> out@[k] == mono@[k / 2],
        decreases mono@.len() - i,
    {
        out.push(mono[i]);
        out.push(mono[i]);
        i = i + 1;
    }
    out
}

/// Interleaved samples in one echo-processor frame for `channels` channels.
pub fn encoder_frame_size(samples_per_frame: usize, channels: u16) -> (n: usize)
    requires
        samples_per_frame * channels <= usize::MAX,
    ensures
        n == samples_per_frame * channels,
{
    samples_per_frame * channels as usize
}

/// Size of the scratch buffer for captured audio: 100 ms of interleaved samples.
pub fn capture_scratch_size(sample_rate: u32, channels: u16) -> (n: usize)
    requires
        (sample_rate / 1000) as int * channels as int * 100 <= usize::MAX,
    ensures
        n == (sample_rate / 1000) as int * channels as int * 100,
{
    let one_ms = (sample_rate / 1000) as usize * channels as usize;
    one_ms * 100
}

/// The RTP duration of an encoded frame of `sample_count` interleaved samples at a
/// 48 kHz clock (ticks per channel) and its length in whole milliseconds.
pub fn encoded_frame_duration(sample_count: u64, channels: u16, sample_rate: u32) -> (r: (u64, u64))
    requires
        channels >= 1,
        sample_rate >= 1,
        (sample_count as int / channels as int) * 1000 <= u64::MAX,
    ensures
        r.0 == sample_count as int / channels as int,
        r.1 == (sample_count as int / channels as int) * 1000 / sample_rate as int,
{
    let per_channel = sample_count / channels as u64;
    (per_channel, per_channel * 1000 / sample_rate as u64)
}

/// Converts a host clock reading to seconds and nanoseconds with the clock's
/// `numer / denom` timebase.
pub fn host_time_to_secs_nanos(host_time: u64, numer: u32, denom: u32) -> (r: (i64, u32))
    requires
        denom >= 1,
        host_time * numer <= u64::MAX,
    ensures
        ({
            let nanos = host_time * numer / denom as int;
            &&& r.0 == nanos / 1_000_000_000
            &&& r.1 == nanos % 1_000_000_000
        }),
{
    let nanos = host_time * numer as u64 / denom as u64;
    let secs = nanos / 1_000_000_000;
    let subsec_nanos = nanos - secs * 1_000_000_000;
    (secs as i64, subsec_nanos as u32)
}

/// How much captured audio to read for 10 ms: `None` until the device delivered
/// half a frame (10 ms of its 20 ms frame); otherwise the samples to take from the
/// device buffer and the samples produced (a mono device's samples are doubled
/// into stereo).
pub fn capture_read_size(device_frame_size: usize, device_channels: u16, available: usize) -> (r: Option<(usize, usize)>)
    ensures
        ({
            let half = device_frame_size as int / 2;
            if available < half {
                r is None
            } else if device_channels == 1 {
                r == Some((half as usize, (2 * half) as usize))
            } else {
                r == Some((half as usize, half as usize))
            }
        }),
{
    let device_10ms_frame_size = device_frame_size / 2;
    if available < device_10ms_frame_size {
        return None;
    }
    if device_channels == 1 {
        Some((device_10ms_frame_size, device_10ms_frame_size * 2))
    } else {
        Some((device_10ms_frame_size, device_10ms_frame_size))
    }
}

/// How a device stream is opened: a fixed buffer size (the host's default when
/// none), the channel count and the sample rate.
#[derive(Clone, Copy, Debug, PartialEq, Eq, Structural)]
pub struct StreamPlan {
    pub buffer_size: Option<u32>,
    pub channels: u16,
    pub sample_rate: u32,
}

/// The playback stream: stereo at 48 kHz when one of the device's supported ranges
/// holds 48 kHz, else at the device's default rate; the buffer aims at 480 frames
/// when the default rate is 48 kHz and at 441 otherwise, within the default
/// configuration's buffer range (its minimum when outside it, the host default
/// when the range is unknown).
pub fn output_stream_plan(supported: &[(u32, u32)], default_rate: u32, default_buffer: Option<(u32, u32)>) -> (p: StreamPlan)
    ensures
        p.channels == 2,
        p.sample_rate == (if (exists|i: int| 0 <= i < supported@.len() && #[trigger] supported@[i].0 <= 48_000 && 48_000 <= supported@[i].1) {
            48_000
        } else {
            default_rate
        }),
        p.buffer_size == (match default_buffer {
            Some((min, max)) => {
                let ideal: u32 = if default_rate == 48_000 { 480u32 } else { 441u32 };
                Some(if min <= ideal && ideal <= max { ideal } else { min })
            },
            None => None,
        }),
{
    let sample_rate: u32 = 48_000;
    let supports = supports_sample_rate(supported, sample_rate);
    let ideal = output_ideal_buffer_size(default_rate == sample_rate);
    StreamPlan {
        buffer_size: choose_buffer_size(default_buffer, ideal),
        channels: 2,
        sample_rate: choose_sample_rate(supports, sample_rate, default_rate),
    }
}

/// The microphone stream: mono, at the preferred rate when one of the device's
/// supported ranges holds it, else at the device's default rate; the buffer is the
/// requested size within the default configuration's buffer range (its minimum when
/// outside it, the host default when the range is unknown).
pub fn input_stream_plan(
    preferred_rate: u32,
    buffer_size: u32,
    supported: &[(u32, u32)],
    default_rate: u32,
    default_buffer: Option<(u32, u32)>,
) -> (p: StreamPlan)
    ensures
        p.channels == 1,
        p.sample_rate == (if (exists|i: int| 0 <= i < supported@.len() && #[trigger] supported@[i].0 <= preferred_rate && preferred_rate <= supported@[i].1) {
            preferred_rate
        } else {
            default_rate
        }),
        p.buffer_size == (match default_buffer {
            Some((min, max)) => Some(if min <= buffer_size && buffer_size <= max { buffer_size } else { min }),
            None => None,
        }),
{
    let supports = supports_sample_rate(supported, preferred_rate);
    StreamPlan {
        buffer_size: choose_buffer_size(default_buffer, buffer_size),
        channels: 1,
        sample_rate: choose_sample_rate(supports, preferred_rate, default_rate),
    }
}

/// The position of the first device named `wanted`, if any: a chosen input device
/// is looked up by name, and the default device is used when it is missing.
pub fn find_device_by_name(names: &[String], wanted: &str) -> (r: Option<usize>)
    ensures
        match r {
            Some(i) => i < names@.len() && names@[i as int]@ == wanted@
                && forall|j: int| 0 <= j < i ==> (#[trigger] names@[j])@ != wanted@,
            None => forall|j: int| 0 <= j < names@.len() ==> (#[trigger] names@[j])@ != wanted@,
        },
{
    let mut i: usize = 0;
    while i < names.len()
        invariant
            i <= names@.len(),
            forall|j: int| 0 <= j < i ==> (#[trigger] names@[j])@ != wanted@,
        decreases names@.len() - i,
    {
        if str_equals(names[i].as_str(), wanted) {
            return Some(i);
        }
        i = i + 1;
    }
    None
}

} // verus!
