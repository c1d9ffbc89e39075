//! Choices a peer makes from the payload formats negotiated for a track: the
//! format of a remote audio track, whether a video track is the screen share, and
//! which payload type outgoing audio and video are written with.
use vstd::prelude::*;
use crate::media::AudioMedia;

verus! {

/// Codec of a negotiated payload format, as far as these choices tell them apart.
#[derive(Clone, Copy, Debug, PartialEq, Eq, Structural)]
pub enum CodecKind {
    Opus,
    H264,
    Other,
}

/// One negotiated payload format: its payload type, codec, clock rate and, for
/// audio, its channel count when the session description gives one.
#[derive(Clone, Copy, Debug, PartialEq, Eq, Structural)]
pub struct PayloadInfo {
    pub pt: u8,
    pub codec: CodecKind,
    pub clock_rate: u32,
    pub channels: Option<u8>,
}

/// The format outgoing audio is written with: Opus at 48 kHz.
pub open spec fn is_opus_48k(p: PayloadInfo) -> bool {
    p.codec == CodecKind::Opus && p.clock_rate == 48_000
}

/// The format outgoing screen video is written with: H.264.
pub open spec fn is_h264(p: PayloadInfo) -> bool {
    p.codec == CodecKind::H264
}

/// The format of a remote audio track: that of the last negotiated payload, two
/// channels when it gives none; 48 kHz stereo when nothing was negotiated.
pub open spec fn spec_audio_media(params: Seq<PayloadInfo>) -> AudioMedia {
    if params.len() == 0 {
        AudioMedia { clock_rate: 48_000, channels: 2 }
    } else {
        let last = params.last();
        AudioMedia {
            clock_rate: last.clock_rate,
            channels: match last.channels {
                Some(c) => c as u16,
                None => 2,
            },
        }
    }
}

/// The format of a newly added remote audio track.
pub fn audio_media_from_params(params: &[PayloadInfo]) -> (m: AudioMedia)
    ensures
        m == spec_audio_media(params@),
{
    let mut clock_rate: u32 = 48_000;
    let mut channels: u16 = 2;
    let mut i: usize = 0;
    while i < params.len()
        invariant
            i <= params@.len(),
            (AudioMedia { clock_rate, channels }) == spec_audio_media(params@.subrange(0, i as int)),
        decreases params@.len() - i,
    {
        let p = params[i];
        clock_rate = p.clock_rate;
        channels = match p.channels {
            Some(c) => c as u16,
            None => 2,
        };
        i = i + 1;
        assert(params@.subrange(0, i as int).last() == p);
    }
    assert(params@.subrange(0, params@.len() as int) =~= params@);
    AudioMedia { clock_rate, channels }
}

/// A newly added video track is taken as the screen share when one of its payload
/// formats is H.264.
pub fn is_screen_track(params: &[PayloadInfo]) -> (b: bool)
    ensures
        b == exists|i: int| 0 <= i < params@.len() && is_h264(#[trigger] params@[i]),
{
    let mut i: usize = 0;
    while i < params.len()
        invariant
            i <= params@.len(),
            forall|k: int| 0 <= k < i ==> !is_h264(#[trigger] params@[k]),
        decreases params@.len() - i,
    {
        if params[i].codec == CodecKind::H264 {
            assert(is_h264(params@[i as int]));
            return true;
        }
        i = i + 1;
    }
    false
}

/// The payload type outgoing audio is written with: that of the first Opus format
/// at 48 kHz; none when there is no such format (the audio is then not sent).
pub fn opus_payload_type(params: &[PayloadInfo]) -> (r: Option<u8>)
    ensures
        match r {
            Some(pt) => exists|i: int|
                0 <= i < params@.len() && is_opus_48k(#[trigger] params@[i]) && params@[i].pt == pt
                    && forall|j: int| 0 <= j < i ==> !is_opus_48k(#[trigger] params@[j]),
            None => forall|i: int| 0 <= i < params@.len() ==> !is_opus_48k(#[trigger] params@[i]),
        },
{
    let mut i: usize = 0;
    while i < params.len()
        invariant
            i <= params@.len(),
            forall|k: int| 0 <= k < i ==> !is_opus_48k(#[trigger] params@[k]),
        decreases params@.len() - i,
    {
        let p = params[i];
        if p.codec == CodecKind::Opus && p.clock_rate == 48_000 {
            assert(is_opus_48k(params@[i as int]));
            return Some(p.pt);
        }
        i = i + 1;
    }
    None
}

/// The payload type outgoing screen video is written with: that of the first
/// H.264 format; none when there is no such format (the frame is then dropped).
pub fn h264_payload_type(params: &[PayloadInfo]) -> (r: Option<u8>)
    ensures
        match r {
            Some(pt) => exists|i: int|
                0 <= i < params@.len() && is_h264(#[trigger] params@[i]) && params@[i].pt == pt
                    && forall|j: int| 0 <= j < i ==> !is_h264(#[trigger] params@[j]),
            None => forall|i: int| 0 <= i < params@.len() ==> !is_h264(#[trigger] params@[i]),
        },
{
    let mut i: usize = 0;
    while i < params.len()
        invariant
            i <= params@.len(),
            forall|k: int| 0 <= k < i ==> !is_h264(#[trigger] params@[k]),
        decreases params@.len() - i,
    {
        let p = params[i];
        if p.codec == CodecKind::H264 {
            assert(is_h264(params@[i as int]));
            return Some(p.pt);
        }
        i = i + 1;
    }
    None
}

} // verus!
