//! Decisions of a peer's run loop: which track incoming media belongs to, and when
//! outgoing media may be written.
use vstd::prelude::*;
use crate::media::MediaType;
use crate::peer_state::ConnectionState;
use crate::text::str_equals;

verus! {

/// The track incoming media with media id `mid` belongs to, given the ids of the
/// audio and screen tracks.  Before the audio track is known, media is dropped.
pub fn classify_media(mid: &str, audio_mid: Option<&str>, screen_mid: Option<&str>) -> (r: Option<MediaType>)
    requires
        audio_mid matches Some(a) ==> (a@ == mid@ || (screen_mid matches Some(s) && s@ == mid@)),
    ensures
        r == (match audio_mid {
            None => None,
            Some(a) => if a@ == mid@ { Some(MediaType::Voice) } else { Some(MediaType::Screen) },
        }),
{
    match audio_mid {
        None => None,
        Some(a) => {
            if str_equals(mid, a) {
                Some(MediaType::Voice)
            } else {
                Some(MediaType::Screen)
            }
        },
    }
}

/// Outgoing media is written only when there is data and the peer is connected
/// (an empty write would fail inside the network layer).
pub fn should_write_media(data_len: usize, state: ConnectionState) -> (b: bool)
    ensures
        b == (data_len > 0 && state == ConnectionState::Connected),
{
    if data_len == 0 {
        return false;
    }
    state == ConnectionState::Connected
}

/// An encoded audio frame shorter than 3 bytes carries no audio and is not sent.
pub fn is_sendable_encoded_frame(len: usize) -> (b: bool)
    ensures
        b == (len >= 3),
{
    len >= 3
}

/// Fits resampled audio to the encoder's frame: the first `expected` samples, padded
/// with `silence` when fewer came out of the resampler.
pub fn fit_to_length<S: Copy>(samples: &[S], expected: usize, silence: S) -> (out: Vec<S>)
    ensures
        out@.len() == expected,
        forall|i: int| 0 <= i < expected ==> #[trigger] out@[i] == (if i < samples@.len() { samples@[i] } else { silence }),
{
    let mut out: Vec<S> = Vec::new();
    let mut i: usize = 0;
    while i < expected
        invariant
            i <= expected,
            out@.len() == i,
            forall|k: int| 0 <= k < i ==> #[trigger] out@[k] == (if k < samples@.len() { samples@[k] } else { silence }),
        decreases expected - i,
    {
        if i < samples.len() {
            out.push(samples[i]);
        } else {
            out.push(silence);
        }
        i = i + 1;
    }
    out
}

/// Screen capture run-loop state: frames are forwarded only while capturing.
pub struct CaptureLoopState {
    running: bool,
    keyframe_requested: bool,
}

impl CaptureLoopState {
    pub closed spec fn spec_running(&self) -> bool {
        self.running
    }

    pub closed spec fn spec_keyframe_requested(&self) -> bool {
        self.keyframe_requested
    }

    pub fn new() -> (s: Self)
        ensures
            !s.spec_running(),
            !s.spec_keyframe_requested(),
    {
        CaptureLoopState { running: false, keyframe_requested: false }
    }

    /// The capturer started: frames flow from now on.
    pub fn started(&mut self)
        ensures
            final(self).spec_running(),
            final(self).spec_keyframe_requested() == old(self).spec_keyframe_requested(),
    {
        self.running = true;
    }

    /// The capturer stopped: frames are dropped from now on.
    pub fn stopped(&mut self)
        ensures
            !final(self).spec_running(),
            final(self).spec_keyframe_requested() == old(self).spec_keyframe_requested(),
    {
        self.running = false;
    }

    /// Whether a captured frame is forwarded to the peers.
    pub fn forwards_frames(&self) -> (b: bool)
        ensures
            b == self.spec_running(),
    {
        self.running
    }

    /// A peer asked for a key frame.
    pub fn request_keyframe(&mut self)
        ensures
            final(self).spec_keyframe_requested(),
            final(self).spec_running() == old(self).spec_running(),
    {
        self.keyframe_requested = true;
    }

    /// Whether the next encoded frame must be a key frame; the request is consumed.
    pub fn take_keyframe_request(&mut self) -> (forced: bool)
        ensures
            forced == old(self).spec_keyframe_requested(),
            !final(self).spec_keyframe_requested(),
            final(self).spec_running() == old(self).spec_running(),
    {
        let forced = self.keyframe_requested;
        self.keyframe_requested = false;
        forced
    }
}

} // verus!
