//! Descriptions of media tracks and of the options that start them.
use vstd::prelude::*;
use crate::audio_math::{spec_opus_samples_count, spec_resampler_chunk_size, resampler_chunk_size, Chunk};
use crate::ids::UserId;

verus! {

/// Options of a screen share: the display to capture, the main one when none.
#[derive(Clone, Copy, Debug, PartialEq, Eq, Structural)]
pub struct StartScreenOpts {
    pub display_id: Option<u32>,
}

/// A remote audio track's format.
#[derive(Clone, Copy, Debug, PartialEq, Eq, Structural)]
pub struct AudioMedia {
    pub clock_rate: u32,
    pub channels: u16,
}

/// Which of a peer's tracks media belongs to.
#[derive(Clone, Copy, Debug, PartialEq, Eq, Structural)]
pub enum MediaType {
    Voice,
    Screen,
}

/// Extra information sent along with an outgoing media frame.
#[derive(Clone, Copy, Debug, PartialEq, Eq, Structural)]
pub enum MediaExtra {
    Audio { voice_activity: bool },
}

/// Commands to the microphone loop.
pub enum AudioInputCommand {
    /// Enable or mute the microphone.
    Toggle(bool),
    /// Switch to the named input device.
    ChangeDevice(String),
    /// The device delivered audio to process.
    GotNewAudio,
    Stop,
}

/// Format of the audio a jitter buffer decodes, and whose it is.
pub struct JitterBufConfig {
    pub sample_rate: u32,
    pub channels: u16,
    pub user_id: UserId,
}

/// A resampler's input and output rates, channel count and chunk length.
#[derive(Clone, Copy, Debug, PartialEq, Eq, Structural)]
pub struct ResamplerConfig {
    pub input_sample_rate: u32,
    pub output_sample_rate: u32,
    pub channels: u16,
    pub chunk: Chunk,
}

impl ResamplerConfig {
    /// Frames per channel the resampler takes at once.
    pub fn chunk_size(&self) -> (n: usize)
        requires
            self.channels >= 1,
            (self.input_sample_rate / 1000) as int * 10 <= usize::MAX,
            spec_opus_samples_count(self.input_sample_rate, self.channels, 10) <= usize::MAX,
        ensures
            n == spec_resampler_chunk_size(self.input_sample_rate, self.channels, self.chunk),
    {
        resampler_chunk_size(self.input_sample_rate, self.channels, self.chunk)
    }

    /// Samples pass through unchanged when both rates are equal.
    pub fn needs_resampling(&self) -> (b: bool)
        ensures
            b == (self.input_sample_rate != self.output_sample_rate),
    {
        self.input_sample_rate != self.output_sample_rate
    }
}

/// The configuration of the jitter buffer of a remote user's audio track.
pub fn jitter_config_for(user_id: UserId, media: AudioMedia) -> (c: JitterBufConfig)
    ensures
        c.sample_rate == media.clock_rate,
        c.channels == media.channels,
        c.user_id == user_id,
{
    JitterBufConfig { sample_rate: media.clock_rate, channels: media.channels, user_id }
}

/// The remote track's audio resampled to 48 kHz in 10 ms chunks for the player.
pub fn track_resampler_config(media: AudioMedia) -> (c: ResamplerConfig)
    ensures
        c == (ResamplerConfig {
            input_sample_rate: media.clock_rate,
            output_sample_rate: 48_000,
            channels: media.channels,
            chunk: Chunk::TenMs,
        }),
{
    ResamplerConfig {
        input_sample_rate: media.clock_rate,
        output_sample_rate: 48_000,
        channels: media.channels,
        chunk: Chunk::TenMs,
    }
}

/// The voice-activity flag to send with an audio frame: the one given, else true.
pub fn voice_activity_of(extra: Option<MediaExtra>) -> (v: bool)
    ensures
        v == (match extra {
            Some(MediaExtra::Audio { voice_activity }) => voice_activity,
            None => true,
        }),
{
    match extra {
        Some(MediaExtra::Audio { voice_activity }) => voice_activity,
        _ => true,
    }
}

} // verus!
