//! Verified core of a WebRTC voice and screen-sharing client stack.
mod capture_config;
pub mod assoc;
pub mod audio_math;
pub mod bytes_pool;
pub mod commands;
pub mod devices;
pub mod engine;
pub mod h264;
pub mod ids;
pub mod jitter;
pub mod media;
pub mod net;
pub mod payload;
pub mod peer_link;
pub mod peer_loop;
pub mod peer_queue;
pub mod peer_state;
pub mod pending;
pub mod platform;
pub mod processing;
pub mod screen_share;
pub mod signal;
pub mod text;

pub use capture_config::{encoder_target_bitrate, max_key_frame_interval, CapturerConfig, Priority, Resolution};
