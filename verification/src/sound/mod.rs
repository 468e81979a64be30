//! Sound playback: sample data, settings, and the playback state machine.

pub mod data;
pub mod resampler;
pub mod samples;
pub mod static_sound;
pub mod streaming;
