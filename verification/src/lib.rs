//! A real-time audio playback and mixing engine.
//!
//! Audio is rendered frame by frame: sounds are resampled, faded and panned,
//! mixed through a track graph, and timed against clocks. All continuous
//! quantities (seconds, amplitudes, decibels, sample values) are carried as
//! fixed-point numbers so that every step of the pipeline has an exact
//! arithmetic description.

pub mod arena;
pub mod channel;
pub mod clock;
pub mod command;
pub mod error;
pub mod fixed;
pub mod frame;
pub mod manager;
pub mod math;
pub mod sound;
pub mod spatial;
pub mod track;
pub mod tween;
pub mod tweener;
pub mod volume;

pub use clock::ClockSpeed;
pub use fixed::Fixed;
pub use frame::Frame;
pub use sound::data::LoopBehavior;
pub use tween::StartTime;
pub use volume::Volume;
