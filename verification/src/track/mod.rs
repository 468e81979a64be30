//! Mixer tracks: identity, routing and per-track processing.

pub mod effect;
pub mod ids;
pub mod mixer;
pub mod mixer_track;

pub use ids::{SubTrackId, TrackId, TrackShared};
pub use mixer::Mixer;
pub use mixer_track::{Track, TrackBuilder, TrackHandle, TrackRoute, TrackRoutes};
