//! Identity and lifecycle marks of mixer tracks.

use vstd::prelude::*;

use crate::arena::ArenaKey;

verus! {

/// A unique identifier for a mixer sub-track.
#[derive(Clone, Copy, Debug, PartialEq, Eq, Structural)]
pub struct SubTrackId(pub ArenaKey);

/// A unique identifier for a track.
#[derive(Clone, Copy, Debug, PartialEq, Eq, Structural)]
pub enum TrackId {
    /// The main mixer track.
    Main,
    /// A sub-track.
    Sub(SubTrackId),
}

/// Lifecycle mark of a track: set once the control side no longer wants the
/// track, read by the audio side when it returns resources.
#[derive(Clone, Copy, Debug, PartialEq, Eq, Structural)]
pub struct TrackShared {
    pub removed: bool,
}

impl TrackShared {
    /// A fresh mark: not removed.
    pub fn new() -> (r: TrackShared)
        ensures
            !r.is_marked(),
    {
        TrackShared { removed: false }
    }

    /// Whether the track has been marked for removal.
    pub open spec fn is_marked(&self) -> bool {
        self.removed
    }

    /// Whether the track has been marked for removal.
    pub fn is_marked_for_removal(&self) -> (r: bool)
        ensures
            r == self.is_marked(),
    {
        self.removed
    }

    /// Marks the track for removal; the mark is never cleared.
    pub fn mark_for_removal(&mut self)
        ensures
            final (self).is_marked(),
    {
        self.removed = true;
    }
}

} // verus!
