//! Errors surfaced to the control side.
//!
//! The audio side never returns errors: it absorbs stale keys, empty
//! buffers and removed resources. Control-side operations fail with these
//! structured values instead of panicking.

use vstd::prelude::*;

verus! {

/// A command could not be sent because the command queue is full; the caller
/// may retry on a later frame.
#[derive(Clone, Copy, Debug, PartialEq, Eq, Structural)]
pub struct CommandQueueFull;

/// A resource could not be added because its arena has no free slot left.
#[derive(Clone, Copy, Debug, PartialEq, Eq, Structural)]
pub struct ResourceLimitReached;

impl CommandQueueFull {
    /// A human-readable description of this error.
    pub fn message(&self) -> (r: &'static str) {
        "cannot send a command to the sound because the command queue is full"
    }
}

impl ResourceLimitReached {
    /// A human-readable description of this error.
    pub fn message(&self) -> (r: &'static str) {
        "cannot add a resource because its capacity is already in use"
    }
}

} // verus!
