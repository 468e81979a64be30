//! Commands pushed from control-side handles to audio-side resources.
//!
//! Every mutation of an audio-side resource travels through a bounded
//! single-producer single-consumer queue as one of these values; the audio
//! side drains its queue at the start of each processing block.

use vstd::prelude::*;

use crate::clock::ClockSpeed;
use crate::track::effect::DistortionKind;
use crate::fixed::Fixed;
use crate::tween::Tween;
use crate::volume::Volume;

verus! {

/// A control command for an audio-side resource.
#[derive(Clone, Copy, Debug)]
pub enum Command {
    /// Animate a sound's or track's volume toward a new value.
    SetVolume(Volume, Tween),
    /// Animate a sound's panning toward a new value.
    SetPanning(Fixed, Tween),
    /// Animate a sound's playback rate toward a new value.
    SetPlaybackRate(Fixed, Tween),
    /// Fade a sound out and pause it.
    Pause(Tween),
    /// Resume a paused sound with a fade back in.
    Resume(Tween),
    /// Fade a sound out and stop it for good.
    Stop(Tween),
    /// Move a sound's playback position to a time in seconds.
    SeekTo(Fixed),
    /// Move a sound's playback position by an amount of seconds.
    SeekBy(Fixed),
    /// Start the addressed clock's ticking.
    StartClock,
    /// Pause the addressed clock's ticking.
    StopClock,
    /// Animate the addressed clock's speed toward a new value.
    SetClockSpeed(ClockSpeed, Tween),
    /// Change the addressed distortion effect's flavor.
    SetDistortionKind(DistortionKind),
    /// Animate the addressed distortion effect's drive toward a new value.
    SetDrive(Volume, Tween),
    /// Animate the addressed effect's wet/dry mix toward a new value.
    SetMix(Fixed, Tween),
    /// Animate the addressed track route's volume toward a new value.
    SetRouteVolume(crate::track::TrackId, Volume, Tween),
    /// Mark the addressed resource for removal from the audio side.
    MarkForRemoval,
}

} // verus!
