//! Spatial sound emitters: positioned sources that accumulate input frames.

use vstd::prelude::*;

use crate::fixed::{fdiv_raw, sat64, Fixed, FIXED_SCALE};
use crate::frame::{frame_plus_spec, Frame};
use crate::math::Vec3;
use crate::tween::Easing;

verus! {

/// The distance band over which an emitter's volume falls off.
#[derive(Clone, Copy, Debug, PartialEq, Eq, Structural)]
pub struct EmitterDistances {
    /// Distances at or below this are heard at full volume.
    pub min_distance: Fixed,
    /// Distances at or beyond this are heard at minimum volume.
    pub max_distance: Fixed,
}

/// How far into the falloff band a distance lies, clamped into [0, 1] in
/// raw fixed point: 0 at or inside the minimum distance, 1 at or beyond the
/// maximum.
pub open spec fn relative_distance_raw(d: EmitterDistances, dist: int) -> int {
    if d.max_distance.raw <= d.min_distance.raw {
        if dist <= d.min_distance.raw {
            0
        } else {
            FIXED_SCALE as int
        }
    } else {
        let t = fdiv_raw(
            sat64(dist - d.min_distance.raw),
            sat64(d.max_distance.raw - d.min_distance.raw) as int,
        );
        if t < 0 {
            0
        } else if t > FIXED_SCALE {
            FIXED_SCALE as int
        } else {
            t
        }
    }
}

impl EmitterDistances {
    /// How far into the falloff band a distance lies, clamped into [0, 1].
    pub fn relative_distance(&self, dist: Fixed) -> (r: Fixed)
        ensures
            r.raw == relative_distance_raw(*self, dist.raw as int),
    {
        if self.max_distance.raw <= self.min_distance.raw {
            if dist.raw <= self.min_distance.raw {
                Fixed { raw: 0 }
            } else {
                Fixed { raw: FIXED_SCALE }
            }
        } else {
            let t = dist.fsub(self.min_distance).fdiv(self.max_distance.fsub(self.min_distance));
            crate::frame::clamp_unit(t)
        }
    }
}

/// Configures a spatial emitter.
#[derive(Clone, Copy, Debug)]
pub struct EmitterSettings {
    /// Where the emitter sits in the scene.
    pub position: Vec3,
    /// The distance band its volume falls off over.
    pub distances: EmitterDistances,
    /// The curve the falloff follows, if volume attenuates at all.
    pub attenuation_function: Option<Easing>,
    /// Whether ear-difference panning applies to this emitter.
    pub enable_spatialization: bool,
}

/// Lifecycle mark of an emitter.
#[derive(Clone, Copy, Debug, PartialEq, Eq, Structural)]
pub struct EmitterShared {
    pub removed: bool,
}

impl EmitterShared {
    /// A fresh mark: not removed.
    pub fn new() -> (r: EmitterShared)
        ensures
            !r.removed,
    {
        EmitterShared { removed: false }
    }

    /// Whether the emitter has been marked for removal.
    pub fn is_marked_for_removal(&self) -> (r: bool)
        ensures
            r == self.removed,
    {
        self.removed
    }

    /// Marks the emitter for removal; the mark is never cleared.
    pub fn mark_for_removal(&mut self)
        ensures
            final (self).removed,
    {
        self.removed = true;
    }
}

/// A positioned sound source in a spatial scene.
pub struct Emitter {
    /// The lifecycle mark.
    pub shared: EmitterShared,
    /// Where the emitter sits.
    pub position: Vec3,
    /// The distance band its volume falls off over.
    pub distances: EmitterDistances,
    /// The curve the falloff follows, if any.
    pub attenuation_function: Option<Easing>,
    /// Whether ear-difference panning applies.
    pub enable_spatialization: bool,
    /// The input accumulated since the last frame.
    pub input: Frame,
}

impl Emitter {
    /// A fresh emitter from its settings, with a silent accumulator.
    pub fn new(settings: EmitterSettings) -> (r: Emitter)
        ensures
            !r.shared.removed,
            r.position == settings.position,
            r.distances == settings.distances,
            r.attenuation_function == settings.attenuation_function,
            r.enable_spatialization == settings.enable_spatialization,
            r.input == (Frame { left: Fixed { raw: 0 }, right: Fixed { raw: 0 } }),
    {
        Emitter {
            shared: EmitterShared::new(),
            position: settings.position,
            distances: settings.distances,
            attenuation_function: settings.attenuation_function,
            enable_spatialization: settings.enable_spatialization,
            input: Frame::zero(),
        }
    }

    /// The emitter's position.
    pub fn position(&self) -> (r: Vec3)
        ensures
            r == self.position,
    {
        self.position
    }

    /// Moves the emitter.
    pub fn set_position(&mut self, position: Vec3)
        ensures
            *final (self) == (Emitter { position, ..*old(self) }),
    {
        self.position = position;
    }

    /// The frame the emitter carries this processing frame.
    pub fn output(&self) -> (r: Frame)
        ensures
            r == self.input,
    {
        self.input
    }

    /// Accumulates one frame of input.
    pub fn add_input(&mut self, input: Frame)
        ensures
            *final (self) == (Emitter {
                input: frame_plus_spec(old(self).input, input),
                ..*old(self)
            }),
    {
        self.input = self.input.plus(input);
    }

    /// Clears the accumulator for the next frame.
    pub fn reset_input(&mut self)
        ensures
            *final (self) == (Emitter {
                input: Frame { left: Fixed { raw: 0 }, right: Fixed { raw: 0 } },
                ..*old(self)
            }),
    {
        self.input = Frame::zero();
    }
}

} // verus!
