//! The 4-frame sliding window a sound plays through.
//!
//! Source frames are pushed into the window one at a time; the output frame
//! is the cubic interpolation of the window at the current fractional
//! position. The window introduces a short, bounded delay: a pushed frame is
//! heard two pushes later, when it reaches the interpolation center.

use vstd::prelude::*;

use crate::fixed::Fixed;
use crate::frame::{interpolate_frame, interpolate_frame_spec, Frame};

verus! {

/// One remembered source frame and the sample index it came from.
#[derive(Clone, Copy, Debug, PartialEq, Eq, Structural)]
pub struct RecentFrame {
    /// The frame, already scaled by fades, volume and panning.
    pub frame: Frame,
    /// The source sample index the frame was read at.
    pub index: i64,
}

/// The last four frames pushed, oldest first; interpolation runs between
/// `f1` (the current frame) and `f2`.
#[derive(Clone, Copy, Debug, PartialEq, Eq, Structural)]
pub struct Resampler {
    pub f0: RecentFrame,
    pub f1: RecentFrame,
    pub f2: RecentFrame,
    pub f3: RecentFrame,
}

/// The window after one push: everything shifts one slot toward the oldest.
pub open spec fn resampler_pushed(w: Resampler, new: RecentFrame) -> Resampler {
    Resampler { f0: w.f1, f1: w.f2, f2: w.f3, f3: new }
}

/// The output frame at a raw fractional position in [0, 1): the cubic
/// interpolation a fraction of the way from `f1` to `f2`.
pub open spec fn resampler_out(w: Resampler, frac: int) -> Frame {
    interpolate_frame_spec(w.f0.frame, w.f1.frame, w.f2.frame, w.f3.frame, frac)
}

/// Whether the whole window is silence: once this holds and only silence
/// is pushed, it keeps holding.
pub open spec fn resampler_silent(w: Resampler) -> bool {
    &&& w.f0.frame == (Frame { left: Fixed { raw: 0 }, right: Fixed { raw: 0 } })
    &&& w.f1.frame == (Frame { left: Fixed { raw: 0 }, right: Fixed { raw: 0 } })
    &&& w.f2.frame == (Frame { left: Fixed { raw: 0 }, right: Fixed { raw: 0 } })
    &&& w.f3.frame == (Frame { left: Fixed { raw: 0 }, right: Fixed { raw: 0 } })
}

impl Resampler {
    /// A silent window at sample index 0.
    pub fn new() -> (r: Resampler)
        ensures
            r.f0 == (RecentFrame {
                frame: Frame { left: Fixed { raw: 0 }, right: Fixed { raw: 0 } },
                index: 0,
            }),
            r.f1 == r.f0,
            r.f2 == r.f0,
            r.f3 == r.f0,
    {
        let z = RecentFrame { frame: Frame::zero(), index: 0 };
        Resampler { f0: z, f1: z, f2: z, f3: z }
    }

    /// A silent window whose slots all carry the given sample index.
    pub fn seeded(index: i64) -> (r: Resampler)
        ensures
            r.f0 == (RecentFrame {
                frame: Frame { left: Fixed { raw: 0 }, right: Fixed { raw: 0 } },
                index,
            }),
            r.f1 == r.f0,
            r.f2 == r.f0,
            r.f3 == r.f0,
    {
        let z = RecentFrame { frame: Frame::zero(), index };
        Resampler { f0: z, f1: z, f2: z, f3: z }
    }

    /// Pushes one frame, shifting the window.
    pub fn push(&mut self, new: RecentFrame)
        ensures
            *final (self) == resampler_pushed(*old(self), new),
    {
        self.f0 = self.f1;
        self.f1 = self.f2;
        self.f2 = self.f3;
        self.f3 = new;
    }

    /// The output frame at a fractional position.
    pub fn get(&self, frac: Fixed) -> (r: Frame)
        ensures
            r == resampler_out(*self, frac.raw as int),
    {
        interpolate_frame(self.f0.frame, self.f1.frame, self.f2.frame, self.f3.frame, frac)
    }

    /// The sample index of the current frame.
    pub fn current_index(&self) -> (r: i64)
        ensures
            r == self.f1.index,
    {
        self.f1.index
    }

    /// Whether the whole window is silence.
    pub fn outputting_silence(&self) -> (r: bool)
        ensures
            r == resampler_silent(*self),
    {
        self.f0.frame.is_zero() && self.f1.frame.is_zero() && self.f2.frame.is_zero()
            && self.f3.frame.is_zero()
    }
}

} // verus!
