//! Stereo sample frames and the per-sample signal operations on them.
//!
//! A [`Frame`] is one stereo sample pair. Sounds scale frames by amplitudes,
//! pan them with a constant-power law, and reconstruct output samples between
//! source samples with 4-point cubic interpolation. Every operation is an
//! exact fixed-point formula, mirrored one-for-one by a spec function.

use vstd::prelude::*;

use crate::fixed::{fmul_raw, sat64, Fixed, FIXED_SCALE};

verus! {

/// Odd-order coefficients of the sine polynomial, in raw fixed-point:
/// `(pi/2)^(2k+1) / (2k+1)!` for `k` = 0 to 4.
pub const SIN_C1: i64 = 6746518852;

pub const SIN_C3: i64 = 2774339709;

pub const SIN_C5: i64 = 342273470;

pub const SIN_C7: i64 = 20108115;

pub const SIN_C9: i64 = 689087;

/// Raw fixed-point value of 1/2.
pub const HALF_RAW: i64 = 0x8000_0000;

/// Raw fixed-point value of 3/2.
pub const THREE_HALVES_RAW: i64 = 0x1_8000_0000;

/// Raw fixed-point value of 5/2.
pub const FIVE_HALVES_RAW: i64 = 0x2_8000_0000;

/// Channel-wise saturating sum of two frames, as a value.
pub open spec fn frame_plus_spec(a: Frame, b: Frame) -> Frame {
    Frame {
        left: Fixed { raw: sat64(a.left.raw + b.left.raw) as i64 },
        right: Fixed { raw: sat64(a.right.raw + b.right.raw) as i64 },
    }
}

/// Both channels scaled by a raw fixed-point factor, as a value.
pub open spec fn frame_scaled_spec(f: Frame, k: int) -> Frame {
    Frame {
        left: Fixed { raw: fmul_raw(f.left.raw as int, k) as i64 },
        right: Fixed { raw: fmul_raw(f.right.raw as int, k) as i64 },
    }
}

/// The frame panned by a raw panning value, as a value.
pub open spec fn frame_panned_spec(f: Frame, p: int) -> Frame {
    Frame {
        left: Fixed { raw: fmul_raw(f.left.raw as int, pan_left_raw(p)) as i64 },
        right: Fixed { raw: fmul_raw(f.right.raw as int, pan_right_raw(p)) as i64 },
    }
}

/// The cubic interpolation of whole frames, as a value.
pub open spec fn interpolate_frame_spec(a: Frame, b: Frame, c: Frame, d: Frame, x: int) -> Frame {
    Frame {
        left: Fixed {
            raw: cubic_raw(
                a.left.raw as int,
                b.left.raw as int,
                c.left.raw as int,
                d.left.raw as int,
                x,
            ) as i64,
        },
        right: Fixed {
            raw: cubic_raw(
                a.right.raw as int,
                b.right.raw as int,
                c.right.raw as int,
                d.right.raw as int,
                x,
            ) as i64,
        },
    }
}

/// One stereo sample pair.
#[derive(Clone, Copy, Debug, PartialEq, Eq, Structural)]
pub struct Frame {
    pub left: Fixed,
    pub right: Fixed,
}

/// Clamps a raw fixed-point value into [0, 1].
pub open spec fn clamp_unit_raw(x: int) -> int {
    if x < 0 {
        0
    } else if x > FIXED_SCALE {
        FIXED_SCALE as int
    } else {
        x
    }
}

/// Polynomial approximation of `sin(x * pi/2)` for raw `x` in [0, 1],
/// evaluated by Horner's rule over `x^2` in fixed point.
pub open spec fn sin_half_pi_raw(x: int) -> int {
    let x2 = fmul_raw(x, x);
    let t7 = sat64(SIN_C7 - fmul_raw(x2, SIN_C9 as int));
    let t5 = sat64(SIN_C5 - fmul_raw(x2, t7));
    let t3 = sat64(SIN_C3 - fmul_raw(x2, t5));
    let t1 = sat64(SIN_C1 - fmul_raw(x2, t3));
    fmul_raw(x, t1)
}

/// Left-channel gain of the panning law: `cos(p * pi/2)` as
/// `sin((1 - p) * pi/2)`, with `p` clamped into [0, 1].
pub open spec fn pan_left_raw(p: int) -> int {
    sin_half_pi_raw(FIXED_SCALE - clamp_unit_raw(p))
}

/// Right-channel gain of the panning law: `sin(p * pi/2)`, with `p` clamped
/// into [0, 1].
pub open spec fn pan_right_raw(p: int) -> int {
    sin_half_pi_raw(clamp_unit_raw(p))
}

/// 4-point cubic (Catmull-Rom style) interpolation between `b` (at `x` = 0)
/// and `c` (at `x` = 1), with `a` and `d` as outer neighbors, in raw fixed
/// point.
pub open spec fn cubic_raw(a: int, b: int, c: int, d: int, x: int) -> int {
    let k1 = fmul_raw(sat64(c - a), HALF_RAW as int);
    let k2 = sat64(sat64(sat64(a - fmul_raw(b, FIVE_HALVES_RAW as int)) + sat64(c + c)) - fmul_raw(
        d,
        HALF_RAW as int,
    ));
    let k3 = sat64(fmul_raw(sat64(d - a), HALF_RAW as int) + fmul_raw(
        sat64(b - c),
        THREE_HALVES_RAW as int,
    ));
    sat64(fmul_raw(sat64(fmul_raw(sat64(fmul_raw(k3, x) + k2), x) + k1), x) + b)
}

/// Polynomial approximation of `sin(x * pi/2)` on [0, 1].
pub fn sin_half_pi(x: Fixed) -> (r: Fixed)
    requires
        0 <= x.raw <= FIXED_SCALE,
    ensures
        r.raw == sin_half_pi_raw(x.raw as int),
{
    let x2 = x.fmul(x);
    let t7 = Fixed { raw: SIN_C7 }.fsub(x2.fmul(Fixed { raw: SIN_C9 }));
    let t5 = Fixed { raw: SIN_C5 }.fsub(x2.fmul(t7));
    let t3 = Fixed { raw: SIN_C3 }.fsub(x2.fmul(t5));
    let t1 = Fixed { raw: SIN_C1 }.fsub(x2.fmul(t3));
    x.fmul(t1)
}

/// Clamps a fixed-point value into [0, 1].
pub fn clamp_unit(x: Fixed) -> (r: Fixed)
    ensures
        r.raw == clamp_unit_raw(x.raw as int),
{
    if x.raw < 0 {
        Fixed { raw: 0 }
    } else if x.raw > FIXED_SCALE {
        Fixed { raw: FIXED_SCALE }
    } else {
        x
    }
}

/// One channel of the cubic interpolation formula.
fn cubic_channel(a: Fixed, b: Fixed, c: Fixed, d: Fixed, x: Fixed) -> (r: Fixed)
    ensures
        r.raw == cubic_raw(a.raw as int, b.raw as int, c.raw as int, d.raw as int, x.raw as int),
{
    let k1 = c.fsub(a).fmul(Fixed { raw: HALF_RAW });
    let k2 = a.fsub(b.fmul(Fixed { raw: FIVE_HALVES_RAW })).fadd(c.fadd(c)).fsub(
        d.fmul(Fixed { raw: HALF_RAW }),
    );
    let k3 = d.fsub(a).fmul(Fixed { raw: HALF_RAW }).fadd(
        b.fsub(c).fmul(Fixed { raw: THREE_HALVES_RAW }),
    );
    k3.fmul(x).fadd(k2).fmul(x).fadd(k1).fmul(x).fadd(b)
}

impl Frame {
    /// The silent frame.
    pub fn zero() -> (r: Frame)
        ensures
            r.left.raw == 0,
            r.right.raw == 0,
    {
        Frame { left: Fixed { raw: 0 }, right: Fixed { raw: 0 } }
    }

    /// A frame from distinct channel values.
    pub fn new(left: Fixed, right: Fixed) -> (r: Frame)
        ensures
            r.left == left,
            r.right == right,
    {
        Frame { left, right }
    }

    /// A frame with the same value on both channels.
    pub fn from_mono(v: Fixed) -> (r: Frame)
        ensures
            r.left == v,
            r.right == v,
    {
        Frame { left: v, right: v }
    }

    /// Whether this is the silent frame.
    pub fn is_zero(self) -> (r: bool)
        ensures
            r == (self.left.raw == 0 && self.right.raw == 0),
    {
        self.left.raw == 0 && self.right.raw == 0
    }

    /// Channel-wise saturating addition.
    pub fn plus(self, rhs: Frame) -> (r: Frame)
        ensures
            r == frame_plus_spec(self, rhs),
    {
        Frame { left: self.left.fadd(rhs.left), right: self.right.fadd(rhs.right) }
    }

    /// Both channels scaled by a fixed-point factor.
    pub fn scaled(self, factor: Fixed) -> (r: Frame)
        ensures
            r == frame_scaled_spec(self, factor.raw as int),
    {
        Frame { left: self.left.fmul(factor), right: self.right.fmul(factor) }
    }

    /// The frame panned with a constant-power law: the left channel is scaled
    /// by `cos(p * pi/2)` and the right channel by `sin(p * pi/2)`, with `p`
    /// clamped into [0, 1]. 0 is hard left, 1 is hard right.
    pub fn panned(self, p: Fixed) -> (r: Frame)
        ensures
            r == frame_panned_spec(self, p.raw as int),
    {
        let pc = clamp_unit(p);
        let left_gain = sin_half_pi(Fixed { raw: FIXED_SCALE - pc.raw });
        let right_gain = sin_half_pi(pc);
        Frame { left: self.left.fmul(left_gain), right: self.right.fmul(right_gain) }
    }
}

/// 4-point cubic interpolation of whole frames: reconstructs the output
/// sample a fraction `x` in [0, 1] of the way from `b` to `c`.
pub fn interpolate_frame(a: Frame, b: Frame, c: Frame, d: Frame, x: Fixed) -> (r: Frame)
    ensures
        r == interpolate_frame_spec(a, b, c, d, x.raw as int),
{
    Frame {
        left: cubic_channel(a.left, b.left, c.left, d.left, x),
        right: cubic_channel(a.right, b.right, c.right, d.right, x),
    }
}

} // verus!
