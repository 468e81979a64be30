//! Raw audio sample storage in its four shapes, and the promotions between
//! them.
//!
//! Sample sequences arrive either as 16-bit integers or as fixed-point
//! values, mono or stereo. Conversions only promote - toward fixed-point and
//! toward stereo - and always keep the number of sample positions.

use vstd::prelude::*;

use crate::fixed::{div_trunc, sat64, Fixed, FIXED_SCALE};
use crate::frame::Frame;

verus! {

/// One stereo pair of 16-bit samples.
#[derive(Clone, Copy, Debug, PartialEq, Eq, Structural)]
pub struct StereoI16 {
    pub left: i16,
    pub right: i16,
}

/// A sequence of audio samples in one of four shapes.
#[derive(Clone, Debug)]
pub enum Samples {
    /// Mono 16-bit integer samples.
    I16Mono(Vec<i16>),
    /// Stereo 16-bit integer samples.
    I16Stereo(Vec<StereoI16>),
    /// Mono fixed-point samples.
    FixedMono(Vec<Fixed>),
    /// Stereo fixed-point frames.
    FixedStereo(Vec<Frame>),
}

/// The fixed-point value of a 16-bit sample: `s / i16::MAX`, rounded toward
/// zero.
pub open spec fn i16_sample_raw(s: int) -> int {
    sat64(div_trunc(s * (FIXED_SCALE as int), i16::MAX as int))
}

/// The number of sample positions a `Samples` value holds.
pub open spec fn samples_len(s: &Samples) -> nat {
    match s {
        Samples::I16Mono(v) => v@.len(),
        Samples::I16Stereo(v) => v@.len(),
        Samples::FixedMono(v) => v@.len(),
        Samples::FixedStereo(v) => v@.len(),
    }
}

/// The stereo frame at one sample position: integer samples are scaled to
/// fixed point and mono samples play on both channels.
pub open spec fn sample_frame_at(s: &Samples, i: int) -> Frame
    recommends
        0 <= i < samples_len(s),
{
    match s {
        Samples::I16Mono(v) => {
            let x = Fixed { raw: i16_sample_raw(v@[i] as int) as i64 };
            Frame { left: x, right: x }
        },
        Samples::I16Stereo(v) => Frame {
            left: Fixed { raw: i16_sample_raw(v@[i].left as int) as i64 },
            right: Fixed { raw: i16_sample_raw(v@[i].right as int) as i64 },
        },
        Samples::FixedMono(v) => Frame { left: v@[i], right: v@[i] },
        Samples::FixedStereo(v) => v@[i],
    }
}

/// What promotion to fixed-point storage guarantees: the shape is no longer
/// 16-bit, integer storage moves to the matching fixed-point shape, and the
/// sample count and the frame at every position are kept.
pub open spec fn promotes_32_bit(s: &Samples, r: &Samples) -> bool {
    &&& samples_len(r) == samples_len(s)
    &&& forall|i: int| 0 <= i < samples_len(s) ==> sample_frame_at(r, i) == sample_frame_at(s, i)
    &&& !(r is I16Mono) && !(r is I16Stereo)
    &&& (s is FixedMono || s is FixedStereo) ==> r == s
    &&& s is I16Mono ==> r is FixedMono
    &&& s is I16Stereo ==> r is FixedStereo
}

/// What promotion to stereo storage guarantees: the shape is no longer mono,
/// and the sample count and the frame at every position are kept.
pub open spec fn promotes_stereo(s: &Samples, r: &Samples) -> bool {
    &&& samples_len(r) == samples_len(s)
    &&& forall|i: int| 0 <= i < samples_len(s) ==> sample_frame_at(r, i) == sample_frame_at(s, i)
    &&& !(r is I16Mono) && !(r is FixedMono)
    &&& (s is I16Stereo || s is FixedStereo) ==> r == s
    &&& s is I16Mono ==> r is I16Stereo
    &&& s is FixedMono ==> r is FixedStereo
}

/// The fixed-point value of a 16-bit sample.
fn i16_sample(s: i16) -> (r: Fixed)
    ensures
        r.raw == i16_sample_raw(s as int),
{
    Fixed::from_ratio(s as i64, i16::MAX as i64)
}

impl Samples {
    /// The number of sample positions.
    pub fn len(&self) -> (r: usize)
        ensures
            r == samples_len(self),
    {
        match self {
            Samples::I16Mono(v) => v.len(),
            Samples::I16Stereo(v) => v.len(),
            Samples::FixedMono(v) => v.len(),
            Samples::FixedStereo(v) => v.len(),
        }
    }

    /// Whether there are no samples.
    pub fn is_empty(&self) -> (r: bool)
        ensures
            r == (samples_len(self) == 0),
    {
        self.len() == 0
    }

    /// Promotes 16-bit storage to fixed-point storage; fixed-point storage is
    /// returned unchanged. The sample count and the frame at every position
    /// are kept.
    pub fn ensure_32_bit(self) -> (r: Samples)
        ensures
            promotes_32_bit(&self, &r),
    {
        match self {
            Samples::I16Mono(v) => {
                let mut out: Vec<Fixed> = Vec::new();
                let mut i: usize = 0;
                let n = v.len();
                while i < n
                    invariant
                        i <= n,
                        n == v@.len(),
                        out@.len() == i,
                        forall|j: int|
                            0 <= j < i ==> (#[trigger] out@[j]).raw == i16_sample_raw(v@[j] as int),
                    decreases n - i,
                {
                    out.push(i16_sample(v[i]));
                    i = i + 1;
                }
                Samples::FixedMono(out)
            },
            Samples::I16Stereo(v) => {
                let mut out: Vec<Frame> = Vec::new();
                let mut i: usize = 0;
                let n = v.len();
                while i < n
                    invariant
                        i <= n,
                        n == v@.len(),
                        out@.len() == i,
                        forall|j: int|
                            0 <= j < i ==> (#[trigger] out@[j]).left.raw == i16_sample_raw(
                                v@[j].left as int,
                            ) && out@[j].right.raw == i16_sample_raw(v@[j].right as int),
                    decreases n - i,
                {
                    out.push(Frame { left: i16_sample(v[i].left), right: i16_sample(v[i].right) });
                    i = i + 1;
                }
                Samples::FixedStereo(out)
            },
            other => other,
        }
    }

    /// Promotes mono storage to stereo storage by playing each sample on
    /// both channels; stereo storage is returned unchanged. The sample count
    /// and the frame at every position are kept.
    pub fn ensure_stereo(self) -> (r: Samples)
        ensures
            promotes_stereo(&self, &r),
    {
        match self {
            Samples::I16Mono(v) => {
                let mut out: Vec<StereoI16> = Vec::new();
                let mut i: usize = 0;
                let n = v.len();
                while i < n
                    invariant
                        i <= n,
                        n == v@.len(),
                        out@.len() == i,
                        forall|j: int|
                            0 <= j < i ==> (#[trigger] out@[j]).left == v@[j] && out@[j].right
                                == v@[j],
                    decreases n - i,
                {
                    out.push(StereoI16 { left: v[i], right: v[i] });
                    i = i + 1;
                }
                Samples::I16Stereo(out)
            },
            Samples::FixedMono(v) => {
                let mut out: Vec<Frame> = Vec::new();
                let mut i: usize = 0;
                let n = v.len();
                while i < n
                    invariant
                        i <= n,
                        n == v@.len(),
                        out@.len() == i,
                        forall|j: int|
                            0 <= j < i ==> (#[trigger] out@[j]).left == v@[j] && out@[j].right
                                == v@[j],
                    decreases n - i,
                {
                    out.push(Frame { left: v[i], right: v[i] });
                    i = i + 1;
                }
                Samples::FixedStereo(out)
            },
            other => other,
        }
    }

    /// The whole storage as stereo fixed-point frames, keeping the frame at
    /// every position.
    pub fn into_frames(self) -> (r: Vec<Frame>)
        ensures
            r@.len() == samples_len(&self),
            forall|i: int|
                0 <= i < samples_len(&self) ==> #[trigger] r@[i] == sample_frame_at(&self, i),
    {
        let promoted = self.ensure_32_bit().ensure_stereo();
        match promoted {
            Samples::FixedStereo(v) => v,
            _ => unreached(),
        }
    }
}

/// Round trip of the promotions: for any sample storage in any mono or
/// stereo shape, promoting to fixed point and then to stereo keeps the
/// number of sample positions - and in fact the frame heard at every
/// position - whatever intermediate values the promotions produced.
pub proof fn law_promotion_round_trip(s: Samples, mid: Samples, r: Samples)
    requires
        promotes_32_bit(&s, &mid),
        promotes_stereo(&mid, &r),
    ensures
        samples_len(&r) == samples_len(&s),
        forall|i: int|
            0 <= i < samples_len(&s) ==> sample_frame_at(&r, i) == sample_frame_at(&s, i),
{
}

} // verus!
