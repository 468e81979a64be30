//! Animation descriptors: when a transition starts, how long it takes, and
//! how it is eased.

use vstd::prelude::*;

use crate::arena::ArenaKey;
use crate::fixed::{fmul_raw, Fixed, FIXED_SCALE};

verus! {

/// A unique identifier for a clock.
#[derive(Clone, Copy, Debug, PartialEq, Eq, Structural)]
pub struct ClockId {
    pub key: ArenaKey,
}

/// A point on a clock's timeline: the moment its tick count reaches `ticks`.
#[derive(Clone, Copy, Debug, PartialEq, Eq, Structural)]
pub struct ClockTime {
    pub clock: ClockId,
    pub ticks: u64,
}

impl ClockTime {
    /// The same clock, `more` ticks later (saturating).
    pub fn plus_ticks(self, more: u64) -> (r: ClockTime)
        ensures
            r.clock == self.clock,
            r.ticks == if self.ticks + more <= u64::MAX {
                self.ticks + more
            } else {
                u64::MAX as int
            },
    {
        ClockTime { clock: self.clock, ticks: self.ticks.saturating_add(more) }
    }
}

/// When a scheduled transition begins.
#[derive(Clone, Copy, Debug, PartialEq, Eq, Structural)]
pub enum StartTime {
    /// On the next audio frame.
    Immediate,
    /// After a countdown of seconds of audio time.
    Delayed(Fixed),
    /// When the named clock's tick count reaches the given tick.
    ClockTime(ClockTime),
}

/// An easing curve applied to a transition's progress in [0, 1].
#[derive(Clone, Copy, Debug, PartialEq, Eq, Structural)]
pub enum Easing {
    /// Progress maps to itself.
    Linear,
    /// Progress maps to `x^n`: slow start.
    InPowi(u32),
    /// Progress maps to `1 - (1 - x)^n`: slow end.
    OutPowi(u32),
    /// The in-curve below the midpoint, mirrored above it.
    InOutPowi(u32),
}

/// Describes how an animated parameter moves to a new value.
#[derive(Clone, Copy, Debug, PartialEq, Eq, Structural)]
pub struct Tween {
    /// When the transition begins.
    pub start_time: StartTime,
    /// How many seconds the transition takes once started.
    pub duration: Fixed,
    /// The easing curve applied to its progress.
    pub easing: Easing,
}

impl Default for Tween {
    /// An instantaneous, immediately starting, linear tween.
    fn default() -> (r: Tween)
        ensures
            r.start_time is Immediate,
            r.duration.raw == 0,
            r.easing is Linear,
    {
        Tween { start_time: StartTime::Immediate, duration: Fixed { raw: 0 }, easing: Easing::Linear }
    }
}

/// `x^n` in raw fixed point, rounded toward zero at each step.
pub open spec fn fpow_raw(x: int, n: nat) -> int
    decreases n,
{
    if n == 0 {
        FIXED_SCALE as int
    } else {
        fmul_raw(x, fpow_raw(x, (n - 1) as nat))
    }
}

/// Raw result of applying an easing curve to a progress value in [0, 1].
pub open spec fn ease_raw(e: Easing, x: int) -> int {
    match e {
        Easing::Linear => x,
        Easing::InPowi(n) => fpow_raw(x, n as nat),
        Easing::OutPowi(n) => FIXED_SCALE - fpow_raw(FIXED_SCALE - x, n as nat),
        Easing::InOutPowi(n) => {
            if x < (FIXED_SCALE as int) / 2 {
                fmul_raw(fpow_raw(2 * x, n as nat), (FIXED_SCALE as int) / 2)
            } else {
                FIXED_SCALE - fmul_raw(
                    fpow_raw(2 * (FIXED_SCALE - x), n as nat),
                    (FIXED_SCALE as int) / 2,
                )
            }
        },
    }
}

/// `x^n` for `x` in [0, 1]; the result stays in [0, 1].
pub fn fpow(x: Fixed, n: u32) -> (r: Fixed)
    requires
        0 <= x.raw <= FIXED_SCALE,
    ensures
        r.raw == fpow_raw(x.raw as int, n as nat),
        0 <= r.raw <= FIXED_SCALE,
{
    let mut acc = Fixed { raw: FIXED_SCALE };
    let mut i: u32 = 0;
    proof {
        lemma_fpow_raw_unit(x.raw as int, n as nat);
    }
    while i < n
        invariant
            i <= n,
            0 <= x.raw <= FIXED_SCALE,
            acc.raw == fpow_raw(x.raw as int, i as nat),
            0 <= acc.raw <= FIXED_SCALE,
        decreases n - i,
    {
        proof {
            lemma_fpow_raw_step(x.raw as int, i as nat);
            lemma_fpow_raw_unit(x.raw as int, (i + 1) as nat);
        }
        acc = x.fmul(acc);
        i = i + 1;
    }
    acc
}

/// One unfolding of `fpow_raw`, commuted to match left-to-right evaluation.
proof fn lemma_fpow_raw_step(x: int, n: nat)
    ensures
        fpow_raw(x, n + 1) == fmul_raw(x, fpow_raw(x, n)),
{
}

/// A power of a value in [0, 1] stays in [0, 1].
proof fn lemma_fpow_raw_unit(x: int, n: nat)
    requires
        0 <= x <= FIXED_SCALE,
    ensures
        0 <= fpow_raw(x, n) <= FIXED_SCALE,
    decreases n,
{
    if n > 0 {
        lemma_fpow_raw_unit(x, (n - 1) as nat);
        let p = fpow_raw(x, (n - 1) as nat);
        assert(0 <= x * p <= FIXED_SCALE * FIXED_SCALE) by (nonlinear_arith)
            requires
                0 <= x <= FIXED_SCALE,
                0 <= p <= FIXED_SCALE,
        ;
        assert(0 <= (x * p) / (FIXED_SCALE as int) <= FIXED_SCALE) by (nonlinear_arith)
            requires
                0 <= x * p <= FIXED_SCALE * FIXED_SCALE,
        ;
    }
}

/// Applies an easing curve to a progress value in [0, 1]; the result stays in
/// [0, 1].
pub fn ease(e: Easing, x: Fixed) -> (r: Fixed)
    requires
        0 <= x.raw <= FIXED_SCALE,
    ensures
        r.raw == ease_raw(e, x.raw as int),
        0 <= r.raw <= FIXED_SCALE,
{
    match e {
        Easing::Linear => x,
        Easing::InPowi(n) => fpow(x, n),
        Easing::OutPowi(n) => {
            let p = fpow(Fixed { raw: FIXED_SCALE - x.raw }, n);
            Fixed { raw: FIXED_SCALE - p.raw }
        },
        Easing::InOutPowi(n) => {
            if x.raw < FIXED_SCALE / 2 {
                let p = fpow(Fixed { raw: 2 * x.raw }, n);
                p.fmul(Fixed { raw: FIXED_SCALE / 2 })
            } else {
                let p = fpow(Fixed { raw: 2 * (FIXED_SCALE - x.raw) }, n);
                let h = p.fmul(Fixed { raw: FIXED_SCALE / 2 });
                proof {
                    lemma_half_scale_product_small(p.raw as int);
                }
                Fixed { raw: FIXED_SCALE - h.raw }
            }
        },
    }
}

/// Scaling a value in [0, 1] by 1/2 keeps it in [0, 1/2].
proof fn lemma_half_scale_product_small(p: int)
    requires
        0 <= p <= FIXED_SCALE,
    ensures
        0 <= fmul_raw(p, (FIXED_SCALE as int) / 2) <= (FIXED_SCALE as int) / 2,
{
    let h = (FIXED_SCALE as int) / 2;
    assert(0 <= p * h <= FIXED_SCALE * h) by (nonlinear_arith)
        requires
            0 <= p <= FIXED_SCALE,
            h == (FIXED_SCALE as int) / 2,
    ;
    assert(0 <= (p * h) / (FIXED_SCALE as int) <= h) by (nonlinear_arith)
        requires
            0 <= p * h <= FIXED_SCALE * h,
            h == (FIXED_SCALE as int) / 2,
    ;
}

} // verus!
