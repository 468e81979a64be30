//! Loudness values: amplitudes and decibels.
//!
//! A [`Volume`] is either a linear amplitude factor or a decibel level, with
//! `amp = 10^(dB/20)`; at or below [`MIN_DECIBELS`] a level counts as
//! silence. Volume interpolation happens in decibel space, and conversion to
//! an amplitude happens only at the output boundary. The conversions use
//! fixed-point polynomial approximations of `2^x` and `log2`, pinned exactly
//! by their contracts.

use vstd::prelude::*;

use crate::fixed::{fdiv_raw, fmul_raw, sat64, sat_to_i64, Fixed, FIXED_SCALE};
use crate::tweener::Tweenable;

verus! {

/// The decibel level treated as silence: -60 dB.
pub const MIN_DECIBELS_RAW: i64 = -60 * 0x1_0000_0000;

/// Raw fixed-point `log2(10) / 20`: octaves per decibel.
pub const OCTAVES_PER_DB: i64 = 713318696;

/// Raw fixed-point `20 / log2(10)`: decibels per octave.
pub const DB_PER_OCTAVE: i64 = 25856052041;

/// Taylor coefficients of `2^f` on [0, 1]: `ln(2)^k / k!` for `k` = 1 to 5,
/// in raw fixed point.
pub const EXP2_C1: i64 = 2977044472;

pub const EXP2_C2: i64 = 1031764991;

pub const EXP2_C3: i64 = 238388333;

pub const EXP2_C4: i64 = 41309549;

pub const EXP2_C5: i64 = 5726718;

/// Raw fixed-point `2 / ln(2)`, and the odd reciprocals of the
/// artanh series for `ln` on [1, 2).
pub const LOG_SCALE: i64 = 12392656038;

pub const THIRD_RAW: i64 = 1431655765;

pub const FIFTH_RAW: i64 = 858993459;

pub const SEVENTH_RAW: i64 = 613566756;

/// A loudness value.
#[derive(Clone, Copy, Debug, PartialEq, Eq, Structural)]
pub enum Volume {
    /// A linear amplitude factor; 1 leaves a signal unchanged.
    Amplitude(Fixed),
    /// A decibel level relative to full volume; 0 dB is full volume.
    Decibels(Fixed),
}

/// `v` doubled (saturating) `n` times.
pub open spec fn double_n(v: int, n: nat) -> int
    decreases n,
{
    if n == 0 {
        v
    } else {
        sat64(2 * double_n(v, (n - 1) as nat))
    }
}

/// `v` halved (rounding toward zero) `n` times; used on non-negative values.
pub open spec fn halve_n(v: int, n: nat) -> int
    decreases n,
{
    if n == 0 {
        v
    } else {
        halve_n(v, (n - 1) as nat) / 2
    }
}

/// The Taylor polynomial of `2^f` for a raw fraction `f` in [0, 1).
pub open spec fn exp2_frac_raw(f: int) -> int {
    sat64(
        (FIXED_SCALE as int) + fmul_raw(
            f,
            sat64(
                EXP2_C1 + fmul_raw(
                    f,
                    sat64(
                        EXP2_C2 + fmul_raw(f, sat64(EXP2_C3 + fmul_raw(f, sat64(EXP2_C4 + fmul_raw(f, EXP2_C5 as int))))),
                    ),
                ),
            ),
        ),
    )
}

/// `2^x` for a raw fixed-point exponent `x`, computed as `2^n * 2^f` with the
/// exponent split 16 octaves up to keep the split point non-negative.
pub open spec fn exp2_raw(x: int) -> int {
    let y = sat64(x + 16 * (FIXED_SCALE as int));
    if y < 0 {
        0
    } else {
        let n = y / (FIXED_SCALE as int);
        let f = y % (FIXED_SCALE as int);
        let p = exp2_frac_raw(f);
        if n >= 16 {
            double_n(p, (n - 16) as nat)
        } else {
            halve_n(p, (16 - n) as nat)
        }
    }
}

/// The amplitude of a raw decibel level: `10^(dB/20)`, with levels at or
/// below the minimum giving exact silence.
pub open spec fn db_to_amp_raw(db: int) -> int {
    if db <= MIN_DECIBELS_RAW {
        0
    } else {
        exp2_raw(fmul_raw(db, OCTAVES_PER_DB as int))
    }
}

/// Normalization of a raw value at least twice the scale: halves it (and
/// counts octaves up) until it lies below twice the scale.
pub open spec fn norm_down(v: int, n: int) -> (int, int)
    decreases v,
        when v >= 0
{
    if v >= 2 * FIXED_SCALE {
        norm_down(v / 2, sat64(n + 1))
    } else {
        (v, n)
    }
}

/// Normalization of a raw value below the scale: doubles it (and counts
/// octaves down) until it reaches the scale.
pub open spec fn norm_up(v: int, n: int) -> (int, int)
    decreases 2 * FIXED_SCALE - v,
        when 0 < v < 2 * FIXED_SCALE
{
    if 0 < v < FIXED_SCALE {
        norm_up(2 * v, sat64(n - 1))
    } else {
        (v, n)
    }
}

/// The artanh-series approximation of `log2(m)` for raw `m` in [1, 2), in
/// raw fixed point: with `u = (m-1)/(m+1)`,
/// `log2(m) = (2/ln 2) * u * (1 + u^2/3 + u^4/5 + u^6/7)`.
pub open spec fn log2_frac_raw(m: int) -> int {
    let u = fdiv_raw(m - FIXED_SCALE, sat64(m + FIXED_SCALE));
    let u2 = fmul_raw(u, u);
    let s = sat64(
        (FIXED_SCALE as int) + fmul_raw(
            u2,
            sat64(THIRD_RAW + fmul_raw(u2, sat64(FIFTH_RAW + fmul_raw(u2, SEVENTH_RAW as int)))),
        ),
    );
    fmul_raw(fmul_raw(u, s), LOG_SCALE as int)
}

/// `log2` of a positive raw fixed-point value: the octave count from
/// normalization plus the fractional part's series.
pub open spec fn log2_raw(v: int) -> int {
    let (m1, n1) = norm_down(v, 0);
    let (m, n) = norm_up(m1, n1);
    sat64(sat64(n * (FIXED_SCALE as int)) + log2_frac_raw(m))
}

/// The decibel level of a raw amplitude: `20 * log10(a)` for positive `a`,
/// and the minimum level for silence or below.
pub open spec fn amp_to_db_raw(a: int) -> int {
    if a <= 0 {
        MIN_DECIBELS_RAW as int
    } else {
        fmul_raw(log2_raw(a), DB_PER_OCTAVE as int)
    }
}

/// The amplitude of a volume value.
pub open spec fn volume_amp_raw(v: Volume) -> int {
    match v {
        Volume::Amplitude(a) => a.raw as int,
        Volume::Decibels(db) => db_to_amp_raw(db.raw as int),
    }
}

/// The decibel level of a volume value.
pub open spec fn volume_db_raw(v: Volume) -> int {
    match v {
        Volume::Amplitude(a) => amp_to_db_raw(a.raw as int),
        Volume::Decibels(db) => db.raw as int,
    }
}

/// Interpolation between two raw fixed-point values: `a + (b - a) * t`.
pub open spec fn lerp_raw(a: int, b: int, t: int) -> int {
    sat64(a + fmul_raw(sat64(b - a), t))
}

/// The Taylor polynomial of `2^f` on a fraction in [0, 1).
fn exp2_frac(f: Fixed) -> (r: Fixed)
    requires
        0 <= f.raw < FIXED_SCALE,
    ensures
        r.raw == exp2_frac_raw(f.raw as int),
{
    let t = Fixed { raw: EXP2_C4 }.fadd(f.fmul(Fixed { raw: EXP2_C5 }));
    let t = Fixed { raw: EXP2_C3 }.fadd(f.fmul(t));
    let t = Fixed { raw: EXP2_C2 }.fadd(f.fmul(t));
    let t = Fixed { raw: EXP2_C1 }.fadd(f.fmul(t));
    Fixed { raw: FIXED_SCALE }.fadd(f.fmul(t))
}

/// `2^x` for a fixed-point exponent, saturating in both directions.
pub fn exp2(x: Fixed) -> (r: Fixed)
    ensures
        r.raw == exp2_raw(x.raw as int),
{
    let y = x.fadd(Fixed { raw: 16 * FIXED_SCALE });
    if y.raw < 0 {
        return Fixed { raw: 0 };
    }
    let n: i64 = y.raw / FIXED_SCALE;
    let f: i64 = y.raw % FIXED_SCALE;
    let p = exp2_frac(Fixed { raw: f });
    let mut r = p;
    if n >= 16 {
        let mut i: i64 = 0;
        let steps: i64 = n - 16;
        while i < steps
            invariant
                0 <= i <= steps,
                r.raw == double_n(p.raw as int, i as nat),
            decreases steps - i,
        {
            r = r.fadd(r);
            i = i + 1;
        }
        r
    } else {
        let mut i: i64 = 0;
        let steps: i64 = 16 - n;
        while i < steps
            invariant
                0 <= i <= steps,
                r.raw == halve_n(p.raw as int, i as nat),
                r.raw >= 0,
            decreases steps - i,
        {
            r = Fixed { raw: r.raw / 2 };
            i = i + 1;
        }
        r
    }
}

/// The amplitude of a decibel level: `10^(dB/20)`, silence at or below the
/// minimum level.
pub fn db_to_amplitude(db: Fixed) -> (r: Fixed)
    ensures
        r.raw == db_to_amp_raw(db.raw as int),
{
    if db.raw <= MIN_DECIBELS_RAW {
        Fixed { raw: 0 }
    } else {
        exp2(db.fmul(Fixed { raw: OCTAVES_PER_DB }))
    }
}

/// The artanh-series approximation of `log2` on a normalized value in
/// [1, 2).
fn log2_frac(m: Fixed) -> (r: Fixed)
    requires
        FIXED_SCALE <= m.raw < 2 * FIXED_SCALE,
    ensures
        r.raw == log2_frac_raw(m.raw as int),
{
    let u = Fixed { raw: m.raw - FIXED_SCALE }.fdiv(m.fadd(Fixed { raw: FIXED_SCALE }));
    let u2 = u.fmul(u);
    let t = Fixed { raw: FIFTH_RAW }.fadd(u2.fmul(Fixed { raw: SEVENTH_RAW }));
    let t = Fixed { raw: THIRD_RAW }.fadd(u2.fmul(t));
    let s = Fixed { raw: FIXED_SCALE }.fadd(u2.fmul(t));
    u.fmul(s).fmul(Fixed { raw: LOG_SCALE })
}

/// `log2` of a positive fixed-point value.
pub fn log2(v: Fixed) -> (r: Fixed)
    requires
        v.raw > 0,
    ensures
        r.raw == log2_raw(v.raw as int),
{
    let mut m: i64 = v.raw;
    let mut n: i64 = 0;
    while m >= 2 * FIXED_SCALE
        invariant
            m > 0,
            norm_down(v.raw as int, 0) == norm_down(m as int, n as int),
        decreases m,
    {
        m = m / 2;
        n = if n < i64::MAX { n + 1 } else { n };
    }
    while 0 < m && m < FIXED_SCALE
        invariant
            0 < m < 2 * FIXED_SCALE,
            norm_up(norm_down(v.raw as int, 0).0, norm_down(v.raw as int, 0).1) == norm_up(
                m as int,
                n as int,
            ),
        decreases 2 * FIXED_SCALE - m,
    {
        m = m * 2;
        n = if n > i64::MIN { n - 1 } else { n };
    }
    let frac = log2_frac(Fixed { raw: m });
    let whole: i64 = sat_to_i64((n as i128) * (FIXED_SCALE as i128));
    Fixed { raw: whole }.fadd(frac)
}

/// The decibel level of an amplitude: `20 * log10(a)` for positive values,
/// the minimum level otherwise.
pub fn amplitude_to_db(a: Fixed) -> (r: Fixed)
    ensures
        r.raw == amp_to_db_raw(a.raw as int),
{
    if a.raw <= 0 {
        Fixed { raw: MIN_DECIBELS_RAW }
    } else {
        log2(a).fmul(Fixed { raw: DB_PER_OCTAVE })
    }
}

impl Volume {
    /// The amplitude factor this volume scales a signal by.
    pub fn as_amplitude(self) -> (r: Fixed)
        ensures
            r.raw == volume_amp_raw(self),
    {
        match self {
            Volume::Amplitude(a) => a,
            Volume::Decibels(db) => db_to_amplitude(db),
        }
    }

    /// This volume as a decibel level.
    pub fn as_decibels(self) -> (r: Fixed)
        ensures
            r.raw == volume_db_raw(self),
    {
        match self {
            Volume::Amplitude(a) => amplitude_to_db(a),
            Volume::Decibels(db) => db,
        }
    }
}

impl Tweenable for Fixed {
    /// Plain linear interpolation on raw values.
    open spec fn lerp_spec(a: Fixed, b: Fixed, amount: int) -> Fixed {
        Fixed { raw: lerp_raw(a.raw as int, b.raw as int, amount) as i64 }
    }

    fn lerp(a: Fixed, b: Fixed, amount: Fixed) -> (r: Fixed) {
        a.fadd(b.fsub(a).fmul(amount))
    }
}

impl Tweenable for Volume {
    /// Volumes interpolate in decibel space.
    open spec fn lerp_spec(a: Volume, b: Volume, amount: int) -> Volume {
        Volume::Decibels(
            Fixed { raw: lerp_raw(volume_db_raw(a), volume_db_raw(b), amount) as i64 },
        )
    }

    fn lerp(a: Volume, b: Volume, amount: Fixed) -> (r: Volume) {
        let da = a.as_decibels();
        let db = b.as_decibels();
        Volume::Decibels(da.fadd(db.fsub(da).fmul(amount)))
    }
}

} // verus!
