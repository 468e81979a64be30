//! Vector and quaternion math for the spatial scene, in fixed point.

use vstd::prelude::*;

use crate::fixed::{fmul_raw, sat64, sat_to_i64, Fixed, FIXED_SCALE};

verus! {

/// The square root of a fixed-point value: with values scaled by 2^32, the
/// root of `raw * 2^32`, rounded down.
pub open spec fn fsqrt_raw(v: int) -> int {
    if v <= 0 {
        0
    } else {
        sat64(isqrt(v * (FIXED_SCALE as int)))
    }
}

/// The integer square root: the largest `r` with `r * r <= n`.
pub open spec fn isqrt(n: int) -> int {
    isqrt_from(n, 0)
}

/// The integer square root found by counting up from `r`.
pub open spec fn isqrt_from(n: int, r: int) -> int
    decreases n - r * r,
        when 0 <= r && r * r <= n
    via isqrt_from_decreases
{
    if (r + 1) * (r + 1) <= n {
        isqrt_from(n, r + 1)
    } else {
        r
    }
}

/// The squared candidate grows strictly with each step, so the count-up
/// terminates.
#[via_fn]
proof fn isqrt_from_decreases(n: int, r: int) {
    assert(r * r < (r + 1) * (r + 1)) by (nonlinear_arith)
        requires
            r >= 0,
    ;
}

/// Counting up from any root candidate below the true root finds the same
/// value: the largest `r` with `r * r <= n`.
proof fn lemma_isqrt_from_is_root(n: int, r: int)
    requires
        0 <= r,
        r * r <= n,
    ensures
        ({
            let q = isqrt_from(n, r);
            q * q <= n < (q + 1) * (q + 1) && q >= r
        }),
    decreases n - r * r,
{
    if (r + 1) * (r + 1) <= n {
        assert(n - (r + 1) * (r + 1) < n - r * r) by (nonlinear_arith)
            requires
                r >= 0,
        ;
        lemma_isqrt_from_is_root(n, r + 1);
    }
}

/// The integer square root of a 128-bit value, by bisection.
fn isqrt_u128(n: u128) -> (r: u128)
    ensures
        r * r <= n < (r + 1) * (r + 1),
        r == isqrt(n as int),
{
    let mut lo: u128 = 0;
    let mut hi: u128 = 0x2_0000_0000_0000_0000;
    while lo + 1 < hi
        invariant
            lo < hi <= 0x2_0000_0000_0000_0000,
            lo * lo <= n,
            n < hi * hi,
        decreases hi - lo,
    {
        let mid = lo + (hi - lo) / 2;
        match mid.checked_mul(mid) {
            Some(sq) => {
                if sq <= n {
                    lo = mid;
                } else {
                    hi = mid;
                }
            },
            None => {
                hi = mid;
            },
        }
    }
    proof {
        lemma_isqrt_from_is_root(n as int, 0);
        let q = isqrt(n as int);
        assert(q <= lo) by (nonlinear_arith)
            requires
                q * q <= n as int,
                n < (lo + 1) * (lo + 1),
                q >= 0,
                lo >= 0,
        ;
        assert(lo <= q) by (nonlinear_arith)
            requires
                lo * lo <= n as int,
                n < (q + 1) * (q + 1),
                q >= 0,
                lo >= 0,
        ;
    }
    lo
}

/// The square root of a non-negative fixed-point value; non-positive values
/// root to zero.
pub fn fsqrt(v: Fixed) -> (r: Fixed)
    ensures
        r.raw == fsqrt_raw(v.raw as int),
        r.raw >= 0,
{
    if v.raw <= 0 {
        Fixed { raw: 0 }
    } else {
        let n: u128 = (v.raw as u128) * (FIXED_SCALE as u128);
        let root = isqrt_u128(n);
        proof {
            assert(root <= 0xffff_ffff_ffff_ffff) by (nonlinear_arith)
                requires
                    (root as int) * (root as int) <= n as int,
                    n as int <= 0x7fff_ffff_ffff_ffff * 0x1_0000_0000,
                    root >= 0,
            ;
        }
        Fixed { raw: sat_to_i64(root as i128) }
    }
}

/// A three-dimensional vector.
#[derive(Clone, Copy, Debug, PartialEq, Eq, Structural)]
pub struct Vec3 {
    pub x: Fixed,
    pub y: Fixed,
    pub z: Fixed,
}

/// The component-wise difference of two vectors, saturating.
pub open spec fn vec3_sub_spec(a: Vec3, b: Vec3) -> Vec3 {
    Vec3 {
        x: Fixed { raw: sat64(a.x.raw - b.x.raw) as i64 },
        y: Fixed { raw: sat64(a.y.raw - b.y.raw) as i64 },
        z: Fixed { raw: sat64(a.z.raw - b.z.raw) as i64 },
    }
}

/// The component-wise sum of two vectors, saturating.
pub open spec fn vec3_add_spec(a: Vec3, b: Vec3) -> Vec3 {
    Vec3 {
        x: Fixed { raw: sat64(a.x.raw + b.x.raw) as i64 },
        y: Fixed { raw: sat64(a.y.raw + b.y.raw) as i64 },
        z: Fixed { raw: sat64(a.z.raw + b.z.raw) as i64 },
    }
}

/// A vector scaled by a fixed-point factor.
pub open spec fn vec3_scaled_spec(a: Vec3, k: int) -> Vec3 {
    Vec3 {
        x: Fixed { raw: fmul_raw(a.x.raw as int, k) as i64 },
        y: Fixed { raw: fmul_raw(a.y.raw as int, k) as i64 },
        z: Fixed { raw: fmul_raw(a.z.raw as int, k) as i64 },
    }
}

/// The dot product of two vectors, in raw fixed point.
pub open spec fn vec3_dot_raw(a: Vec3, b: Vec3) -> int {
    sat64(
        sat64(
            fmul_raw(a.x.raw as int, b.x.raw as int) + fmul_raw(a.y.raw as int, b.y.raw as int),
        ) + fmul_raw(a.z.raw as int, b.z.raw as int),
    )
}

/// The cross product of two vectors.
pub open spec fn vec3_cross_spec(a: Vec3, b: Vec3) -> Vec3 {
    Vec3 {
        x: Fixed {
            raw: sat64(
                fmul_raw(a.y.raw as int, b.z.raw as int) - fmul_raw(a.z.raw as int, b.y.raw as int),
            ) as i64,
        },
        y: Fixed {
            raw: sat64(
                fmul_raw(a.z.raw as int, b.x.raw as int) - fmul_raw(a.x.raw as int, b.z.raw as int),
            ) as i64,
        },
        z: Fixed {
            raw: sat64(
                fmul_raw(a.x.raw as int, b.y.raw as int) - fmul_raw(a.y.raw as int, b.x.raw as int),
            ) as i64,
        },
    }
}

/// The length of a vector, in raw fixed point.
pub open spec fn vec3_magnitude_raw(a: Vec3) -> int {
    fsqrt_raw(vec3_dot_raw(a, a))
}

/// The vector scaled to unit length: each component divided by the
/// magnitude; the zero vector (or one whose magnitude rounds to zero) stays
/// zero-normalized.
pub open spec fn vec3_normalized_spec(a: Vec3) -> Vec3 {
    let m = vec3_magnitude_raw(a);
    if m <= 0 {
        Vec3 { x: Fixed { raw: 0 }, y: Fixed { raw: 0 }, z: Fixed { raw: 0 } }
    } else {
        Vec3 {
            x: Fixed { raw: crate::fixed::fdiv_raw(a.x.raw as int, m) as i64 },
            y: Fixed { raw: crate::fixed::fdiv_raw(a.y.raw as int, m) as i64 },
            z: Fixed { raw: crate::fixed::fdiv_raw(a.z.raw as int, m) as i64 },
        }
    }
}

impl Vec3 {
    /// The zero vector.
    pub fn zero() -> (r: Vec3)
        ensures
            r.x.raw == 0 && r.y.raw == 0 && r.z.raw == 0,
    {
        Vec3 { x: Fixed { raw: 0 }, y: Fixed { raw: 0 }, z: Fixed { raw: 0 } }
    }

    /// A vector from its components.
    pub fn new(x: Fixed, y: Fixed, z: Fixed) -> (r: Vec3)
        ensures
            r == (Vec3 { x, y, z }),
    {
        Vec3 { x, y, z }
    }

    /// The unit vector pointing left.
    pub fn left() -> (r: Vec3)
        ensures
            r.x.raw == -FIXED_SCALE && r.y.raw == 0 && r.z.raw == 0,
    {
        Vec3 { x: Fixed { raw: -FIXED_SCALE }, y: Fixed { raw: 0 }, z: Fixed { raw: 0 } }
    }

    /// The unit vector pointing right.
    pub fn right() -> (r: Vec3)
        ensures
            r.x.raw == FIXED_SCALE && r.y.raw == 0 && r.z.raw == 0,
    {
        Vec3 { x: Fixed { raw: FIXED_SCALE }, y: Fixed { raw: 0 }, z: Fixed { raw: 0 } }
    }

    /// Component-wise difference.
    pub fn sub(self, rhs: Vec3) -> (r: Vec3)
        ensures
            r == vec3_sub_spec(self, rhs),
    {
        Vec3 { x: self.x.fsub(rhs.x), y: self.y.fsub(rhs.y), z: self.z.fsub(rhs.z) }
    }

    /// Component-wise sum.
    pub fn add(self, rhs: Vec3) -> (r: Vec3)
        ensures
            r == vec3_add_spec(self, rhs),
    {
        Vec3 { x: self.x.fadd(rhs.x), y: self.y.fadd(rhs.y), z: self.z.fadd(rhs.z) }
    }

    /// The vector scaled by a factor.
    pub fn scaled(self, k: Fixed) -> (r: Vec3)
        ensures
            r == vec3_scaled_spec(self, k.raw as int),
    {
        Vec3 { x: self.x.fmul(k), y: self.y.fmul(k), z: self.z.fmul(k) }
    }

    /// The dot product.
    pub fn dot(self, rhs: Vec3) -> (r: Fixed)
        ensures
            r.raw == vec3_dot_raw(self, rhs),
    {
        self.x.fmul(rhs.x).fadd(self.y.fmul(rhs.y)).fadd(self.z.fmul(rhs.z))
    }

    /// The cross product.
    pub fn cross(self, rhs: Vec3) -> (r: Vec3)
        ensures
            r == vec3_cross_spec(self, rhs),
    {
        Vec3 {
            x: self.y.fmul(rhs.z).fsub(self.z.fmul(rhs.y)),
            y: self.z.fmul(rhs.x).fsub(self.x.fmul(rhs.z)),
            z: self.x.fmul(rhs.y).fsub(self.y.fmul(rhs.x)),
        }
    }

    /// The vector's length.
    pub fn magnitude(self) -> (r: Fixed)
        ensures
            r.raw == vec3_magnitude_raw(self),
            r.raw >= 0,
    {
        fsqrt(self.dot(self))
    }

    /// The vector scaled to unit length; a vector of zero length stays zero.
    pub fn normalized(self) -> (r: Vec3)
        ensures
            r == vec3_normalized_spec(self),
    {
        let m = self.magnitude();
        if m.raw <= 0 {
            Vec3::zero()
        } else {
            Vec3 {
                x: self.x.fdiv(m),
                y: self.y.fdiv(m),
                z: self.z.fdiv(m),
            }
        }
    }
}

/// A rotation, stored as a quaternion.
#[derive(Clone, Copy, Debug, PartialEq, Eq, Structural)]
pub struct Quaternion {
    pub w: Fixed,
    pub x: Fixed,
    pub y: Fixed,
    pub z: Fixed,
}

/// A point rotated by a quaternion: with `u` the quaternion's vector part
/// and `t = 2 (u x v)`, the rotated point is `v + w t + (u x t)`.
pub open spec fn quat_rotate_spec(q: Quaternion, v: Vec3) -> Vec3 {
    let u = Vec3 { x: q.x, y: q.y, z: q.z };
    let c = vec3_cross_spec(u, v);
    let t = vec3_add_spec(c, c);
    vec3_add_spec(vec3_add_spec(v, vec3_scaled_spec(t, q.w.raw as int)), vec3_cross_spec(u, t))
}

impl Quaternion {
    /// The identity rotation.
    pub fn identity() -> (r: Quaternion)
        ensures
            r.w.raw == FIXED_SCALE && r.x.raw == 0 && r.y.raw == 0 && r.z.raw == 0,
    {
        Quaternion {
            w: Fixed { raw: FIXED_SCALE },
            x: Fixed { raw: 0 },
            y: Fixed { raw: 0 },
            z: Fixed { raw: 0 },
        }
    }

    /// The point `v` rotated by this quaternion.
    pub fn rotate_point(self, v: Vec3) -> (r: Vec3)
        ensures
            r == quat_rotate_spec(self, v),
    {
        let u = Vec3 { x: self.x, y: self.y, z: self.z };
        let c = u.cross(v);
        let t = c.add(c);
        v.add(t.scaled(self.w)).add(u.cross(t))
    }
}

} // verus!
