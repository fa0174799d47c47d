//! Fixed-point 2D vectors in milli-units, with the two magnitude
//! operations the steering engine is built on: rescaling a vector to a
//! target magnitude and clamping a vector to a maximum magnitude.

use vstd::prelude::*;

use crate::math::absi;
use crate::math::ceil_sqrt;
use crate::math::ceil_sqrt64;
use crate::math::lemma_ceil_sqrt_bounds;
use crate::math::lemma_mag2_component_bounds;
use crate::math::lemma_scaled_mag;
use crate::math::lemma_tdiv_le;
use crate::math::tdiv;
use crate::math::tdiv64;
use crate::MAX_SPEED;

verus! {

/// Magnitudes this module manipulates stay below this bound, so every
/// squared magnitude fits comfortably in an `i64`.
pub const COMPONENT_LIMIT: i64 = 2_000_000_000;

/// Squared-magnitude bound accepted by `set_mag` and `limit_mag`
/// (`2 * COMPONENT_LIMIT * COMPONENT_LIMIT`).
pub const MAG2_LIMIT: i64 = 8_000_000_000_000_000_000;

/// A 2D vector of milli-unit coordinates.
#[derive(Clone, Copy, Debug, PartialEq, Eq, Structural)]
pub struct Vec2 {
    pub x: i64,
    pub y: i64,
}

impl Vec2 {
    /// The squared magnitude, exact.
    pub open spec fn mag2(self) -> int {
        self.x * self.x + self.y * self.y
    }

    pub open spec fn is_zero(self) -> bool {
        self.x == 0 && self.y == 0
    }

    pub fn zero() -> (r: Vec2)
        ensures
            r.x == 0,
            r.y == 0,
    {
        Vec2 { x: 0, y: 0 }
    }
}

/// The squared distance between two points, exact.
pub open spec fn dist2(a: Vec2, b: Vec2) -> int {
    (a.x - b.x) * (a.x - b.x) + (a.y - b.y) * (a.y - b.y)
}

/// What rescaling `(x, y)` to magnitude `m` computes: each component is
/// scaled by `m` over the rounded-up exact magnitude. The zero vector
/// stays zero (it has no direction to keep).
pub open spec fn spec_set_mag(x: int, y: int, m: int) -> (int, int) {
    if x == 0 && y == 0 {
        (0, 0)
    } else {
        let r = ceil_sqrt((x * x + y * y) as nat) as int;
        (tdiv(x * m, r), tdiv(y * m, r))
    }
}

/// What clamping `(x, y)` to magnitude `m` computes: vectors already
/// short enough pass through unchanged, longer ones are rescaled as in
/// `spec_set_mag`.
pub open spec fn spec_limit(x: int, y: int, m: int) -> (int, int) {
    if x * x + y * y <= m * m {
        (x, y)
    } else {
        let r = ceil_sqrt((x * x + y * y) as nat) as int;
        (tdiv(x * m, r), tdiv(y * m, r))
    }
}

/// Rescaling never overshoots: the result of `spec_set_mag` has squared
/// magnitude at most `m * m`, and components within `[-m, m]`.
pub proof fn lemma_set_mag_bound(x: int, y: int, m: int)
    requires
        m >= 0,
    ensures
        ({
            let (a, b) = spec_set_mag(x, y, m);
            a * a + b * b <= m * m && -m <= a <= m && -m <= b <= m
        }),
{
    let (a, b) = spec_set_mag(x, y, m);
    if x == 0 && y == 0 {
        assert(a * a + b * b <= m * m) by (nonlinear_arith)
            requires
                a == 0,
                b == 0,
                m >= 0,
        ;
    } else {
        let n = (x * x + y * y) as nat;
        assert(x * x + y * y >= 1) by (nonlinear_arith)
            requires
                !(x == 0 && y == 0),
        ;
        lemma_ceil_sqrt_bounds(n);
        let r = ceil_sqrt(n) as int;
        assert(x * x + y * y <= r * r);
        lemma_scaled_mag(x, y, m, r);
    }
    lemma_mag2_component_bounds(a, b, m);
}

/// Clamping never overshoots either, and short vectors pass unchanged.
pub proof fn lemma_limit_bound(x: int, y: int, m: int)
    requires
        m >= 0,
    ensures
        ({
            let (a, b) = spec_limit(x, y, m);
            a * a + b * b <= m * m && -m <= a <= m && -m <= b <= m
        }),
{
    let (a, b) = spec_limit(x, y, m);
    if x * x + y * y <= m * m {
    } else {
        let n = (x * x + y * y) as nat;
        lemma_ceil_sqrt_bounds(n);
        let r = ceil_sqrt(n) as int;
        assert(x * x + y * y >= 1) by (nonlinear_arith)
            requires
                x * x + y * y > m * m,
                m >= 0,
        ;
        lemma_scaled_mag(x, y, m, r);
    }
    lemma_mag2_component_bounds(a, b, m);
}

/// Shared prologue of `set_mag` and `limit_mag`: squares fit, the
/// rounded-up magnitude covers both components, and products with `m`
/// stay in range.
proof fn lemma_scale_ranges(x: int, y: int, m: int)
    requires
        0 < m <= MAX_SPEED,
        -COMPONENT_LIMIT <= x <= COMPONENT_LIMIT,
        -COMPONENT_LIMIT <= y <= COMPONENT_LIMIT,
    ensures
        0 <= x * x <= 4_000_000_000_000_000_000,
        0 <= y * y <= 4_000_000_000_000_000_000,
        x * x + y * y <= MAG2_LIMIT,
        absi(x * m) == absi(x) * m,
        absi(y * m) == absi(y) * m,
        -8_000_000_000_000 <= x * m <= 8_000_000_000_000,
        -8_000_000_000_000 <= y * m <= 8_000_000_000_000,
        0 < m * m <= 4_000_000,
{
    assert(0 < m * m <= 4_000_000) by (nonlinear_arith)
        requires
            0 < m <= 2000,
    ;
    assert(0 <= x * x <= 4_000_000_000_000_000_000 && 0 <= y * y
        <= 4_000_000_000_000_000_000) by (nonlinear_arith)
        requires
            -COMPONENT_LIMIT <= x <= COMPONENT_LIMIT,
            -COMPONENT_LIMIT <= y <= COMPONENT_LIMIT,
    ;
    assert(absi(x * m) == absi(x) * m && absi(y * m) == absi(y) * m) by (nonlinear_arith)
        requires
            m > 0,
    ;
    assert(-8_000_000_000_000 <= x * m <= 8_000_000_000_000 && -8_000_000_000_000 <= y * m
        <= 8_000_000_000_000) by (nonlinear_arith)
        requires
            0 < m <= 2000,
            -COMPONENT_LIMIT <= x <= COMPONENT_LIMIT,
            -COMPONENT_LIMIT <= y <= COMPONENT_LIMIT,
    ;
}

/// Rescale `v` to magnitude `m` (up to truncation), keeping its
/// direction; the zero vector is returned unchanged.
pub fn set_mag(v: Vec2, m: i64) -> (r: Vec2)
    requires
        0 < m <= MAX_SPEED,
        -COMPONENT_LIMIT <= v.x <= COMPONENT_LIMIT,
        -COMPONENT_LIMIT <= v.y <= COMPONENT_LIMIT,
    ensures
        (r.x as int, r.y as int) == spec_set_mag(v.x as int, v.y as int, m as int),
        r.mag2() <= m * m,
        -m <= r.x <= m,
        -m <= r.y <= m,
{
    proof {
        lemma_set_mag_bound(v.x as int, v.y as int, m as int);
        lemma_scale_ranges(v.x as int, v.y as int, m as int);
    }
    if v.x == 0 && v.y == 0 {
        Vec2 { x: 0, y: 0 }
    } else {
        let s: i64 = v.x * v.x + v.y * v.y;
        proof {
            assert(s >= 1) by (nonlinear_arith)
                requires
                    s == v.x * v.x + v.y * v.y,
                    !(v.x == 0 && v.y == 0),
            ;
        }
        let root = ceil_sqrt64(s as u64);
        proof {
            lemma_ceil_sqrt_bounds(s as nat);
        }
        let rx = tdiv64(v.x * m, root as i64);
        let ry = tdiv64(v.y * m, root as i64);
        Vec2 { x: rx, y: ry }
    }
}

/// Clamp `v` to magnitude at most `m`: vectors already short enough are
/// returned unchanged, longer ones are rescaled down.
pub fn limit_mag(v: Vec2, m: i64) -> (r: Vec2)
    requires
        0 < m <= MAX_SPEED,
        -COMPONENT_LIMIT <= v.x <= COMPONENT_LIMIT,
        -COMPONENT_LIMIT <= v.y <= COMPONENT_LIMIT,
    ensures
        (r.x as int, r.y as int) == spec_limit(v.x as int, v.y as int, m as int),
        r.mag2() <= m * m,
        -m <= r.x <= m,
        -m <= r.y <= m,
        v.mag2() <= m * m ==> r == v,
{
    proof {
        lemma_limit_bound(v.x as int, v.y as int, m as int);
        lemma_scale_ranges(v.x as int, v.y as int, m as int);
    }
    let s: i64 = v.x * v.x + v.y * v.y;
    if s <= m * m {
        v
    } else {
        let root = ceil_sqrt64(s as u64);
        proof {
            lemma_ceil_sqrt_bounds(s as nat);
        }
        let rx = tdiv64(v.x * m, root as i64);
        let ry = tdiv64(v.y * m, root as i64);
        Vec2 { x: rx, y: ry }
    }
}

} // verus!
