//! Random headings for freshly spawned agents.
//!
//! The bits come from the `random` crate's Xorshift128+ generator; the
//! only trusted surface is drawing those bits. Turning them into a
//! unit-speed heading is verified integer arithmetic, and the result is
//! pinned down exactly: `heading_from_bits` returns `spec_heading(bits)`
//! and nothing else. One coordinate is drawn uniformly from
//! `[-SCALE, SCALE]`, the other completes the vector to (near-)unit
//! magnitude with a drawn sign, and one further bit decides which axis
//! gets which — mixing the two assignments keeps every direction at
//! comparable density, where either alone would starve the headings
//! along its own axis.

use vstd::prelude::*;

use crate::math::floor_sqrt;
use crate::math::isqrt64;
use crate::math::lemma_floor_sqrt_bounds;
use crate::vec2::Vec2;
use crate::SCALE;
use crate::UNIT_SPEED_SQ_MIN;

verus! {

#[verifier::external_type_specification]
#[verifier::external_body]
pub struct ExXorshift(random::Xorshift128Plus);

/// Relies on random::default: builds the crate's Xorshift128+ generator
/// from a seed. The derived two-word internal seed can never be all
/// zero, so the call cannot panic.
#[verifier::external_body]
pub fn new_source(seed: u64) -> random::Xorshift128Plus {
    random::default(seed)
}

/// Relies on random::Source::read_u64: the generator's next 64 bits.
/// Nothing is promised of the value.
#[verifier::external_body]
pub fn next_bits(source: &mut random::Xorshift128Plus) -> u64 {
    random::Source::read_u64(source)
}

/// The coordinate drawn uniformly from `[-SCALE, SCALE]`.
pub open spec fn spec_heading_coord(bits: u64) -> int {
    (bits % 2001) - 1000
}

/// The coordinate that completes the drawn one to a (near-)unit
/// vector: the rounded-down square root of what the drawn coordinate
/// leaves of `SCALE * SCALE`, under a sign drawn from the bits.
pub open spec fn spec_heading_other(bits: u64) -> int {
    let c = spec_heading_coord(bits);
    let d = floor_sqrt((1_000_000 - c * c) as nat) as int;
    if (bits / 2001) % 2 == 0 {
        d
    } else {
        -d
    }
}

/// The heading as an exact function of the bits: one further bit
/// decides whether the drawn coordinate is the x or the y component.
pub open spec fn spec_heading(bits: u64) -> (int, int) {
    let c = spec_heading_coord(bits);
    let d = spec_heading_other(bits);
    if (bits / 4002) % 2 == 0 {
        (c, d)
    } else {
        (d, c)
    }
}

/// Map 64 random bits to a heading of unit speed, up to fixed-point
/// rounding: the result is exactly `spec_heading(bits)`, whose squared
/// magnitude always lands in `[UNIT_SPEED_SQ_MIN, SCALE * SCALE]`.
pub fn heading_from_bits(bits: u64) -> (v: Vec2)
    ensures
        (v.x as int, v.y as int) == spec_heading(bits),
        UNIT_SPEED_SQ_MIN <= v.mag2() <= SCALE * SCALE,
        -SCALE <= v.x <= SCALE,
        -SCALE <= v.y <= SCALE,
{
    let xm = bits % 2001;
    let c = (xm as i64) - 1000;
    proof {
        assert(0 <= c * c <= 1_000_000) by (nonlinear_arith)
            requires
                -1000 <= c <= 1000,
        ;
    }
    let cc = c * c;
    let rem = (1_000_000 - cc) as u64;
    let root = isqrt64(rem);
    proof {
        lemma_floor_sqrt_bounds(rem as nat);
        assert(root <= 1000) by (nonlinear_arith)
            requires
                (root as int) * (root as int) <= 1_000_000,
                root >= 0,
        ;
        assert((rem as int) - 2000 <= (root as int) * (root as int) <= rem as int) by (nonlinear_arith)
            requires
                (root as int) * (root as int) <= rem as int,
                rem < ((root as int) + 1) * ((root as int) + 1),
                0 <= root <= 1000,
        ;
    }
    let d = if (bits / 2001) % 2 == 0 {
        root as i64
    } else {
        -(root as i64)
    };
    proof {
        assert((d as int) * (d as int) == (root as int) * (root as int)) by (nonlinear_arith)
            requires
                d as int == root as int || d as int == -(root as int),
        ;
    }
    if (bits / 4002) % 2 == 0 {
        Vec2 { x: c, y: d }
    } else {
        Vec2 { x: d, y: c }
    }
}

} // verus!
