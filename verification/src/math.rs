//! Integer helpers the fixed-point vector arithmetic is built on:
//! truncating division (the rounding used throughout the simulation) and
//! integer square roots.

use vstd::prelude::*;
use vstd::arithmetic::div_mod::lemma_fundamental_div_mod;
use vstd::arithmetic::div_mod::lemma_mod_bound;

verus! {

/// The absolute value, kept as an `int`.
pub open spec fn absi(a: int) -> int {
    if a >= 0 {
        a
    } else {
        -a
    }
}

/// Division that rounds toward zero, as `/` does on the machine integers
/// the simulation stores.
pub open spec fn tdiv(a: int, b: int) -> int
    recommends
        b > 0,
{
    if a >= 0 {
        a / b
    } else {
        -((-a) / b)
    }
}

/// A truncating quotient never exceeds the exact one: `|q| * b <= |a|`,
/// and the quotient keeps the sign of `a` (or is zero).
pub proof fn lemma_tdiv_facts(a: int, b: int)
    requires
        b > 0,
    ensures
        absi(tdiv(a, b)) * b <= absi(a),
        a >= 0 ==> tdiv(a, b) >= 0,
        a <= 0 ==> tdiv(a, b) <= 0,
        absi(tdiv(a, b)) == absi(a) / b,
{
    let n = absi(a);
    lemma_fundamental_div_mod(n, b);
    lemma_mod_bound(n, b);
    let q = n / b;
    assert(q >= 0) by (nonlinear_arith)
        requires
            b * q + (n % b) == n,
            0 <= n % b < b,
            n >= 0,
            b > 0,
    ;
    assert(q * b <= n) by (nonlinear_arith)
        requires
            b * q + (n % b) == n,
            0 <= n % b,
    ;
    if a >= 0 {
        assert(tdiv(a, b) == q);
    } else {
        assert(tdiv(a, b) == -q);
    }
}

/// Bounding a truncating quotient: if `|a| <= b * c` then `|a / b| <= c`.
pub proof fn lemma_tdiv_le(a: int, b: int, c: int)
    requires
        b > 0,
        c >= 0,
        absi(a) <= b * c,
    ensures
        -c <= tdiv(a, b) <= c,
{
    lemma_tdiv_facts(a, b);
    let q = tdiv(a, b);
    assert(absi(q) <= c) by (nonlinear_arith)
        requires
            absi(q) * b <= absi(a),
            absi(a) <= b * c,
            b > 0,
            c >= 0,
            absi(q) >= 0,
    ;
}

/// Scaling `(x, y)` by the ratio `m / r` with truncating division cannot
/// produce a vector longer than `m`, provided `r` is at least the exact
/// magnitude of `(x, y)`.
pub proof fn lemma_scaled_mag(x: int, y: int, m: int, r: int)
    requires
        r > 0,
        m >= 0,
        x * x + y * y <= r * r,
    ensures
        tdiv(x * m, r) * tdiv(x * m, r) + tdiv(y * m, r) * tdiv(y * m, r) <= m * m,
{
    lemma_tdiv_facts(x * m, r);
    lemma_tdiv_facts(y * m, r);
    let qx = tdiv(x * m, r);
    let qy = tdiv(y * m, r);
    assert(absi(x * m) == absi(x) * m) by (nonlinear_arith)
        requires
            m >= 0,
    ;
    assert(absi(y * m) == absi(y) * m) by (nonlinear_arith)
        requires
            m >= 0,
    ;
    assert(qx * qx * (r * r) <= (x * x) * (m * m)) by (nonlinear_arith)
        requires
            absi(qx) * r <= absi(x) * m,
            r > 0,
            m >= 0,
    ;
    assert(qy * qy * (r * r) <= (y * y) * (m * m)) by (nonlinear_arith)
        requires
            absi(qy) * r <= absi(y) * m,
            r > 0,
            m >= 0,
    ;
    assert(qx * qx + qy * qy <= m * m) by (nonlinear_arith)
        requires
            qx * qx * (r * r) <= (x * x) * (m * m),
            qy * qy * (r * r) <= (y * y) * (m * m),
            x * x + y * y <= r * r,
            r > 0,
            m >= 0,
    ;
}

/// A vector whose squared magnitude is at most `m * m` has both
/// components in `[-m, m]`.
pub proof fn lemma_mag2_component_bounds(x: int, y: int, m: int)
    requires
        m >= 0,
        x * x + y * y <= m * m,
    ensures
        -m <= x <= m,
        -m <= y <= m,
{
    assert(-m <= x <= m && -m <= y <= m) by (nonlinear_arith)
        requires
            x * x + y * y <= m * m,
            m >= 0,
    ;
}

/// The integer square root, rounded down.
pub open spec fn floor_sqrt(n: nat) -> nat
    decreases n,
{
    if n == 0 {
        0
    } else {
        let p = floor_sqrt((n - 1) as nat);
        if (p + 1) * (p + 1) <= n {
            p + 1
        } else {
            p
        }
    }
}

pub proof fn lemma_floor_sqrt_bounds(n: nat)
    ensures
        floor_sqrt(n) * floor_sqrt(n) <= n,
        n < (floor_sqrt(n) + 1) * (floor_sqrt(n) + 1),
    decreases n,
{
    if n > 0 {
        lemma_floor_sqrt_bounds((n - 1) as nat);
        let p = floor_sqrt((n - 1) as nat);
        if (p + 1) * (p + 1) <= n {
            assert((p + 1) * (p + 1) < (p + 2) * (p + 2)) by (nonlinear_arith);
        }
    } else {
        assert(floor_sqrt(n) == 0);
        assert(n < (floor_sqrt(n) + 1) * (floor_sqrt(n) + 1)) by (nonlinear_arith)
            requires
                floor_sqrt(n) == 0,
                n == 0,
        ;
    }
}

/// `floor_sqrt` is the only value squeezed between the two squares.
pub proof fn lemma_floor_sqrt_unique(n: nat, r: nat)
    requires
        r * r <= n,
        n < (r + 1) * (r + 1),
    ensures
        floor_sqrt(n) == r,
{
    lemma_floor_sqrt_bounds(n);
    let f = floor_sqrt(n);
    if f < r {
        assert((f + 1) * (f + 1) <= r * r) by (nonlinear_arith)
            requires
                f + 1 <= r,
        ;
    }
    if r < f {
        assert((r + 1) * (r + 1) <= f * f) by (nonlinear_arith)
            requires
                r + 1 <= f,
        ;
    }
}

/// The integer square root, rounded up.
pub open spec fn ceil_sqrt(n: nat) -> nat {
    let f = floor_sqrt(n);
    if f * f == n {
        f
    } else {
        f + 1
    }
}

pub proof fn lemma_ceil_sqrt_bounds(n: nat)
    ensures
        n <= ceil_sqrt(n) * ceil_sqrt(n),
        n > 0 ==> ceil_sqrt(n) >= 1,
{
    lemma_floor_sqrt_bounds(n);
}

/// Binary search for the integer square root, rounded down.
pub fn isqrt64(n: u64) -> (r: u64)
    requires
        n <= 8_000_000_000_000_000_000,
    ensures
        r == floor_sqrt(n as nat),
        r <= 3_000_000_000,
{
    let mut lo: u64 = 0;
    let mut hi: u64 = 3_000_000_000;
    while lo + 1 < hi
        invariant
            lo < hi <= 3_000_000_000,
            (lo as int) * (lo as int) <= n as int,
            (n as int) < (hi as int) * (hi as int),
        decreases hi - lo,
    {
        let mid = lo + (hi - lo) / 2;
        assert((mid as int) * (mid as int) <= 9_000_000_000_000_000_000) by (nonlinear_arith)
            requires
                mid <= 3_000_000_000,
        ;
        let sq = mid * mid;
        if sq <= n {
            lo = mid;
        } else {
            hi = mid;
        }
    }
    proof {
        lemma_floor_sqrt_unique(n as nat, lo as nat);
    }
    lo
}

/// The integer square root, rounded up.
pub fn ceil_sqrt64(n: u64) -> (r: u64)
    requires
        n <= 8_000_000_000_000_000_000,
    ensures
        r == ceil_sqrt(n as nat),
        r <= 3_000_000_000,
        n > 0 ==> r >= 1,
{
    let f = isqrt64(n);
    proof {
        lemma_floor_sqrt_bounds(n as nat);
        assert((f as int) * (f as int) <= 9_000_000_000_000_000_000) by (nonlinear_arith)
            requires
                f <= 3_000_000_000,
        ;
        assert(f < 3_000_000_000) by (nonlinear_arith)
            requires
                (f as int) * (f as int) <= 8_000_000_000_000_000_000,
                f >= 0,
        ;
        if n > 0 && (f as int) * (f as int) == n as int {
            assert(f >= 1) by (nonlinear_arith)
                requires
                    (f as int) * (f as int) == n as int,
                    n > 0,
            ;
        }
    }
    if f * f == n {
        f
    } else {
        f + 1
    }
}

/// Truncating division on machine integers; `q` matches `tdiv` exactly.
pub fn tdiv64(a: i64, b: i64) -> (q: i64)
    requires
        b > 0,
        a > i64::MIN,
    ensures
        q == tdiv(a as int, b as int),
{
    proof {
        if a >= 0 {
            lemma_tdiv_facts(a as int, b as int);
        } else {
            lemma_tdiv_facts(a as int, b as int);
        }
    }
    if a >= 0 {
        let q = (a as u64) / (b as u64);
        proof {
            vstd::arithmetic::div_mod::lemma_div_nonincreasing(a as int, b as int);
        }
        q as i64
    } else {
        let m = (-a) as u64;
        let q = m / (b as u64);
        proof {
            vstd::arithmetic::div_mod::lemma_div_nonincreasing(m as int, b as int);
        }
        -(q as i64)
    }
}

} // verus!
