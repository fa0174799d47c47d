//! The steering behavior engine and the integrator.
//!
//! For one agent and a snapshot of the population, each behavior scans
//! the agents (or repulsors) within a fixed radius, averages what it
//! finds, rescales the average to `MAX_SPEED`, subtracts the agent's
//! velocity and clamps the result to `MAX_FORCE`. Enabled behaviors with
//! positive weight are then weighted and summed into one acceleration,
//! and the integrator advances velocity and position one unit step,
//! clamping speed and wrapping toroidally.
//!
//! Every executable function here returns exactly what the matching
//! `spec_` function describes, so a whole tick is a pure function of the
//! pre-tick state.

use vstd::prelude::*;

use crate::math::absi;
use crate::math::lemma_mag2_component_bounds;
use crate::math::lemma_tdiv_le;
use crate::math::tdiv;
use crate::math::tdiv64;
use crate::model::agent_ok;
use crate::model::agents_ok;
use crate::model::repulsors_ok;
use crate::model::Agent;
use crate::model::Behavior;
use crate::model::Repulsor;
use crate::model::SimulationConfig;
use crate::vec2::dist2;
use crate::vec2::lemma_limit_bound;
use crate::vec2::limit_mag;
use crate::vec2::set_mag;
use crate::vec2::spec_limit;
use crate::vec2::spec_set_mag;
use crate::vec2::Vec2;
use crate::ACCEL_LIMIT;
use crate::CONTRIB_LIMIT;
use crate::COORD_LIMIT;
use crate::INV_DIST_NUM;
use crate::MAX_FORCE;
use crate::MAX_SPEED;
use crate::NEIGHBOR_RADIUS_SQ;
use crate::SEPARATION_RADIUS_SQ;
use crate::WEIGHT_SCALE;
use crate::WRAP_X;
use crate::WRAP_Y;

verus! {

/// Strictly positive distance (no self-influence, no coincident pairs)
/// and strictly inside the separation radius.
pub open spec fn in_separation_range(p: Vec2, q: Vec2) -> bool {
    0 < dist2(p, q) < SEPARATION_RADIUS_SQ
}

/// Strictly positive distance and strictly inside the neighbor radius
/// shared by alignment, cohesion and repulsion.
pub open spec fn in_neighbor_range(p: Vec2, q: Vec2) -> bool {
    0 < dist2(p, q) < NEIGHBOR_RADIUS_SQ
}

/// One separation contribution: the offset away from a close neighbor,
/// weighted by inverse distance (`offset * SCALE^2 / dist^2` in
/// milli-units).
pub open spec fn sep_term_x(p: Vec2, q: Vec2) -> int {
    if in_separation_range(p, q) {
        tdiv((p.x - q.x) * INV_DIST_NUM, dist2(p, q))
    } else {
        0
    }
}

pub open spec fn sep_term_y(p: Vec2, q: Vec2) -> int {
    if in_separation_range(p, q) {
        tdiv((p.y - q.y) * INV_DIST_NUM, dist2(p, q))
    } else {
        0
    }
}

/// Separation sums and neighbor count over the first `n` agents.
pub open spec fn sep_sum_x(s: Seq<Agent>, p: Vec2, n: int) -> int
    decreases n,
{
    if n <= 0 {
        0
    } else {
        sep_sum_x(s, p, n - 1) + sep_term_x(p, s[n - 1].pos)
    }
}

pub open spec fn sep_sum_y(s: Seq<Agent>, p: Vec2, n: int) -> int
    decreases n,
{
    if n <= 0 {
        0
    } else {
        sep_sum_y(s, p, n - 1) + sep_term_y(p, s[n - 1].pos)
    }
}

pub open spec fn sep_count(s: Seq<Agent>, p: Vec2, n: int) -> int
    decreases n,
{
    if n <= 0 {
        0
    } else {
        sep_count(s, p, n - 1) + if in_separation_range(p, s[n - 1].pos) {
            1int
        } else {
            0int
        }
    }
}

/// Alignment sums the velocities of the neighbors in range.
pub open spec fn align_sum_x(s: Seq<Agent>, p: Vec2, n: int) -> int
    decreases n,
{
    if n <= 0 {
        0
    } else {
        align_sum_x(s, p, n - 1) + if in_neighbor_range(p, s[n - 1].pos) {
            s[n - 1].vel.x as int
        } else {
            0int
        }
    }
}

pub open spec fn align_sum_y(s: Seq<Agent>, p: Vec2, n: int) -> int
    decreases n,
{
    if n <= 0 {
        0
    } else {
        align_sum_y(s, p, n - 1) + if in_neighbor_range(p, s[n - 1].pos) {
            s[n - 1].vel.y as int
        } else {
            0int
        }
    }
}

/// Cohesion sums the positions of the neighbors in range.
pub open spec fn coh_sum_x(s: Seq<Agent>, p: Vec2, n: int) -> int
    decreases n,
{
    if n <= 0 {
        0
    } else {
        coh_sum_x(s, p, n - 1) + if in_neighbor_range(p, s[n - 1].pos) {
            s[n - 1].pos.x as int
        } else {
            0int
        }
    }
}

pub open spec fn coh_sum_y(s: Seq<Agent>, p: Vec2, n: int) -> int
    decreases n,
{
    if n <= 0 {
        0
    } else {
        coh_sum_y(s, p, n - 1) + if in_neighbor_range(p, s[n - 1].pos) {
            s[n - 1].pos.y as int
        } else {
            0int
        }
    }
}

/// Alignment and cohesion share one neighbor count.
pub open spec fn nbr_count(s: Seq<Agent>, p: Vec2, n: int) -> int
    decreases n,
{
    if n <= 0 {
        0
    } else {
        nbr_count(s, p, n - 1) + if in_neighbor_range(p, s[n - 1].pos) {
            1int
        } else {
            0int
        }
    }
}

/// Repulsion sums the positions of the repulsors in range.
pub open spec fn rep_sum_x(s: Seq<Repulsor>, p: Vec2, n: int) -> int
    decreases n,
{
    if n <= 0 {
        0
    } else {
        rep_sum_x(s, p, n - 1) + if in_neighbor_range(p, s[n - 1].pos) {
            s[n - 1].pos.x as int
        } else {
            0int
        }
    }
}

pub open spec fn rep_sum_y(s: Seq<Repulsor>, p: Vec2, n: int) -> int
    decreases n,
{
    if n <= 0 {
        0
    } else {
        rep_sum_y(s, p, n - 1) + if in_neighbor_range(p, s[n - 1].pos) {
            s[n - 1].pos.y as int
        } else {
            0int
        }
    }
}

pub open spec fn rep_count(s: Seq<Repulsor>, p: Vec2, n: int) -> int
    decreases n,
{
    if n <= 0 {
        0
    } else {
        rep_count(s, p, n - 1) + if in_neighbor_range(p, s[n - 1].pos) {
            1int
        } else {
            0int
        }
    }
}

/// The separation force: average the inverse-distance offsets from all
/// close neighbors; if the average is non-zero, rescale it to
/// `MAX_SPEED`, subtract the velocity and clamp to `MAX_FORCE`.
pub open spec fn spec_separation(s: Seq<Agent>, a: Agent) -> (int, int) {
    let n = s.len() as int;
    let c = sep_count(s, a.pos, n);
    if c > 0 {
        let ax = tdiv(sep_sum_x(s, a.pos, n), c);
        let ay = tdiv(sep_sum_y(s, a.pos, n), c);
        if ax == 0 && ay == 0 {
            (0int, 0int)
        } else {
            let d = spec_set_mag(ax, ay, MAX_SPEED as int);
            spec_limit(d.0 - a.vel.x, d.1 - a.vel.y, MAX_FORCE as int)
        }
    } else {
        (0int, 0int)
    }
}

/// The alignment force: steer toward the average velocity of the
/// neighbors in range.
pub open spec fn spec_alignment(s: Seq<Agent>, a: Agent) -> (int, int) {
    let n = s.len() as int;
    let c = nbr_count(s, a.pos, n);
    if c > 0 {
        let avx = tdiv(align_sum_x(s, a.pos, n), c);
        let avy = tdiv(align_sum_y(s, a.pos, n), c);
        let d = spec_set_mag(avx, avy, MAX_SPEED as int);
        spec_limit(d.0 - a.vel.x, d.1 - a.vel.y, MAX_FORCE as int)
    } else {
        (0int, 0int)
    }
}

/// The cohesion force: steer toward the average position of the
/// neighbors in range.
pub open spec fn spec_cohesion(s: Seq<Agent>, a: Agent) -> (int, int) {
    let n = s.len() as int;
    let c = nbr_count(s, a.pos, n);
    if c > 0 {
        let avx = tdiv(coh_sum_x(s, a.pos, n), c);
        let avy = tdiv(coh_sum_y(s, a.pos, n), c);
        let d = spec_set_mag(avx - a.pos.x, avy - a.pos.y, MAX_SPEED as int);
        spec_limit(d.0 - a.vel.x, d.1 - a.vel.y, MAX_FORCE as int)
    } else {
        (0int, 0int)
    }
}

/// The repulsion force: steer directly away from the average position
/// of the repulsors in range (the desired direction is negated before
/// the velocity is subtracted).
pub open spec fn spec_repulsion(s: Seq<Repulsor>, a: Agent) -> (int, int) {
    let n = s.len() as int;
    let c = rep_count(s, a.pos, n);
    if c > 0 {
        let avx = tdiv(rep_sum_x(s, a.pos, n), c);
        let avy = tdiv(rep_sum_y(s, a.pos, n), c);
        let d = spec_set_mag(avx - a.pos.x, avy - a.pos.y, MAX_SPEED as int);
        spec_limit(-d.0 - a.vel.x, -d.1 - a.vel.y, MAX_FORCE as int)
    } else {
        (0int, 0int)
    }
}

/// One behavior's unweighted force.
pub open spec fn spec_behavior_force(
    s: Seq<Agent>,
    reps: Seq<Repulsor>,
    a: Agent,
    b: Behavior,
) -> (int, int) {
    match b {
        Behavior::Separation => spec_separation(s, a),
        Behavior::Alignment => spec_alignment(s, a),
        Behavior::Cohesion => spec_cohesion(s, a),
        Behavior::Repulsion => spec_repulsion(reps, a),
    }
}

/// One behavior's weighted contribution: zero when the behavior is
/// disabled or its weight is not positive, its force scaled by
/// `weight / WEIGHT_SCALE` otherwise.
pub open spec fn spec_contribution(
    s: Seq<Agent>,
    reps: Seq<Repulsor>,
    cfg: SimulationConfig,
    a: Agent,
    b: Behavior,
) -> (int, int) {
    if cfg.enabled_spec(b) && cfg.weight_spec(b) > 0 {
        let f = spec_behavior_force(s, reps, a, b);
        (tdiv(f.0 * cfg.weight_spec(b), WEIGHT_SCALE as int), tdiv(
            f.1 * cfg.weight_spec(b),
            WEIGHT_SCALE as int,
        ))
    } else {
        (0int, 0int)
    }
}

/// The combined acceleration: the sum of the four weighted
/// contributions, in the fixed behavior order.
pub open spec fn spec_accel(
    s: Seq<Agent>,
    reps: Seq<Repulsor>,
    cfg: SimulationConfig,
    a: Agent,
) -> (int, int) {
    let c1 = spec_contribution(s, reps, cfg, a, Behavior::Separation);
    let c2 = spec_contribution(s, reps, cfg, a, Behavior::Alignment);
    let c3 = spec_contribution(s, reps, cfg, a, Behavior::Cohesion);
    let c4 = spec_contribution(s, reps, cfg, a, Behavior::Repulsion);
    (c1.0 + c2.0 + c3.0 + c4.0, c1.1 + c2.1 + c3.1 + c4.1)
}

/// Every behavior's unweighted force is clamped: its magnitude never
/// exceeds `MAX_FORCE`.
pub proof fn lemma_force_bound(s: Seq<Agent>, reps: Seq<Repulsor>, a: Agent, b: Behavior)
    ensures
        ({
            let f = spec_behavior_force(s, reps, a, b);
            f.0 * f.0 + f.1 * f.1 <= MAX_FORCE * MAX_FORCE && -MAX_FORCE <= f.0 <= MAX_FORCE
                && -MAX_FORCE <= f.1 <= MAX_FORCE
        }),
{
    let f = spec_behavior_force(s, reps, a, b);
    match b {
        Behavior::Separation => {
            let n = s.len() as int;
            let c = sep_count(s, a.pos, n);
            if c > 0 {
                let ax = tdiv(sep_sum_x(s, a.pos, n), c);
                let ay = tdiv(sep_sum_y(s, a.pos, n), c);
                if !(ax == 0 && ay == 0) {
                    let d = spec_set_mag(ax, ay, MAX_SPEED as int);
                    lemma_limit_bound(d.0 - a.vel.x, d.1 - a.vel.y, MAX_FORCE as int);
                }
            }
        },
        Behavior::Alignment => {
            let n = s.len() as int;
            let c = nbr_count(s, a.pos, n);
            if c > 0 {
                let avx = tdiv(align_sum_x(s, a.pos, n), c);
                let avy = tdiv(align_sum_y(s, a.pos, n), c);
                let d = spec_set_mag(avx, avy, MAX_SPEED as int);
                lemma_limit_bound(d.0 - a.vel.x, d.1 - a.vel.y, MAX_FORCE as int);
            }
        },
        Behavior::Cohesion => {
            let n = s.len() as int;
            let c = nbr_count(s, a.pos, n);
            if c > 0 {
                let avx = tdiv(coh_sum_x(s, a.pos, n), c);
                let avy = tdiv(coh_sum_y(s, a.pos, n), c);
                let d = spec_set_mag(avx - a.pos.x, avy - a.pos.y, MAX_SPEED as int);
                lemma_limit_bound(d.0 - a.vel.x, d.1 - a.vel.y, MAX_FORCE as int);
            }
        },
        Behavior::Repulsion => {
            let n = reps.len() as int;
            let c = rep_count(reps, a.pos, n);
            if c > 0 {
                let avx = tdiv(rep_sum_x(reps, a.pos, n), c);
                let avy = tdiv(rep_sum_y(reps, a.pos, n), c);
                let d = spec_set_mag(avx - a.pos.x, avy - a.pos.y, MAX_SPEED as int);
                lemma_limit_bound(-d.0 - a.vel.x, -d.1 - a.vel.y, MAX_FORCE as int);
            }
        },
    }
    assert(f.0 * f.0 + f.1 * f.1 >= 0) by (nonlinear_arith);
    lemma_mag2_component_bounds(f.0, f.1, MAX_FORCE as int);
}

/// A weighted contribution stays within `CONTRIB_LIMIT` per component.
pub proof fn lemma_contribution_bound(
    s: Seq<Agent>,
    reps: Seq<Repulsor>,
    cfg: SimulationConfig,
    a: Agent,
    b: Behavior,
)
    requires
        cfg.wf(),
    ensures
        ({
            let c = spec_contribution(s, reps, cfg, a, b);
            -CONTRIB_LIMIT <= c.0 <= CONTRIB_LIMIT && -CONTRIB_LIMIT <= c.1 <= CONTRIB_LIMIT
        }),
{
    if cfg.enabled_spec(b) && cfg.weight_spec(b) > 0 {
        let f = spec_behavior_force(s, reps, a, b);
        let w = cfg.weight_spec(b);
        lemma_force_bound(s, reps, a, b);
        assert(absi(f.0 * w) <= WEIGHT_SCALE * CONTRIB_LIMIT && absi(f.1 * w) <= WEIGHT_SCALE
            * CONTRIB_LIMIT) by (nonlinear_arith)
            requires
                -MAX_FORCE <= f.0 <= MAX_FORCE,
                -MAX_FORCE <= f.1 <= MAX_FORCE,
                0 < w <= crate::WEIGHT_LIMIT,
        ;
        lemma_tdiv_le(f.0 * w, WEIGHT_SCALE as int, CONTRIB_LIMIT as int);
        lemma_tdiv_le(f.1 * w, WEIGHT_SCALE as int, CONTRIB_LIMIT as int);
    }
}

/// The combined acceleration stays within `ACCEL_LIMIT` per component.
pub proof fn lemma_accel_bound(s: Seq<Agent>, reps: Seq<Repulsor>, cfg: SimulationConfig, a: Agent)
    requires
        cfg.wf(),
    ensures
        ({
            let acc = spec_accel(s, reps, cfg, a);
            -ACCEL_LIMIT <= acc.0 <= ACCEL_LIMIT && -ACCEL_LIMIT <= acc.1 <= ACCEL_LIMIT
        }),
{
    lemma_contribution_bound(s, reps, cfg, a, Behavior::Separation);
    lemma_contribution_bound(s, reps, cfg, a, Behavior::Alignment);
    lemma_contribution_bound(s, reps, cfg, a, Behavior::Cohesion);
    lemma_contribution_bound(s, reps, cfg, a, Behavior::Repulsion);
}

/// Per-iteration bounds for a neighbor scan: the offset's squares fit,
/// and a separation term is at most `INV_DIST_NUM` in absolute value.
proof fn lemma_scan_step(p: Vec2, q: Vec2)
    requires
        -COORD_LIMIT <= p.x <= COORD_LIMIT,
        -COORD_LIMIT <= p.y <= COORD_LIMIT,
        -COORD_LIMIT <= q.x <= COORD_LIMIT,
        -COORD_LIMIT <= q.y <= COORD_LIMIT,
    ensures
        0 <= (p.x - q.x) * (p.x - q.x) <= 4_000_000_000_000_000_000,
        0 <= (p.y - q.y) * (p.y - q.y) <= 4_000_000_000_000_000_000,
        -2_000_000_000_000_000 <= (p.x - q.x) * INV_DIST_NUM <= 2_000_000_000_000_000,
        -2_000_000_000_000_000 <= (p.y - q.y) * INV_DIST_NUM <= 2_000_000_000_000_000,
        -INV_DIST_NUM <= sep_term_x(p, q) <= INV_DIST_NUM,
        -INV_DIST_NUM <= sep_term_y(p, q) <= INV_DIST_NUM,
{
    let dx = p.x - q.x;
    let dy = p.y - q.y;
    assert(0 <= dx * dx <= 4_000_000_000_000_000_000 && 0 <= dy * dy
        <= 4_000_000_000_000_000_000) by (nonlinear_arith)
        requires
            -2_000_000_000 <= dx <= 2_000_000_000,
            -2_000_000_000 <= dy <= 2_000_000_000,
    ;
    assert(-2_000_000_000_000_000 <= dx * INV_DIST_NUM <= 2_000_000_000_000_000
        && -2_000_000_000_000_000 <= dy * INV_DIST_NUM <= 2_000_000_000_000_000) by (nonlinear_arith)
        requires
            -2_000_000_000 <= dx <= 2_000_000_000,
            -2_000_000_000 <= dy <= 2_000_000_000,
    ;
    if in_separation_range(p, q) {
        let d2 = dist2(p, q);
        assert(absi(dx) <= d2 && absi(dy) <= d2) by (nonlinear_arith)
            requires
                d2 == dx * dx + dy * dy,
        ;
        assert(absi(dx * INV_DIST_NUM) <= d2 * INV_DIST_NUM && absi(dy * INV_DIST_NUM) <= d2
            * INV_DIST_NUM) by (nonlinear_arith)
            requires
                absi(dx) <= d2,
                absi(dy) <= d2,
                d2 > 0,
        ;
        lemma_tdiv_le(dx * INV_DIST_NUM, d2, INV_DIST_NUM as int);
        lemma_tdiv_le(dy * INV_DIST_NUM, d2, INV_DIST_NUM as int);
    }
}

/// The separation force on `a` from the population snapshot `agents`.
pub fn separation_force(agents: &Vec<Agent>, a: Agent) -> (r: Vec2)
    requires
        agents_ok(agents@),
        agent_ok(a),
    ensures
        (r.x as int, r.y as int) == spec_separation(agents@, a),
        r.mag2() <= MAX_FORCE * MAX_FORCE,
        -MAX_FORCE <= r.x <= MAX_FORCE,
        -MAX_FORCE <= r.y <= MAX_FORCE,
{
    proof {
        lemma_force_bound(agents@, Seq::<Repulsor>::empty(), a, Behavior::Separation);
    }
    let n = agents.len();
    let mut sum_x: i64 = 0;
    let mut sum_y: i64 = 0;
    let mut count: usize = 0;
    let mut j: usize = 0;
    while j < n
        invariant
            n == agents.len(),
            agents_ok(agents@),
            agent_ok(a),
            j <= n,
            count == sep_count(agents@, a.pos, j as int),
            sum_x == sep_sum_x(agents@, a.pos, j as int),
            sum_y == sep_sum_y(agents@, a.pos, j as int),
            count <= j,
            -(count as int) * INV_DIST_NUM <= sum_x <= (count as int) * INV_DIST_NUM,
            -(count as int) * INV_DIST_NUM <= sum_y <= (count as int) * INV_DIST_NUM,
        decreases n - j,
    {
        let other = agents[j];
        proof {
            lemma_scan_step(a.pos, other.pos);
        }
        let dx = a.pos.x - other.pos.x;
        let dy = a.pos.y - other.pos.y;
        let d2 = dx * dx + dy * dy;
        if 0 < d2 && d2 < SEPARATION_RADIUS_SQ {
            let tx = tdiv64(dx * INV_DIST_NUM, d2);
            let ty = tdiv64(dy * INV_DIST_NUM, d2);
            sum_x = sum_x + tx;
            sum_y = sum_y + ty;
            count = count + 1;
        }
        j = j + 1;
    }
    if count > 0 {
        let c = count as i64;
        proof {
            lemma_tdiv_le(sum_x as int, c as int, INV_DIST_NUM as int);
            lemma_tdiv_le(sum_y as int, c as int, INV_DIST_NUM as int);
        }
        let ax = tdiv64(sum_x, c);
        let ay = tdiv64(sum_y, c);
        if ax == 0 && ay == 0 {
            Vec2::zero()
        } else {
            proof {
                lemma_mag2_component_bounds(a.vel.x as int, a.vel.y as int, MAX_SPEED as int);
            }
            let d = set_mag(Vec2 { x: ax, y: ay }, MAX_SPEED);
            let steer = Vec2 { x: d.x - a.vel.x, y: d.y - a.vel.y };
            limit_mag(steer, MAX_FORCE)
        }
    } else {
        Vec2::zero()
    }
}

/// The alignment force on `a` from the population snapshot `agents`.
pub fn alignment_force(agents: &Vec<Agent>, a: Agent) -> (r: Vec2)
    requires
        agents_ok(agents@),
        agent_ok(a),
    ensures
        (r.x as int, r.y as int) == spec_alignment(agents@, a),
        r.mag2() <= MAX_FORCE * MAX_FORCE,
        -MAX_FORCE <= r.x <= MAX_FORCE,
        -MAX_FORCE <= r.y <= MAX_FORCE,
{
    proof {
        lemma_force_bound(agents@, Seq::<Repulsor>::empty(), a, Behavior::Alignment);
    }
    let n = agents.len();
    let mut sum_x: i64 = 0;
    let mut sum_y: i64 = 0;
    let mut count: usize = 0;
    let mut j: usize = 0;
    while j < n
        invariant
            n == agents.len(),
            agents_ok(agents@),
            agent_ok(a),
            j <= n,
            count == nbr_count(agents@, a.pos, j as int),
            sum_x == align_sum_x(agents@, a.pos, j as int),
            sum_y == align_sum_y(agents@, a.pos, j as int),
            count <= j,
            -(count as int) * MAX_SPEED <= sum_x <= (count as int) * MAX_SPEED,
            -(count as int) * MAX_SPEED <= sum_y <= (count as int) * MAX_SPEED,
        decreases n - j,
    {
        let other = agents[j];
        proof {
            lemma_scan_step(a.pos, other.pos);
            lemma_mag2_component_bounds(other.vel.x as int, other.vel.y as int, MAX_SPEED as int);
        }
        let dx = a.pos.x - other.pos.x;
        let dy = a.pos.y - other.pos.y;
        let d2 = dx * dx + dy * dy;
        if 0 < d2 && d2 < NEIGHBOR_RADIUS_SQ {
            sum_x = sum_x + other.vel.x;
            sum_y = sum_y + other.vel.y;
            count = count + 1;
        }
        j = j + 1;
    }
    if count > 0 {
        let c = count as i64;
        proof {
            lemma_tdiv_le(sum_x as int, c as int, MAX_SPEED as int);
            lemma_tdiv_le(sum_y as int, c as int, MAX_SPEED as int);
            lemma_mag2_component_bounds(a.vel.x as int, a.vel.y as int, MAX_SPEED as int);
        }
        let avx = tdiv64(sum_x, c);
        let avy = tdiv64(sum_y, c);
        let d = set_mag(Vec2 { x: avx, y: avy }, MAX_SPEED);
        let steer = Vec2 { x: d.x - a.vel.x, y: d.y - a.vel.y };
        limit_mag(steer, MAX_FORCE)
    } else {
        Vec2::zero()
    }
}

/// The cohesion force on `a` from the population snapshot `agents`.
pub fn cohesion_force(agents: &Vec<Agent>, a: Agent) -> (r: Vec2)
    requires
        agents_ok(agents@),
        agent_ok(a),
    ensures
        (r.x as int, r.y as int) == spec_cohesion(agents@, a),
        r.mag2() <= MAX_FORCE * MAX_FORCE,
        -MAX_FORCE <= r.x <= MAX_FORCE,
        -MAX_FORCE <= r.y <= MAX_FORCE,
{
    proof {
        lemma_force_bound(agents@, Seq::<Repulsor>::empty(), a, Behavior::Cohesion);
    }
    let n = agents.len();
    let mut sum_x: i64 = 0;
    let mut sum_y: i64 = 0;
    let mut count: usize = 0;
    let mut j: usize = 0;
    while j < n
        invariant
            n == agents.len(),
            agents_ok(agents@),
            agent_ok(a),
            j <= n,
            count == nbr_count(agents@, a.pos, j as int),
            sum_x == coh_sum_x(agents@, a.pos, j as int),
            sum_y == coh_sum_y(agents@, a.pos, j as int),
            count <= j,
            -(count as int) * COORD_LIMIT <= sum_x <= (count as int) * COORD_LIMIT,
            -(count as int) * COORD_LIMIT <= sum_y <= (count as int) * COORD_LIMIT,
        decreases n - j,
    {
        let other = agents[j];
        proof {
            lemma_scan_step(a.pos, other.pos);
        }
        let dx = a.pos.x - other.pos.x;
        let dy = a.pos.y - other.pos.y;
        let d2 = dx * dx + dy * dy;
        if 0 < d2 && d2 < NEIGHBOR_RADIUS_SQ {
            sum_x = sum_x + other.pos.x;
            sum_y = sum_y + other.pos.y;
            count = count + 1;
        }
        j = j + 1;
    }
    if count > 0 {
        let c = count as i64;
        proof {
            lemma_tdiv_le(sum_x as int, c as int, COORD_LIMIT as int);
            lemma_tdiv_le(sum_y as int, c as int, COORD_LIMIT as int);
            lemma_mag2_component_bounds(a.vel.x as int, a.vel.y as int, MAX_SPEED as int);
        }
        let avx = tdiv64(sum_x, c);
        let avy = tdiv64(sum_y, c);
        let d = set_mag(Vec2 { x: avx - a.pos.x, y: avy - a.pos.y }, MAX_SPEED);
        let steer = Vec2 { x: d.x - a.vel.x, y: d.y - a.vel.y };
        limit_mag(steer, MAX_FORCE)
    } else {
        Vec2::zero()
    }
}

/// The repulsion force on `a` from the repulsor snapshot `reps`.
pub fn repulsion_force(reps: &Vec<Repulsor>, a: Agent) -> (r: Vec2)
    requires
        repulsors_ok(reps@),
        agent_ok(a),
    ensures
        (r.x as int, r.y as int) == spec_repulsion(reps@, a),
        r.mag2() <= MAX_FORCE * MAX_FORCE,
        -MAX_FORCE <= r.x <= MAX_FORCE,
        -MAX_FORCE <= r.y <= MAX_FORCE,
{
    proof {
        lemma_force_bound(Seq::<Agent>::empty(), reps@, a, Behavior::Repulsion);
    }
    let n = reps.len();
    let mut sum_x: i64 = 0;
    let mut sum_y: i64 = 0;
    let mut count: usize = 0;
    let mut j: usize = 0;
    while j < n
        invariant
            n == reps.len(),
            repulsors_ok(reps@),
            agent_ok(a),
            j <= n,
            count == rep_count(reps@, a.pos, j as int),
            sum_x == rep_sum_x(reps@, a.pos, j as int),
            sum_y == rep_sum_y(reps@, a.pos, j as int),
            count <= j,
            -(count as int) * COORD_LIMIT <= sum_x <= (count as int) * COORD_LIMIT,
            -(count as int) * COORD_LIMIT <= sum_y <= (count as int) * COORD_LIMIT,
        decreases n - j,
    {
        let other = reps[j];
        proof {
            lemma_scan_step(a.pos, other.pos);
        }
        let dx = a.pos.x - other.pos.x;
        let dy = a.pos.y - other.pos.y;
        let d2 = dx * dx + dy * dy;
        if 0 < d2 && d2 < NEIGHBOR_RADIUS_SQ {
            sum_x = sum_x + other.pos.x;
            sum_y = sum_y + other.pos.y;
            count = count + 1;
        }
        j = j + 1;
    }
    if count > 0 {
        let c = count as i64;
        proof {
            lemma_tdiv_le(sum_x as int, c as int, COORD_LIMIT as int);
            lemma_tdiv_le(sum_y as int, c as int, COORD_LIMIT as int);
            lemma_mag2_component_bounds(a.vel.x as int, a.vel.y as int, MAX_SPEED as int);
        }
        let avx = tdiv64(sum_x, c);
        let avy = tdiv64(sum_y, c);
        let d = set_mag(Vec2 { x: avx - a.pos.x, y: avy - a.pos.y }, MAX_SPEED);
        let steer = Vec2 { x: -d.x - a.vel.x, y: -d.y - a.vel.y };
        limit_mag(steer, MAX_FORCE)
    } else {
        Vec2::zero()
    }
}

/// One behavior's weighted contribution; the components are scaled by
/// `w / WEIGHT_SCALE` with truncation.
fn weighted(f: Vec2, w: i64) -> (r: Vec2)
    requires
        -MAX_FORCE <= f.x <= MAX_FORCE,
        -MAX_FORCE <= f.y <= MAX_FORCE,
        0 < w <= crate::WEIGHT_LIMIT,
    ensures
        r.x == tdiv(f.x * w, WEIGHT_SCALE as int),
        r.y == tdiv(f.y * w, WEIGHT_SCALE as int),
        -CONTRIB_LIMIT <= r.x <= CONTRIB_LIMIT,
        -CONTRIB_LIMIT <= r.y <= CONTRIB_LIMIT,
{
    proof {
        assert(absi(f.x * w) <= WEIGHT_SCALE * CONTRIB_LIMIT && absi(f.y * w) <= WEIGHT_SCALE
            * CONTRIB_LIMIT && -100_000_000 <= f.x * w <= 100_000_000 && -100_000_000 <= f.y * w
            <= 100_000_000) by (nonlinear_arith)
            requires
                -MAX_FORCE <= f.x <= MAX_FORCE,
                -MAX_FORCE <= f.y <= MAX_FORCE,
                0 < w <= crate::WEIGHT_LIMIT,
        ;
        lemma_tdiv_le(f.x as int * w as int, WEIGHT_SCALE as int, CONTRIB_LIMIT as int);
        lemma_tdiv_le(f.y as int * w as int, WEIGHT_SCALE as int, CONTRIB_LIMIT as int);
    }
    Vec2 { x: tdiv64(f.x * w, WEIGHT_SCALE), y: tdiv64(f.y * w, WEIGHT_SCALE) }
}

/// The combined acceleration of one agent for this tick. Disabled and
/// non-positively weighted behaviors are skipped without scanning the
/// population at all.
pub fn compute_accel(
    agents: &Vec<Agent>,
    reps: &Vec<Repulsor>,
    cfg: &SimulationConfig,
    a: Agent,
) -> (r: Vec2)
    requires
        agents_ok(agents@),
        repulsors_ok(reps@),
        cfg.wf(),
        agent_ok(a),
    ensures
        (r.x as int, r.y as int) == spec_accel(agents@, reps@, *cfg, a),
        -ACCEL_LIMIT <= r.x <= ACCEL_LIMIT,
        -ACCEL_LIMIT <= r.y <= ACCEL_LIMIT,
{
    let c1 = if cfg.separation_enabled && cfg.separation_weight > 0 {
        weighted(separation_force(agents, a), cfg.separation_weight)
    } else {
        Vec2::zero()
    };
    assert((c1.x as int, c1.y as int) == spec_contribution(
        agents@,
        reps@,
        *cfg,
        a,
        Behavior::Separation,
    ));
    let c2 = if cfg.alignment_enabled && cfg.alignment_weight > 0 {
        weighted(alignment_force(agents, a), cfg.alignment_weight)
    } else {
        Vec2::zero()
    };
    assert((c2.x as int, c2.y as int) == spec_contribution(
        agents@,
        reps@,
        *cfg,
        a,
        Behavior::Alignment,
    ));
    let c3 = if cfg.cohesion_enabled && cfg.cohesion_weight > 0 {
        weighted(cohesion_force(agents, a), cfg.cohesion_weight)
    } else {
        Vec2::zero()
    };
    assert((c3.x as int, c3.y as int) == spec_contribution(
        agents@,
        reps@,
        *cfg,
        a,
        Behavior::Cohesion,
    ));
    let c4 = if cfg.repulsion_enabled && cfg.repulsion_weight > 0 {
        weighted(repulsion_force(reps, a), cfg.repulsion_weight)
    } else {
        Vec2::zero()
    };
    assert((c4.x as int, c4.y as int) == spec_contribution(
        agents@,
        reps@,
        *cfg,
        a,
        Behavior::Repulsion,
    ));
    proof {
        lemma_contribution_bound(agents@, reps@, *cfg, a, Behavior::Separation);
        lemma_contribution_bound(agents@, reps@, *cfg, a, Behavior::Alignment);
        lemma_contribution_bound(agents@, reps@, *cfg, a, Behavior::Cohesion);
        lemma_contribution_bound(agents@, reps@, *cfg, a, Behavior::Repulsion);
    }
    Vec2 { x: c1.x + c2.x + c3.x + c4.x, y: c1.y + c2.y + c3.y + c4.y }
}

/// Toroidal wrap of one coordinate: a position past either threshold
/// jumps to exactly the opposite threshold, anything inside
/// `[-lim, lim]` is untouched.
pub open spec fn spec_wrap(x: int, lim: int) -> int {
    if x < -lim {
        lim
    } else if x > lim {
        -lim
    } else {
        x
    }
}

pub fn wrap_coord(x: i64, lim: i64) -> (r: i64)
    requires
        0 < lim,
    ensures
        r == spec_wrap(x as int, lim as int),
        -lim <= r <= lim,
        x > lim ==> r == -lim,
        x < -lim ==> r == lim,
        -lim <= x <= lim ==> r == x,
{
    if x < -lim {
        lim
    } else if x > lim {
        -lim
    } else {
        x
    }
}

/// The post-tick velocity of one agent: its velocity plus its combined
/// acceleration, clamped to `MAX_SPEED`.
pub open spec fn spec_step_vel(
    s: Seq<Agent>,
    reps: Seq<Repulsor>,
    cfg: SimulationConfig,
    a: Agent,
) -> (int, int) {
    let acc = spec_accel(s, reps, cfg, a);
    spec_limit(a.vel.x + acc.0, a.vel.y + acc.1, MAX_SPEED as int)
}

/// The post-tick position of one agent: its position advanced by the
/// new velocity, wrapped per axis.
pub open spec fn spec_step_pos(
    s: Seq<Agent>,
    reps: Seq<Repulsor>,
    cfg: SimulationConfig,
    a: Agent,
) -> (int, int) {
    let v = spec_step_vel(s, reps, cfg, a);
    (spec_wrap(a.pos.x + v.0, WRAP_X as int), spec_wrap(a.pos.y + v.1, WRAP_Y as int))
}

/// `a2` is exactly the one-tick successor of `a` against the snapshot.
pub open spec fn spec_stepped(
    s: Seq<Agent>,
    reps: Seq<Repulsor>,
    cfg: SimulationConfig,
    a: Agent,
    a2: Agent,
) -> bool {
    let v = spec_step_vel(s, reps, cfg, a);
    let p = spec_step_pos(s, reps, cfg, a);
    a2.vel.x == v.0 && a2.vel.y == v.1 && a2.pos.x == p.0 && a2.pos.y == p.1
}

/// Advance one agent a unit step against the pre-tick snapshot.
pub fn step_agent(
    agents: &Vec<Agent>,
    reps: &Vec<Repulsor>,
    cfg: &SimulationConfig,
    a: Agent,
) -> (r: Agent)
    requires
        agents_ok(agents@),
        repulsors_ok(reps@),
        cfg.wf(),
        agent_ok(a),
    ensures
        spec_stepped(agents@, reps@, *cfg, a, r),
        agent_ok(r),
        r.vel.mag2() <= MAX_SPEED * MAX_SPEED,
        -WRAP_X <= r.pos.x <= WRAP_X,
        -WRAP_Y <= r.pos.y <= WRAP_Y,
{
    let acc = compute_accel(agents, reps, cfg, a);
    proof {
        lemma_mag2_component_bounds(a.vel.x as int, a.vel.y as int, MAX_SPEED as int);
    }
    let nv = limit_mag(Vec2 { x: a.vel.x + acc.x, y: a.vel.y + acc.y }, MAX_SPEED);
    let np = Vec2 { x: wrap_coord(a.pos.x + nv.x, WRAP_X), y: wrap_coord(a.pos.y + nv.y, WRAP_Y) };
    Agent { pos: np, vel: nv }
}

} // verus!
