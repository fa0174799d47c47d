//! The library's general laws, stated over the engine's specification
//! functions and proved once and for all. The speed bound and the wrap
//! exactness live directly in the `ensures` of `Simulation::tick` and
//! `wrap_coord`; the force bound in the `ensures` of the four force
//! functions and `lemma_force_bound`.

use vstd::prelude::*;

use crate::engine::in_neighbor_range;
use crate::engine::nbr_count;
use crate::engine::rep_count;
use crate::engine::sep_count;
use crate::engine::spec_accel;
use crate::engine::spec_alignment;
use crate::engine::spec_cohesion;
use crate::engine::spec_contribution;
use crate::engine::spec_repulsion;
use crate::engine::spec_separation;
use crate::engine::spec_step_pos;
use crate::engine::spec_step_vel;
use crate::math::lemma_floor_sqrt_unique;
use crate::math::tdiv;
use crate::model::Agent;
use crate::model::Behavior;
use crate::model::Repulsor;
use crate::model::SimulationConfig;
use crate::vec2::dist2;
use crate::vec2::spec_set_mag;
use crate::vec2::Vec2;
use crate::SCALE;

verus! {

proof fn lemma_nbr_count_zero(s: Seq<Agent>, p: Vec2, n: int)
    requires
        forall|j: int| 0 <= j < s.len() ==> !(#[trigger] in_neighbor_range(p, s[j].pos)),
        n <= s.len(),
    ensures
        nbr_count(s, p, n) == 0,
    decreases n,
{
    if n > 0 {
        lemma_nbr_count_zero(s, p, n - 1);
    }
}

proof fn lemma_rep_count_zero(s: Seq<Repulsor>, p: Vec2, n: int)
    requires
        forall|j: int| 0 <= j < s.len() ==> !(#[trigger] in_neighbor_range(p, s[j].pos)),
        n <= s.len(),
    ensures
        rep_count(s, p, n) == 0,
    decreases n,
{
    if n > 0 {
        lemma_rep_count_zero(s, p, n - 1);
    }
}

/// Zero-neighbor behavior: an agent with no agent and no repulsor
/// inside the neighbor radius receives exactly zero acceleration from
/// alignment, cohesion and repulsion.
pub proof fn lemma_zero_neighbors(s: Seq<Agent>, reps: Seq<Repulsor>, a: Agent)
    requires
        forall|j: int| 0 <= j < s.len() ==> !(#[trigger] in_neighbor_range(a.pos, s[j].pos)),
        forall|j: int| 0 <= j < reps.len() ==> !(#[trigger] in_neighbor_range(a.pos, reps[j].pos)),
    ensures
        spec_alignment(s, a) == (0int, 0int),
        spec_cohesion(s, a) == (0int, 0int),
        spec_repulsion(reps, a) == (0int, 0int),
{
    lemma_nbr_count_zero(s, a.pos, s.len() as int);
    lemma_rep_count_zero(reps, a.pos, reps.len() as int);
}

proof fn lemma_sep_count_coincident(s: Seq<Agent>, p: Vec2, n: int)
    requires
        forall|j: int| 0 <= j < s.len() ==> (#[trigger] s[j]).pos == p,
        n <= s.len(),
    ensures
        sep_count(s, p, n) == 0,
    decreases n,
{
    if n > 0 {
        lemma_sep_count_coincident(s, p, n - 1);
        assert(dist2(p, s[n - 1].pos) == 0) by (nonlinear_arith)
            requires
                s[n - 1].pos == p,
        ;
    }
}

/// Self-exclusion: a pair at distance zero is no separation neighbor.
/// A population in which every agent sits exactly at `a`'s own point —
/// in particular a population of one, or two coincident agents — yields
/// a separation force of exactly zero.
pub proof fn lemma_separation_self_exclusion(s: Seq<Agent>, a: Agent)
    requires
        forall|j: int| 0 <= j < s.len() ==> (#[trigger] s[j]).pos == a.pos,
    ensures
        spec_separation(s, a) == (0int, 0int),
{
    lemma_sep_count_coincident(s, a.pos, s.len() as int);
}

/// `cfg` with behavior `b` switched off.
pub open spec fn spec_without(cfg: SimulationConfig, b: Behavior) -> SimulationConfig {
    match b {
        Behavior::Separation => SimulationConfig { separation_enabled: false, ..cfg },
        Behavior::Alignment => SimulationConfig { alignment_enabled: false, ..cfg },
        Behavior::Cohesion => SimulationConfig { cohesion_enabled: false, ..cfg },
        Behavior::Repulsion => SimulationConfig { repulsion_enabled: false, ..cfg },
    }
}

/// `cfg` with every behavior but `b` switched off; `b` keeps its own
/// flag and all weights are kept.
pub open spec fn spec_only(cfg: SimulationConfig, b: Behavior) -> SimulationConfig {
    SimulationConfig {
        separation_enabled: b == Behavior::Separation && cfg.separation_enabled,
        alignment_enabled: b == Behavior::Alignment && cfg.alignment_enabled,
        cohesion_enabled: b == Behavior::Cohesion && cfg.cohesion_enabled,
        repulsion_enabled: b == Behavior::Repulsion && cfg.repulsion_enabled,
        ..cfg
    }
}

/// Toggle correctness: the acceleration under `cfg` is exactly the sum
/// of the acceleration with `b` disabled and the acceleration with only
/// `b` enabled — disabling a behavior removes precisely its weighted
/// contribution.
pub proof fn lemma_toggle_decomposition(
    s: Seq<Agent>,
    reps: Seq<Repulsor>,
    cfg: SimulationConfig,
    a: Agent,
    b: Behavior,
)
    ensures
        ({
            let full = spec_accel(s, reps, cfg, a);
            let without = spec_accel(s, reps, spec_without(cfg, b), a);
            let solo = spec_accel(s, reps, spec_only(cfg, b), a);
            full.0 == without.0 + solo.0 && full.1 == without.1 + solo.1
        }),
{
    match b {
        Behavior::Separation => {
            assert(forall|x: Behavior|
                spec_contribution(s, reps, spec_without(cfg, b), a, x) == if x == b {
                    (0int, 0int)
                } else {
                    spec_contribution(s, reps, cfg, a, x)
                });
            assert(forall|x: Behavior|
                spec_contribution(s, reps, spec_only(cfg, b), a, x) == if x == b {
                    spec_contribution(s, reps, cfg, a, x)
                } else {
                    (0int, 0int)
                });
        },
        Behavior::Alignment => {
            assert(forall|x: Behavior|
                spec_contribution(s, reps, spec_without(cfg, b), a, x) == if x == b {
                    (0int, 0int)
                } else {
                    spec_contribution(s, reps, cfg, a, x)
                });
            assert(forall|x: Behavior|
                spec_contribution(s, reps, spec_only(cfg, b), a, x) == if x == b {
                    spec_contribution(s, reps, cfg, a, x)
                } else {
                    (0int, 0int)
                });
        },
        Behavior::Cohesion => {
            assert(forall|x: Behavior|
                spec_contribution(s, reps, spec_without(cfg, b), a, x) == if x == b {
                    (0int, 0int)
                } else {
                    spec_contribution(s, reps, cfg, a, x)
                });
            assert(forall|x: Behavior|
                spec_contribution(s, reps, spec_only(cfg, b), a, x) == if x == b {
                    spec_contribution(s, reps, cfg, a, x)
                } else {
                    (0int, 0int)
                });
        },
        Behavior::Repulsion => {
            assert(forall|x: Behavior|
                spec_contribution(s, reps, spec_without(cfg, b), a, x) == if x == b {
                    (0int, 0int)
                } else {
                    spec_contribution(s, reps, cfg, a, x)
                });
            assert(forall|x: Behavior|
                spec_contribution(s, reps, spec_only(cfg, b), a, x) == if x == b {
                    spec_contribution(s, reps, cfg, a, x)
                } else {
                    (0int, 0int)
                });
        },
    }
}

/// Repulsion direction: a lone repulsor 10 world units due east of a
/// resting agent produces a repulsion force that points strictly west
/// and not at all vertically.
pub proof fn lemma_repulsion_points_away(a: Agent, r: Repulsor)
    requires
        a.vel.x == 0,
        a.vel.y == 0,
        r.pos.x == a.pos.x + 10 * SCALE,
        r.pos.y == a.pos.y,
    ensures
        spec_repulsion(seq![r], a).0 < 0,
        spec_repulsion(seq![r], a).1 == 0,
{
    let s = seq![r];
    assert(s.len() == 1 && s[0] == r);
    assert(dist2(a.pos, r.pos) == 100_000_000) by (nonlinear_arith)
        requires
            r.pos.x == a.pos.x + 10_000,
            r.pos.y == a.pos.y,
    ;
    assert(in_neighbor_range(a.pos, r.pos));
    assert(rep_count(s, a.pos, 0) == 0);
    assert(crate::engine::rep_sum_x(s, a.pos, 0) == 0);
    assert(crate::engine::rep_sum_y(s, a.pos, 0) == 0);
    assert(rep_count(s, a.pos, 1) == 1);
    let sx = crate::engine::rep_sum_x(s, a.pos, 1);
    let sy = crate::engine::rep_sum_y(s, a.pos, 1);
    assert(sx == r.pos.x as int && sy == r.pos.y as int);
    let avx = tdiv(sx, 1);
    let avy = tdiv(sy, 1);
    assert(avx == sx && avy == sy);
    let dx = avx - a.pos.x;
    let dy = avy - a.pos.y;
    assert(dx == 10_000 && dy == 0);
    assert(dx * dx + dy * dy == 100_000_000) by (nonlinear_arith)
        requires
            dx == 10_000,
            dy == 0,
    ;
    assert(10_000int * 10_000int == 100_000_000 && 10_001int * 10_001int
        == 100_020_001) by (nonlinear_arith);
    lemma_floor_sqrt_unique(100_000_000nat, 10_000nat);
    let d = spec_set_mag(dx, dy, 2000);
    assert(d.0 == tdiv(10_000int * 2000, 10_000int) && d.1 == tdiv(0int * 2000, 10_000int));
    assert(d.0 == 2000 && d.1 == 0);
    let stx = -d.0 - a.vel.x;
    let sty = -d.1 - a.vel.y;
    assert(stx == -2000 && sty == 0);
    assert(stx * stx + sty * sty == 4_000_000) by (nonlinear_arith)
        requires
            stx == -2000,
            sty == 0,
    ;
    assert(2000int * 2000int == 4_000_000 && 2001int * 2001int == 4_004_001) by (nonlinear_arith);
    lemma_floor_sqrt_unique(4_000_000nat, 2000nat);
    let f = crate::vec2::spec_limit(stx, sty, 30);
    assert(f.0 == tdiv(-2000int * 30, 2000int) && f.1 == tdiv(0int * 30, 2000int));
    assert(f.0 == -30 && f.1 == 0);
    assert(spec_repulsion(s, a) == f);
}

/// Determinism: one step is a pure function of the snapshot. Equal
/// populations, repulsors, configurations and agents step to equal
/// velocities and positions — two ticks from the same state agree
/// bit for bit.
pub proof fn lemma_step_deterministic(
    s1: Seq<Agent>,
    reps1: Seq<Repulsor>,
    cfg1: SimulationConfig,
    a1: Agent,
    s2: Seq<Agent>,
    reps2: Seq<Repulsor>,
    cfg2: SimulationConfig,
    a2: Agent,
)
    requires
        s1 == s2,
        reps1 == reps2,
        cfg1 == cfg2,
        a1 == a2,
    ensures
        spec_step_vel(s1, reps1, cfg1, a1) == spec_step_vel(s2, reps2, cfg2, a2),
        spec_step_pos(s1, reps1, cfg1, a1) == spec_step_pos(s2, reps2, cfg2, a2),
{
}

} // verus!
