//! Behavior-level tests: each steering force on small, hand-checked
//! populations.

use boids::engine::alignment_force;
use boids::engine::cohesion_force;
use boids::engine::compute_accel;
use boids::engine::repulsion_force;
use boids::engine::separation_force;
use boids::model::Agent;
use boids::model::Repulsor;
use boids::model::SimulationConfig;
use boids::vec2::Vec2;
use boids::MAX_FORCE;

fn mag2(v: Vec2) -> i64 {
    v.x * v.x + v.y * v.y
}

#[test]
fn zero_neighbor_forces_are_zero() {
    // The other agent is 100 units away, the repulsor 60: both outside
    // the 50-unit neighbor radius.
    let a = Agent::new(0, 0, 1000, 0);
    let agents = vec![a, Agent::new(100_000, 0, -1000, 0)];
    let reps = vec![Repulsor::new(0, 60_000)];
    assert_eq!(alignment_force(&agents, a), Vec2 { x: 0, y: 0 });
    assert_eq!(cohesion_force(&agents, a), Vec2 { x: 0, y: 0 });
    assert_eq!(repulsion_force(&reps, a), Vec2 { x: 0, y: 0 });
}

#[test]
fn separation_excludes_coincident_agents() {
    // Two agents at exactly the same point: distance zero is excluded,
    // so neither pushes the other.
    let a = Agent::new(42_000, -1000, 500, 0);
    let b = Agent::new(42_000, -1000, -500, 0);
    let agents = vec![a, b];
    assert_eq!(separation_force(&agents, a), Vec2 { x: 0, y: 0 });
    assert_eq!(separation_force(&agents, b), Vec2 { x: 0, y: 0 });
}

#[test]
fn separation_of_lone_agent_is_zero() {
    let a = Agent::new(0, 0, 2000, 0);
    let agents = vec![a];
    assert_eq!(separation_force(&agents, a), Vec2 { x: 0, y: 0 });
}

#[test]
fn repulsion_points_away_from_east_repulsor() {
    // A repulsor 10 units due east of a resting agent pushes it west:
    // the desired velocity (-2000, 0) clamps to exactly (-30, 0).
    let a = Agent::new(0, 0, 0, 0);
    let reps = vec![Repulsor::new(10_000, 0)];
    let f = repulsion_force(&reps, a);
    assert!(f.x < 0);
    assert_eq!(f, Vec2 { x: -30, y: 0 });
}

#[test]
fn every_force_respects_the_force_bound() {
    // A tight cluster with varied velocities plus two close repulsors.
    let agents = vec![
        Agent::new(0, 0, 2000, 0),
        Agent::new(1000, 500, -1200, 1600),
        Agent::new(2000, -1000, 0, -2000),
        Agent::new(-1500, 800, 500, 500),
    ];
    let reps = vec![Repulsor::new(3000, 0), Repulsor::new(-2000, 1000)];
    let bound = MAX_FORCE * MAX_FORCE;
    for a in agents.iter() {
        assert!(mag2(separation_force(&agents, *a)) <= bound);
        assert!(mag2(alignment_force(&agents, *a)) <= bound);
        assert!(mag2(cohesion_force(&agents, *a)) <= bound);
        assert!(mag2(repulsion_force(&reps, *a)) <= bound);
    }
}

#[test]
fn disabling_a_behavior_removes_exactly_its_share() {
    // The combined acceleration equals the acceleration without
    // separation plus the acceleration with separation alone.
    let agents = vec![
        Agent::new(0, 0, 1000, 0),
        Agent::new(10_000, 0, -1000, 0),
        Agent::new(30_000, 20_000, 0, 2000),
    ];
    let reps = vec![Repulsor::new(15_000, 5_000)];
    let full_cfg = SimulationConfig::new();
    let mut without_cfg = SimulationConfig::new();
    without_cfg.separation_enabled = false;
    let mut solo_cfg = SimulationConfig::new();
    solo_cfg.alignment_enabled = false;
    solo_cfg.cohesion_enabled = false;
    solo_cfg.repulsion_enabled = false;
    for a in agents.iter() {
        let full = compute_accel(&agents, &reps, &full_cfg, *a);
        let without = compute_accel(&agents, &reps, &without_cfg, *a);
        let solo = compute_accel(&agents, &reps, &solo_cfg, *a);
        assert_eq!(full.x, without.x + solo.x);
        assert_eq!(full.y, without.y + solo.y);
    }
}

#[test]
fn zero_or_negative_weight_acts_like_disabled() {
    let agents = vec![Agent::new(0, 0, 0, 0), Agent::new(10_000, 0, -1000, 0)];
    let reps = vec![Repulsor::new(5_000, 5_000)];
    let mut disabled = SimulationConfig::new();
    disabled.repulsion_enabled = false;
    let mut zero_weight = SimulationConfig::new();
    zero_weight.repulsion_weight = 0;
    let mut negative_weight = SimulationConfig::new();
    negative_weight.repulsion_weight = -500;
    for a in agents.iter() {
        let want = compute_accel(&agents, &reps, &disabled, *a);
        assert_eq!(compute_accel(&agents, &reps, &zero_weight, *a), want);
        assert_eq!(compute_accel(&agents, &reps, &negative_weight, *a), want);
    }
}
