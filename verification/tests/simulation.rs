//! Controller-level tests: commands, the tick invariants, wrapping,
//! determinism and the two-agent scenario.

use boids::model::Agent;
use boids::model::Behavior;
use boids::model::Repulsor;
use boids::model::SimulationConfig;
use boids::rng::heading_from_bits;
use boids::sim::Simulation;
use boids::vec2::Vec2;
use boids::INITIAL_AGENT_COUNT;
use boids::MAX_SPEED;
use boids::SCALE;
use boids::UNIT_SPEED_SQ_MIN;
use boids::WRAP_X;
use boids::WRAP_Y;

fn mag2(v: Vec2) -> i64 {
    v.x * v.x + v.y * v.y
}

fn unit_speed(v: Vec2) -> bool {
    UNIT_SPEED_SQ_MIN <= mag2(v) && mag2(v) <= SCALE * SCALE
}

#[test]
fn fresh_simulation_spawns_the_default_flock() {
    let sim = Simulation::new(7);
    assert_eq!(sim.agents.len(), INITIAL_AGENT_COUNT);
    assert!(sim.repulsors.is_empty());
    for a in sim.agents.iter() {
        assert_eq!(a.pos, Vec2 { x: 0, y: 0 });
        assert!(unit_speed(a.vel));
    }
    let cfg = sim.config;
    assert!(cfg.separation_enabled && cfg.alignment_enabled);
    assert!(cfg.cohesion_enabled && cfg.repulsion_enabled);
    assert_eq!(cfg.separation_weight, 1500);
    assert_eq!(cfg.alignment_weight, 1000);
    assert_eq!(cfg.cohesion_weight, 1000);
    assert_eq!(cfg.repulsion_weight, 1500);
}

#[test]
fn spawn_agent_appends_at_unit_speed() {
    let mut sim = Simulation::new(11);
    sim.spawn_agent(5_000, 6_000);
    assert_eq!(sim.agents.len(), INITIAL_AGENT_COUNT + 1);
    let a = sim.agents.last().unwrap();
    assert_eq!(a.pos, Vec2 { x: 5_000, y: 6_000 });
    assert!(unit_speed(a.vel));
}

#[test]
fn spawn_repulsor_appends_exactly() {
    let mut sim = Simulation::new(11);
    sim.spawn_repulsor(-7_000, 8_000);
    assert_eq!(sim.repulsors.len(), 1);
    assert_eq!(sim.repulsors[0].pos, Vec2 { x: -7_000, y: 8_000 });
}

#[test]
fn spawn_with_velocity_is_exact() {
    let mut sim = Simulation::from_parts(Vec::new(), Vec::new(), SimulationConfig::new(), 0);
    sim.spawn_agent_with_velocity(1_000, 2_000, 300, 400);
    assert_eq!(sim.agents.len(), 1);
    assert_eq!(sim.agents[0].pos, Vec2 { x: 1_000, y: 2_000 });
    assert_eq!(sim.agents[0].vel, Vec2 { x: 300, y: 400 });
}

#[test]
fn toggle_flips_only_that_flag() {
    let mut sim = Simulation::new(1);
    sim.toggle(Behavior::Cohesion);
    assert!(!sim.config.cohesion_enabled);
    assert!(sim.config.separation_enabled);
    assert!(sim.config.alignment_enabled);
    assert!(sim.config.repulsion_enabled);
    assert_eq!(sim.config.cohesion_weight, 1000);
    sim.toggle(Behavior::Cohesion);
    assert!(sim.config.cohesion_enabled);
}

#[test]
fn reset_discards_population_but_keeps_config() {
    let mut sim = Simulation::new(3);
    sim.spawn_agent(1_000, 1_000);
    sim.spawn_agent(-2_000, 500);
    sim.spawn_repulsor(0, 0);
    sim.toggle(Behavior::Separation);
    sim.set_weight(Behavior::Alignment, 250);
    sim.reset();
    assert_eq!(sim.agents.len(), INITIAL_AGENT_COUNT);
    assert!(sim.repulsors.is_empty());
    for a in sim.agents.iter() {
        assert_eq!(a.pos, Vec2 { x: 0, y: 0 });
        assert!(unit_speed(a.vel));
    }
    // The configuration survives a reset as it stands.
    assert!(!sim.config.separation_enabled);
    assert_eq!(sim.config.alignment_weight, 250);
}

#[test]
fn speed_stays_bounded_over_many_ticks() {
    let agents = vec![
        Agent::new(0, 0, 1000, 0),
        Agent::new(10_000, 0, -1000, 0),
        Agent::new(5_000, 5_000, 2000, 0),
        Agent::new(100_000, -50_000, 0, -2000),
        Agent::new(-3_000, 2_000, 1200, 1600),
    ];
    let reps = vec![Repulsor::new(20_000, 0)];
    let mut sim = Simulation::from_parts(agents, reps, SimulationConfig::new(), 5);
    for _ in 0..10 {
        sim.tick();
        for a in sim.agents.iter() {
            assert!(mag2(a.vel) <= MAX_SPEED * MAX_SPEED);
            assert!(-WRAP_X <= a.pos.x && a.pos.x <= WRAP_X);
            assert!(-WRAP_Y <= a.pos.y && a.pos.y <= WRAP_Y);
        }
    }
}

#[test]
fn wrap_is_exact_on_the_right_edge() {
    // A lone agent feels no force, so one tick moves it from
    // x = WRAP_X - 999 by +1000 to WRAP_X + 1, which wraps to exactly
    // -WRAP_X.
    let agents = vec![Agent::new(WRAP_X - 999, 0, 1000, 0)];
    let mut sim = Simulation::from_parts(agents, Vec::new(), SimulationConfig::new(), 0);
    sim.tick();
    assert_eq!(sim.agents[0].pos, Vec2 { x: -WRAP_X, y: 0 });
    assert_eq!(sim.agents[0].vel, Vec2 { x: 1000, y: 0 });
}

#[test]
fn wrap_is_exact_on_the_left_edge() {
    let agents = vec![Agent::new(-WRAP_X + 999, 0, -1000, 0)];
    let mut sim = Simulation::from_parts(agents, Vec::new(), SimulationConfig::new(), 0);
    sim.tick();
    assert_eq!(sim.agents[0].pos, Vec2 { x: WRAP_X, y: 0 });
}

#[test]
fn wrap_is_exact_on_both_vertical_edges() {
    let agents = vec![
        Agent::new(0, WRAP_Y - 999, 0, 1000),
        Agent::new(0, -WRAP_Y + 999, 0, -1000),
    ];
    // The two agents are far apart (over 600 units), so neither feels
    // the other.
    let mut sim = Simulation::from_parts(agents, Vec::new(), SimulationConfig::new(), 0);
    sim.tick();
    assert_eq!(sim.agents[0].pos, Vec2 { x: 0, y: -WRAP_Y });
    assert_eq!(sim.agents[1].pos, Vec2 { x: 0, y: WRAP_Y });
}

#[test]
fn ticks_are_deterministic_across_instances() {
    let build = |seed: u64| {
        let agents = vec![
            Agent::new(0, 0, 1000, 0),
            Agent::new(10_000, 0, -1000, 0),
            Agent::new(-4_000, 9_000, 0, 1500),
        ];
        let reps = vec![Repulsor::new(2_000, -3_000)];
        Simulation::from_parts(agents, reps, SimulationConfig::new(), seed)
    };
    // Different seeds: the random source plays no part in ticking.
    let mut s1 = build(1);
    let mut s2 = build(99);
    for _ in 0..5 {
        s1.tick();
        s2.tick();
    }
    assert_eq!(s1.agents, s2.agents);
    assert_eq!(s1.repulsors, s2.repulsors);
    assert_eq!(s1.config, s2.config);
}

#[test]
fn two_agent_scenario_pulls_apart_symmetrically() {
    // Agents at (0,0) and (10,0) world units, velocities (1,0) and
    // (-1,0). Separation dominates cohesion (weights 1.5 vs 1.0), so
    // the left agent slows and the right one speeds up symmetrically.
    let agents = vec![
        Agent::new(0, 0, 1000, 0),
        Agent::new(10_000, 0, -1000, 0),
    ];
    let mut sim = Simulation::from_parts(agents, Vec::new(), SimulationConfig::new(), 0);
    sim.tick();
    let left = sim.agents[0];
    let right = sim.agents[1];
    // Combined acceleration is -45 (separation -45, alignment -30,
    // cohesion +30) on the left and +45 on the right.
    let left_dvx = left.vel.x - 1000;
    let right_dvx = right.vel.x - (-1000);
    assert!(left_dvx < 0);
    assert!(right_dvx > 0);
    assert_eq!(left_dvx, -right_dvx);
    assert_eq!(left.vel, Vec2 { x: 955, y: 0 });
    assert_eq!(right.vel, Vec2 { x: -955, y: 0 });
    assert_eq!(left.pos, Vec2 { x: 955, y: 0 });
    assert_eq!(right.pos, Vec2 { x: 9_045, y: 0 });
}

#[test]
fn heading_follows_the_bits_exactly() {
    // Drawn coordinate -1000 leaves nothing for the other axis.
    assert_eq!(heading_from_bits(0), Vec2 { x: -1000, y: 0 });
    // Drawn coordinate -999: the rest is isqrt(1999) = 44.
    assert_eq!(heading_from_bits(1), Vec2 { x: -999, y: 44 });
    // Drawn coordinate 0 completes to the full unit magnitude.
    assert_eq!(heading_from_bits(1000), Vec2 { x: 0, y: 1000 });
    // The next bit flips the completing coordinate's sign ...
    assert_eq!(heading_from_bits(2001 + 1000), Vec2 { x: 0, y: -1000 });
    // ... and the bit after that swaps which axis was drawn.
    assert_eq!(heading_from_bits(4002 + 1000), Vec2 { x: 1000, y: 0 });
}

#[test]
fn spawn_headings_follow_the_seed() {
    // The random source is a pure function of the seed: the same seed
    // reproduces the same flock, and another seed scatters it
    // differently.
    let s1 = Simulation::new(1234);
    let s2 = Simulation::new(1234);
    let s3 = Simulation::new(4321);
    assert_eq!(s1.agents, s2.agents);
    assert_ne!(s1.agents, s3.agents);
}

#[test]
fn lone_agent_with_repulsor_steers_west() {
    // Repulsion weight 1.5 turns the clamped force (-30, 0) into an
    // acceleration of exactly (-45, 0).
    let agents = vec![Agent::new(0, 0, 0, 0)];
    let reps = vec![Repulsor::new(10_000, 0)];
    let mut sim = Simulation::from_parts(agents, reps, SimulationConfig::new(), 0);
    sim.tick();
    assert_eq!(sim.agents[0].vel, Vec2 { x: -45, y: 0 });
    assert_eq!(sim.agents[0].pos, Vec2 { x: -45, y: 0 });
}
