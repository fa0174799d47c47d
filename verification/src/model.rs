//! The simulation's data model: agents, repulsor points, the behavior
//! enumeration and the tunable configuration, together with the
//! well-formedness conditions every store maintains.

use vstd::prelude::*;

use crate::vec2::Vec2;
use crate::COORD_LIMIT;
use crate::DEFAULT_ALIGNMENT_WEIGHT;
use crate::DEFAULT_COHESION_WEIGHT;
use crate::DEFAULT_REPULSION_WEIGHT;
use crate::DEFAULT_SEPARATION_WEIGHT;
use crate::MAX_POPULATION;
use crate::MAX_SPEED;
use crate::WEIGHT_LIMIT;

verus! {

/// One flocking entity: a position and a velocity, both in milli-units.
#[derive(Clone, Copy, Debug, PartialEq, Eq, Structural)]
pub struct Agent {
    pub pos: Vec2,
    pub vel: Vec2,
}

/// A static point the flock steers away from.
#[derive(Clone, Copy, Debug, PartialEq, Eq, Structural)]
pub struct Repulsor {
    pub pos: Vec2,
}

/// The four composable steering behaviors, in their fixed evaluation
/// order.
#[derive(Clone, Copy, Debug, PartialEq, Eq, Structural)]
pub enum Behavior {
    Separation,
    Alignment,
    Cohesion,
    Repulsion,
}

/// The tunable state: one enable flag and one fixed-point weight
/// (`WEIGHT_SCALE` denominator) per behavior.
#[derive(Clone, Copy, Debug, PartialEq, Eq, Structural)]
pub struct SimulationConfig {
    pub separation_enabled: bool,
    pub alignment_enabled: bool,
    pub cohesion_enabled: bool,
    pub repulsion_enabled: bool,
    pub separation_weight: i64,
    pub alignment_weight: i64,
    pub cohesion_weight: i64,
    pub repulsion_weight: i64,
}

/// An agent's numeric state is in range: its position fits the
/// coordinate window and its speed respects the cap.
pub open spec fn agent_ok(a: Agent) -> bool {
    &&& -COORD_LIMIT <= a.pos.x <= COORD_LIMIT
    &&& -COORD_LIMIT <= a.pos.y <= COORD_LIMIT
    &&& a.vel.mag2() <= MAX_SPEED * MAX_SPEED
}

pub open spec fn repulsor_ok(r: Repulsor) -> bool {
    &&& -COORD_LIMIT <= r.pos.x <= COORD_LIMIT
    &&& -COORD_LIMIT <= r.pos.y <= COORD_LIMIT
}

/// A well-formed population: bounded in size, every agent in range.
pub open spec fn agents_ok(s: Seq<Agent>) -> bool {
    &&& s.len() <= MAX_POPULATION
    &&& forall|i: int| 0 <= i < s.len() ==> agent_ok(#[trigger] s[i])
}

pub open spec fn repulsors_ok(s: Seq<Repulsor>) -> bool {
    &&& s.len() <= MAX_POPULATION
    &&& forall|i: int| 0 <= i < s.len() ==> repulsor_ok(#[trigger] s[i])
}

impl Agent {
    /// Build an agent from explicit coordinates and velocity.
    pub fn new(x: i64, y: i64, vx: i64, vy: i64) -> (a: Agent)
        requires
            -COORD_LIMIT <= x <= COORD_LIMIT,
            -COORD_LIMIT <= y <= COORD_LIMIT,
            vx * vx + vy * vy <= MAX_SPEED * MAX_SPEED,
        ensures
            a.pos.x == x,
            a.pos.y == y,
            a.vel.x == vx,
            a.vel.y == vy,
            agent_ok(a),
    {
        Agent { pos: Vec2 { x, y }, vel: Vec2 { x: vx, y: vy } }
    }
}

impl Repulsor {
    pub fn new(x: i64, y: i64) -> (r: Repulsor)
        requires
            -COORD_LIMIT <= x <= COORD_LIMIT,
            -COORD_LIMIT <= y <= COORD_LIMIT,
        ensures
            r.pos.x == x,
            r.pos.y == y,
            repulsor_ok(r),
    {
        Repulsor { pos: Vec2 { x, y } }
    }
}

impl SimulationConfig {
    /// Whether a behavior is switched on.
    pub open spec fn enabled_spec(self, b: Behavior) -> bool {
        match b {
            Behavior::Separation => self.separation_enabled,
            Behavior::Alignment => self.alignment_enabled,
            Behavior::Cohesion => self.cohesion_enabled,
            Behavior::Repulsion => self.repulsion_enabled,
        }
    }

    /// A behavior's fixed-point weight.
    pub open spec fn weight_spec(self, b: Behavior) -> int {
        match b {
            Behavior::Separation => self.separation_weight as int,
            Behavior::Alignment => self.alignment_weight as int,
            Behavior::Cohesion => self.cohesion_weight as int,
            Behavior::Repulsion => self.repulsion_weight as int,
        }
    }

    /// All weights stay inside the fixed-point range.
    pub open spec fn wf(self) -> bool {
        &&& -WEIGHT_LIMIT <= self.separation_weight <= WEIGHT_LIMIT
        &&& -WEIGHT_LIMIT <= self.alignment_weight <= WEIGHT_LIMIT
        &&& -WEIGHT_LIMIT <= self.cohesion_weight <= WEIGHT_LIMIT
        &&& -WEIGHT_LIMIT <= self.repulsion_weight <= WEIGHT_LIMIT
    }

    /// The behavior-default configuration: everything enabled,
    /// separation and repulsion half again as strong as the rest.
    pub open spec fn default_spec() -> SimulationConfig {
        SimulationConfig {
            separation_enabled: true,
            alignment_enabled: true,
            cohesion_enabled: true,
            repulsion_enabled: true,
            separation_weight: DEFAULT_SEPARATION_WEIGHT,
            alignment_weight: DEFAULT_ALIGNMENT_WEIGHT,
            cohesion_weight: DEFAULT_COHESION_WEIGHT,
            repulsion_weight: DEFAULT_REPULSION_WEIGHT,
        }
    }

    pub fn new() -> (c: SimulationConfig)
        ensures
            c == SimulationConfig::default_spec(),
            c.wf(),
    {
        SimulationConfig {
            separation_enabled: true,
            alignment_enabled: true,
            cohesion_enabled: true,
            repulsion_enabled: true,
            separation_weight: DEFAULT_SEPARATION_WEIGHT,
            alignment_weight: DEFAULT_ALIGNMENT_WEIGHT,
            cohesion_weight: DEFAULT_COHESION_WEIGHT,
            repulsion_weight: DEFAULT_REPULSION_WEIGHT,
        }
    }

    pub fn enabled(&self, b: Behavior) -> (r: bool)
        ensures
            r == self.enabled_spec(b),
    {
        match b {
            Behavior::Separation => self.separation_enabled,
            Behavior::Alignment => self.alignment_enabled,
            Behavior::Cohesion => self.cohesion_enabled,
            Behavior::Repulsion => self.repulsion_enabled,
        }
    }

    pub fn weight(&self, b: Behavior) -> (r: i64)
        ensures
            r == self.weight_spec(b),
    {
        match b {
            Behavior::Separation => self.separation_weight,
            Behavior::Alignment => self.alignment_weight,
            Behavior::Cohesion => self.cohesion_weight,
            Behavior::Repulsion => self.repulsion_weight,
        }
    }

    /// The configuration after flipping one behavior's enable flag.
    pub open spec fn spec_toggled(self, b: Behavior) -> SimulationConfig {
        match b {
            Behavior::Separation => SimulationConfig {
                separation_enabled: !self.separation_enabled,
                ..self
            },
            Behavior::Alignment => SimulationConfig {
                alignment_enabled: !self.alignment_enabled,
                ..self
            },
            Behavior::Cohesion => SimulationConfig { cohesion_enabled: !self.cohesion_enabled, ..self },
            Behavior::Repulsion => SimulationConfig {
                repulsion_enabled: !self.repulsion_enabled,
                ..self
            },
        }
    }

    /// Flip one behavior's enable flag; weights and the other flags are
    /// untouched.
    pub fn toggle(&mut self, b: Behavior)
        ensures
            *final(self) == old(self).spec_toggled(b),
            final(self).enabled_spec(b) == !old(self).enabled_spec(b),
            final(self).wf() == old(self).wf(),
    {
        match b {
            Behavior::Separation => {
                self.separation_enabled = !self.separation_enabled;
            },
            Behavior::Alignment => {
                self.alignment_enabled = !self.alignment_enabled;
            },
            Behavior::Cohesion => {
                self.cohesion_enabled = !self.cohesion_enabled;
            },
            Behavior::Repulsion => {
                self.repulsion_enabled = !self.repulsion_enabled;
            },
        }
    }

    /// The configuration after replacing one behavior's weight.
    pub open spec fn spec_with_weight(self, b: Behavior, w: i64) -> SimulationConfig {
        match b {
            Behavior::Separation => SimulationConfig { separation_weight: w, ..self },
            Behavior::Alignment => SimulationConfig { alignment_weight: w, ..self },
            Behavior::Cohesion => SimulationConfig { cohesion_weight: w, ..self },
            Behavior::Repulsion => SimulationConfig { repulsion_weight: w, ..self },
        }
    }

    /// Replace one behavior's weight; a non-positive weight silences
    /// the behavior exactly like disabling it.
    pub fn set_weight(&mut self, b: Behavior, w: i64)
        requires
            -WEIGHT_LIMIT <= w <= WEIGHT_LIMIT,
        ensures
            *final(self) == old(self).spec_with_weight(b, w),
            final(self).weight_spec(b) == w,
            old(self).wf() ==> final(self).wf(),
    {
        match b {
            Behavior::Separation => {
                self.separation_weight = w;
            },
            Behavior::Alignment => {
                self.alignment_weight = w;
            },
            Behavior::Cohesion => {
                self.cohesion_weight = w;
            },
            Behavior::Repulsion => {
                self.repulsion_weight = w;
            },
        }
    }
}

} // verus!
