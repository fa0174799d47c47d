//! The agent store and simulation controller: it owns the population,
//! the repulsor points and the configuration, processes the external
//! commands (spawn, toggle, reset) and drives one tick at a time.
//!
//! A tick computes every agent's acceleration against the pre-tick
//! snapshot before any agent moves (simultaneous-update semantics), so
//! the whole step is the pure function described by `spec_stepped`.

use vstd::prelude::*;

use crate::engine::spec_stepped;
use crate::engine::step_agent;
use crate::model::agent_ok;
use crate::model::agents_ok;
use crate::model::repulsors_ok;
use crate::model::Agent;
use crate::model::Behavior;
use crate::model::Repulsor;
use crate::model::SimulationConfig;
use crate::rng::heading_from_bits;
use crate::rng::new_source;
use crate::rng::next_bits;
use crate::vec2::Vec2;
use crate::COORD_LIMIT;
use crate::INITIAL_AGENT_COUNT;
use crate::MAX_POPULATION;
use crate::MAX_SPEED;
use crate::SCALE;
use crate::UNIT_SPEED_SQ_MIN;
use crate::WEIGHT_LIMIT;

verus! {

/// A freshly spawned agent: it sits at the given point and moves at
/// unit speed (up to fixed-point rounding) in some direction.
pub open spec fn spawned(a: Agent, x: int, y: int) -> bool {
    &&& a.pos.x == x
    &&& a.pos.y == y
    &&& UNIT_SPEED_SQ_MIN <= a.vel.mag2() <= SCALE * SCALE
}

/// One simulation instance.
pub struct Simulation {
    pub agents: Vec<Agent>,
    pub repulsors: Vec<Repulsor>,
    pub config: SimulationConfig,
    pub source: random::Xorshift128Plus,
}

impl Simulation {
    /// Everything the store holds is in range.
    pub open spec fn wf(self) -> bool {
        &&& agents_ok(self.agents@)
        &&& repulsors_ok(self.repulsors@)
        &&& self.config.wf()
    }

    /// A fresh simulation: the behavior-default configuration, no
    /// repulsors, and `INITIAL_AGENT_COUNT` agents spawned at the
    /// origin with random unit-speed headings drawn from `seed`.
    pub fn new(seed: u64) -> (s: Simulation)
        ensures
            s.wf(),
            s.agents@.len() == INITIAL_AGENT_COUNT,
            forall|i: int| 0 <= i < s.agents@.len() ==> spawned(#[trigger] s.agents@[i], 0, 0),
            s.repulsors@.len() == 0,
            s.config == SimulationConfig::default_spec(),
    {
        let mut source = new_source(seed);
        let agents = spawn_flock(&mut source);
        Simulation { agents, repulsors: Vec::new(), config: SimulationConfig::new(), source }
    }

    /// Build a simulation from an explicit snapshot; `seed` only feeds
    /// later random spawns.
    pub fn from_parts(
        agents: Vec<Agent>,
        repulsors: Vec<Repulsor>,
        config: SimulationConfig,
        seed: u64,
    ) -> (s: Simulation)
        requires
            agents_ok(agents@),
            repulsors_ok(repulsors@),
            config.wf(),
        ensures
            s.wf(),
            s.agents@ == agents@,
            s.repulsors@ == repulsors@,
            s.config == config,
    {
        Simulation { agents, repulsors, config, source: new_source(seed) }
    }

    /// Append one agent at the given point with a random unit-speed
    /// heading; everything else is untouched.
    pub fn spawn_agent(&mut self, x: i64, y: i64)
        requires
            old(self).wf(),
            -COORD_LIMIT <= x <= COORD_LIMIT,
            -COORD_LIMIT <= y <= COORD_LIMIT,
            old(self).agents@.len() < MAX_POPULATION,
        ensures
            final(self).wf(),
            final(self).agents@.len() == old(self).agents@.len() + 1,
            forall|i: int|
                0 <= i < old(self).agents@.len() ==> final(self).agents@[i] == old(
                    self,
                ).agents@[i],
            spawned(final(self).agents@[old(self).agents@.len() as int], x as int, y as int),
            final(self).repulsors@ == old(self).repulsors@,
            final(self).config == old(self).config,
    {
        let bits = next_bits(&mut self.source);
        let vel = heading_from_bits(bits);
        self.agents.push(Agent { pos: Vec2 { x, y }, vel });
    }

    /// Append one agent with an explicit velocity; fully deterministic.
    pub fn spawn_agent_with_velocity(&mut self, x: i64, y: i64, vx: i64, vy: i64)
        requires
            old(self).wf(),
            -COORD_LIMIT <= x <= COORD_LIMIT,
            -COORD_LIMIT <= y <= COORD_LIMIT,
            vx * vx + vy * vy <= MAX_SPEED * MAX_SPEED,
            old(self).agents@.len() < MAX_POPULATION,
        ensures
            final(self).wf(),
            final(self).agents@ == old(self).agents@.push(
                (Agent { pos: (Vec2 { x, y }), vel: (Vec2 { x: vx, y: vy }) }),
            ),
            final(self).repulsors@ == old(self).repulsors@,
            final(self).config == old(self).config,
    {
        self.agents.push(Agent { pos: Vec2 { x, y }, vel: Vec2 { x: vx, y: vy } });
    }

    /// Append one repulsor point; everything else is untouched.
    pub fn spawn_repulsor(&mut self, x: i64, y: i64)
        requires
            old(self).wf(),
            -COORD_LIMIT <= x <= COORD_LIMIT,
            -COORD_LIMIT <= y <= COORD_LIMIT,
            old(self).repulsors@.len() < MAX_POPULATION,
        ensures
            final(self).wf(),
            final(self).repulsors@ == old(self).repulsors@.push((Repulsor { pos: (Vec2 { x, y }) })),
            final(self).agents@ == old(self).agents@,
            final(self).config == old(self).config,
    {
        self.repulsors.push(Repulsor { pos: Vec2 { x, y } });
    }

    /// Flip one behavior's enable flag; population and weights are
    /// untouched.
    pub fn toggle(&mut self, b: Behavior)
        ensures
            final(self).config == old(self).config.spec_toggled(b),
            final(self).agents@ == old(self).agents@,
            final(self).repulsors@ == old(self).repulsors@,
            old(self).wf() ==> final(self).wf(),
    {
        self.config.toggle(b);
    }

    /// Replace one behavior's weight; a non-positive weight silences
    /// the behavior exactly like disabling it.
    pub fn set_weight(&mut self, b: Behavior, w: i64)
        requires
            -WEIGHT_LIMIT <= w <= WEIGHT_LIMIT,
        ensures
            final(self).config == old(self).config.spec_with_weight(b, w),
            final(self).agents@ == old(self).agents@,
            final(self).repulsors@ == old(self).repulsors@,
            old(self).wf() ==> final(self).wf(),
    {
        self.config.set_weight(b, w);
    }

    /// Discard the whole population and every repulsor and start over
    /// with the initial origin-spawned flock; the configuration is
    /// retained as it is.
    pub fn reset(&mut self)
        requires
            old(self).wf(),
        ensures
            final(self).wf(),
            final(self).agents@.len() == INITIAL_AGENT_COUNT,
            forall|i: int|
                0 <= i < final(self).agents@.len() ==> spawned(#[trigger] final(self).agents@[i], 0, 0),
            final(self).repulsors@.len() == 0,
            final(self).config == old(self).config,
    {
        let agents = spawn_flock(&mut self.source);
        self.agents = agents;
        self.repulsors = Vec::new();
    }

    /// One discrete step. Every agent's acceleration is computed from
    /// the same pre-tick snapshot, then every agent is advanced, so an
    /// agent updated earlier never influences one updated later in the
    /// same tick.
    pub fn tick(&mut self)
        requires
            old(self).wf(),
        ensures
            final(self).wf(),
            final(self).agents@.len() == old(self).agents@.len(),
            forall|i: int|
                0 <= i < old(self).agents@.len() ==> spec_stepped(
                    old(self).agents@,
                    old(self).repulsors@,
                    old(self).config,
                    old(self).agents@[i],
                    #[trigger] final(self).agents@[i],
                ),
            forall|i: int|
                0 <= i < final(self).agents@.len()
                    ==> (#[trigger] final(self).agents@[i]).vel.mag2() <= MAX_SPEED * MAX_SPEED,
            final(self).repulsors@ == old(self).repulsors@,
            final(self).config == old(self).config,
    {
        let n = self.agents.len();
        let mut updated: Vec<Agent> = Vec::new();
        let mut i: usize = 0;
        while i < n
            invariant
                old(self).wf(),
                *self == *old(self),
                n == self.agents.len(),
                i <= n,
                updated@.len() == i,
                forall|j: int|
                    0 <= j < i ==> spec_stepped(
                        old(self).agents@,
                        old(self).repulsors@,
                        old(self).config,
                        old(self).agents@[j],
                        #[trigger] updated@[j],
                    ),
                forall|j: int| 0 <= j < i ==> agent_ok(#[trigger] updated@[j]),
            decreases n - i,
        {
            let a = self.agents[i];
            let stepped = step_agent(&self.agents, &self.repulsors, &self.config, a);
            updated.push(stepped);
            i = i + 1;
        }
        self.agents = updated;
    }
}

/// Spawn the initial flock: `INITIAL_AGENT_COUNT` agents at the origin,
/// each with a fresh random heading.
fn spawn_flock(source: &mut random::Xorshift128Plus) -> (v: Vec<Agent>)
    ensures
        v@.len() == INITIAL_AGENT_COUNT,
        agents_ok(v@),
        forall|i: int| 0 <= i < v@.len() ==> spawned(#[trigger] v@[i], 0, 0),
{
    let mut v: Vec<Agent> = Vec::new();
    let mut i: usize = 0;
    while i < INITIAL_AGENT_COUNT
        invariant
            i <= INITIAL_AGENT_COUNT,
            v@.len() == i,
            forall|j: int| 0 <= j < v@.len() ==> spawned(#[trigger] v@[j], 0, 0),
            forall|j: int| 0 <= j < v@.len() ==> agent_ok(#[trigger] v@[j]),
        decreases INITIAL_AGENT_COUNT - i,
    {
        let bits = next_bits(source);
        let vel = heading_from_bits(bits);
        v.push(Agent { pos: Vec2 { x: 0, y: 0 }, vel });
        i = i + 1;
    }
    v
}

} // verus!
