//! The particle capability model.
//!
//! A particle carries a position, a velocity, a mass and an optional personal
//! best, all as double bit patterns, together with a [`Behavior`]: the edge
//! policy that governs moves at the domain boundary and the speed-limit flag.
//! The capabilities are exposed as small composable traits that every
//! particle-like type implements.

use vstd::prelude::*;
use crate::bits::{fkey, spec_fkey};
use crate::kernel::{EngineError, Kernel};

verus! {

/// What happens when a move would leave the domain.
#[derive(Clone, Copy, PartialEq, Eq, Structural, Debug)]
pub enum Edge {
    /// Mirror the overshoot back inside and negate that velocity coordinate.
    Reflect,
    /// Leave the domain freely.
    Pass,
    /// Wrap around modulo the domain width.
    Cycle,
}

/// The movement policy of a particle: its edge rule and whether its speed is
/// clamped to the domain width.
#[derive(Clone, Copy, PartialEq, Eq, Structural, Debug)]
pub struct Behavior {
    pub edge: Edge,
    pub vmax: bool,
}

/// Read access to a position.
pub trait Position {
    spec fn pos_view(&self) -> Seq<u64>;

    fn pos(&self) -> (r: &Vec<u64>)
        ensures
            r@ == self.pos_view(),
    ;
}

/// Read access to a velocity.
pub trait Velocity: Position {
    spec fn vel_view(&self) -> Seq<u64>;

    fn vel(&self) -> (r: &Vec<u64>)
        ensures
            r@ == self.vel_view(),
    ;
}

/// The per-iteration mass a gravitational optimizer assigns.
pub trait Mass {
    spec fn mass_spec(&self) -> u64;

    fn mass(&self) -> (m: u64)
        ensures
            m == self.mass_spec(),
    ;
}

/// The best position a particle has personally visited.
pub trait BestPosition: Position {
    spec fn best_pos_view(&self) -> Option<Seq<u64>>;

    fn option_best_pos(&self) -> (r: &Option<Vec<u64>>)
        ensures
            match r {
                Some(b) => self.best_pos_view() == Some(b@),
                None => self.best_pos_view() is None,
            },
    ;
}

/// The movement policy a particle was created with.
pub trait BehaviorTrait {
    spec fn behavior_spec(&self) -> Behavior;

    fn behavior(&self) -> (b: Behavior)
        ensures
            b == self.behavior_spec(),
    ;
}

/// One candidate solution.
pub struct Particle {
    pub pos: Vec<u64>,
    pub vel: Vec<u64>,
    pub mass: u64,
    pub best_pos: Option<Vec<u64>>,
    pub behavior: Behavior,
    /// Fitness of `best_pos`, meaningful whenever `best_pos` is set.
    pub best_fitness: u64,
}

/// The mathematical value of a particle.
pub struct ParticleModel {
    pub pos: Seq<u64>,
    pub vel: Seq<u64>,
    pub mass: u64,
    pub best_pos: Option<Seq<u64>>,
    pub behavior: Behavior,
    pub best_fitness: u64,
}

impl View for Particle {
    type V = ParticleModel;

    open spec fn view(&self) -> ParticleModel {
        ParticleModel {
            pos: self.pos@,
            vel: self.vel@,
            mass: self.mass,
            best_pos: match self.best_pos {
                Some(b) => Some(b@),
                None => None,
            },
            behavior: self.behavior,
            best_fitness: self.best_fitness,
        }
    }
}

impl Position for Particle {
    open spec fn pos_view(&self) -> Seq<u64> {
        self.pos@
    }

    fn pos(&self) -> (r: &Vec<u64>) {
        &self.pos
    }
}

impl Velocity for Particle {
    open spec fn vel_view(&self) -> Seq<u64> {
        self.vel@
    }

    fn vel(&self) -> (r: &Vec<u64>) {
        &self.vel
    }
}

impl Mass for Particle {
    open spec fn mass_spec(&self) -> u64 {
        self.mass
    }

    fn mass(&self) -> (m: u64) {
        self.mass
    }
}

impl BestPosition for Particle {
    open spec fn best_pos_view(&self) -> Option<Seq<u64>> {
        match self.best_pos {
            Some(b) => Some(b@),
            None => None,
        }
    }

    fn option_best_pos(&self) -> (r: &Option<Vec<u64>>) {
        &self.best_pos
    }
}

impl BehaviorTrait for Particle {
    open spec fn behavior_spec(&self) -> Behavior {
        self.behavior
    }

    fn behavior(&self) -> (b: Behavior) {
        self.behavior
    }
}

impl Particle {
    /// Position and velocity both span the problem's dimensionality.
    pub open spec fn wf(&self, dim: int) -> bool {
        &&& self.pos@.len() == dim
        &&& self.vel@.len() == dim
    }

    /// A new particle with its position and velocity sampled by the kernel,
    /// the velocity subject to the speed limit when the behavior asks for
    /// one.  Fails only when the kernel answers with the wrong shape.
    pub fn new<K: Kernel>(
        kernel: &mut K,
        dim: usize,
        lo: u64,
        hi: u64,
        behavior: Behavior,
    ) -> (r: Result<Particle, EngineError>)
        ensures
            r matches Ok(p) ==> {
                &&& p.wf(dim as int)
                &&& p.behavior == behavior
                &&& p.mass == 0
                &&& p.best_pos is None
            },
    {
        let pos = kernel.sample_position(dim, lo, hi);
        if pos.len() != dim {
            return Err(EngineError::KernelShape);
        }
        let vel = kernel.sample_velocity(dim, lo, hi);
        if vel.len() != dim {
            return Err(EngineError::KernelShape);
        }
        let mut p = Particle { pos, vel: Vec::new(), mass: 0, best_pos: None, behavior,
            best_fitness: 0 };
        p.update_vel(kernel, vel, lo, hi)?;
        Ok(p)
    }

    /// Install a velocity, clamped by the kernel to the domain width when the
    /// particle's speed-limit flag is set.  Everything but the velocity is
    /// left alone.  Without the speed limit no kernel call is made: the call
    /// always succeeds and installs the velocity as given; with it, only a
    /// malformed kernel reply fails, leaving the velocity alone.
    pub fn update_vel<K: Kernel>(&mut self, kernel: &mut K, vel: Vec<u64>, lo: u64, hi: u64) -> (r:
        Result<(), EngineError>)
        ensures
            final(self).pos == old(self).pos,
            final(self).mass == old(self).mass,
            final(self).best_pos == old(self).best_pos,
            final(self).best_fitness == old(self).best_fitness,
            final(self).behavior == old(self).behavior,
            r matches Ok(()) ==> final(self).vel@.len() == vel@.len(),
            r matches Err(_) ==> final(self).vel == old(self).vel,
            !old(self).behavior.vmax ==> r is Ok && final(self).vel@ == vel@,
    {
        if self.behavior.vmax {
            let clamped = kernel.clamp_speed(&vel, lo, hi);
            if clamped.len() != vel.len() {
                return Err(EngineError::KernelShape);
            }
            self.vel = clamped;
        } else {
            self.vel = vel;
        }
        Ok(())
    }

    /// One move under the particle's edge policy: reflect at the boundary,
    /// pass through it, or wrap around it.  The kernel performs the
    /// arithmetic; the particle's shape is preserved and nothing else about
    /// it changes.  Under the pass and cyclic policies the velocity is left
    /// bit-for-bit alone, and on a malformed kernel reply the particle is
    /// left untouched.
    pub fn move_pos<K: Kernel>(&mut self, kernel: &mut K, lo: u64, hi: u64) -> (r: Result<
        (),
        EngineError,
    >)
        ensures
            final(self).pos@.len() == old(self).pos@.len(),
            final(self).vel@.len() == old(self).vel@.len(),
            final(self).mass == old(self).mass,
            final(self).best_pos == old(self).best_pos,
            final(self).best_fitness == old(self).best_fitness,
            final(self).behavior == old(self).behavior,
            old(self).behavior.edge is Pass ==> final(self).vel == old(self).vel,
            old(self).behavior.edge is Cycle ==> final(self).vel == old(self).vel,
            r matches Err(_) ==> final(self).pos == old(self).pos && final(self).vel == old(
                self,
            ).vel,
    {
        match self.behavior.edge {
            Edge::Reflect => {
                let (new_pos, new_vel) = kernel.move_reflect(&self.pos, &self.vel, lo, hi);
                if new_pos.len() != self.pos.len() || new_vel.len() != self.vel.len() {
                    return Err(EngineError::KernelShape);
                }
                // The reflected velocity passes through the speed limit
                // again, as it may have changed at a wall; it is installed
                // first so that a failure there leaves the particle whole.
                self.update_vel(kernel, new_vel, lo, hi)?;
                self.pos = new_pos;
                Ok(())
            },
            Edge::Pass => {
                let new_pos = kernel.vec_add(&self.pos, &self.vel);
                if new_pos.len() != self.pos.len() {
                    return Err(EngineError::KernelShape);
                }
                self.pos = new_pos;
                Ok(())
            },
            Edge::Cycle => {
                let new_pos = kernel.move_cycle(&self.pos, &self.vel, lo, hi);
                if new_pos.len() != self.pos.len() {
                    return Err(EngineError::KernelShape);
                }
                self.pos = new_pos;
                Ok(())
            },
        }
    }

    /// Replace the personal best iff it is unset or the given fitness of the
    /// current position improves on it (by the total order on fitness keys).
    pub fn update_best_pos(&mut self, current_fitness: u64)
        ensures
            final(self).pos == old(self).pos,
            final(self).vel == old(self).vel,
            final(self).mass == old(self).mass,
            final(self).behavior == old(self).behavior,
            old(self).best_pos is None || spec_fkey(current_fitness) < spec_fkey(
                old(self).best_fitness,
            ) ==> {
                &&& final(self)@.best_pos == Some(old(self).pos@)
                &&& final(self).best_fitness == current_fitness
            },
            !(old(self).best_pos is None || spec_fkey(current_fitness) < spec_fkey(
                old(self).best_fitness,
            )) ==> {
                &&& final(self).best_pos == old(self).best_pos
                &&& final(self).best_fitness == old(self).best_fitness
            },
    {
        let improve = match &self.best_pos {
            None => true,
            Some(_) => fkey(current_fitness) < fkey(self.best_fitness),
        };
        if improve {
            self.best_pos = Some(copy_bits(&self.pos));
            self.best_fitness = current_fitness;
        }
    }

    /// A snapshot of the particle: a fresh value with the same mathematical
    /// content.
    pub fn snapshot(&self) -> (r: Particle)
        ensures
            r@ == self@,
    {
        Particle {
            pos: copy_bits(&self.pos),
            vel: copy_bits(&self.vel),
            mass: self.mass,
            best_pos: match &self.best_pos {
                Some(b) => Some(copy_bits(b)),
                None => None,
            },
            behavior: self.behavior,
            best_fitness: self.best_fitness,
        }
    }
}

/// An exact copy of a bit vector.
pub fn copy_bits(x: &Vec<u64>) -> (r: Vec<u64>)
    ensures
        r@ == x@,
{
    let n = x.len();
    let mut r: Vec<u64> = Vec::new();
    let mut i: usize = 0;
    while i < n
        invariant
            n == x@.len(),
            i <= n,
            r@.len() == i,
            forall|j: int| 0 <= j < i ==> r@[j] == x@[j],
        decreases n - i,
    {
        r.push(x[i]);
        i = i + 1;
    }
    proof {
        assert(r@ =~= x@);
    }
    r
}

} // verus!
