//! The parts of the optimizer contract that every variant exposes uniformly:
//! a name, and its population of particles.

use vstd::prelude::*;
use crate::kernel::EngineError;

verus! {

/// The uniform contract every optimizer variant implements: create and
/// evaluate a population, then run a configured number of iterations.  What
/// a run promises is the variant's own `run_contract`, so the experiment
/// runner can treat any variant uniformly without losing its guarantees.
pub trait Optimizer: Sized {
    /// The optimizer is structurally sound.
    spec fn sound(&self) -> bool;

    /// The population is in place and a global best is tracked.
    spec fn ready(&self) -> bool;

    /// There is room to record the requested number of iterations.
    spec fn can_run(&self, iterations: usize) -> bool;

    /// What a run promises, relating the states before and after.
    spec fn run_contract(pre: Self, post: Self, iterations: usize, r: Result<
        (),
        EngineError,
    >) -> bool;

    fn init(&mut self) -> (r: Result<(), EngineError>)
        requires
            old(self).sound(),
        ensures
            final(self).sound(),
            r matches Ok(()) ==> final(self).ready(),
    ;

    fn run(&mut self, iterations: usize) -> (r: Result<(), EngineError>)
        requires
            old(self).sound(),
            old(self).ready(),
            old(self).can_run(iterations),
            iterations <= 0xffff_ffff,
        ensures
            final(self).sound(),
            final(self).ready(),
            Self::run_contract(*old(self), *final(self), iterations, r),
    ;
}

/// A named optimizer.
pub trait Name {
    spec fn name_spec(&self) -> Seq<char>;

    fn name(&self) -> (r: &String)
        ensures
            r@ == self.name_spec(),
    ;
}

/// Access to an optimizer's population.  The population order is the particle
/// index used throughout: mass, influence and velocity are aligned by it.
pub trait Particles<T> {
    spec fn particles_view(&self) -> Seq<T>;

    fn particles(&self) -> (r: &Vec<T>)
        ensures
            r@ == self.particles_view(),
    ;

    fn particles_mut(&mut self) -> (r: &mut Vec<T>)
        ensures
            (*r)@ == old(self).particles_view(),
            final(self).particles_view() == (*final(r))@,
    ;
}

} // verus!
