//! The particle swarm optimizer: the simplest sibling under the shared
//! optimizer contract.
//!
//! One iteration draws every particle toward its own best-visited position
//! and toward the swarm's best, with inertia `w` and attraction coefficients
//! `phi_p` and `phi_g`, moves it under its edge policy, updates its personal
//! best, and tracks the swarm best monotonically.

use vstd::prelude::*;
use crate::bits::{fkey, spec_fkey};
use crate::gsa::{chain_non_increasing, HistoryEntry};
use crate::kernel::{EngineError, Kernel};
use crate::optimizer::{Name, Particles};
use crate::params::{ConfigError, Params, PsoConfig, pso_params_admissible};
use crate::particle::{Behavior, Particle};
use crate::problem::{Objective, Problem};

verus! {

/// The particle swarm optimizer over an objective `O` and a floating-point
/// kernel `K`.
pub struct Pso<O, K> {
    name: String,
    problem: Problem<O>,
    particles: Vec<Particle>,
    global_best_pos: Option<Vec<u64>>,
    global_best_fitness: u64,
    data: Vec<HistoryEntry>,
    w: u64,
    phi_p: u64,
    phi_g: u64,
    save: bool,
    behavior: Behavior,
    particle_count: usize,
    kernel: K,
}

impl<O: Objective, K: Kernel> Pso<O, K> {
    pub closed spec fn spec_name(&self) -> Seq<char> {
        self.name@
    }

    pub closed spec fn problem_spec(&self) -> Problem<O> {
        self.problem
    }

    pub closed spec fn particles_vw(&self) -> Seq<Particle> {
        self.particles@
    }

    pub closed spec fn spec_best_pos(&self) -> Option<Seq<u64>> {
        match self.global_best_pos {
            Some(b) => Some(b@),
            None => None,
        }
    }

    pub closed spec fn spec_best_fitness(&self) -> u64 {
        self.global_best_fitness
    }

    pub closed spec fn spec_w(&self) -> u64 {
        self.w
    }

    pub closed spec fn spec_phi_p(&self) -> u64 {
        self.phi_p
    }

    pub closed spec fn spec_phi_g(&self) -> u64 {
        self.phi_g
    }

    pub closed spec fn spec_save(&self) -> bool {
        self.save
    }

    pub closed spec fn spec_behavior(&self) -> Behavior {
        self.behavior
    }

    pub closed spec fn spec_count(&self) -> usize {
        self.particle_count
    }

    /// The recorded history, one entry per completed iteration.
    pub closed spec fn history(&self) -> Seq<HistoryEntry> {
        self.data@
    }

    /// The recorded swarm-best fitness, iteration by iteration.
    pub open spec fn history_fitness(&self) -> Seq<u64> {
        self.history().map_values(|e: HistoryEntry| e.best_fitness)
    }

    /// The recorded per-iteration worst fitness, iteration by iteration.
    pub open spec fn history_worst(&self) -> Seq<u64> {
        self.history().map_values(|e: HistoryEntry| e.worst_fitness)
    }

    pub open spec fn spec_dim(&self) -> usize {
        self.problem_spec().spec_dim()
    }

    pub closed spec fn wf(&self) -> bool {
        &&& self.problem.wf()
        &&& 1 <= self.particle_count <= 0xffff_ffff
        &&& forall|i: int|
            0 <= i < self.particles@.len() ==> (#[trigger] self.particles@[i]).wf(
                self.problem.spec_dim() as int,
            )
        &&& match self.global_best_pos {
            Some(b) => b@.len() == self.problem.spec_dim(),
            None => true,
        }
    }

    /// The population is in place, every particle carries a personal best,
    /// and a swarm best is tracked.
    pub closed spec fn is_initialized(&self) -> bool {
        &&& self.particles@.len() == self.particle_count
        &&& self.global_best_pos is Some
        &&& forall|i: int|
            0 <= i < self.particles@.len() ==> match (#[trigger] self.particles@[i]).best_pos {
                Some(b) => b@.len() == self.problem.spec_dim(),
                None => false,
            }
    }

    pub open spec fn same_config(&self, other: &Self) -> bool {
        &&& self.spec_name() == other.spec_name()
        &&& self.spec_w() == other.spec_w()
        &&& self.spec_phi_p() == other.spec_phi_p()
        &&& self.spec_phi_g() == other.spec_phi_g()
        &&& self.spec_save() == other.spec_save()
        &&& self.spec_behavior() == other.spec_behavior()
        &&& self.spec_count() == other.spec_count()
        &&& self.problem_spec().same_shape(&other.problem_spec())
    }

    /// Validate the parameters and build the optimizer around the problem.
    /// Succeeds exactly on admissible parameter sets (see
    /// [`pso_params_admissible`]).
    pub fn new(
        name: String,
        problem: Problem<O>,
        params: &Params,
        behavior: Behavior,
        save: bool,
        kernel: K,
    ) -> (r: Result<Pso<O, K>, ConfigError>)
        requires
            params.wf(),
            problem.wf(),
        ensures
            r.is_ok() <==> pso_params_admissible(params.map()),
            r matches Err(e) ==> Some(e) == crate::params::pso_params_error(params.map()),
            r matches Ok(pso) ==> {
                &&& pso.wf()
                &&& pso.spec_name() == name@
                &&& pso.problem_spec() == problem
                &&& pso.spec_save() == save
                &&& pso.spec_behavior() == behavior
                &&& pso.history().len() == 0
                &&& params.map()[crate::params::ParamKey::ParticleCount]
                    == crate::params::ParamValue::Int(pso.spec_count() as i64)
                &&& params.map()[crate::params::ParamKey::W]
                    == crate::params::ParamValue::Float(pso.spec_w())
                &&& params.map()[crate::params::ParamKey::PhiP]
                    == crate::params::ParamValue::Float(pso.spec_phi_p())
                &&& params.map()[crate::params::ParamKey::PhiG]
                    == crate::params::ParamValue::Float(pso.spec_phi_g())
            },
    {
        let config = PsoConfig::from_params(params)?;
        Ok(
            Pso {
                name,
                problem,
                particles: Vec::new(),
                global_best_pos: None,
                global_best_fitness: 0,
                data: Vec::new(),
                w: config.w,
                phi_p: config.phi_p,
                phi_g: config.phi_g,
                save,
                behavior,
                particle_count: config.particle_count,
                kernel,
            },
        )
    }

    /// Create the population, evaluate it once, make each particle's
    /// starting position its personal best, and track the fittest of them as
    /// the swarm best: the tracked best fitness is at or below every
    /// particle's personal best, and the tracked best position is the
    /// personal best of a particle that attains it.  Fails only on a
    /// malformed kernel reply, leaving the recorded history alone either
    /// way.
    pub fn init(&mut self) -> (r: Result<(), EngineError>)
        requires
            old(self).wf(),
        ensures
            final(self).wf(),
            final(self).same_config(old(self)),
            final(self).history() == old(self).history(),
            r matches Ok(()) ==> {
                &&& final(self).is_initialized()
                &&& forall|i: int|
                    0 <= i < final(self).spec_count() ==> spec_fkey(
                        final(self).spec_best_fitness(),
                    ) <= spec_fkey((#[trigger] final(self).particles_vw()[i]).best_fitness)
                &&& exists|i: int|
                    {
                        &&& 0 <= i < final(self).spec_count()
                        &&& (#[trigger] final(self).particles_vw()[i]).best_fitness
                            == final(self).spec_best_fitness()
                        &&& final(self).spec_best_pos() == final(self).particles_vw()[i]@.best_pos
                    }
            },
    {
        let dim = self.problem.dim();
        let (lo, hi) = self.problem.domain();
        let n = self.particle_count;

        let mut particles: Vec<Particle> = Vec::new();
        let mut i: usize = 0;
        while i < n
            invariant
                i <= n,
                particles@.len() == i,
                self.wf(),
                self.same_config(old(self)),
                self.history() == old(self).history(),
                dim == self.problem.spec_dim(),
                lo == self.problem.spec_lo(),
                hi == self.problem.spec_hi(),
                forall|j: int|
                    0 <= j < i ==> (#[trigger] particles@[j]).wf(dim as int) && particles@[j]@.best_pos
                        == Some(particles@[j]@.pos),
            decreases n - i,
        {
            let mut p = Particle::new(&mut self.kernel, dim, lo, hi, self.behavior)?;
            let fx = self.problem.f(&p.pos);
            p.update_best_pos(fx);
            particles.push(p);
            i = i + 1;
        }

        let mut best_idx: usize = 0;
        let mut best_fit: u64 = particles[0].best_fitness;
        let mut i: usize = 1;
        while i < n
            invariant
                1 <= i <= n,
                particles@.len() == n,
                best_idx < i,
                n >= 1,
                best_fit == particles@[best_idx as int].best_fitness,
                forall|j: int|
                    0 <= j < i ==> spec_fkey(best_fit) <= spec_fkey(
                        (#[trigger] particles@[j]).best_fitness,
                    ),
            decreases n - i,
        {
            if fkey(particles[i].best_fitness) < fkey(best_fit) {
                best_idx = i;
                best_fit = particles[i].best_fitness;
            }
            i = i + 1;
        }

        let best_pos = crate::particle::copy_bits(&particles[best_idx].pos);
        self.particles = particles;
        self.global_best_pos = Some(best_pos);
        self.global_best_fitness = best_fit;
        Ok(())
    }

    /// One iteration: purge the memo, then give every particle its swarm
    /// velocity, move it, update its personal best from its new fitness, and
    /// fold the improved personal bests into the swarm best, never
    /// regressing; record one history entry carrying the swarm best and the
    /// iteration's worst fitness, the best at or below the worst.
    fn step(&mut self) -> (r: Result<(), EngineError>)
        requires
            old(self).wf(),
            old(self).is_initialized(),
        ensures
            final(self).wf(),
            final(self).is_initialized(),
            final(self).same_config(old(self)),
            spec_fkey(final(self).spec_best_fitness()) <= spec_fkey(old(self).spec_best_fitness()),
            r matches Ok(()) ==> {
                &&& final(self).history().len() == old(self).history().len() + 1
                &&& final(self).history().subrange(0, old(self).history().len() as int)
                    == old(self).history()
                &&& final(self).history().last().best_fitness == final(self).spec_best_fitness()
                &&& spec_fkey(final(self).history().last().best_fitness) <= spec_fkey(
                    final(self).history().last().worst_fitness,
                )
                &&& (final(self).history().last().snapshot is Some <==> final(self).spec_save())
                &&& match final(self).history().last().snapshot {
                    Some(s) => s@.len() == final(self).spec_count(),
                    None => true,
                }
            },
            r matches Err(_) ==> final(self).history() == old(self).history(),
    {
        let n = self.particle_count;
        let dim = self.problem.dim();
        let (lo, hi) = self.problem.domain();

        self.problem.clear_memo();

        let mut iter_worst: u64 = 0;
        let mut idx: usize = 0;
        while idx < n
            invariant
                idx <= n,
                self.wf(),
                self.is_initialized(),
                self.same_config(old(self)),
                self.history() == old(self).history(),
                spec_fkey(self.spec_best_fitness()) <= spec_fkey(old(self).spec_best_fitness()),
                idx >= 1 ==> spec_fkey(self.spec_best_fitness()) <= spec_fkey(iter_worst),
                n == self.particle_count,
                dim == self.problem.spec_dim(),
                lo == self.problem.spec_lo(),
                hi == self.problem.spec_hi(),
            decreases n - idx,
        {
            let v = self.swarm_vel_of(idx, lo, hi)?;
            let p = &mut self.particles[idx];
            p.update_vel(&mut self.kernel, v, lo, hi)?;
            p.move_pos(&mut self.kernel, lo, hi)?;
            let fx = self.problem.f(&self.particles[idx].pos);
            let p = &mut self.particles[idx];
            p.update_best_pos(fx);
            let candidate = self.particles[idx].best_fitness;
            if fkey(candidate) < fkey(self.global_best_fitness) {
                let best = match &self.particles[idx].best_pos {
                    Some(b) => crate::particle::copy_bits(b),
                    None => vstd::pervasive::unreached(),
                };
                self.global_best_pos = Some(best);
                self.global_best_fitness = candidate;
            }
            if idx == 0 || fkey(fx) > fkey(iter_worst) {
                iter_worst = fx;
            }
            idx = idx + 1;
        }

        let snapshot = if self.save {
            Some(snapshot_swarm(&self.particles))
        } else {
            None
        };
        self.data.push(
            HistoryEntry {
                best_fitness: self.global_best_fitness,
                worst_fitness: iter_worst,
                snapshot,
            },
        );
        Ok(())
    }

    /// The swarm velocity of one particle, computed by the kernel from its
    /// state and the swarm best.
    fn swarm_vel_of(&mut self, i: usize, lo: u64, hi: u64) -> (r: Result<Vec<u64>, EngineError>)
        requires
            old(self).wf(),
            old(self).is_initialized(),
            i < old(self).spec_count(),
        ensures
            final(self).wf(),
            final(self).is_initialized(),
            final(self).same_config(old(self)),
            final(self).history() == old(self).history(),
            final(self).particles_vw() == old(self).particles_vw(),
            final(self).problem_spec() == old(self).problem_spec(),
            final(self).spec_best_pos() == old(self).spec_best_pos(),
            final(self).spec_best_fitness() == old(self).spec_best_fitness(),
            r matches Ok(v) ==> v@.len() == final(self).spec_dim(),
    {
        let dim = self.problem.dim();
        let best = match &self.particles[i].best_pos {
            Some(b) => b,
            None => vstd::pervasive::unreached(),
        };
        let global = match &self.global_best_pos {
            Some(b) => b,
            None => vstd::pervasive::unreached(),
        };
        let v = self.kernel.swarm_vel(
            self.w,
            self.phi_p,
            self.phi_g,
            &self.particles[i].vel,
            &self.particles[i].pos,
            best,
            global,
            lo,
            hi,
        );
        if v.len() != dim {
            return Err(EngineError::KernelShape);
        }
        Ok(v)
    }

    /// Run `iterations` iterations, with the same history guarantees as the
    /// gravitational optimizer: one entry per completed iteration, the
    /// recorded swarm best never regressing.
    #[verifier::rlimit(100)]
    pub fn run(&mut self, iterations: usize) -> (r: Result<(), EngineError>)
        requires
            old(self).wf(),
            old(self).is_initialized(),
            iterations <= 0xffff_ffff,
            old(self).history().len() + iterations <= usize::MAX,
        ensures
            final(self).wf(),
            final(self).is_initialized(),
            final(self).same_config(old(self)),
            final(self).history().len() <= old(self).history().len() + iterations,
            r matches Ok(()) ==> final(self).history().len() == old(self).history().len()
                + iterations,
            final(self).history().subrange(0, old(self).history().len() as int)
                == old(self).history(),
            chain_non_increasing(
                final(self).history_fitness(),
                old(self).history().len() as int,
                old(self).spec_best_fitness(),
            ),
            spec_fkey(final(self).spec_best_fitness()) <= spec_fkey(old(self).spec_best_fitness()),
            (r matches Ok(()) && final(self).history().len() > old(self).history().len())
                ==> final(self).history().last().best_fitness == final(self).spec_best_fitness(),
            forall|i: int|
                old(self).history().len() <= i < final(self).history().len() ==> ((
                #[trigger] final(self).history()[i]).snapshot is Some <==> final(self).spec_save()),
            forall|i: int|
                old(self).history().len() <= i < final(self).history().len() ==> spec_fkey(
                    (#[trigger] final(self).history()[i]).best_fitness,
                ) <= spec_fkey(final(self).history()[i].worst_fitness),
    {
        let base = self.data.len();
        let mut iter: usize = 0;
        while iter < iterations
            invariant
                iter <= iterations,
                self.wf(),
                self.is_initialized(),
                self.same_config(old(self)),
                base == old(self).history().len(),
                base + iterations <= usize::MAX,
                self.history().len() == base + iter,
                self.history().subrange(0, base as int) == old(self).history(),
                chain_non_increasing(
                    self.history_fitness(),
                    base as int,
                    old(self).spec_best_fitness(),
                ),
                spec_fkey(self.spec_best_fitness()) <= spec_fkey(old(self).spec_best_fitness()),
                iter > 0 ==> self.history().len() > base && self.history().last().best_fitness
                    == self.spec_best_fitness(),
                iter == 0 ==> self.spec_best_fitness() == old(self).spec_best_fitness(),
                forall|i: int|
                    base <= i < self.history().len() ==> ((#[trigger] self.history()[i]).snapshot
                        is Some <==> self.spec_save()),
                forall|i: int|
                    base <= i < self.history().len() ==> spec_fkey(
                        (#[trigger] self.history()[i]).best_fitness,
                    ) <= spec_fkey(self.history()[i].worst_fitness),
            decreases iterations - iter,
        {
            let ghost pre = *self;
            let r = self.step();
            if r.is_err() {
                return r;
            }
            proof {
                lemma_swarm_history_extend(pre, *self);
                let plen = pre.history().len() as int;
                assert forall|i: int| 0 <= i < plen implies #[trigger] self.history()[i]
                    == pre.history()[i] by {
                    assert(self.history().subrange(0, plen)[i] == self.history()[i]);
                }
                assert(self.history().subrange(0, base as int) =~= old(self).history());
                assert forall|i: int|
                    base as int <= i < self.history().len() implies spec_fkey(
                    #[trigger] self.history_fitness()[i],
                ) <= (if i == base as int {
                    spec_fkey(old(self).spec_best_fitness())
                } else {
                    spec_fkey(self.history_fitness()[i - 1])
                }) by {
                    if i < plen {
                        assert(self.history_fitness()[i] == pre.history_fitness()[i]);
                        if i > base as int {
                            assert(self.history_fitness()[i - 1] == pre.history_fitness()[i - 1]);
                        }
                    } else {
                        assert(i == plen);
                        assert(self.history_fitness()[i] == self.history().last().best_fitness);
                        if i > base as int {
                            assert(self.history_fitness()[i - 1] == pre.history_fitness()[i - 1]);
                            assert(pre.history()[i - 1] == pre.history().last());
                        }
                    }
                }
            }
            iter = iter + 1;
        }
        Ok(())
    }

    /// The best position found so far.
    pub fn global_best_pos(&self) -> (r: &Vec<u64>)
        requires
            self.is_initialized(),
        ensures
            self.spec_best_pos() == Some(r@),
    {
        match &self.global_best_pos {
            Some(b) => b,
            None => vstd::pervasive::unreached(),
        }
    }

    /// The fitness of the best position found so far.
    pub fn global_best_fitness(&self) -> (r: u64)
        ensures
            r == self.spec_best_fitness(),
    {
        self.global_best_fitness
    }

    /// The recorded history.
    pub fn data(&self) -> (r: &Vec<HistoryEntry>)
        ensures
            r@ == self.history(),
    {
        &self.data
    }

    /// The recorded swarm-best fitness of every iteration, in order: the
    /// summary's progress sequence.
    pub fn global_best_progress(&self) -> (r: Vec<u64>)
        ensures
            r@ == self.history_fitness(),
    {
        let n = self.data.len();
        let mut r: Vec<u64> = Vec::new();
        let mut i: usize = 0;
        while i < n
            invariant
                i <= n,
                n == self.data@.len(),
                r@.len() == i,
                forall|j: int| 0 <= j < i ==> r@[j] == self.history_fitness()[j],
            decreases n - i,
        {
            r.push(self.data[i].best_fitness);
            i = i + 1;
        }
        proof {
            assert(r@ =~= self.history_fitness());
        }
        r
    }

    /// The recorded per-iteration worst fitness, in order: the summary's
    /// second progress sequence.
    pub fn global_worst_progress(&self) -> (r: Vec<u64>)
        ensures
            r@ == self.history_worst(),
    {
        let n = self.data.len();
        let mut r: Vec<u64> = Vec::new();
        let mut i: usize = 0;
        while i < n
            invariant
                i <= n,
                n == self.data@.len(),
                r@.len() == i,
                forall|j: int| 0 <= j < i ==> r@[j] == self.history_worst()[j],
            decreases n - i,
        {
            r.push(self.data[i].worst_fitness);
            i = i + 1;
        }
        proof {
            assert(r@ =~= self.history_worst());
        }
        r
    }

    /// The problem under optimization.
    pub fn problem(&self) -> (r: &Problem<O>)
        ensures
            *r == self.problem_spec(),
    {
        &self.problem
    }
}

proof fn lemma_swarm_history_extend<O: Objective, K: Kernel>(pre: Pso<O, K>, post: Pso<O, K>)
    requires
        post.history().len() == pre.history().len() + 1,
        post.history().subrange(0, pre.history().len() as int) == pre.history(),
    ensures
        post.history_fitness().len() == pre.history_fitness().len() + 1,
        forall|i: int|
            0 <= i < pre.history().len() ==> post.history_fitness()[i]
                == pre.history_fitness()[i],
        post.history_fitness().last() == post.history().last().best_fitness,
{
    assert forall|i: int| 0 <= i < pre.history().len() implies post.history_fitness()[i]
        == pre.history_fitness()[i] by {
        assert(post.history().subrange(0, pre.history().len() as int)[i] == post.history()[i]);
    }
}

impl<O: Objective, K: Kernel> crate::optimizer::Optimizer for Pso<O, K> {
    open spec fn sound(&self) -> bool {
        self.wf()
    }

    open spec fn ready(&self) -> bool {
        self.is_initialized()
    }

    open spec fn can_run(&self, iterations: usize) -> bool {
        self.history().len() + iterations <= usize::MAX
    }

    open spec fn run_contract(pre: Self, post: Self, iterations: usize, r: Result<
        (),
        EngineError,
    >) -> bool {
        &&& post.same_config(&pre)
        &&& post.history().len() <= pre.history().len() + iterations
        &&& (r matches Ok(()) ==> post.history().len() == pre.history().len() + iterations)
        &&& post.history().subrange(0, pre.history().len() as int) == pre.history()
        &&& chain_non_increasing(
            post.history_fitness(),
            pre.history().len() as int,
            pre.spec_best_fitness(),
        )
        &&& spec_fkey(post.spec_best_fitness()) <= spec_fkey(pre.spec_best_fitness())
    }

    fn init(&mut self) -> (r: Result<(), EngineError>) {
        self.init()
    }

    fn run(&mut self, iterations: usize) -> (r: Result<(), EngineError>) {
        self.run(iterations)
    }
}

impl<O: Objective, K: Kernel> Name for Pso<O, K> {
    open spec fn name_spec(&self) -> Seq<char> {
        self.spec_name()
    }

    fn name(&self) -> (r: &String) {
        &self.name
    }
}

impl<O: Objective, K: Kernel> Particles<Particle> for Pso<O, K> {
    open spec fn particles_view(&self) -> Seq<Particle> {
        self.particles_vw()
    }

    fn particles(&self) -> (r: &Vec<Particle>) {
        &self.particles
    }

    fn particles_mut(&mut self) -> (r: &mut Vec<Particle>) {
        &mut self.particles
    }
}

/// A value-preserving snapshot of the swarm.
fn snapshot_swarm(v: &Vec<Particle>) -> (r: Vec<Particle>)
    ensures
        r@.len() == v@.len(),
        forall|i: int| 0 <= i < v@.len() ==> (#[trigger] r@[i])@ == v@[i]@,
{
    let n = v.len();
    let mut r: Vec<Particle> = Vec::new();
    let mut i: usize = 0;
    while i < n
        invariant
            i <= n,
            n == v@.len(),
            r@.len() == i,
            forall|j: int| 0 <= j < i ==> (#[trigger] r@[j])@ == v@[j]@,
        decreases n - i,
    {
        r.push(v[i].snapshot());
        i = i + 1;
    }
    r
}

} // verus!
