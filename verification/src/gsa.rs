//! The gravitational search optimizer.
//!
//! One iteration decays the gravitational constant, derives a mass for every
//! particle from its fitness under the selected normalization, restricts
//! gravitational influence to the `k` best particles — `k` shrinking linearly
//! over the run — accumulates the pairwise attraction on each particle, moves
//! the particles under their edge policy, and tracks the global best
//! monotonically.  The plain, tiled and reflecting variants differ only in
//! the edge policy and the minimum-image displacement rule; the iteration
//! skeleton is shared.

use vstd::prelude::*;
use crate::bits::{fkey, spec_fkey};
use crate::kernel::{EngineError, Kernel};
use crate::optimizer::{Name, Particles};
use crate::params::{ConfigError, GsaConfig, gsa_params_admissible, Normalizer, Params};
use crate::particle::{Behavior, Edge, Particle};
use crate::problem::{Objective, Problem};
use crate::select::{ascending_ranks, elite_k, influence_flags};

verus! {

/// What one iteration records: the global best fitness after the iteration,
/// the worst fitness observed among the population during it, and a snapshot
/// of the whole population when data saving is on.
pub struct HistoryEntry {
    pub best_fitness: u64,
    pub worst_fitness: u64,
    pub snapshot: Option<Vec<Particle>>,
}

/// Each recorded fitness from `start` on is at most its predecessor — the
/// entry before `start` being `seed` — by the total order on fitness keys.
pub open spec fn chain_non_increasing(h: Seq<u64>, start: int, seed: u64) -> bool {
    forall|i: int|
        start <= i < h.len() ==> spec_fkey(#[trigger] h[i]) <= (if i == start {
            spec_fkey(seed)
        } else {
            spec_fkey(h[i - 1])
        })
}

/// Global-best monotonicity: a chained history never regresses between any
/// two recorded iterations, however far apart.
pub proof fn lemma_chain_non_increasing(h: Seq<u64>, start: int, seed: u64, i: int, j: int)
    requires
        chain_non_increasing(h, start, seed),
        start <= i <= j < h.len(),
    ensures
        spec_fkey(h[j]) <= spec_fkey(h[i]),
    decreases j - i,
{
    if i < j {
        lemma_chain_non_increasing(h, start, seed, i, j - 1);
    }
}

/// A chained history never rises above its seed.
pub proof fn lemma_chain_below_seed(h: Seq<u64>, start: int, seed: u64, j: int)
    requires
        chain_non_increasing(h, start, seed),
        start <= j < h.len(),
    ensures
        spec_fkey(h[j]) <= spec_fkey(seed),
    decreases j - start,
{
    if start < j {
        lemma_chain_below_seed(h, start, seed, j - 1);
    }
}

/// The gravitational search optimizer over an objective `O` and a
/// floating-point kernel `K`.
pub struct Gsa<O, K> {
    name: String,
    problem: Problem<O>,
    particles: Vec<Particle>,
    global_best_pos: Option<Vec<u64>>,
    global_best_fitness: u64,
    influences: Vec<bool>,
    g: u64,
    data: Vec<HistoryEntry>,
    g0: u64,
    alpha: u64,
    save: bool,
    normalizer: Normalizer,
    tiled: bool,
    behavior: Behavior,
    particle_count: usize,
    kernel: K,
}

impl<O: Objective, K: Kernel> Gsa<O, K> {
    pub closed spec fn spec_name(&self) -> Seq<char> {
        self.name@
    }

    pub closed spec fn problem_spec(&self) -> Problem<O> {
        self.problem
    }

    pub closed spec fn particles_vw(&self) -> Seq<Particle> {
        self.particles@
    }

    pub closed spec fn spec_best_pos(&self) -> Option<Seq<u64>> {
        match self.global_best_pos {
            Some(b) => Some(b@),
            None => None,
        }
    }

    pub closed spec fn spec_best_fitness(&self) -> u64 {
        self.global_best_fitness
    }

    pub closed spec fn spec_influences(&self) -> Seq<bool> {
        self.influences@
    }

    pub closed spec fn spec_g(&self) -> u64 {
        self.g
    }

    pub closed spec fn spec_g0(&self) -> u64 {
        self.g0
    }

    pub closed spec fn spec_alpha(&self) -> u64 {
        self.alpha
    }

    pub closed spec fn spec_save(&self) -> bool {
        self.save
    }

    pub closed spec fn spec_normalizer(&self) -> Normalizer {
        self.normalizer
    }

    pub closed spec fn spec_tiled(&self) -> bool {
        self.tiled
    }

    pub closed spec fn spec_behavior(&self) -> Behavior {
        self.behavior
    }

    pub closed spec fn spec_count(&self) -> usize {
        self.particle_count
    }

    /// The recorded history, one entry per completed iteration.
    pub closed spec fn history(&self) -> Seq<HistoryEntry> {
        self.data@
    }

    /// The recorded global-best fitness, iteration by iteration.
    pub open spec fn history_fitness(&self) -> Seq<u64> {
        self.history().map_values(|e: HistoryEntry| e.best_fitness)
    }

    /// The recorded per-iteration worst fitness, iteration by iteration.
    pub open spec fn history_worst(&self) -> Seq<u64> {
        self.history().map_values(|e: HistoryEntry| e.worst_fitness)
    }

    pub open spec fn spec_dim(&self) -> usize {
        self.problem_spec().spec_dim()
    }

    /// Structural well-formedness: a valid problem, a population bound fit
    /// for the elitism schedule, aligned influence flags, and every particle
    /// and the tracked best spanning the problem's dimensionality.
    pub closed spec fn wf(&self) -> bool {
        &&& self.problem.wf()
        &&& 1 <= self.particle_count <= 0xffff_ffff
        &&& self.influences@.len() == self.particles@.len()
        &&& forall|i: int|
            0 <= i < self.particles@.len() ==> (#[trigger] self.particles@[i]).wf(
                self.problem.spec_dim() as int,
            )
        &&& match self.global_best_pos {
            Some(b) => b@.len() == self.problem.spec_dim(),
            None => true,
        }
    }

    /// The population is in place and a global best is tracked.
    pub closed spec fn is_initialized(&self) -> bool {
        &&& self.particles@.len() == self.particle_count
        &&& self.global_best_pos is Some
    }

    /// The configuration — everything but the evolving optimization state —
    /// is the same on both sides.
    pub open spec fn same_config(&self, other: &Self) -> bool {
        &&& self.spec_name() == other.spec_name()
        &&& self.spec_g0() == other.spec_g0()
        &&& self.spec_alpha() == other.spec_alpha()
        &&& self.spec_save() == other.spec_save()
        &&& self.spec_normalizer() == other.spec_normalizer()
        &&& self.spec_tiled() == other.spec_tiled()
        &&& self.spec_behavior() == other.spec_behavior()
        &&& self.spec_count() == other.spec_count()
        &&& self.problem_spec().same_shape(&other.problem_spec())
    }

    /// The whole optimization state is the same on both sides; only the
    /// kernel's own state may differ.
    pub open spec fn same_state(&self, other: &Self) -> bool {
        &&& self.same_config(other)
        &&& self.history() == other.history()
        &&& self.particles_vw() == other.particles_vw()
        &&& self.spec_influences() == other.spec_influences()
        &&& self.problem_spec() == other.problem_spec()
        &&& self.spec_best_pos() == other.spec_best_pos()
        &&& self.spec_best_fitness() == other.spec_best_fitness()
        &&& self.spec_g() == other.spec_g()
    }

    /// Validate the parameters and build the optimizer around the problem.
    /// Succeeds exactly on admissible parameter sets (see
    /// [`gsa_params_admissible`]); the population is not created until
    /// [`Gsa::init`] runs.
    pub fn new(
        name: String,
        problem: Problem<O>,
        params: &Params,
        behavior: Behavior,
        save: bool,
        kernel: K,
    ) -> (r: Result<Gsa<O, K>, ConfigError>)
        requires
            params.wf(),
            problem.wf(),
        ensures
            r.is_ok() <==> gsa_params_admissible(params.map()),
            r matches Err(e) ==> Some(e) == crate::params::gsa_params_error(params.map()),
            r matches Ok(gsa) ==> {
                &&& gsa.wf()
                &&& gsa.spec_name() == name@
                &&& gsa.problem_spec() == problem
                &&& gsa.spec_save() == save
                &&& gsa.spec_behavior() == behavior
                &&& gsa.history().len() == 0
                &&& params.map()[crate::params::ParamKey::ParticleCount]
                    == crate::params::ParamValue::Int(gsa.spec_count() as i64)
                &&& params.map()[crate::params::ParamKey::G0]
                    == crate::params::ParamValue::Float(gsa.spec_g0())
                &&& params.map()[crate::params::ParamKey::Alpha]
                    == crate::params::ParamValue::Float(gsa.spec_alpha())
                &&& params.map()[crate::params::ParamKey::NormalizerKind]
                    == crate::params::ParamValue::Normalizer(gsa.spec_normalizer())
                &&& params.map()[crate::params::ParamKey::Tiled]
                    == crate::params::ParamValue::Bool(gsa.spec_tiled())
                &&& gsa.spec_g() == gsa.spec_g0()
            },
    {
        let config = GsaConfig::from_params(params)?;
        Ok(
            Gsa {
                name,
                problem,
                particles: Vec::new(),
                global_best_pos: None,
                global_best_fitness: 0,
                influences: Vec::new(),
                g: config.g0,
                data: Vec::new(),
                g0: config.g0,
                alpha: config.alpha,
                save,
                normalizer: config.normalizer,
                tiled: config.tiled,
                behavior,
                particle_count: config.particle_count,
                kernel,
            },
        )
    }

    /// Create the population and evaluate it once: every particle's starting
    /// position and velocity are sampled by the kernel, and the tracked
    /// global best becomes the fittest starting position — witnessed by the
    /// problem's memo, which afterwards holds every starting position with
    /// the tracked best at or below all of them.  Fails only on a malformed
    /// kernel reply, leaving the recorded history alone either way.
    pub fn init(&mut self) -> (r: Result<(), EngineError>)
        requires
            old(self).wf(),
        ensures
            final(self).wf(),
            final(self).same_config(old(self)),
            final(self).history() == old(self).history(),
            r matches Ok(()) ==> {
                &&& final(self).is_initialized()
                &&& final(self).spec_best_pos() matches Some(b) && {
                    &&& final(self).problem_spec().memo_map().contains_key(b)
                    &&& final(self).problem_spec().memo_map()[b]
                        == final(self).spec_best_fitness()
                    &&& exists|i: int|
                        0 <= i < final(self).spec_count() && final(self).particles_vw()[i].pos@
                            == b
                }
                &&& forall|i: int|
                    0 <= i < final(self).spec_count() ==> {
                        let m = final(self).problem_spec().memo_map();
                        &&& m.contains_key(#[trigger] final(self).particles_vw()[i].pos@)
                        &&& spec_fkey(final(self).spec_best_fitness()) <= spec_fkey(
                            m[final(self).particles_vw()[i].pos@],
                        )
                    }
            },
    {
        let dim = self.problem.dim();
        let (lo, hi) = self.problem.domain();
        let n = self.particle_count;

        let mut particles: Vec<Particle> = Vec::new();
        let mut i: usize = 0;
        while i < n
            invariant
                i <= n,
                particles@.len() == i,
                self.wf(),
                self.same_state(old(self)),
                dim == self.problem.spec_dim(),
                forall|j: int|
                    0 <= j < i ==> (#[trigger] particles@[j]).wf(dim as int) && particles@[j].behavior
                        == self.behavior,
            decreases n - i,
        {
            let p = Particle::new(&mut self.kernel, dim, lo, hi, self.behavior)?;
            particles.push(p);
            i = i + 1;
        }

        // Evaluate the starting population and pick the fittest position.
        let first_fit = self.problem.f(&particles[0].pos);
        let mut best_idx: usize = 0;
        let mut best_fit: u64 = first_fit;
        let mut i: usize = 1;
        while i < n
            invariant
                1 <= i <= n,
                particles@.len() == n,
                best_idx < i,
                self.wf(),
                self.same_config(old(self)),
                self.history() == old(self).history(),
                self.spec_best_pos() == old(self).spec_best_pos(),
                self.spec_best_fitness() == old(self).spec_best_fitness(),
                self.particles_vw() == old(self).particles_vw(),
                self.spec_influences() == old(self).spec_influences(),
                self.spec_g() == old(self).spec_g(),
                dim == self.problem.spec_dim(),
                n == self.particle_count,
                forall|j: int|
                    0 <= j < n ==> (#[trigger] particles@[j]).wf(dim as int) && particles@[j].behavior
                        == self.behavior,
                self.problem.memo_map().contains_key(particles@[best_idx as int].pos@),
                self.problem.memo_map()[particles@[best_idx as int].pos@] == best_fit,
                forall|j: int|
                    0 <= j < i ==> {
                        let m = self.problem.memo_map();
                        &&& m.contains_key(#[trigger] particles@[j].pos@)
                        &&& spec_fkey(best_fit) <= spec_fkey(m[particles@[j].pos@])
                    },
            decreases n - i,
        {
            let fit = self.problem.f(&particles[i].pos);
            if fkey(fit) < fkey(best_fit) {
                best_idx = i;
                best_fit = fit;
            }
            i = i + 1;
        }

        let best_pos = crate::particle::copy_bits(&particles[best_idx].pos);
        let mut influences: Vec<bool> = Vec::new();
        let mut i: usize = 0;
        while i < n
            invariant
                i <= n,
                influences@.len() == i,
            decreases n - i,
        {
            influences.push(false);
            i = i + 1;
        }

        self.particles = particles;
        self.influences = influences;
        self.global_best_pos = Some(best_pos);
        self.global_best_fitness = best_fit;
        Ok(())
    }

    /// The velocity update of one particle: the attraction of every other
    /// influential particle, each term dithered by the kernel, added to the
    /// particle's stochastically weighted current velocity.  Touches nothing
    /// but the kernel's own state.
    pub fn calculate_vel(&mut self, i: usize) -> (r: Result<Vec<u64>, EngineError>)
        requires
            old(self).wf(),
            old(self).is_initialized(),
            i < old(self).spec_count(),
        ensures
            final(self).wf(),
            final(self).is_initialized(),
            final(self).same_state(old(self)),
            r matches Ok(v) ==> v@.len() == final(self).spec_dim(),
    {
        let dim = self.problem.dim();
        let (lo, hi) = self.problem.domain();
        let g = self.g;
        let n = self.particles.len();
        let mut acc = zero_vec(dim);
        let mut j: usize = 0;
        while j < n
            invariant
                j <= n,
                acc@.len() == dim,
                self.wf(),
                self.is_initialized(),
                self.same_state(old(self)),
                i < n,
                n == self.particles@.len(),
                dim == self.problem.spec_dim(),
                lo == self.problem.spec_lo(),
                hi == self.problem.spec_hi(),
                g == self.g,
            decreases n - j,
        {
            if j != i && self.influences[j] {
                let mass_j = self.particles[j].mass;
                let delta = self.kernel.pair_accel(
                    g,
                    mass_j,
                    &self.particles[i].pos,
                    &self.particles[j].pos,
                    self.tiled,
                    lo,
                    hi,
                );
                if delta.len() != dim {
                    return Err(EngineError::KernelShape);
                }
                let sum = self.kernel.vec_add(&acc, &delta);
                if sum.len() != dim {
                    return Err(EngineError::KernelShape);
                }
                acc = sum;
            }
            j = j + 1;
        }
        let v = self.kernel.stoch_vel(&self.particles[i].vel, &acc);
        if v.len() != dim {
            return Err(EngineError::KernelShape);
        }
        Ok(v)
    }

    /// One iteration: decay the gravitational constant, derive masses —
    /// the all-zero fallback when every particle's fitness is bit-identical,
    /// the kernel's normalization otherwise — select the influential top `k`,
    /// update every velocity, purge the memo, move every particle, track the
    /// global best monotonically and the iteration's worst, and record one
    /// history entry, its best at or below its worst.  On failure the
    /// history is untouched and the tracked best still never regresses.
    fn step(&mut self, iter: usize, total: usize) -> (r: Result<(), EngineError>)
        requires
            old(self).wf(),
            old(self).is_initialized(),
            iter < total <= 0xffff_ffff,
        ensures
            final(self).wf(),
            final(self).is_initialized(),
            final(self).same_config(old(self)),
            spec_fkey(final(self).spec_best_fitness()) <= spec_fkey(old(self).spec_best_fitness()),
            r matches Ok(()) ==> {
                &&& final(self).history().len() == old(self).history().len() + 1
                &&& final(self).history().subrange(0, old(self).history().len() as int)
                    == old(self).history()
                &&& final(self).history().last().best_fitness == final(self).spec_best_fitness()
                &&& spec_fkey(final(self).history().last().best_fitness) <= spec_fkey(
                    final(self).history().last().worst_fitness,
                )
                &&& (final(self).history().last().snapshot is Some <==> final(self).spec_save())
                &&& match final(self).history().last().snapshot {
                    Some(s) => s@.len() == final(self).spec_count(),
                    None => true,
                }
            },
            r matches Err(_) ==> final(self).history() == old(self).history(),
    {
        let n = self.particle_count;
        let dim = self.problem.dim();
        let (lo, hi) = self.problem.domain();

        // Gravitational constant decay.
        self.g = self.kernel.decay(self.g0, self.alpha, iter, total);

        // Fitness of every particle, memoized.
        let mut fitness: Vec<u64> = Vec::new();
        let mut idx: usize = 0;
        while idx < n
            invariant
                idx <= n,
                fitness@.len() == idx,
                self.wf(),
                self.is_initialized(),
                self.same_config(old(self)),
                self.history() == old(self).history(),
                self.spec_best_fitness() == old(self).spec_best_fitness(),
                n == self.particle_count,
            decreases n - idx,
        {
            let fx = self.problem.f(&self.particles[idx].pos);
            fitness.push(fx);
            idx = idx + 1;
        }

        let masses: Vec<u64> = mass_phase(&mut self.kernel, self.normalizer, &fitness)?;

        let mut idx: usize = 0;
        while idx < n
            invariant
                idx <= n,
                masses@.len() == n,
                self.wf(),
                self.is_initialized(),
                self.same_config(old(self)),
                self.history() == old(self).history(),
                self.spec_best_fitness() == old(self).spec_best_fitness(),
                n == self.particle_count,
            decreases n - idx,
        {
            self.particles[idx].mass = masses[idx];
            idx = idx + 1;
        }

        // Elitism: only the top k masses keep gravitational influence.
        let k = elite_k(n, iter, total);
        let mass_keys = order_keys(&masses);
        let flags = influence_flags(&mass_keys, k);
        self.influences = flags;

        // New velocity of every particle.
        let mut vels: Vec<Vec<u64>> = Vec::new();
        let mut idx: usize = 0;
        while idx < n
            invariant
                idx <= n,
                vels@.len() == idx,
                forall|j: int| 0 <= j < idx ==> (#[trigger] vels@[j])@.len() == self.spec_dim(),
                self.wf(),
                self.is_initialized(),
                self.same_config(old(self)),
                self.history() == old(self).history(),
                self.spec_best_fitness() == old(self).spec_best_fitness(),
                n == self.particle_count,
            decreases n - idx,
        {
            let v = self.calculate_vel(idx)?;
            vels.push(v);
            idx = idx + 1;
        }

        // Cached fitness values go stale once the population starts moving.
        self.problem.clear_memo();

        // Move the population, track the best position seen — never
        // regressing — and the worst fitness this iteration produced.
        let mut iter_worst: u64 = 0;
        let mut idx: usize = 0;
        while idx < n
            invariant
                idx <= n,
                vels@.len() == n,
                forall|j: int| 0 <= j < n ==> (#[trigger] vels@[j])@.len() == self.spec_dim(),
                self.wf(),
                self.is_initialized(),
                self.same_config(old(self)),
                self.history() == old(self).history(),
                spec_fkey(self.spec_best_fitness()) <= spec_fkey(old(self).spec_best_fitness()),
                idx >= 1 ==> spec_fkey(self.spec_best_fitness()) <= spec_fkey(iter_worst),
                n == self.particle_count,
                dim == self.problem.spec_dim(),
                lo == self.problem.spec_lo(),
                hi == self.problem.spec_hi(),
            decreases n - idx,
        {
            let v = crate::particle::copy_bits(&vels[idx]);
            let p = &mut self.particles[idx];
            p.update_vel(&mut self.kernel, v, lo, hi)?;
            p.move_pos(&mut self.kernel, lo, hi)?;
            let fx = self.problem.f(&self.particles[idx].pos);
            if fkey(fx) < fkey(self.global_best_fitness) {
                self.global_best_pos = Some(crate::particle::copy_bits(&self.particles[idx].pos));
                self.global_best_fitness = fx;
            }
            if idx == 0 || fkey(fx) > fkey(iter_worst) {
                iter_worst = fx;
            }
            idx = idx + 1;
        }

        // Record this iteration.
        let snapshot = if self.save {
            Some(snapshot_particles(&self.particles))
        } else {
            None
        };
        self.data.push(
            HistoryEntry {
                best_fitness: self.global_best_fitness,
                worst_fitness: iter_worst,
                snapshot,
            },
        );
        Ok(())
    }

    /// Run `iterations` iterations.  The recorded history grows by exactly
    /// one entry per completed iteration — all of them on success — and the
    /// recorded global best fitness never regresses from entry to entry, nor
    /// above the best tracked before the run; the final tracked best is the
    /// last recorded one.
    #[verifier::rlimit(100)]
    pub fn run(&mut self, iterations: usize) -> (r: Result<(), EngineError>)
        requires
            old(self).wf(),
            old(self).is_initialized(),
            iterations <= 0xffff_ffff,
            old(self).history().len() + iterations <= usize::MAX,
        ensures
            final(self).wf(),
            final(self).is_initialized(),
            final(self).same_config(old(self)),
            final(self).history().len() <= old(self).history().len() + iterations,
            r matches Ok(()) ==> final(self).history().len() == old(self).history().len()
                + iterations,
            final(self).history().subrange(0, old(self).history().len() as int)
                == old(self).history(),
            chain_non_increasing(
                final(self).history_fitness(),
                old(self).history().len() as int,
                old(self).spec_best_fitness(),
            ),
            spec_fkey(final(self).spec_best_fitness()) <= spec_fkey(old(self).spec_best_fitness()),
            (r matches Ok(()) && final(self).history().len() > old(self).history().len())
                ==> final(self).history().last().best_fitness == final(self).spec_best_fitness(),
            forall|i: int|
                old(self).history().len() <= i < final(self).history().len() ==> ((
                #[trigger] final(self).history()[i]).snapshot is Some <==> final(self).spec_save()),
            forall|i: int|
                old(self).history().len() <= i < final(self).history().len() ==> spec_fkey(
                    (#[trigger] final(self).history()[i]).best_fitness,
                ) <= spec_fkey(final(self).history()[i].worst_fitness),
    {
        let base = self.data.len();
        let mut iter: usize = 0;
        while iter < iterations
            invariant
                iter <= iterations,
                iterations <= 0xffff_ffff,
                self.wf(),
                self.is_initialized(),
                self.same_config(old(self)),
                base == old(self).history().len(),
                base + iterations <= usize::MAX,
                self.history().len() == base + iter,
                self.history().subrange(0, base as int) == old(self).history(),
                chain_non_increasing(
                    self.history_fitness(),
                    base as int,
                    old(self).spec_best_fitness(),
                ),
                spec_fkey(self.spec_best_fitness()) <= spec_fkey(old(self).spec_best_fitness()),
                iter > 0 ==> self.history().len() > base && self.history().last().best_fitness
                    == self.spec_best_fitness(),
                iter == 0 ==> self.spec_best_fitness() == old(self).spec_best_fitness(),
                forall|i: int|
                    base <= i < self.history().len() ==> ((#[trigger] self.history()[i]).snapshot
                        is Some <==> self.spec_save()),
                forall|i: int|
                    base <= i < self.history().len() ==> spec_fkey(
                        (#[trigger] self.history()[i]).best_fitness,
                    ) <= spec_fkey(self.history()[i].worst_fitness),
            decreases iterations - iter,
        {
            let ghost pre = *self;
            let r = self.step(iter, iterations);
            if r.is_err() {
                return r;
            }
            proof {
                lemma_history_fitness_extend(pre, *self);
                let plen = pre.history().len() as int;
                assert forall|i: int| 0 <= i < plen implies #[trigger] self.history()[i]
                    == pre.history()[i] by {
                    assert(self.history().subrange(0, plen)[i] == self.history()[i]);
                }
                assert(self.history().subrange(0, base as int) =~= old(self).history());
                assert forall|i: int|
                    base as int <= i < self.history().len() implies spec_fkey(
                    #[trigger] self.history_fitness()[i],
                ) <= (if i == base as int {
                    spec_fkey(old(self).spec_best_fitness())
                } else {
                    spec_fkey(self.history_fitness()[i - 1])
                }) by {
                    if i < plen {
                        assert(self.history_fitness()[i] == pre.history_fitness()[i]);
                        if i > base as int {
                            assert(self.history_fitness()[i - 1] == pre.history_fitness()[i - 1]);
                        }
                    } else {
                        assert(i == plen);
                        assert(self.history_fitness()[i] == self.history().last().best_fitness);
                        if i > base as int {
                            assert(self.history_fitness()[i - 1] == pre.history_fitness()[i - 1]);
                            assert(pre.history()[i - 1] == pre.history().last());
                        }
                    }
                }
            }
            iter = iter + 1;
        }
        Ok(())
    }

    /// The best position found so far.
    pub fn global_best_pos(&self) -> (r: &Vec<u64>)
        requires
            self.is_initialized(),
        ensures
            self.spec_best_pos() == Some(r@),
    {
        match &self.global_best_pos {
            Some(b) => b,
            None => vstd::pervasive::unreached(),
        }
    }

    /// The best position, or nothing before initialization.
    pub fn option_global_best_pos(&self) -> (r: &Option<Vec<u64>>)
        ensures
            match r {
                Some(b) => self.spec_best_pos() == Some(b@),
                None => self.spec_best_pos() is None,
            },
    {
        &self.global_best_pos
    }

    /// The fitness of the best position found so far.
    pub fn global_best_fitness(&self) -> (r: u64)
        ensures
            r == self.spec_best_fitness(),
    {
        self.global_best_fitness
    }

    /// The recorded history.
    pub fn data(&self) -> (r: &Vec<HistoryEntry>)
        ensures
            r@ == self.history(),
    {
        &self.data
    }

    /// The recorded global-best fitness of every iteration, in order: the
    /// summary's progress sequence.
    pub fn global_best_progress(&self) -> (r: Vec<u64>)
        ensures
            r@ == self.history_fitness(),
    {
        let n = self.data.len();
        let mut r: Vec<u64> = Vec::new();
        let mut i: usize = 0;
        while i < n
            invariant
                i <= n,
                n == self.data@.len(),
                r@.len() == i,
                forall|j: int| 0 <= j < i ==> r@[j] == self.history_fitness()[j],
            decreases n - i,
        {
            r.push(self.data[i].best_fitness);
            i = i + 1;
        }
        proof {
            assert(r@ =~= self.history_fitness());
        }
        r
    }

    /// The recorded per-iteration worst fitness, in order: the summary's
    /// second progress sequence.
    pub fn global_worst_progress(&self) -> (r: Vec<u64>)
        ensures
            r@ == self.history_worst(),
    {
        let n = self.data.len();
        let mut r: Vec<u64> = Vec::new();
        let mut i: usize = 0;
        while i < n
            invariant
                i <= n,
                n == self.data@.len(),
                r@.len() == i,
                forall|j: int| 0 <= j < i ==> r@[j] == self.history_worst()[j],
            decreases n - i,
        {
            r.push(self.data[i].worst_fitness);
            i = i + 1;
        }
        proof {
            assert(r@ =~= self.history_worst());
        }
        r
    }

    /// The problem under optimization.
    pub fn problem(&self) -> (r: &Problem<O>)
        ensures
            *r == self.problem_spec(),
    {
        &self.problem
    }
}

/// Growing the history by one entry extends the fitness sequence by that
/// entry's fitness.
proof fn lemma_history_fitness_extend<O: Objective, K: Kernel>(pre: Gsa<O, K>, post: Gsa<O, K>)
    requires
        post.history().len() == pre.history().len() + 1,
        post.history().subrange(0, pre.history().len() as int) == pre.history(),
    ensures
        post.history_fitness().len() == pre.history_fitness().len() + 1,
        forall|i: int|
            0 <= i < pre.history().len() ==> post.history_fitness()[i]
                == pre.history_fitness()[i],
        post.history_fitness().last() == post.history().last().best_fitness,
{
    assert forall|i: int| 0 <= i < pre.history().len() implies post.history_fitness()[i]
        == pre.history_fitness()[i] by {
        assert(post.history().subrange(0, pre.history().len() as int)[i] == post.history()[i]);
    }
}

impl<O: Objective, K: Kernel> crate::optimizer::Optimizer for Gsa<O, K> {
    open spec fn sound(&self) -> bool {
        self.wf()
    }

    open spec fn ready(&self) -> bool {
        self.is_initialized()
    }

    open spec fn can_run(&self, iterations: usize) -> bool {
        self.history().len() + iterations <= usize::MAX
    }

    open spec fn run_contract(pre: Self, post: Self, iterations: usize, r: Result<
        (),
        EngineError,
    >) -> bool {
        &&& post.same_config(&pre)
        &&& post.history().len() <= pre.history().len() + iterations
        &&& (r matches Ok(()) ==> post.history().len() == pre.history().len() + iterations)
        &&& post.history().subrange(0, pre.history().len() as int) == pre.history()
        &&& chain_non_increasing(
            post.history_fitness(),
            pre.history().len() as int,
            pre.spec_best_fitness(),
        )
        &&& spec_fkey(post.spec_best_fitness()) <= spec_fkey(pre.spec_best_fitness())
    }

    fn init(&mut self) -> (r: Result<(), EngineError>) {
        self.init()
    }

    fn run(&mut self, iterations: usize) -> (r: Result<(), EngineError>) {
        self.run(iterations)
    }
}

impl<O: Objective, K: Kernel> Name for Gsa<O, K> {
    open spec fn name_spec(&self) -> Seq<char> {
        self.spec_name()
    }

    fn name(&self) -> (r: &String) {
        &self.name
    }
}

impl<O: Objective, K: Kernel> Particles<Particle> for Gsa<O, K> {
    open spec fn particles_view(&self) -> Seq<Particle> {
        self.particles_vw()
    }

    fn particles(&self) -> (r: &Vec<Particle>) {
        &self.particles
    }

    fn particles_mut(&mut self) -> (r: &mut Vec<Particle>) {
        &mut self.particles
    }
}

/// The fitness-to-mass normalization of one iteration.  In the degenerate
/// case — every particle's fitness bit-identical, so that best equals worst —
/// no kernel call is made: the call always succeeds and the mass vector is
/// all zero bits, the bit pattern of the double `0.0`, finite by
/// construction, with no division performed.  Otherwise the kernel's
/// selected strategy runs, handed each particle's ascending-fitness rank
/// alongside its fitness, and fails only on a malformed reply.
pub fn mass_phase<K: Kernel>(kernel: &mut K, normalizer: Normalizer, fitness: &Vec<u64>) -> (r:
    Result<Vec<u64>, EngineError>)
    ensures
        all_same(fitness@) ==> r is Ok,
        r matches Ok(m) ==> {
            &&& m@.len() == fitness@.len()
            &&& all_same(fitness@) ==> forall|i: int| 0 <= i < m@.len() ==> m@[i] == 0
        },
{
    let n = fitness.len();
    if all_bits_equal(fitness) {
        Ok(zero_vec(n))
    } else {
        let keys = order_keys(fitness);
        let ranks = ascending_ranks(&keys);
        let m = kernel.masses(normalizer, fitness, &ranks);
        if m.len() != n {
            return Err(EngineError::KernelShape);
        }
        Ok(m)
    }
}

/// A tiled run pairs naturally with the cyclic edge policy and an untiled one
/// with any other; this flags the mismatched combinations the embedding
/// program may want to warn about.
pub fn tiled_edge_mismatch(tiled: bool, edge: Edge) -> (r: bool)
    ensures
        r == (tiled != (edge == Edge::Cycle)),
{
    (tiled && !matches!(edge, Edge::Cycle)) || (!tiled && matches!(edge, Edge::Cycle))
}

/// The bit pattern of the double `0.0` in every coordinate.
fn zero_vec(n: usize) -> (r: Vec<u64>)
    ensures
        r@.len() == n,
        forall|i: int| 0 <= i < n ==> r@[i] == 0,
{
    let mut r: Vec<u64> = Vec::new();
    let mut i: usize = 0;
    while i < n
        invariant
            i <= n,
            r@.len() == i,
            forall|j: int| 0 <= j < i ==> r@[j] == 0,
        decreases n - i,
    {
        r.push(0);
        i = i + 1;
    }
    r
}

/// All values are bit-identical.
pub open spec fn all_same(s: Seq<u64>) -> bool {
    forall|i: int| 0 <= i < s.len() ==> #[trigger] s[i] == s[0]
}

fn all_bits_equal(v: &Vec<u64>) -> (r: bool)
    ensures
        r == all_same(v@),
{
    let n = v.len();
    if n == 0 {
        return true;
    }
    let first = v[0];
    let mut i: usize = 1;
    while i < n
        invariant
            1 <= i <= n,
            n == v@.len(),
            first == v@[0],
            forall|j: int| 0 <= j < i ==> #[trigger] v@[j] == v@[0],
        decreases n - i,
    {
        if v[i] != first {
            return false;
        }
        i = i + 1;
    }
    true
}

/// The total-order key of every bit pattern.
fn order_keys(v: &Vec<u64>) -> (r: Vec<u64>)
    ensures
        r@.len() == v@.len(),
        forall|i: int| 0 <= i < v@.len() ==> r@[i] == spec_fkey(v@[i]),
{
    let n = v.len();
    let mut r: Vec<u64> = Vec::new();
    let mut i: usize = 0;
    while i < n
        invariant
            i <= n,
            n == v@.len(),
            r@.len() == i,
            forall|j: int| 0 <= j < i ==> r@[j] == spec_fkey(v@[j]),
        decreases n - i,
    {
        r.push(fkey(v[i]));
        i = i + 1;
    }
    r
}

/// A value-preserving snapshot of the population.
fn snapshot_particles(v: &Vec<Particle>) -> (r: Vec<Particle>)
    ensures
        r@.len() == v@.len(),
        forall|i: int| 0 <= i < v@.len() ==> (#[trigger] r@[i])@ == v@[i]@,
{
    let n = v.len();
    let mut r: Vec<Particle> = Vec::new();
    let mut i: usize = 0;
    while i < n
        invariant
            i <= n,
            n == v@.len(),
            r@.len() == i,
            forall|j: int| 0 <= j < i ==> (#[trigger] r@[j])@ == v@[j]@,
        decreases n - i,
    {
        r.push(v[i].snapshot());
        i = i + 1;
    }
    r
}

} // verus!
