//! The floating-point collaborator of the engine.
//!
//! Every quantity crosses this boundary as the raw bit pattern of an IEEE 754
//! double.  The embedding program implements [`Kernel`] with ordinary
//! floating-point arithmetic and its own random-number stream; the engine
//! promises nothing about the values a kernel returns and checks the shape of
//! every reply, so everything the engine itself guarantees holds for any
//! implementation.  The doc comment of each method states the arithmetic an
//! implementation is meant to perform.

use vstd::prelude::*;
use crate::params::Normalizer;

verus! {

/// An engine step could not be completed.
#[derive(Clone, Copy, PartialEq, Eq, Structural, Debug)]
pub enum EngineError {
    /// The kernel answered with a vector of the wrong length.
    KernelShape,
}

/// The floating-point operations of the algorithm, performed outside the
/// engine.  Methods take `&mut self` because implementations carry
/// random-number state; two calls on equal arguments may answer differently.
pub trait Kernel {
    /// A starting position: each coordinate drawn uniformly from
    /// `[lo, hi]`; the reply should have length `dim`.
    fn sample_position(&mut self, dim: usize, lo: u64, hi: u64) -> Vec<u64>;

    /// A starting velocity: each coordinate drawn uniformly from
    /// `[-(hi - lo), hi - lo]`; the reply should have length `dim`.
    fn sample_velocity(&mut self, dim: usize, lo: u64, hi: u64) -> Vec<u64>;

    /// The speed limit: if `|vel|` exceeds `hi - lo`, scale `vel` to that
    /// norm, otherwise return it unchanged; the reply should keep the length.
    fn clamp_speed(&mut self, vel: &Vec<u64>, lo: u64, hi: u64) -> Vec<u64>;

    /// The gravitational-constant decay `g0 * exp(-alpha * iter / total)`.
    fn decay(&mut self, g0: u64, alpha: u64, iter: usize, total: usize) -> u64;

    /// The fitness-to-mass normalization of the selected strategy, given
    /// every particle's fitness and its ascending-fitness rank; the reply
    /// should have the length of `fitness` and hold non-negative values.
    /// The engine never calls this when all fitness values are bit-equal: it
    /// substitutes the all-zero mass vector itself.
    fn masses(&mut self, normalizer: Normalizer, fitness: &Vec<u64>, ranks: &Vec<usize>) -> Vec<
        u64,
    >;

    /// One pairwise attraction term `g * mass * r / (|r| + epsilon)`, where
    /// `r` is the displacement from `pos_i` to `pos_j` — under the
    /// minimum-image rule of the toroidal topology when `tiled` — and each
    /// coordinate is scaled by a fresh uniform draw from `[0, 1)`; the reply
    /// should have the length of `pos_i`.
    fn pair_accel(
        &mut self,
        g: u64,
        mass: u64,
        pos_i: &Vec<u64>,
        pos_j: &Vec<u64>,
        tiled: bool,
        lo: u64,
        hi: u64,
    ) -> Vec<u64>;

    /// Coordinatewise sum `a + b`; the reply should have the length of `a`.
    fn vec_add(&mut self, a: &Vec<u64>, b: &Vec<u64>) -> Vec<u64>;

    /// The stochastic velocity update `rand() * vel + accel` with one uniform
    /// draw from `[0, 1)`; the reply should have the length of `vel`.
    fn stoch_vel(&mut self, vel: &Vec<u64>, accel: &Vec<u64>) -> Vec<u64>;

    /// One move under the reflecting edge policy: coordinates of `pos + vel`
    /// that leave `[lo, hi]` are mirrored back inside and the matching
    /// velocity coordinate is negated; the replies should keep the lengths.
    fn move_reflect(&mut self, pos: &Vec<u64>, vel: &Vec<u64>, lo: u64, hi: u64) -> (Vec<u64>, Vec<
        u64,
    >);

    /// One move under the cyclic edge policy: `pos + vel` wrapped into
    /// `[lo, hi]` modulo the domain width; the reply should keep the length.
    fn move_cycle(&mut self, pos: &Vec<u64>, vel: &Vec<u64>, lo: u64, hi: u64) -> Vec<u64>;

    /// The swarm velocity update `w * vel + phi_p * r_p * (best - pos) +
    /// phi_g * r_g * (global_best - pos)` with two fresh uniform draws from
    /// `[0, 1)`, each coordinate clamped into `[-(hi - lo), hi - lo]`; the
    /// reply should have the length of `vel`.
    fn swarm_vel(
        &mut self,
        w: u64,
        phi_p: u64,
        phi_g: u64,
        vel: &Vec<u64>,
        pos: &Vec<u64>,
        best_pos: &Vec<u64>,
        global_best: &Vec<u64>,
        lo: u64,
        hi: u64,
    ) -> Vec<u64>;
}

} // verus!
