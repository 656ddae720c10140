//! End-to-end runs of the engine against a reference floating-point kernel
//! with its own deterministic random stream.

use gsa_engine::gsa::{mass_phase, Gsa};
use gsa_engine::kernel::Kernel;
use gsa_engine::params::{Normalizer, ParamKey, ParamValue};
use gsa_engine::particle::{Behavior, Edge, Particle};
use gsa_engine::optimizer::Particles;
use gsa_engine::problem::{Objective, Problem};
use gsa_engine::pso::Pso;
use gsa_engine::runner::{run_attempt, run_swarm_attempt, BITS_1000, BITS_5};

fn bits_of(values: &[f64]) -> Vec<u64> {
    values.iter().map(|v| v.to_bits()).collect()
}

fn floats_of(bits: &[u64]) -> Vec<f64> {
    bits.iter().map(|b| f64::from_bits(*b)).collect()
}

struct Sphere;

impl Objective for Sphere {
    fn eval(&mut self, x: &Vec<u64>) -> u64 {
        let mut sum = 0.0f64;
        for b in x {
            let v = f64::from_bits(*b);
            sum += v * v;
        }
        sum.to_bits()
    }
}

fn sphere_problem(dim: usize) -> Problem<Sphere> {
    Problem::new(
        "Sphere".to_owned(),
        Sphere,
        (-100.0f64).to_bits(),
        100.0f64.to_bits(),
        dim,
    )
}

/// The reference kernel: the algorithm's floating-point arithmetic with a
/// seeded deterministic random stream.
struct RefKernel {
    state: u64,
    /// When set, sampled positions collapse onto one point and sampled
    /// velocities vanish, so the whole population coincides.
    degenerate: bool,
}

impl RefKernel {
    fn seeded(seed: u64) -> RefKernel {
        RefKernel { state: seed, degenerate: false }
    }

    fn next_u64(&mut self) -> u64 {
        self.state = self.state.wrapping_add(0x9E37_79B9_7F4A_7C15);
        let mut z = self.state;
        z = (z ^ (z >> 30)).wrapping_mul(0xBF58_476D_1CE4_E5B9);
        z = (z ^ (z >> 27)).wrapping_mul(0x94D0_49BB_1331_11EB);
        z ^ (z >> 31)
    }

    fn next_unit(&mut self) -> f64 {
        (self.next_u64() >> 11) as f64 / (1u64 << 53) as f64
    }

    fn uniform(&mut self, lo: f64, hi: f64) -> f64 {
        lo + (hi - lo) * self.next_unit()
    }

    fn min_max_normalize(input: &[f64]) -> Vec<f64> {
        let min = input.iter().fold(f64::INFINITY, |a, &b| a.min(b));
        let max = input.iter().fold(f64::NEG_INFINITY, |a, &b| a.max(b));
        if (max - min).abs() < f64::EPSILON {
            return vec![0.5; input.len()];
        }
        input.iter().map(|x| (x - min) / (max - min)).collect()
    }

    fn z_score_normalize(input: &[f64]) -> Vec<f64> {
        let mean = input.iter().sum::<f64>() / input.len() as f64;
        let std =
            (input.iter().map(|&x| (x - mean).powi(2)).sum::<f64>() / input.len() as f64).sqrt();
        if std.abs() < f64::EPSILON {
            return vec![0.0; input.len()];
        }
        input.iter().map(|&x| (x - mean) / std).collect()
    }

    fn quantile(input: &[f64], q: f64) -> f64 {
        let mut sorted = input.to_vec();
        sorted.sort_by(|a, b| a.partial_cmp(b).unwrap());
        sorted[(sorted.len() as f64 * q) as usize]
    }

    fn mass_vector(&self, normalizer: Normalizer, fitness: &[f64], ranks: &[usize]) -> Vec<f64> {
        match normalizer {
            Normalizer::MinMax => {
                let inverted: Vec<f64> =
                    Self::min_max_normalize(fitness).iter().map(|x| 1.0 - x).collect();
                let sum: f64 = inverted.iter().sum();
                if sum.abs() < f64::EPSILON {
                    return vec![0.0; fitness.len()];
                }
                inverted.iter().map(|&x| x / sum).collect()
            }
            Normalizer::ZScore => Self::z_score_normalize(fitness)
                .iter()
                .map(|x| -0.5 * x)
                .map(|x| if x < 0.0 { 0.0 } else { x })
                .collect(),
            Normalizer::Robust => {
                let med = Self::quantile(fitness, 0.5);
                let niqr =
                    (Self::quantile(fitness, 0.75) - Self::quantile(fitness, 0.25)) / 1.3489;
                if niqr < f64::EPSILON {
                    return vec![0.0; fitness.len()];
                }
                fitness
                    .iter()
                    .map(|x| (x - med) / niqr)
                    .map(|x| -0.5 * x)
                    .map(|x| if x < 0.0 { 0.0 } else { x })
                    .collect()
            }
            Normalizer::Rank => {
                let n = fitness.len() as f64;
                ranks.iter().map(|&r| 1.0 - r as f64 / n).collect()
            }
            Normalizer::Sigmoid2 => Self::z_score_normalize(fitness)
                .iter()
                .map(|x| 1.0 / (1.0 + (2.0 * x).exp()))
                .collect(),
            Normalizer::Sigmoid4 => Self::z_score_normalize(fitness)
                .iter()
                .map(|x| 1.0 / (1.0 + (4.0 * x).exp()))
                .collect(),
        }
    }
}

impl Kernel for RefKernel {
    fn sample_position(&mut self, dim: usize, lo: u64, hi: u64) -> Vec<u64> {
        let (lo, hi) = (f64::from_bits(lo), f64::from_bits(hi));
        if self.degenerate {
            return vec![(0.25 * (lo + hi)).to_bits(); dim];
        }
        (0..dim).map(|_| self.uniform(lo, hi).to_bits()).collect()
    }

    fn sample_velocity(&mut self, dim: usize, lo: u64, hi: u64) -> Vec<u64> {
        let width = f64::from_bits(hi) - f64::from_bits(lo);
        if self.degenerate {
            return vec![0.0f64.to_bits(); dim];
        }
        (0..dim).map(|_| self.uniform(-width, width).to_bits()).collect()
    }

    fn clamp_speed(&mut self, vel: &Vec<u64>, lo: u64, hi: u64) -> Vec<u64> {
        let vmax = f64::from_bits(hi) - f64::from_bits(lo);
        let v = floats_of(vel);
        let norm = v.iter().map(|e| e * e).sum::<f64>().sqrt();
        if norm > vmax {
            v.iter().map(|e| (e / norm * vmax).to_bits()).collect()
        } else {
            vel.clone()
        }
    }

    fn decay(&mut self, g0: u64, alpha: u64, iter: usize, total: usize) -> u64 {
        let g0 = f64::from_bits(g0);
        let alpha = f64::from_bits(alpha);
        (g0 * (-alpha * iter as f64 / total as f64).exp()).to_bits()
    }

    fn masses(&mut self, normalizer: Normalizer, fitness: &Vec<u64>, ranks: &Vec<usize>) -> Vec<
        u64,
    > {
        let f = floats_of(fitness);
        self.mass_vector(normalizer, &f, ranks).iter().map(|m| m.to_bits()).collect()
    }

    fn pair_accel(
        &mut self,
        g: u64,
        mass: u64,
        pos_i: &Vec<u64>,
        pos_j: &Vec<u64>,
        tiled: bool,
        lo: u64,
        hi: u64,
    ) -> Vec<u64> {
        let g = f64::from_bits(g);
        let mass = f64::from_bits(mass);
        let pi = floats_of(pos_i);
        let mut pj = floats_of(pos_j);
        if tiled {
            let width = f64::from_bits(hi) - f64::from_bits(lo);
            for (idx, x) in pj.iter_mut().enumerate() {
                if (*x - width - pi[idx]).abs() < (*x - pi[idx]).abs() {
                    *x -= width;
                } else if (*x + width - pi[idx]).abs() < (*x - pi[idx]).abs() {
                    *x += width;
                }
            }
        }
        let r: Vec<f64> = pj.iter().zip(pi.iter()).map(|(a, b)| a - b).collect();
        let norm = r.iter().map(|e| e * e).sum::<f64>().sqrt();
        let scale = g * mass / (norm + f64::EPSILON);
        r.iter().map(|e| (scale * e * self.next_unit()).to_bits()).collect()
    }

    fn vec_add(&mut self, a: &Vec<u64>, b: &Vec<u64>) -> Vec<u64> {
        a.iter()
            .zip(b.iter())
            .map(|(x, y)| (f64::from_bits(*x) + f64::from_bits(*y)).to_bits())
            .collect()
    }

    fn stoch_vel(&mut self, vel: &Vec<u64>, accel: &Vec<u64>) -> Vec<u64> {
        let r = self.next_unit();
        vel.iter()
            .zip(accel.iter())
            .map(|(v, a)| (r * f64::from_bits(*v) + f64::from_bits(*a)).to_bits())
            .collect()
    }

    fn move_reflect(&mut self, pos: &Vec<u64>, vel: &Vec<u64>, lo: u64, hi: u64) -> (Vec<u64>, Vec<
        u64,
    >) {
        let (lo, hi) = (f64::from_bits(lo), f64::from_bits(hi));
        let p = floats_of(pos);
        let v = floats_of(vel);
        let mut new_pos = Vec::new();
        let mut new_vel = Vec::new();
        for i in 0..p.len() {
            if p[i] + v[i] < lo {
                new_pos.push((2.0 * lo - v[i] - p[i]).to_bits());
                new_vel.push((-v[i]).to_bits());
            } else if p[i] + v[i] > hi {
                new_pos.push((2.0 * hi - v[i] - p[i]).to_bits());
                new_vel.push((-v[i]).to_bits());
            } else {
                new_pos.push((p[i] + v[i]).to_bits());
                new_vel.push(v[i].to_bits());
            }
        }
        (new_pos, new_vel)
    }

    fn move_cycle(&mut self, pos: &Vec<u64>, vel: &Vec<u64>, lo: u64, hi: u64) -> Vec<u64> {
        let (lo, hi) = (f64::from_bits(lo), f64::from_bits(hi));
        let width = hi - lo;
        let p = floats_of(pos);
        let v = floats_of(vel);
        let mut out = Vec::new();
        for i in 0..p.len() {
            let mut e = p[i] + v[i];
            while e < lo {
                e += width;
            }
            while e > hi {
                e -= width;
            }
            out.push(e.to_bits());
        }
        out
    }

    fn swarm_vel(
        &mut self,
        w: u64,
        phi_p: u64,
        phi_g: u64,
        vel: &Vec<u64>,
        pos: &Vec<u64>,
        best_pos: &Vec<u64>,
        global_best: &Vec<u64>,
        lo: u64,
        hi: u64,
    ) -> Vec<u64> {
        let (w, phi_p, phi_g) =
            (f64::from_bits(w), f64::from_bits(phi_p), f64::from_bits(phi_g));
        let width = f64::from_bits(hi) - f64::from_bits(lo);
        let r_p = self.next_unit();
        let r_g = self.next_unit();
        let v = floats_of(vel);
        let p = floats_of(pos);
        let b = floats_of(best_pos);
        let g = floats_of(global_best);
        (0..v.len())
            .map(|i| {
                let mut e = w * v[i] + phi_p * r_p * (b[i] - p[i]) + phi_g * r_g * (g[i] - p[i]);
                if e > width {
                    e = width;
                } else if e < -width {
                    e = -width;
                }
                e.to_bits()
            })
            .collect()
    }
}

fn gsa_params_with(g0: u64, alpha: u64) -> gsa_engine::params::Params {
    let mut p = gsa_engine::runner::gsa_default_params();
    p.set(ParamKey::G0, ParamValue::Float(g0));
    p.set(ParamKey::Alpha, ParamValue::Float(alpha));
    p
}

#[test]
fn moving_with_zero_velocity_keeps_the_position_under_every_edge_policy() {
    for edge in [Edge::Reflect, Edge::Pass, Edge::Cycle] {
        let mut kernel = RefKernel::seeded(7);
        let mut p = Particle {
            pos: bits_of(&[12.5, -99.0, 0.25]),
            vel: bits_of(&[0.0, 0.0, 0.0]),
            mass: 0,
            best_pos: None,
            behavior: Behavior { edge, vmax: false },
            best_fitness: 0,
        };
        p.move_pos(&mut kernel, (-100.0f64).to_bits(), 100.0f64.to_bits()).unwrap();
        assert_eq!(floats_of(&p.pos), vec![12.5, -99.0, 0.25]);
        assert_eq!(floats_of(&p.vel), vec![0.0, 0.0, 0.0]);
    }
}

#[test]
fn reflecting_at_the_upper_wall_mirrors_the_overshoot() {
    // One dimension at pos = hi - d with vel = 2d: the move would end d
    // beyond the wall and is mirrored back to hi - d, the velocity flipped.
    let d = 3.0f64;
    let hi = 100.0f64;
    let mut kernel = RefKernel::seeded(7);
    let mut p = Particle {
        pos: bits_of(&[hi - d]),
        vel: bits_of(&[2.0 * d]),
        mass: 0,
        best_pos: None,
        behavior: Behavior { edge: Edge::Reflect, vmax: false },
        best_fitness: 0,
    };
    p.move_pos(&mut kernel, (-100.0f64).to_bits(), hi.to_bits()).unwrap();
    assert_eq!(floats_of(&p.pos), vec![hi - d]);
    assert_eq!(floats_of(&p.vel), vec![-2.0 * d]);
}

#[test]
fn cycling_wraps_a_move_longer_than_the_domain_back_inside() {
    // Domain [0, 10], velocity larger than the width: repeated wrapping must
    // end inside the domain.
    let lo = 0.0f64;
    let hi = 10.0f64;
    let d = 25.0f64;
    let mut kernel = RefKernel::seeded(7);
    let mut p = Particle {
        pos: bits_of(&[hi - d / 2.0]),
        vel: bits_of(&[d]),
        mass: 0,
        best_pos: None,
        behavior: Behavior { edge: Edge::Cycle, vmax: false },
        best_fitness: 0,
    };
    p.move_pos(&mut kernel, lo.to_bits(), hi.to_bits()).unwrap();
    let x = f64::from_bits(p.pos[0]);
    assert!(lo <= x && x <= hi);
    assert_eq!(x, 2.5);
}

#[test]
fn min_max_masses_sum_to_one() {
    let mut kernel = RefKernel::seeded(11);
    let fitness = bits_of(&[4.0, 9.0, 1.0, 16.0, 7.5]);
    let masses = mass_phase(&mut kernel, Normalizer::MinMax, &fitness).unwrap();
    let sum: f64 = floats_of(&masses).iter().sum();
    assert!((sum - 1.0).abs() < 1e-12);
    for m in floats_of(&masses) {
        assert!(m >= 0.0 && m.is_finite());
    }
}

#[test]
fn tied_fitness_produces_a_finite_all_zero_mass_vector() {
    let mut kernel = RefKernel::seeded(11);
    let fitness = bits_of(&[5.0, 5.0, 5.0, 5.0]);
    let masses = mass_phase(&mut kernel, Normalizer::MinMax, &fitness).unwrap();
    for m in floats_of(&masses) {
        assert!(m == 0.0);
        assert!(m.is_finite());
    }
}

#[test]
fn sphere_run_improves_on_the_initial_sample_and_records_every_iteration() {
    // Sphere, domain [-100, 100], dimension 10, population 30, g0 = 1000,
    // alpha = 5, min-max normalization, pass edge policy, 100 iterations,
    // fixed seed.
    let params = gsa_params_with(BITS_1000, BITS_5);
    let behavior = Behavior { edge: Edge::Pass, vmax: false };
    let mut gsa: Gsa<Sphere, RefKernel> = Gsa::new(
        "GSA".to_owned(),
        sphere_problem(10),
        &params,
        behavior,
        false,
        RefKernel::seeded(42),
    )
    .unwrap();
    gsa.init().unwrap();
    let initial_best = f64::from_bits(gsa.global_best_fitness());
    gsa.run(100).unwrap();
    assert_eq!(gsa.data().len(), 100);
    let final_best = f64::from_bits(gsa.global_best_fitness());
    assert!(final_best < initial_best);
    assert!(final_best.is_finite());
}

#[test]
fn recorded_global_best_never_regresses() {
    let params = gsa_params_with(BITS_1000, BITS_5);
    let behavior = Behavior { edge: Edge::Pass, vmax: false };
    let gsa = run_attempt(
        "GSA".to_owned(),
        sphere_problem(6),
        &params,
        behavior,
        false,
        RefKernel::seeded(1234),
        60,
    )
    .unwrap();
    let progress = gsa.global_best_progress();
    assert_eq!(progress.len(), 60);
    let values = floats_of(&progress);
    for w in values.windows(2) {
        assert!(w[1] <= w[0]);
    }
    assert_eq!(
        f64::from_bits(gsa.global_best_fitness()),
        *values.last().unwrap()
    );
}

#[test]
fn degenerate_population_survives_an_iteration_without_nan() {
    // Every particle starts on the same point with zero velocity.
    let mut kernel = RefKernel::seeded(5);
    kernel.degenerate = true;
    let params = gsa_params_with(BITS_1000, BITS_5);
    let behavior = Behavior { edge: Edge::Pass, vmax: false };
    let mut gsa: Gsa<Sphere, RefKernel> =
        Gsa::new("GSA".to_owned(), sphere_problem(4), &params, behavior, true, kernel).unwrap();
    gsa.init().unwrap();
    gsa.run(1).unwrap();
    assert_eq!(gsa.data().len(), 1);
    assert!(f64::from_bits(gsa.global_best_fitness()).is_finite());
    for p in gsa.particles() {
        assert!(f64::from_bits(p.mass).is_finite());
        assert_eq!(f64::from_bits(p.mass), 0.0);
        for b in &p.pos {
            assert!(f64::from_bits(*b).is_finite());
        }
        for b in &p.vel {
            assert!(f64::from_bits(*b).is_finite());
        }
    }
    let entry = &gsa.data()[0];
    assert!(entry.snapshot.is_some());
    assert_eq!(entry.snapshot.as_ref().unwrap().len(), 30);
}

#[test]
fn tiled_run_completes_with_cyclic_edges() {
    let mut params = gsa_params_with(BITS_1000, BITS_5);
    params.set(ParamKey::Tiled, ParamValue::Bool(true));
    let behavior = Behavior { edge: Edge::Cycle, vmax: false };
    let gsa = run_attempt(
        "TiledGSA".to_owned(),
        sphere_problem(5),
        &params,
        behavior,
        false,
        RefKernel::seeded(77),
        30,
    )
    .unwrap();
    assert_eq!(gsa.data().len(), 30);
    // Cyclic moves keep every particle inside the domain.
    for p in gsa.particles() {
        for b in &p.pos {
            let x = f64::from_bits(*b);
            assert!(-100.0 <= x && x <= 100.0);
        }
    }
}

#[test]
fn speed_limited_run_respects_the_domain_width() {
    let params = gsa_params_with(BITS_1000, BITS_5);
    let behavior = Behavior { edge: Edge::Reflect, vmax: true };
    let gsa = run_attempt(
        "IGSA".to_owned(),
        sphere_problem(5),
        &params,
        behavior,
        false,
        RefKernel::seeded(99),
        20,
    )
    .unwrap();
    for p in gsa.particles() {
        let norm = floats_of(&p.vel).iter().map(|e| e * e).sum::<f64>().sqrt();
        assert!(norm <= 200.0 * (1.0 + 1e-12));
    }
}

#[test]
fn swarm_run_improves_and_records_like_the_gravitational_one() {
    let params = gsa_engine::runner::pso_default_params();
    let behavior = Behavior { edge: Edge::Pass, vmax: false };
    let mut pso: Pso<Sphere, RefKernel> = Pso::new(
        "PSO".to_owned(),
        sphere_problem(8),
        &params,
        behavior,
        false,
        RefKernel::seeded(21),
    )
    .unwrap();
    pso.init().unwrap();
    let initial_best = f64::from_bits(pso.global_best_fitness());
    pso.run(80).unwrap();
    assert_eq!(pso.data().len(), 80);
    let final_best = f64::from_bits(pso.global_best_fitness());
    assert!(final_best < initial_best);
    let progress = floats_of(&pso.global_best_progress());
    for w in progress.windows(2) {
        assert!(w[1] <= w[0]);
    }
}

#[test]
fn swarm_attempt_rejects_gravitational_parameters() {
    let params = gsa_engine::runner::gsa_default_params();
    let behavior = Behavior { edge: Edge::Pass, vmax: false };
    let r = run_swarm_attempt(
        "PSO".to_owned(),
        sphere_problem(3),
        &params,
        behavior,
        false,
        RefKernel::seeded(3),
        5,
    );
    assert!(matches!(
        r.err().unwrap(),
        gsa_engine::runner::AttemptError::Config(_)
    ));
}

#[test]
fn every_normalizer_completes_a_short_run() {
    for normalizer in gsa_engine::params::Normalizer::all() {
        let mut params = gsa_params_with(BITS_1000, BITS_5);
        params.set(ParamKey::NormalizerKind, ParamValue::Normalizer(normalizer));
        let behavior = Behavior { edge: Edge::Pass, vmax: false };
        let gsa = run_attempt(
            "GSA".to_owned(),
            sphere_problem(4),
            &params,
            behavior,
            false,
            RefKernel::seeded(1000),
            10,
        )
        .unwrap();
        assert_eq!(gsa.data().len(), 10);
        assert!(f64::from_bits(gsa.global_best_fitness()).is_finite());
    }
}

#[test]
fn evaluation_count_grows_with_the_run() {
    let params = gsa_params_with(BITS_1000, BITS_5);
    let behavior = Behavior { edge: Edge::Pass, vmax: false };
    let gsa = run_attempt(
        "GSA".to_owned(),
        sphere_problem(3),
        &params,
        behavior,
        false,
        RefKernel::seeded(8),
        10,
    )
    .unwrap();
    // At least the initial population and each moved position were counted.
    assert!(gsa.problem().cnt() >= 30);
}

/// A kernel that answers every request with an empty vector.
struct BrokenKernel;

impl Kernel for BrokenKernel {
    fn sample_position(&mut self, _dim: usize, _lo: u64, _hi: u64) -> Vec<u64> {
        Vec::new()
    }
    fn sample_velocity(&mut self, _dim: usize, _lo: u64, _hi: u64) -> Vec<u64> {
        Vec::new()
    }
    fn clamp_speed(&mut self, _vel: &Vec<u64>, _lo: u64, _hi: u64) -> Vec<u64> {
        Vec::new()
    }
    fn decay(&mut self, g0: u64, _alpha: u64, _iter: usize, _total: usize) -> u64 {
        g0
    }
    fn masses(&mut self, _n: Normalizer, _f: &Vec<u64>, _r: &Vec<usize>) -> Vec<u64> {
        Vec::new()
    }
    fn pair_accel(
        &mut self,
        _g: u64,
        _m: u64,
        _pi: &Vec<u64>,
        _pj: &Vec<u64>,
        _t: bool,
        _lo: u64,
        _hi: u64,
    ) -> Vec<u64> {
        Vec::new()
    }
    fn vec_add(&mut self, _a: &Vec<u64>, _b: &Vec<u64>) -> Vec<u64> {
        Vec::new()
    }
    fn stoch_vel(&mut self, _v: &Vec<u64>, _a: &Vec<u64>) -> Vec<u64> {
        Vec::new()
    }
    fn move_reflect(&mut self, _p: &Vec<u64>, _v: &Vec<u64>, _lo: u64, _hi: u64) -> (Vec<u64>, Vec<u64>) {
        (Vec::new(), Vec::new())
    }
    fn move_cycle(&mut self, _p: &Vec<u64>, _v: &Vec<u64>, _lo: u64, _hi: u64) -> Vec<u64> {
        Vec::new()
    }
    fn swarm_vel(
        &mut self,
        _w: u64,
        _pp: u64,
        _pg: u64,
        _v: &Vec<u64>,
        _p: &Vec<u64>,
        _b: &Vec<u64>,
        _g: &Vec<u64>,
        _lo: u64,
        _hi: u64,
    ) -> Vec<u64> {
        Vec::new()
    }
}

#[test]
fn a_malformed_kernel_reply_is_a_reported_engine_error() {
    let params = gsa_params_with(BITS_1000, BITS_5);
    let behavior = Behavior { edge: Edge::Pass, vmax: false };
    let r = run_attempt(
        "GSA".to_owned(),
        sphere_problem(3),
        &params,
        behavior,
        false,
        BrokenKernel,
        5,
    );
    assert!(matches!(
        r.err().unwrap(),
        gsa_engine::runner::AttemptError::Engine(gsa_engine::kernel::EngineError::KernelShape)
    ));
}

#[test]
fn rank_normalization_uses_the_ascending_ranks() {
    // fitness [4, 9, 1] has ascending ranks [1, 2, 0], so the rank masses
    // are 1 - rank/n.
    let mut kernel = RefKernel::seeded(2);
    let fitness = bits_of(&[4.0, 9.0, 1.0]);
    let masses = mass_phase(&mut kernel, Normalizer::Rank, &fitness).unwrap();
    let m = floats_of(&masses);
    assert_eq!(m[0], 1.0 - 1.0 / 3.0);
    assert_eq!(m[1], 1.0 - 2.0 / 3.0);
    assert_eq!(m[2], 1.0);
}

#[test]
fn recorded_worst_never_falls_below_the_recorded_best() {
    let params = gsa_params_with(BITS_1000, BITS_5);
    let behavior = Behavior { edge: Edge::Pass, vmax: false };
    let gsa = run_attempt(
        "GSA".to_owned(),
        sphere_problem(5),
        &params,
        behavior,
        false,
        RefKernel::seeded(314),
        40,
    )
    .unwrap();
    let best = floats_of(&gsa.global_best_progress());
    let worst = floats_of(&gsa.global_worst_progress());
    assert_eq!(best.len(), 40);
    assert_eq!(worst.len(), 40);
    for (b, w) in best.iter().zip(worst.iter()) {
        assert!(b <= w);
    }
}
