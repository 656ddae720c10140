//! The experiment runner's decision core.
//!
//! An experiment fans many independent attempts of one optimizer variant out
//! over the benchmark suite; a grid search additionally sweeps the Cartesian
//! product of two named hyperparameter value lists.  This module builds the
//! plans — which functions, which parameter sets, how many attempts — and
//! runs one attempt to completion; the embedding program supplies the
//! parallel fan-out and the persistence of the results.

use vstd::prelude::*;
use vstd::arithmetic::div_mod::lemma_fundamental_div_mod_converse;
use crate::gsa::Gsa;
use crate::kernel::{EngineError, Kernel};
use crate::params::{
    ConfigError, gsa_params_admissible, Normalizer, ParamKey, ParamValue, Params,
};
use crate::particle::Behavior;
use crate::problem::{Objective, Problem};

verus! {

/// Bit pattern of the double `0.8`, the default inertia weight.
pub const BITS_0_8: u64 = 0x3FE9_9999_9999_999A;

/// Bit pattern of the double `1.0`.
pub const BITS_1: u64 = 0x3FF0_0000_0000_0000;

/// Bit pattern of the double `2.0`.
pub const BITS_2: u64 = 0x4000_0000_0000_0000;

/// Bit pattern of the double `3.0`.
pub const BITS_3: u64 = 0x4008_0000_0000_0000;

/// Bit pattern of the double `4.0`.
pub const BITS_4: u64 = 0x4010_0000_0000_0000;

/// Bit pattern of the double `5.0`, the default decay rate.
pub const BITS_5: u64 = 0x4014_0000_0000_0000;

/// Bit pattern of the double `10.0`.
pub const BITS_10: u64 = 0x4024_0000_0000_0000;

/// Bit pattern of the double `20.0`.
pub const BITS_20: u64 = 0x4034_0000_0000_0000;

/// Bit pattern of the double `50.0`.
pub const BITS_50: u64 = 0x4049_0000_0000_0000;

/// Bit pattern of the double `100.0`.
pub const BITS_100: u64 = 0x4059_0000_0000_0000;

/// Bit pattern of the double `200.0`.
pub const BITS_200: u64 = 0x4069_0000_0000_0000;

/// Bit pattern of the double `500.0`.
pub const BITS_500: u64 = 0x407F_4000_0000_0000;

/// Bit pattern of the double `1000.0`.
pub const BITS_1000: u64 = 0x408F_4000_0000_0000;

/// Bit pattern of the double `2000.0`.
pub const BITS_2000: u64 = 0x409F_4000_0000_0000;

/// Bit pattern of the double `5000.0`, the default gravitational constant.
pub const BITS_5000: u64 = 0x40B3_8800_0000_0000;

/// Bit pattern of the double `10000.0`.
pub const BITS_10000: u64 = 0x40C3_8800_0000_0000;

/// Bit pattern of the double `-1.0`.
pub const BITS_NEG_1: u64 = 0xBFF0_0000_0000_0000;

/// Bit pattern of the double `-2.0`.
pub const BITS_NEG_2: u64 = 0xC000_0000_0000_0000;

/// Bit pattern of the double `-3.0`.
pub const BITS_NEG_3: u64 = 0xC008_0000_0000_0000;

/// Bit pattern of the double `-4.0`.
pub const BITS_NEG_4: u64 = 0xC010_0000_0000_0000;

/// Bit pattern of the double `-100.0`, the lower end of the benchmark
/// suite's domain.
pub const BITS_NEG_100: u64 = 0xC059_0000_0000_0000;

/// The default parameter set of the gravitational search optimizer.
pub open spec fn gsa_default_map() -> Map<ParamKey, ParamValue> {
    Map::empty().insert(ParamKey::ParticleCount, ParamValue::Int(30)).insert(
        ParamKey::G0,
        ParamValue::Float(BITS_5000),
    ).insert(ParamKey::Alpha, ParamValue::Float(BITS_5)).insert(
        ParamKey::NormalizerKind,
        ParamValue::Normalizer(Normalizer::MinMax),
    ).insert(ParamKey::Tiled, ParamValue::Bool(false))
}

/// The gravitational defaults with the toroidal topology switched on.
pub open spec fn tiled_gsa_default_map() -> Map<ParamKey, ParamValue> {
    gsa_default_map().insert(ParamKey::Tiled, ParamValue::Bool(true))
}

/// The default parameter set of the particle swarm optimizer.
pub open spec fn pso_default_map() -> Map<ParamKey, ParamValue> {
    Map::empty().insert(ParamKey::ParticleCount, ParamValue::Int(30)).insert(
        ParamKey::W,
        ParamValue::Float(BITS_0_8),
    ).insert(ParamKey::PhiP, ParamValue::Float(BITS_1)).insert(
        ParamKey::PhiG,
        ParamValue::Float(BITS_1),
    )
}

/// The default gravitational parameters.
pub fn gsa_default_params() -> (r: Params)
    ensures
        r.wf(),
        r.map() == gsa_default_map(),
        gsa_params_admissible(r.map()),
{
    let mut p = Params::new();
    p.set(ParamKey::ParticleCount, ParamValue::Int(30));
    p.set(ParamKey::G0, ParamValue::Float(BITS_5000));
    p.set(ParamKey::Alpha, ParamValue::Float(BITS_5));
    p.set(ParamKey::NormalizerKind, ParamValue::Normalizer(Normalizer::MinMax));
    p.set(ParamKey::Tiled, ParamValue::Bool(false));
    p
}

/// The gravitational defaults for the tiled variant.
pub fn tiled_gsa_default_params() -> (r: Params)
    ensures
        r.wf(),
        r.map() == tiled_gsa_default_map(),
        gsa_params_admissible(r.map()),
{
    let mut p = gsa_default_params();
    p.set(ParamKey::Tiled, ParamValue::Bool(true));
    p
}

/// The default particle-swarm parameters.
pub fn pso_default_params() -> (r: Params)
    ensures
        r.wf(),
        r.map() == pso_default_map(),
{
    let mut p = Params::new();
    p.set(ParamKey::ParticleCount, ParamValue::Int(30));
    p.set(ParamKey::W, ParamValue::Float(BITS_0_8));
    p.set(ParamKey::PhiP, ParamValue::Float(BITS_1));
    p.set(ParamKey::PhiG, ParamValue::Float(BITS_1));
    p
}

/// The benchmark suite's function numbers: 1 through 30 with the retired
/// number 2 left out.
pub open spec fn spec_cec17_num(idx: int) -> int {
    if idx == 0 {
        1
    } else {
        idx + 2
    }
}

/// The function numbers of the benchmark suite, in ascending order.
pub fn cec17_function_numbers() -> (r: Vec<usize>)
    ensures
        r@.len() == 29,
        forall|i: int| 0 <= i < 29 ==> r@[i] == spec_cec17_num(i),
        forall|i: int| 0 <= i < 29 ==> 1 <= #[trigger] r@[i] <= 30 && r@[i] != 2,
{
    let mut r: Vec<usize> = Vec::new();
    let mut num: usize = 1;
    while num <= 30
        invariant
            1 <= num <= 31,
            r@.len() == (if num <= 2 {
                num - 1
            } else {
                num - 2
            }),
            forall|i: int| 0 <= i < r@.len() ==> r@[i] == spec_cec17_num(i),
            forall|i: int| 0 <= i < r@.len() ==> 1 <= #[trigger] r@[i] <= 30 && r@[i] != 2,
        decreases 31 - num,
    {
        if num != 2 {
            r.push(num);
        }
        num = num + 1;
    }
    r
}

/// All parameter sets of a two-axis sweep: the base overridden by each pair
/// from the Cartesian product, in row-major order — the set at position `p`
/// binds `key1` to `axis1[p / axis2.len()]` and `key2` to
/// `axis2[p % axis2.len()]`.
pub fn grid_combinations(
    base: &Params,
    key1: ParamKey,
    axis1: &Vec<ParamValue>,
    key2: ParamKey,
    axis2: &Vec<ParamValue>,
) -> (r: Vec<Params>)
    requires
        base.wf(),
        axis1@.len() * axis2@.len() <= usize::MAX,
        axis2@.len() >= 1,
    ensures
        r@.len() == axis1@.len() * axis2@.len(),
        forall|p: int|
            0 <= p < r@.len() ==> {
                &&& (#[trigger] r@[p]).wf()
                &&& r@[p].map() == base.map().insert(
                    key1,
                    axis1@[p / axis2@.len() as int],
                ).insert(key2, axis2@[p % axis2@.len() as int])
            },
{
    let n1 = axis1.len();
    let n2 = axis2.len();
    let mut r: Vec<Params> = Vec::new();
    let mut i: usize = 0;
    while i < n1
        invariant
            i <= n1,
            n1 == axis1@.len(),
            n2 == axis2@.len(),
            n2 >= 1,
            n1 * n2 <= usize::MAX,
            base.wf(),
            r@.len() == i * n2,
            forall|p: int|
                0 <= p < r@.len() ==> {
                    &&& (#[trigger] r@[p]).wf()
                    &&& r@[p].map() == base.map().insert(key1, axis1@[p / n2 as int]).insert(
                        key2,
                        axis2@[p % n2 as int],
                    )
                },
        decreases n1 - i,
    {
        proof {
            assert((i + 1) * n2 == i * n2 + n2) by (nonlinear_arith);
            assert((i + 1) * n2 <= n1 * n2) by (nonlinear_arith)
                requires
                    i < n1,
                    n2 >= 1,
            ;
        }
        let mut j: usize = 0;
        while j < n2
            invariant
                j <= n2,
                i < n1,
                n1 == axis1@.len(),
                n2 == axis2@.len(),
                n2 >= 1,
                i * n2 + n2 <= n1 * n2 <= usize::MAX,
                base.wf(),
                r@.len() == i * n2 + j,
                forall|p: int|
                    0 <= p < r@.len() ==> {
                        &&& (#[trigger] r@[p]).wf()
                        &&& r@[p].map() == base.map().insert(key1, axis1@[p / n2 as int]).insert(
                            key2,
                            axis2@[p % n2 as int],
                        )
                    },
            decreases n2 - j,
        {
            let mut combo = clone_params(base);
            combo.set(key1, axis1[i]);
            combo.set(key2, axis2[j]);
            proof {
                lemma_fundamental_div_mod_converse(
                    (i * n2 + j) as int,
                    n2 as int,
                    i as int,
                    j as int,
                );
            }
            r.push(combo);
            j = j + 1;
        }
        i = i + 1;
    }
    r
}

/// A value-equal copy of a parameter set, rebuilt binding by binding.
pub fn clone_params(src: &Params) -> (r: Params)
    requires
        src.wf(),
    ensures
        r.wf(),
        r.map() == src.map(),
{
    let mut out = Params::new();
    let keys = all_param_keys();
    let n = keys.len();
    let mut i: usize = 0;
    while i < n
        invariant
            i <= n,
            n == keys@.len(),
            src.wf(),
            out.wf(),
            forall|p: int|
                0 <= p < i ==> (src.map().contains_key(#[trigger] keys@[p])
                    ==> out.map().contains_key(keys@[p]) && out.map()[keys@[p]]
                    == src.map()[keys@[p]]),
            forall|k: ParamKey|
                #[trigger] out.map().contains_key(k) ==> src.map().contains_key(k)
                    && out.map()[k] == src.map()[k],
        decreases n - i,
    {
        let k = keys[i];
        match src.get(k) {
            Some(v) => {
                out.set(k, v);
            },
            None => {},
        }
        i = i + 1;
    }
    proof {
        assert forall|k: ParamKey| #[trigger] src.map().dom().contains(k) implies
            out.map().dom().contains(k) && out.map()[k] == src.map()[k] by {
            assert(src.map().contains_key(k));
            lemma_param_keys_complete(keys@, k);
            let p = choose|p: int| 0 <= p < keys@.len() && keys@[p] == k;
            assert(src.map().contains_key(keys@[p]) ==> out.map().contains_key(keys@[p])
                && out.map()[keys@[p]] == src.map()[keys@[p]]);
            assert(out.map().contains_key(k));
        }
        assert forall|k: ParamKey| #[trigger] out.map().dom().contains(k) implies
            src.map().dom().contains(k) by {
            assert(out.map().contains_key(k));
        }
        assert(out.map() =~= src.map());
    }
    out
}

/// `k` occurs somewhere in `keys`.
pub open spec fn seq_has_key(keys: Seq<ParamKey>, k: ParamKey) -> bool {
    exists|p: int| 0 <= p < keys.len() && #[trigger] keys[p] == k
}

/// Every parameter key, once.
fn all_param_keys() -> (r: Vec<ParamKey>)
    ensures
        r@.len() == 9,
        forall|k: ParamKey| #[trigger] seq_has_key(r@, k),
{
    let mut r: Vec<ParamKey> = Vec::new();
    r.push(ParamKey::ParticleCount);
    r.push(ParamKey::G0);
    r.push(ParamKey::Alpha);
    r.push(ParamKey::NormalizerKind);
    r.push(ParamKey::Tiled);
    r.push(ParamKey::BehaviorKey);
    r.push(ParamKey::W);
    r.push(ParamKey::PhiP);
    r.push(ParamKey::PhiG);
    proof {
        assert forall|k: ParamKey| #[trigger] seq_has_key(r@, k) by {
            match k {
                ParamKey::ParticleCount => assert(r@[0] == k),
                ParamKey::G0 => assert(r@[1] == k),
                ParamKey::Alpha => assert(r@[2] == k),
                ParamKey::NormalizerKind => assert(r@[3] == k),
                ParamKey::Tiled => assert(r@[4] == k),
                ParamKey::BehaviorKey => assert(r@[5] == k),
                ParamKey::W => assert(r@[6] == k),
                ParamKey::PhiP => assert(r@[7] == k),
                ParamKey::PhiG => assert(r@[8] == k),
            }
        }
    }
    r
}

proof fn lemma_param_keys_complete(keys: Seq<ParamKey>, k: ParamKey)
    requires
        forall|k0: ParamKey| #[trigger] seq_has_key(keys, k0),
    ensures
        exists|p: int| 0 <= p < keys.len() && #[trigger] keys[p] == k,
{
    assert(seq_has_key(keys, k));
}

/// The behavior that pairs with a topology: a tiled run wraps at the edges,
/// an untiled one passes through them; neither clamps the speed.
pub fn behavior_from_tiled(tiled: bool) -> (r: ParamValue)
    ensures
        r == ParamValue::Behavior(
            Behavior {
                edge: if tiled {
                    crate::particle::Edge::Cycle
                } else {
                    crate::particle::Edge::Pass
                },
                vmax: false,
            },
        ),
{
    ParamValue::Behavior(
        Behavior {
            edge: if tiled {
                crate::particle::Edge::Cycle
            } else {
                crate::particle::Edge::Pass
            },
            vmax: false,
        },
    )
}

/// The gravitational constant each normalization strategy is usually run
/// with.
pub fn g0_from_normalizer(normalizer: Normalizer) -> (r: ParamValue)
    ensures
        r == ParamValue::Float(
            match normalizer {
                Normalizer::MinMax => BITS_1000,
                Normalizer::ZScore => BITS_100,
                _ => BITS_50,
            },
        ),
{
    ParamValue::Float(
        match normalizer {
            Normalizer::MinMax => BITS_1000,
            Normalizer::ZScore => BITS_100,
            _ => BITS_50,
        },
    )
}

/// The decay rate each normalization strategy is usually run with.
pub fn alpha_from_normalizer(normalizer: Normalizer) -> (r: ParamValue)
    ensures
        r == ParamValue::Float(BITS_5),
{
    let _ = normalizer;
    ParamValue::Float(BITS_5)
}

/// Why one attempt failed: its parameters were rejected, or the kernel broke
/// the engine's shape expectations mid-run.
#[derive(Clone, Copy, PartialEq, Eq, Structural, Debug)]
pub enum AttemptError {
    Config(ConfigError),
    Engine(EngineError),
}

/// One complete, independent attempt: validate the parameters, build the
/// optimizer, create and evaluate its population, and run the configured
/// number of iterations.  On success the returned optimizer holds one
/// history entry per iteration with the recorded global best never
/// regressing; a parameter rejection is reported exactly when the set is
/// inadmissible.
pub fn run_attempt<O: Objective, K: Kernel>(
    name: String,
    problem: Problem<O>,
    params: &Params,
    behavior: Behavior,
    save: bool,
    kernel: K,
    iterations: usize,
) -> (r: Result<Gsa<O, K>, AttemptError>)
    requires
        params.wf(),
        problem.wf(),
        iterations <= 0xffff_ffff,
    ensures
        (r matches Err(AttemptError::Config(_))) <==> !gsa_params_admissible(params.map()),
        r matches Err(AttemptError::Config(e)) ==> Some(e) == crate::params::gsa_params_error(
            params.map(),
        ),
        r matches Ok(gsa) ==> {
            &&& gsa.wf()
            &&& gsa.is_initialized()
            &&& gsa.history().len() == iterations
            &&& gsa.spec_save() == save
            &&& gsa.spec_name() == name@
            &&& gsa.spec_behavior() == behavior
            &&& crate::gsa::chain_non_increasing(
                gsa.history_fitness(),
                0,
                gsa.history_fitness()[0],
            )
            &&& forall|i: int|
                0 <= i < iterations ==> ((#[trigger] gsa.history()[i]).snapshot is Some <==> save)
        },
{
    let mut gsa = match Gsa::new(name, problem, params, behavior, save, kernel) {
        Ok(g) => g,
        Err(e) => {
            return Err(AttemptError::Config(e));
        },
    };
    if let Err(e) = gsa.init() {
        return Err(AttemptError::Engine(e));
    }
    if let Err(e) = gsa.run(iterations) {
        return Err(AttemptError::Engine(e));
    }
    Ok(gsa)
}

/// One complete, independent particle-swarm attempt, with the same shape of
/// guarantees as [`run_attempt`].
pub fn run_swarm_attempt<O: Objective, K: Kernel>(
    name: String,
    problem: Problem<O>,
    params: &Params,
    behavior: Behavior,
    save: bool,
    kernel: K,
    iterations: usize,
) -> (r: Result<crate::pso::Pso<O, K>, AttemptError>)
    requires
        params.wf(),
        problem.wf(),
        iterations <= 0xffff_ffff,
    ensures
        (r matches Err(AttemptError::Config(_))) <==> !crate::params::pso_params_admissible(
            params.map(),
        ),
        r matches Err(AttemptError::Config(e)) ==> Some(e) == crate::params::pso_params_error(
            params.map(),
        ),
        r matches Ok(pso) ==> {
            &&& pso.wf()
            &&& pso.is_initialized()
            &&& pso.history().len() == iterations
            &&& pso.spec_save() == save
            &&& pso.spec_name() == name@
            &&& pso.spec_behavior() == behavior
            &&& crate::gsa::chain_non_increasing(
                pso.history_fitness(),
                0,
                pso.history_fitness()[0],
            )
            &&& forall|i: int|
                0 <= i < iterations ==> ((#[trigger] pso.history()[i]).snapshot is Some <==> save)
        },
{
    let mut pso = match crate::pso::Pso::new(name, problem, params, behavior, save, kernel) {
        Ok(p) => p,
        Err(e) => {
            return Err(AttemptError::Config(e));
        },
    };
    if let Err(e) = pso.init() {
        return Err(AttemptError::Engine(e));
    }
    if let Err(e) = pso.run(iterations) {
        return Err(AttemptError::Engine(e));
    }
    Ok(pso)
}

/// A benchmark experiment: one optimizer variant, one parameter set, run for
/// `attempts` independent attempts against every function of the suite.  The
/// embedding program turns the plan into directories, progress reporting and
/// parallel attempts.
pub struct ExperimentPlan {
    /// The optimizer variant to run.
    pub optimizer: String,
    /// First path segment of the output directory tree.
    pub category: String,
    /// Directory name of the variant under the category and dimension.
    pub variant_dir: String,
    pub params: Params,
    pub iterations: usize,
    pub dim: usize,
    pub attempts: usize,
    pub behavior: Behavior,
    /// The benchmark functions to run against.
    pub function_numbers: Vec<usize>,
    /// Whether attempts keep full per-iteration population snapshots.
    pub save: bool,
}

/// A grid-search experiment: the base parameters swept over two axes.
pub struct GridPlan {
    pub optimizer: String,
    pub category: String,
    pub variant_dir: String,
    pub axis1_key: ParamKey,
    pub axis1: Vec<ParamValue>,
    pub axis2_key: ParamKey,
    pub axis2: Vec<ParamValue>,
    /// One parameter set per grid point, row-major over the two axes.
    pub combinations: Vec<Params>,
    pub iterations: usize,
    pub dim: usize,
    pub attempts: usize,
    pub behavior: Behavior,
    pub function_numbers: Vec<usize>,
    pub save: bool,
}

/// What every benchmark plan promises about its fixed parts.
pub open spec fn benchmark_plan_shape(
    p: &ExperimentPlan,
    iterations: usize,
    dim: usize,
    attempts: usize,
    behavior: Behavior,
) -> bool {
    &&& p.iterations == iterations
    &&& p.dim == dim
    &&& p.attempts == attempts
    &&& p.behavior == behavior
    &&& !p.save
    &&& p.params.wf()
    &&& p.function_numbers@.len() == 29
    &&& forall|i: int| 0 <= i < 29 ==> p.function_numbers@[i] == spec_cec17_num(i)
}

/// The particle-swarm benchmark run over the whole suite, with the default
/// swarm parameters.
pub fn pso_cec17(iterations: usize, dim: usize, attempts: usize, behavior: Behavior) -> (p:
    ExperimentPlan)
    ensures
        benchmark_plan_shape(&p, iterations, dim, attempts, behavior),
        p.optimizer@ == "PSO"@,
        p.category@ == "test"@,
        p.variant_dir@ == "pso"@,
        p.params.map() == pso_default_map(),
{
    ExperimentPlan {
        optimizer: "PSO".to_owned(),
        category: "test".to_owned(),
        variant_dir: "pso".to_owned(),
        params: pso_default_params(),
        iterations,
        dim,
        attempts,
        behavior,
        function_numbers: cec17_function_numbers(),
        save: false,
    }
}

/// The gravitational-search benchmark run over the whole suite, with the
/// default gravitational parameters.
pub fn gsa_cec17(iterations: usize, dim: usize, attempts: usize, behavior: Behavior) -> (p:
    ExperimentPlan)
    ensures
        benchmark_plan_shape(&p, iterations, dim, attempts, behavior),
        p.optimizer@ == "GSA"@,
        p.category@ == "test"@,
        p.variant_dir@ == "gsa"@,
        p.params.map() == gsa_default_map(),
        gsa_params_admissible(p.params.map()),
{
    ExperimentPlan {
        optimizer: "GSA".to_owned(),
        category: "test".to_owned(),
        variant_dir: "gsa".to_owned(),
        params: gsa_default_params(),
        iterations,
        dim,
        attempts,
        behavior,
        function_numbers: cec17_function_numbers(),
        save: false,
    }
}

/// The improved-variant benchmark run: the gravitational defaults under the
/// variant's own name, its particles carrying the speed limit through their
/// behavior.
pub fn igsa_cec17(iterations: usize, dim: usize, attempts: usize, behavior: Behavior) -> (p:
    ExperimentPlan)
    ensures
        benchmark_plan_shape(&p, iterations, dim, attempts, behavior),
        p.optimizer@ == "IGSA"@,
        p.category@ == "test"@,
        p.variant_dir@ == "igsa"@,
        p.params.map() == gsa_default_map(),
        gsa_params_admissible(p.params.map()),
{
    ExperimentPlan {
        optimizer: "IGSA".to_owned(),
        category: "test".to_owned(),
        variant_dir: "igsa".to_owned(),
        params: gsa_default_params(),
        iterations,
        dim,
        attempts,
        behavior,
        function_numbers: cec17_function_numbers(),
        save: false,
    }
}

/// The tiled-variant benchmark run: the gravitational defaults with the
/// toroidal minimum-image rule switched on.
pub fn tiled_gsa_cec17(iterations: usize, dim: usize, attempts: usize, behavior: Behavior) -> (p:
    ExperimentPlan)
    ensures
        benchmark_plan_shape(&p, iterations, dim, attempts, behavior),
        p.optimizer@ == "TiledGSA"@,
        p.category@ == "test"@,
        p.variant_dir@ == "tiled_gsa"@,
        p.params.map() == tiled_gsa_default_map(),
        gsa_params_admissible(p.params.map()),
{
    ExperimentPlan {
        optimizer: "TiledGSA".to_owned(),
        category: "test".to_owned(),
        variant_dir: "tiled_gsa".to_owned(),
        params: tiled_gsa_default_params(),
        iterations,
        dim,
        attempts,
        behavior,
        function_numbers: cec17_function_numbers(),
        save: false,
    }
}

/// What every grid plan promises about its fixed parts: row-major
/// combinations of the two axes over the base parameters.
pub open spec fn grid_plan_shape(
    p: &GridPlan,
    iterations: usize,
    dim: usize,
    attempts: usize,
    behavior: Behavior,
    base: Map<ParamKey, ParamValue>,
) -> bool {
    &&& p.iterations == iterations
    &&& p.dim == dim
    &&& p.attempts == attempts
    &&& p.behavior == behavior
    &&& !p.save
    &&& p.function_numbers@.len() == 29
    &&& forall|i: int| 0 <= i < 29 ==> p.function_numbers@[i] == spec_cec17_num(i)
    &&& p.axis2@.len() >= 1
    &&& p.combinations@.len() == p.axis1@.len() * p.axis2@.len()
    &&& forall|q: int|
        0 <= q < p.combinations@.len() ==> {
            &&& (#[trigger] p.combinations@[q]).wf()
            &&& p.combinations@[q].map() == base.insert(
                p.axis1_key,
                p.axis1@[q / p.axis2@.len() as int],
            ).insert(p.axis2_key, p.axis2@[q % p.axis2@.len() as int])
        }
}

/// The swarm's attraction-coefficient sweep: -4 through 4 in steps of one.
pub open spec fn pso_phi_sweep() -> Seq<ParamValue> {
    seq![
        ParamValue::Float(BITS_NEG_4),
        ParamValue::Float(BITS_NEG_3),
        ParamValue::Float(BITS_NEG_2),
        ParamValue::Float(BITS_NEG_1),
        ParamValue::Float(0u64),
        ParamValue::Float(BITS_1),
        ParamValue::Float(BITS_2),
        ParamValue::Float(BITS_3),
        ParamValue::Float(BITS_4),
    ]
}

/// The gravitational-constant sweep: 2 through 10000.
pub open spec fn gsa_g0_sweep() -> Seq<ParamValue> {
    seq![
        ParamValue::Float(BITS_2),
        ParamValue::Float(BITS_5),
        ParamValue::Float(BITS_10),
        ParamValue::Float(BITS_20),
        ParamValue::Float(BITS_50),
        ParamValue::Float(BITS_100),
        ParamValue::Float(BITS_200),
        ParamValue::Float(BITS_500),
        ParamValue::Float(BITS_1000),
        ParamValue::Float(BITS_2000),
        ParamValue::Float(BITS_5000),
        ParamValue::Float(BITS_10000),
    ]
}

/// The decay-rate sweep: 1 through 100.
pub open spec fn gsa_alpha_sweep() -> Seq<ParamValue> {
    seq![
        ParamValue::Float(BITS_1),
        ParamValue::Float(BITS_2),
        ParamValue::Float(BITS_5),
        ParamValue::Float(BITS_10),
        ParamValue::Float(BITS_20),
        ParamValue::Float(BITS_50),
        ParamValue::Float(BITS_100),
    ]
}

/// The sweep values of the swarm's attraction coefficients.
pub fn pso_phi_options() -> (r: Vec<ParamValue>)
    ensures
        r@ == pso_phi_sweep(),
{
    let mut r: Vec<ParamValue> = Vec::new();
    r.push(ParamValue::Float(BITS_NEG_4));
    r.push(ParamValue::Float(BITS_NEG_3));
    r.push(ParamValue::Float(BITS_NEG_2));
    r.push(ParamValue::Float(BITS_NEG_1));
    r.push(ParamValue::Float(0));
    r.push(ParamValue::Float(BITS_1));
    r.push(ParamValue::Float(BITS_2));
    r.push(ParamValue::Float(BITS_3));
    r.push(ParamValue::Float(BITS_4));
    proof {
        assert(r@ =~= pso_phi_sweep());
    }
    r
}

/// The sweep values of the gravitational constant.
pub fn gsa_g0_options() -> (r: Vec<ParamValue>)
    ensures
        r@ == gsa_g0_sweep(),
        forall|i: int| 0 <= i < r@.len() ==> (#[trigger] r@[i]) is Float,
{
    let mut r: Vec<ParamValue> = Vec::new();
    r.push(ParamValue::Float(BITS_2));
    r.push(ParamValue::Float(BITS_5));
    r.push(ParamValue::Float(BITS_10));
    r.push(ParamValue::Float(BITS_20));
    r.push(ParamValue::Float(BITS_50));
    r.push(ParamValue::Float(BITS_100));
    r.push(ParamValue::Float(BITS_200));
    r.push(ParamValue::Float(BITS_500));
    r.push(ParamValue::Float(BITS_1000));
    r.push(ParamValue::Float(BITS_2000));
    r.push(ParamValue::Float(BITS_5000));
    r.push(ParamValue::Float(BITS_10000));
    proof {
        assert(r@ =~= gsa_g0_sweep());
    }
    r
}

/// The sweep values of the decay rate.
pub fn gsa_alpha_options() -> (r: Vec<ParamValue>)
    ensures
        r@ == gsa_alpha_sweep(),
        forall|i: int| 0 <= i < r@.len() ==> (#[trigger] r@[i]) is Float,
{
    let mut r: Vec<ParamValue> = Vec::new();
    r.push(ParamValue::Float(BITS_1));
    r.push(ParamValue::Float(BITS_2));
    r.push(ParamValue::Float(BITS_5));
    r.push(ParamValue::Float(BITS_10));
    r.push(ParamValue::Float(BITS_20));
    r.push(ParamValue::Float(BITS_50));
    r.push(ParamValue::Float(BITS_100));
    proof {
        assert(r@ =~= gsa_alpha_sweep());
    }
    r
}

/// The base parameters a gravitational grid search sweeps from.
pub open spec fn gsa_grid_base_map() -> Map<ParamKey, ParamValue> {
    Map::empty().insert(ParamKey::ParticleCount, ParamValue::Int(30)).insert(
        ParamKey::NormalizerKind,
        ParamValue::Normalizer(Normalizer::MinMax),
    ).insert(ParamKey::Tiled, ParamValue::Bool(false))
}

fn gsa_grid_base_params() -> (r: Params)
    ensures
        r.wf(),
        r.map() == gsa_grid_base_map(),
{
    let mut p = Params::new();
    p.set(ParamKey::ParticleCount, ParamValue::Int(30));
    p.set(ParamKey::NormalizerKind, ParamValue::Normalizer(Normalizer::MinMax));
    p.set(ParamKey::Tiled, ParamValue::Bool(false));
    p
}

/// The base parameters a swarm grid search sweeps from.
pub open spec fn pso_grid_base_map() -> Map<ParamKey, ParamValue> {
    Map::empty().insert(ParamKey::ParticleCount, ParamValue::Int(30)).insert(
        ParamKey::W,
        ParamValue::Float(BITS_0_8),
    )
}

fn pso_grid_base_params() -> (r: Params)
    ensures
        r.wf(),
        r.map() == pso_grid_base_map(),
{
    let mut p = Params::new();
    p.set(ParamKey::ParticleCount, ParamValue::Int(30));
    p.set(ParamKey::W, ParamValue::Float(BITS_0_8));
    p
}

/// The swarm's grid search: both attraction coefficients swept over the
/// whole suite.
pub fn grid_search_pso(iterations: usize, dim: usize, attempts: usize, behavior: Behavior) -> (p:
    GridPlan)
    ensures
        grid_plan_shape(&p, iterations, dim, attempts, behavior, pso_grid_base_map()),
        p.optimizer@ == "PSO"@,
        p.category@ == "grid_search"@,
        p.variant_dir@ == "pso"@,
        p.axis1_key == ParamKey::PhiP,
        p.axis2_key == ParamKey::PhiG,
        p.axis1@ == pso_phi_sweep(),
        p.axis2@ == pso_phi_sweep(),
{
    let base = pso_grid_base_params();
    let axis1 = pso_phi_options();
    let axis2 = pso_phi_options();
    proof {
        assert(axis1@.len() == 9);
        assert(axis2@.len() == 9);
    }
    let combinations = grid_combinations(&base, ParamKey::PhiP, &axis1, ParamKey::PhiG, &axis2);
    GridPlan {
        optimizer: "PSO".to_owned(),
        category: "grid_search".to_owned(),
        variant_dir: "pso".to_owned(),
        axis1_key: ParamKey::PhiP,
        axis1,
        axis2_key: ParamKey::PhiG,
        axis2,
        combinations,
        iterations,
        dim,
        attempts,
        behavior,
        function_numbers: cec17_function_numbers(),
        save: false,
    }
}

/// The gravitational grid search: constant and decay rate swept over the
/// whole suite.  Every grid point stays admissible for the optimizer.
pub fn grid_search_gsa(iterations: usize, dim: usize, attempts: usize, behavior: Behavior) -> (p:
    GridPlan)
    ensures
        grid_plan_shape(&p, iterations, dim, attempts, behavior, gsa_grid_base_map()),
        p.optimizer@ == "GSA"@,
        p.category@ == "grid_search"@,
        p.variant_dir@ == "gsa"@,
        p.axis1_key == ParamKey::G0,
        p.axis2_key == ParamKey::Alpha,
        p.axis1@ == gsa_g0_sweep(),
        p.axis2@ == gsa_alpha_sweep(),
        forall|q: int|
            0 <= q < p.combinations@.len() ==> gsa_params_admissible(
                (#[trigger] p.combinations@[q]).map(),
            ),
{
    grid_search_gsa_variant("GSA".to_owned(), "gsa".to_owned(), iterations, dim, attempts, behavior)
}

/// The improved variant's grid search: the same axes under its own name.
pub fn grid_search_igsa(iterations: usize, dim: usize, attempts: usize, behavior: Behavior) -> (p:
    GridPlan)
    ensures
        grid_plan_shape(&p, iterations, dim, attempts, behavior, gsa_grid_base_map()),
        p.optimizer@ == "IGSA"@,
        p.category@ == "grid_search"@,
        p.variant_dir@ == "igsa"@,
        p.axis1_key == ParamKey::G0,
        p.axis2_key == ParamKey::Alpha,
        p.axis1@ == gsa_g0_sweep(),
        p.axis2@ == gsa_alpha_sweep(),
        forall|q: int|
            0 <= q < p.combinations@.len() ==> gsa_params_admissible(
                (#[trigger] p.combinations@[q]).map(),
            ),
{
    grid_search_gsa_variant(
        "IGSA".to_owned(),
        "igsa".to_owned(),
        iterations,
        dim,
        attempts,
        behavior,
    )
}

fn grid_search_gsa_variant(
    optimizer: String,
    variant_dir: String,
    iterations: usize,
    dim: usize,
    attempts: usize,
    behavior: Behavior,
) -> (p: GridPlan)
    ensures
        grid_plan_shape(&p, iterations, dim, attempts, behavior, gsa_grid_base_map()),
        p.optimizer@ == optimizer@,
        p.category@ == "grid_search"@,
        p.variant_dir@ == variant_dir@,
        p.axis1_key == ParamKey::G0,
        p.axis2_key == ParamKey::Alpha,
        p.axis1@ == gsa_g0_sweep(),
        p.axis2@ == gsa_alpha_sweep(),
        forall|q: int|
            0 <= q < p.combinations@.len() ==> gsa_params_admissible(
                (#[trigger] p.combinations@[q]).map(),
            ),
{
    let base = gsa_grid_base_params();
    let axis1 = gsa_g0_options();
    let axis2 = gsa_alpha_options();
    proof {
        assert(axis1@.len() == 12);
        assert(axis2@.len() == 7);
    }
    let combinations = grid_combinations(&base, ParamKey::G0, &axis1, ParamKey::Alpha, &axis2);
    proof {
        assert forall|q: int| 0 <= q < combinations@.len() implies gsa_params_admissible(
            (#[trigger] combinations@[q]).map(),
        ) by {
            assert(axis1@[q / axis2@.len() as int] is Float);
            assert(axis2@[q % axis2@.len() as int] is Float);
        }
    }
    GridPlan {
        optimizer,
        category: "grid_search".to_owned(),
        variant_dir,
        axis1_key: ParamKey::G0,
        axis1,
        axis2_key: ParamKey::Alpha,
        axis2,
        combinations,
        iterations,
        dim,
        attempts,
        behavior,
        function_numbers: cec17_function_numbers(),
        save: false,
    }
}

} // verus!
