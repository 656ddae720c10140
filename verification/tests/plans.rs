use gsa_engine::params::{Normalizer, ParamKey, ParamValue};
use gsa_engine::particle::{Behavior, Edge};
use gsa_engine::runner::{
    alpha_from_normalizer, behavior_from_tiled, cec17_function_numbers, g0_from_normalizer,
    grid_search_gsa, grid_search_igsa, grid_search_pso, gsa_cec17, igsa_cec17, pso_cec17,
    tiled_gsa_cec17, BITS_0_8, BITS_1, BITS_100, BITS_1000, BITS_10000, BITS_2, BITS_5, BITS_50,
    BITS_5000, BITS_NEG_4,
};

fn pass_behavior() -> Behavior {
    Behavior { edge: Edge::Pass, vmax: false }
}

#[test]
fn suite_numbers_skip_the_retired_function() {
    let nums = cec17_function_numbers();
    assert_eq!(nums.len(), 29);
    assert_eq!(nums[0], 1);
    assert_eq!(nums[1], 3);
    assert_eq!(nums[28], 30);
    assert!(!nums.contains(&2));
    for w in nums.windows(2) {
        assert!(w[0] < w[1]);
    }
}

#[test]
fn gsa_benchmark_plan_carries_the_defaults() {
    let p = gsa_cec17(1000, 10, 7, pass_behavior());
    assert_eq!(p.optimizer, "GSA");
    assert_eq!(p.category, "test");
    assert_eq!(p.variant_dir, "gsa");
    assert_eq!(p.iterations, 1000);
    assert_eq!(p.dim, 10);
    assert_eq!(p.attempts, 7);
    assert!(!p.save);
    assert_eq!(p.function_numbers.len(), 29);
    assert_eq!(p.params.get(ParamKey::ParticleCount), Some(ParamValue::Int(30)));
    assert_eq!(p.params.get(ParamKey::G0), Some(ParamValue::Float(BITS_5000)));
    assert_eq!(p.params.get(ParamKey::Alpha), Some(ParamValue::Float(BITS_5)));
    assert_eq!(
        p.params.get(ParamKey::NormalizerKind),
        Some(ParamValue::Normalizer(Normalizer::MinMax))
    );
    assert_eq!(p.params.get(ParamKey::Tiled), Some(ParamValue::Bool(false)));
}

#[test]
fn variant_benchmark_plans_differ_only_where_they_should() {
    let b = pass_behavior();
    let igsa = igsa_cec17(100, 30, 3, b);
    assert_eq!(igsa.optimizer, "IGSA");
    assert_eq!(igsa.variant_dir, "igsa");
    assert_eq!(igsa.params.get(ParamKey::Tiled), Some(ParamValue::Bool(false)));

    let tiled = tiled_gsa_cec17(100, 30, 3, Behavior { edge: Edge::Cycle, vmax: false });
    assert_eq!(tiled.optimizer, "TiledGSA");
    assert_eq!(tiled.variant_dir, "tiled_gsa");
    assert_eq!(tiled.params.get(ParamKey::Tiled), Some(ParamValue::Bool(true)));
    assert_eq!(tiled.params.get(ParamKey::G0), Some(ParamValue::Float(BITS_5000)));

    let pso = pso_cec17(100, 30, 3, b);
    assert_eq!(pso.optimizer, "PSO");
    assert_eq!(pso.variant_dir, "pso");
    assert_eq!(pso.params.get(ParamKey::W), Some(ParamValue::Float(BITS_0_8)));
    assert_eq!(pso.params.get(ParamKey::PhiP), Some(ParamValue::Float(BITS_1)));
    assert_eq!(pso.params.get(ParamKey::PhiG), Some(ParamValue::Float(BITS_1)));
}

#[test]
fn gsa_grid_sweeps_the_full_cartesian_product() {
    let p = grid_search_gsa(10000, 10, 1, pass_behavior());
    assert_eq!(p.optimizer, "GSA");
    assert_eq!(p.category, "grid_search");
    assert_eq!(p.axis1.len(), 12);
    assert_eq!(p.axis2.len(), 7);
    assert_eq!(p.combinations.len(), 84);
    // Row-major: the first grid point binds the smallest of both axes.
    let first = &p.combinations[0];
    assert_eq!(first.get(ParamKey::G0), Some(ParamValue::Float(BITS_2)));
    assert_eq!(first.get(ParamKey::Alpha), Some(ParamValue::Float(BITS_1)));
    assert_eq!(first.get(ParamKey::ParticleCount), Some(ParamValue::Int(30)));
    assert_eq!(
        first.get(ParamKey::NormalizerKind),
        Some(ParamValue::Normalizer(Normalizer::MinMax))
    );
    // And the last one the largest of both.
    let last = &p.combinations[83];
    assert_eq!(last.get(ParamKey::G0), Some(ParamValue::Float(BITS_10000)));
    assert_eq!(last.get(ParamKey::Alpha), Some(ParamValue::Float(BITS_100)));
    // An interior point: row 3 (g0 = 20), column 2 (alpha = 5).
    let mid = &p.combinations[3 * 7 + 2];
    assert_eq!(mid.get(ParamKey::G0), Some(ParamValue::Float(gsa_engine::runner::BITS_20)));
    assert_eq!(mid.get(ParamKey::Alpha), Some(ParamValue::Float(BITS_5)));

    let igsa = grid_search_igsa(10000, 10, 1, pass_behavior());
    assert_eq!(igsa.optimizer, "IGSA");
    assert_eq!(igsa.variant_dir, "igsa");
    assert_eq!(igsa.combinations.len(), 84);
}

#[test]
fn pso_grid_sweeps_both_attraction_axes() {
    let p = grid_search_pso(10000, 10, 2, pass_behavior());
    assert_eq!(p.combinations.len(), 81);
    let first = &p.combinations[0];
    assert_eq!(first.get(ParamKey::PhiP), Some(ParamValue::Float(BITS_NEG_4)));
    assert_eq!(first.get(ParamKey::PhiG), Some(ParamValue::Float(BITS_NEG_4)));
    assert_eq!(first.get(ParamKey::W), Some(ParamValue::Float(BITS_0_8)));
    let zero = &p.combinations[4 * 9 + 4];
    assert_eq!(zero.get(ParamKey::PhiP), Some(ParamValue::Float(0)));
    assert_eq!(zero.get(ParamKey::PhiG), Some(ParamValue::Float(0)));
}

#[test]
fn parameter_getters_follow_the_normalizer() {
    assert_eq!(g0_from_normalizer(Normalizer::MinMax), ParamValue::Float(BITS_1000));
    assert_eq!(g0_from_normalizer(Normalizer::ZScore), ParamValue::Float(BITS_100));
    assert_eq!(g0_from_normalizer(Normalizer::Rank), ParamValue::Float(BITS_50));
    assert_eq!(alpha_from_normalizer(Normalizer::MinMax), ParamValue::Float(BITS_5));
    assert_eq!(
        behavior_from_tiled(true),
        ParamValue::Behavior(Behavior { edge: Edge::Cycle, vmax: false })
    );
    assert_eq!(
        behavior_from_tiled(false),
        ParamValue::Behavior(Behavior { edge: Edge::Pass, vmax: false })
    );
}

#[test]
fn mismatched_topology_and_edge_are_flagged() {
    assert!(gsa_engine::gsa::tiled_edge_mismatch(true, Edge::Pass));
    assert!(gsa_engine::gsa::tiled_edge_mismatch(false, Edge::Cycle));
    assert!(!gsa_engine::gsa::tiled_edge_mismatch(true, Edge::Cycle));
    assert!(!gsa_engine::gsa::tiled_edge_mismatch(false, Edge::Reflect));
}
