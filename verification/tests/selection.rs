use gsa_engine::bits::fkey;
use gsa_engine::select::{ascending_ranks, elite_k, influence_flags};

#[test]
fn elite_k_matches_the_rounded_schedule() {
    // k = clamp(round(n * (1 - iter/total)), 1, n)
    assert_eq!(elite_k(30, 0, 100), 30);
    assert_eq!(elite_k(30, 50, 100), 15);
    assert_eq!(elite_k(30, 99, 100), 1); // round(0.3) clamps up to 1
    assert_eq!(elite_k(30, 97, 100), 1); // round(0.9) = 1
    assert_eq!(elite_k(30, 95, 100), 2); // round(1.5) rounds half up
    assert_eq!(elite_k(1, 0, 10), 1);
    assert_eq!(elite_k(7, 3, 7), 4);
}

#[test]
fn elite_k_is_non_increasing_and_bounded() {
    let n = 30;
    let total = 137;
    let mut prev = n;
    for iter in 0..total {
        let k = elite_k(n, iter, total);
        assert!(1 <= k && k <= n);
        assert!(k <= prev);
        prev = k;
    }
    assert_eq!(prev, 1);
}

#[test]
fn influence_marks_the_top_k_masses() {
    let masses = [0.1f64, 0.5, 0.2, 0.05, 0.15];
    let keys: Vec<u64> = masses.iter().map(|m| fkey(m.to_bits())).collect();
    let flags = influence_flags(&keys, 2);
    assert_eq!(flags, vec![false, true, true, false, false]);
    let all = influence_flags(&keys, 5);
    assert_eq!(all, vec![true; 5]);
}

#[test]
fn influence_keeps_every_particle_tied_at_the_boundary() {
    let masses = [0.5f64, 0.5, 0.3];
    let keys: Vec<u64> = masses.iter().map(|m| fkey(m.to_bits())).collect();
    let flags = influence_flags(&keys, 1);
    // Both particles of maximal mass stay influential.
    assert_eq!(flags, vec![true, true, false]);
}

#[test]
fn ranks_are_ascending_with_ties_in_index_order() {
    let fitness = [10.0f64, 20.0, 10.0, 5.0];
    let keys: Vec<u64> = fitness.iter().map(|f| fkey(f.to_bits())).collect();
    let ranks = ascending_ranks(&keys);
    assert_eq!(ranks, vec![1, 3, 2, 0]);
}

#[test]
fn ranks_are_a_permutation() {
    let fitness = [3.0f64, 3.0, 3.0, 1.0, 2.0, 2.0];
    let keys: Vec<u64> = fitness.iter().map(|f| fkey(f.to_bits())).collect();
    let mut ranks = ascending_ranks(&keys);
    ranks.sort();
    assert_eq!(ranks, vec![0, 1, 2, 3, 4, 5]);
}

#[test]
fn at_least_k_particles_stay_influential() {
    let masses = [0.3f64, 0.1, 0.3, 0.25, 0.05, 0.1, 0.4, 0.25];
    let keys: Vec<u64> = masses.iter().map(|m| fkey(m.to_bits())).collect();
    for k in 1..=masses.len() {
        let flags = influence_flags(&keys, k);
        let marked = flags.iter().filter(|b| **b).count();
        assert!(marked >= k);
    }
}
