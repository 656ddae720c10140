//! Iteration-dependent elitism and mass-based selection.
//!
//! `elite_k` gives the number of currently-influential particles, shrinking
//! linearly from the full population toward one over the run.
//! `influence_flags` marks the particles whose mass puts them among the top
//! `k`, and `ascending_ranks` gives each particle its ascending-fitness rank
//! (ties broken by index), the discrete part of the rank normalizer.

use vstd::prelude::*;
use vstd::arithmetic::div_mod::{lemma_div_is_ordered, lemma_div_multiples_vanish_fancy};
use vstd::arithmetic::mul::lemma_mul_inequality;
use vstd::relations::injective_on;
use vstd::set_lib::{
    lemma_int_range, lemma_len_subset, lemma_map_size, lemma_subset_equality, set_int_range,
};

verus! {

/// `clamp(round(n * (1 - iter/total)), 1, n)`, computed exactly over the
/// rationals: the unclamped value is `floor((2*n*(total-iter) + total) /
/// (2*total))`, i.e. `n*(total-iter)/total` rounded half up.
pub open spec fn elite_k_spec(n: int, iter: int, total: int) -> int {
    let raw = (2 * n * (total - iter) + total) / (2 * total);
    if raw < 1 {
        1
    } else if raw > n {
        n
    } else {
        raw
    }
}

/// The elitism schedule always keeps between one particle and the whole
/// population influential.
pub proof fn lemma_elite_k_bounds(n: int, iter: int, total: int)
    requires
        n >= 1,
        0 <= iter < total,
    ensures
        1 <= elite_k_spec(n, iter, total) <= n,
{
}

/// The elitism schedule is non-increasing over the iterations: influence
/// never widens as the run progresses.
pub proof fn lemma_elite_k_non_increasing(n: int, iter1: int, iter2: int, total: int)
    requires
        n >= 1,
        0 <= iter1 <= iter2 < total,
    ensures
        elite_k_spec(n, iter2, total) <= elite_k_spec(n, iter1, total),
{
    assert(2 * n * (total - iter2) <= 2 * n * (total - iter1)) by {
        lemma_mul_inequality(total - iter2, total - iter1, 2 * n);
        assert((total - iter2) * (2 * n) == 2 * n * (total - iter2)) by (nonlinear_arith);
        assert((total - iter1) * (2 * n) == 2 * n * (total - iter1)) by (nonlinear_arith);
    }
    lemma_div_is_ordered(
        2 * n * (total - iter2) + total,
        2 * n * (total - iter1) + total,
        2 * total,
    );
}

/// The number of influential particles for iteration `iter` of `total`.
pub fn elite_k(n: usize, iter: usize, total: usize) -> (k: usize)
    requires
        1 <= n <= u32::MAX,
        total <= u32::MAX,
        iter < total,
    ensures
        k == elite_k_spec(n as int, iter as int, total as int),
        1 <= k <= n,
{
    proof {
        assert(2 * (n as int) * ((total - iter) as int) + (total as int) < 0x1_0000_0000_0000_0000_0000)
            by (nonlinear_arith)
            requires
                n <= 0xffff_ffffu64,
                total <= 0xffff_ffffu64,
                0 <= iter < total,
        ;
    }
    let num: u128 = 2 * (n as u128) * ((total - iter) as u128) + total as u128;
    let den: u128 = 2 * (total as u128);
    let raw: u128 = num / den;
    proof {
        assert(2 * (n as int) * ((total - iter) as int) <= 2 * (n as int) * (total as int)) by {
            lemma_mul_inequality((total - iter) as int, total as int, 2 * (n as int));
            assert(((total - iter) as int) * (2 * (n as int)) == 2 * (n as int) * ((total
                - iter) as int)) by (nonlinear_arith);
            assert((total as int) * (2 * (n as int)) == 2 * (n as int) * (total as int))
                by (nonlinear_arith);
        }
        assert(2 * (n as int) * (total as int) + total == (2 * (total as int)) * (n as int)
            + total) by (nonlinear_arith);
        assert(((2 * (total as int)) * (n as int) + total) / (2 * (total as int)) == n as int) by {
            lemma_div_multiples_vanish_fancy(n as int, total as int, 2 * (total as int));
        }
        lemma_div_is_ordered(
            2 * (n as int) * ((total - iter) as int) + total,
            (2 * (total as int)) * (n as int) + total,
            2 * (total as int),
        );
        assert(raw <= n);
    }
    let k128 = if raw < 1 {
        1
    } else {
        raw
    };
    k128 as usize
}

/// How many of the first `n` keys are strictly greater than `x`.
pub open spec fn count_gt_upto(keys: Seq<u64>, x: u64, n: int) -> int
    decreases n,
{
    if n <= 0 {
        0
    } else {
        count_gt_upto(keys, x, n - 1) + if keys[n - 1] > x {
            1int
        } else {
            0int
        }
    }
}

/// How many keys are strictly greater than `x`.
pub open spec fn count_gt(keys: Seq<u64>, x: u64) -> int {
    count_gt_upto(keys, x, keys.len() as int)
}

/// How many of the first `n` keys are strictly less than `x`.
pub open spec fn count_lt_upto(keys: Seq<u64>, x: u64, n: int) -> int
    decreases n,
{
    if n <= 0 {
        0
    } else {
        count_lt_upto(keys, x, n - 1) + if keys[n - 1] < x {
            1int
        } else {
            0int
        }
    }
}

/// How many keys are strictly less than `x`.
pub open spec fn count_lt(keys: Seq<u64>, x: u64) -> int {
    count_lt_upto(keys, x, keys.len() as int)
}

/// How many of the first `n` keys equal `x`.
pub open spec fn count_eq_upto(keys: Seq<u64>, x: u64, n: int) -> int
    decreases n,
{
    if n <= 0 {
        0
    } else {
        count_eq_upto(keys, x, n - 1) + if keys[n - 1] == x {
            1int
        } else {
            0int
        }
    }
}

pub proof fn lemma_count_gt_upto_bounds(keys: Seq<u64>, x: u64, n: int)
    requires
        0 <= n <= keys.len(),
    ensures
        0 <= count_gt_upto(keys, x, n) <= n,
    decreases n,
{
    if n > 0 {
        lemma_count_gt_upto_bounds(keys, x, n - 1);
    }
}

/// A particle is influential when fewer than `k` particles have a strictly
/// greater mass key: the top `k` by mass descending, every particle tied at
/// the boundary included.
pub open spec fn influential(keys: Seq<u64>, i: int, k: int) -> bool {
    count_gt(keys, keys[i]) < k
}

/// Mark the top `k` particles by mass key.
pub fn influence_flags(keys: &Vec<u64>, k: usize) -> (flags: Vec<bool>)
    ensures
        flags@.len() == keys@.len(),
        forall|i: int| 0 <= i < keys@.len() ==> flags@[i] == influential(keys@, i, k as int),
{
    let n = keys.len();
    let mut flags: Vec<bool> = Vec::new();
    let mut i: usize = 0;
    while i < n
        invariant
            n == keys@.len(),
            i <= n,
            flags@.len() == i,
            forall|p: int| 0 <= p < i ==> flags@[p] == influential(keys@, p, k as int),
        decreases n - i,
    {
        let x = keys[i];
        let mut c: usize = 0;
        let mut j: usize = 0;
        while j < n
            invariant
                n == keys@.len(),
                j <= n,
                x == keys@[i as int],
                c == count_gt_upto(keys@, x, j as int),
                c <= j,
            decreases n - j,
        {
            if keys[j] > x {
                c = c + 1;
            }
            j = j + 1;
        }
        flags.push(c < k);
        i = i + 1;
    }
    flags
}

/// Influence respects the mass order: a particle at least as heavy as an
/// influential one is itself influential.
pub proof fn lemma_influence_monotone(keys: Seq<u64>, i: int, j: int, k: int)
    requires
        0 <= i < keys.len(),
        0 <= j < keys.len(),
        keys[j] <= keys[i],
        influential(keys, j, k),
    ensures
        influential(keys, i, k),
{
    lemma_count_gt_antitone(keys, keys[j], keys[i], keys.len() as int);
}

/// Fewer keys lie strictly above a larger threshold.
proof fn lemma_count_gt_antitone(keys: Seq<u64>, a: u64, b: u64, n: int)
    requires
        0 <= n <= keys.len(),
        a <= b,
    ensures
        count_gt_upto(keys, b, n) <= count_gt_upto(keys, a, n),
    decreases n,
{
    if n > 0 {
        lemma_count_gt_antitone(keys, a, b, n - 1);
    }
}

/// There is always at least one influential particle when `k >= 1`: a
/// particle of maximal mass key has nothing above it.
pub proof fn lemma_influence_nonempty(keys: Seq<u64>, k: int)
    requires
        keys.len() >= 1,
        k >= 1,
    ensures
        exists|i: int| 0 <= i < keys.len() && influential(keys, i, k),
{
    let m = lemma_argmax(keys);
    lemma_count_gt_of_max(keys, keys[m], keys.len() as int);
    assert(influential(keys, m, k));
}

/// Index of a maximal key.
proof fn lemma_argmax(keys: Seq<u64>) -> (m: int)
    requires
        keys.len() >= 1,
    ensures
        0 <= m < keys.len(),
        forall|j: int| 0 <= j < keys.len() ==> keys[j] <= keys[m],
    decreases keys.len(),
{
    if keys.len() == 1 {
        0
    } else {
        let m0 = lemma_argmax(keys.drop_last());
        assert(forall|j: int| 0 <= j < keys.len() - 1 ==> keys[j] == keys.drop_last()[j]);
        if keys[keys.len() - 1] >= keys[m0] {
            keys.len() - 1
        } else {
            m0
        }
    }
}

proof fn lemma_count_gt_of_max(keys: Seq<u64>, x: u64, n: int)
    requires
        0 <= n <= keys.len(),
        forall|j: int| 0 <= j < keys.len() ==> keys[j] <= x,
    ensures
        count_gt_upto(keys, x, n) == 0,
    decreases n,
{
    if n > 0 {
        lemma_count_gt_of_max(keys, x, n - 1);
    }
}

/// The mass order of a particle among the population, descending, ties
/// broken by index: how many particles are strictly heavier, plus how many
/// equally heavy ones come earlier.
pub open spec fn desc_rank(keys: Seq<u64>, i: int) -> int {
    count_gt(keys, keys[i]) + count_eq_upto(keys, keys[i], i)
}

/// Each position contributes to at most one of the two counts.
proof fn lemma_gt_plus_eq_le(keys: Seq<u64>, x: u64, n: int)
    requires
        0 <= n <= keys.len(),
    ensures
        count_gt_upto(keys, x, n) + count_eq_upto(keys, x, n) <= n,
    decreases n,
{
    if n > 0 {
        lemma_gt_plus_eq_le(keys, x, n - 1);
    }
}

/// Everything above or at a larger key is strictly above a smaller key.
proof fn lemma_gt_absorbs_gt_and_eq(keys: Seq<u64>, a: u64, b: u64, n: int)
    requires
        0 <= n <= keys.len(),
        b < a,
    ensures
        count_gt_upto(keys, b, n) >= count_gt_upto(keys, a, n) + count_eq_upto(keys, a, n),
    decreases n,
{
    if n > 0 {
        lemma_gt_absorbs_gt_and_eq(keys, a, b, n - 1);
    }
}

proof fn lemma_desc_rank_bounds(keys: Seq<u64>, i: int)
    requires
        0 <= i < keys.len(),
    ensures
        0 <= desc_rank(keys, i) < keys.len(),
{
    let x = keys[i];
    lemma_gt_plus_eq_le(keys, x, keys.len() as int);
    lemma_count_eq_upto_le(keys, x, i + 1, keys.len() as int);
    assert(count_eq_upto(keys, x, i + 1) == count_eq_upto(keys, x, i) + 1);
    lemma_nonneg_counts(keys, x, i);
    lemma_nonneg_counts(keys, x, keys.len() as int);
}

/// Distinct particles get distinct descending ranks.
proof fn lemma_desc_rank_injective(keys: Seq<u64>, i: int, j: int)
    requires
        0 <= i < keys.len(),
        0 <= j < keys.len(),
        i != j,
    ensures
        desc_rank(keys, i) != desc_rank(keys, j),
{
    if keys[i] == keys[j] {
        let (a, b) = if i < j {
            (i, j)
        } else {
            (j, i)
        };
        lemma_count_eq_upto_le(keys, keys[a], a + 1, b);
        assert(count_eq_upto(keys, keys[a], a + 1) == count_eq_upto(keys, keys[a], a) + 1);
    } else {
        let (a, b) = if keys[i] > keys[j] {
            (i, j)
        } else {
            (j, i)
        };
        lemma_gt_absorbs_gt_and_eq(keys, keys[a], keys[b], keys.len() as int);
        lemma_gt_plus_eq_le(keys, keys[a], keys.len() as int);
        lemma_count_eq_upto_le(keys, keys[a], a + 1, keys.len() as int);
        assert(count_eq_upto(keys, keys[a], a + 1) == count_eq_upto(keys, keys[a], a) + 1);
        lemma_nonneg_counts(keys, keys[b], b as int);
    }
}

/// Elitism really keeps a top group: at least `k` particles are influential —
/// more only through ties at the boundary.  The `k` smallest descending ranks
/// are attained by distinct particles, each of them influential.
pub proof fn lemma_influence_at_least_k(keys: Seq<u64>, k: int)
    requires
        1 <= k <= keys.len(),
    ensures
        ({
            let infl = Set::new(|i: int| 0 <= i < keys.len() && influential(keys, i, k));
            infl.finite() && infl.len() >= k
        }),
{
    let n = keys.len() as int;
    let f = |i: int| desc_rank(keys, i);
    let dom = set_int_range(0, n);
    lemma_int_range(0, n);
    assert(injective_on(f, dom)) by {
        assert forall|x1: int, x2: int|
            dom.contains(x1) && dom.contains(x2) && #[trigger] f(x1) == #[trigger] f(x2) implies x1
            == x2 by {
            if x1 != x2 {
                lemma_desc_rank_injective(keys, x1, x2);
            }
        }
    }
    let image = dom.map(f);
    lemma_map_size(dom, image, f);
    assert(image.subset_of(set_int_range(0, n))) by {
        assert forall|v: int| image.contains(v) implies set_int_range(0, n).contains(v) by {
            let i = choose|i: int| dom.contains(i) && v == f(i);
            lemma_desc_rank_bounds(keys, i);
        }
    }
    lemma_subset_equality(image, set_int_range(0, n));

    let winners = Set::new(|i: int| 0 <= i < n && desc_rank(keys, i) < k);
    assert(winners.subset_of(dom));
    lemma_len_subset(winners, dom);
    assert(injective_on(f, winners)) by {
        assert forall|x1: int, x2: int|
            winners.contains(x1) && winners.contains(x2) && #[trigger] f(x1) == #[trigger] f(x2)
            implies x1 == x2 by {
            if x1 != x2 {
                lemma_desc_rank_injective(keys, x1, x2);
            }
        }
    }
    assert(winners.map(f) =~= set_int_range(0, k)) by {
        assert forall|v: int| set_int_range(0, k).contains(v) implies winners.map(f).contains(
            v,
        ) by {
            assert(set_int_range(0, n).contains(v));
            assert(image.contains(v));
            let i = choose|i: int| dom.contains(i) && v == f(i);
            assert(winners.contains(i));
        }
        assert forall|v: int| winners.map(f).contains(v) implies set_int_range(0, k).contains(
            v,
        ) by {
            let i = choose|i: int| winners.contains(i) && v == f(i);
            lemma_desc_rank_bounds(keys, i);
        }
    }
    lemma_map_size(winners, winners.map(f), f);
    lemma_int_range(0, k);

    let infl = Set::new(|i: int| 0 <= i < keys.len() && influential(keys, i, k));
    assert(winners.subset_of(infl)) by {
        assert forall|i: int| winners.contains(i) implies infl.contains(i) by {
            lemma_nonneg_counts(keys, keys[i], i);
        }
    }
    assert(infl.subset_of(dom));
    lemma_len_subset(infl, dom);
    lemma_len_subset(winners, infl);
}

/// The ascending-fitness rank of each particle: how many particles are
/// strictly better, plus how many equally good ones come earlier, so that
/// tied particles get consecutive ranks in index order.
pub open spec fn rank_spec(keys: Seq<u64>, i: int) -> int {
    count_lt(keys, keys[i]) + count_eq_upto(keys, keys[i], i)
}

/// Ascending ranks of all particles by fitness key.
pub fn ascending_ranks(keys: &Vec<u64>) -> (ranks: Vec<usize>)
    ensures
        ranks@.len() == keys@.len(),
        forall|i: int| 0 <= i < keys@.len() ==> ranks@[i] == rank_spec(keys@, i),
        forall|i: int| 0 <= i < keys@.len() ==> 0 <= #[trigger] ranks@[i] < keys@.len(),
{
    let n = keys.len();
    let mut ranks: Vec<usize> = Vec::new();
    let mut i: usize = 0;
    while i < n
        invariant
            n == keys@.len(),
            i <= n,
            ranks@.len() == i,
            forall|p: int| 0 <= p < i ==> ranks@[p] == rank_spec(keys@, p),
            forall|p: int| 0 <= p < i ==> 0 <= #[trigger] ranks@[p] < n,
        decreases n - i,
    {
        let x = keys[i];
        let mut c: usize = 0;
        let mut j: usize = 0;
        while j < n
            invariant
                n == keys@.len(),
                j <= n,
                i < n,
                x == keys@[i as int],
                c == count_lt_upto(keys@, x, j as int) + if j <= i {
                    count_eq_upto(keys@, x, j as int)
                } else {
                    count_eq_upto(keys@, x, i as int)
                },
                c <= j,
            decreases n - j,
        {
            if keys[j] < x {
                c = c + 1;
            } else if keys[j] == x && j < i {
                c = c + 1;
            }
            j = j + 1;
        }
        proof {
            lemma_rank_upper_bound(keys@, i as int);
        }
        ranks.push(c);
        i = i + 1;
    }
    ranks
}

/// Each position contributes to at most one of the three counts, so a rank
/// never reaches the population size.
proof fn lemma_lt_plus_eq_le(keys: Seq<u64>, x: u64, n: int)
    requires
        0 <= n <= keys.len(),
    ensures
        count_lt_upto(keys, x, n) + count_eq_upto(keys, x, n) <= n,
    decreases n,
{
    if n > 0 {
        lemma_lt_plus_eq_le(keys, x, n - 1);
    }
}

proof fn lemma_count_eq_upto_le(keys: Seq<u64>, x: u64, a: int, b: int)
    requires
        0 <= a <= b <= keys.len(),
    ensures
        count_eq_upto(keys, x, a) <= count_eq_upto(keys, x, b),
    decreases b,
{
    if a < b {
        lemma_count_eq_upto_le(keys, x, a, b - 1);
    }
}

proof fn lemma_rank_upper_bound(keys: Seq<u64>, i: int)
    requires
        0 <= i < keys.len(),
    ensures
        0 <= rank_spec(keys, i) < keys.len(),
    decreases keys.len(),
{
    let x = keys[i];
    lemma_lt_plus_eq_le(keys, x, keys.len() as int);
    lemma_count_eq_upto_le(keys, x, i + 1, keys.len() as int);
    assert(count_eq_upto(keys, x, i + 1) == count_eq_upto(keys, x, i) + 1);
    lemma_nonneg_counts(keys, x, i);
    lemma_nonneg_counts(keys, x, keys.len() as int);
}

proof fn lemma_nonneg_counts(keys: Seq<u64>, x: u64, n: int)
    requires
        0 <= n <= keys.len(),
    ensures
        count_lt_upto(keys, x, n) >= 0,
        count_eq_upto(keys, x, n) >= 0,
        count_gt_upto(keys, x, n) >= 0,
    decreases n,
{
    if n > 0 {
        lemma_nonneg_counts(keys, x, n - 1);
    }
}

/// Distinct particles get distinct ranks: the ascending ranks are a
/// permutation of `0 .. n`.
pub proof fn lemma_ranks_injective(keys: Seq<u64>, i: int, j: int)
    requires
        0 <= i < keys.len(),
        0 <= j < keys.len(),
        i != j,
    ensures
        rank_spec(keys, i) != rank_spec(keys, j),
{
    if keys[i] == keys[j] {
        let (a, b) = if i < j {
            (i, j)
        } else {
            (j, i)
        };
        lemma_count_eq_upto_le(keys, keys[a], a + 1, b);
        assert(count_eq_upto(keys, keys[a], a + 1) == count_eq_upto(keys, keys[a], a) + 1);
    } else {
        let (a, b) = if keys[i] < keys[j] {
            (i, j)
        } else {
            (j, i)
        };
        lemma_lt_absorbs_lt_and_eq(keys, keys[a], keys[b], keys.len() as int);
        lemma_lt_plus_eq_le(keys, keys[a], keys.len() as int);
        lemma_count_eq_upto_le(keys, keys[a], a + 1, keys.len() as int);
        assert(count_eq_upto(keys, keys[a], a + 1) == count_eq_upto(keys, keys[a], a) + 1);
        lemma_nonneg_counts(keys, keys[b], b as int);
    }
}

/// Everything below or at a smaller key is strictly below a larger key.
proof fn lemma_lt_absorbs_lt_and_eq(keys: Seq<u64>, a: u64, b: u64, n: int)
    requires
        0 <= n <= keys.len(),
        a < b,
    ensures
        count_lt_upto(keys, b, n) >= count_lt_upto(keys, a, n) + count_eq_upto(keys, a, n),
    decreases n,
{
    if n > 0 {
        lemma_lt_absorbs_lt_and_eq(keys, a, b, n - 1);
    }
}

} // verus!
