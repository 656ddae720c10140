//! The memoized objective-evaluation abstraction.
//!
//! A [`Problem`] owns an objective, a symmetric domain interval and a
//! dimensionality, and evaluates points with per-run memoization and an
//! evaluation counter.  Points and fitness values are carried as raw double
//! bit patterns, and the cache serves repeated bit-identical queries without
//! re-invoking the objective.

use vstd::prelude::*;
use crate::bits::spec_fkey;

verus! {

/// A black-box objective function: takes the bit patterns of a point's
/// coordinates and returns the bit pattern of its fitness.  This is the
/// benchmark-problem interface that the embedding program implements; nothing
/// is promised about the values it returns, and the engine states what holds
/// of its own behaviour whatever comes back.
pub trait Objective {
    fn eval(&mut self, x: &Vec<u64>) -> u64;
}

/// The evaluation counter saturates instead of wrapping.
pub open spec fn bump(c: u64) -> u64 {
    if c < u64::MAX {
        (c + 1) as u64
    } else {
        c
    }
}

/// The map denoted by an association list of memo entries; later entries win,
/// though the engine never stores a key twice.
pub open spec fn assoc_map(entries: Seq<(Vec<u64>, u64)>) -> Map<Seq<u64>, u64>
    decreases entries.len(),
{
    if entries.len() == 0 {
        Map::empty()
    } else {
        assoc_map(entries.drop_last()).insert(entries.last().0@, entries.last().1)
    }
}

pub proof fn lemma_assoc_map_membership(entries: Seq<(Vec<u64>, u64)>, x: Seq<u64>)
    ensures
        assoc_map(entries).contains_key(x) <==> exists|i: int|
            0 <= i < entries.len() && entries[i].0@ == x,
    decreases entries.len(),
{
    if entries.len() > 0 {
        lemma_assoc_map_membership(entries.drop_last(), x);
        if entries.last().0@ != x {
            if exists|i: int| 0 <= i < entries.len() && entries[i].0@ == x {
                let i = choose|i: int| 0 <= i < entries.len() && entries[i].0@ == x;
                assert(entries.drop_last()[i] == entries[i]);
            }
        }
    }
}

/// With pairwise-distinct keys, the entry found at any index gives the map's
/// value for its key.
pub proof fn lemma_assoc_map_index(entries: Seq<(Vec<u64>, u64)>, i: int)
    requires
        0 <= i < entries.len(),
        forall|p: int, q: int|
            0 <= p < q < entries.len() ==> (#[trigger] entries[p]).0@ != (#[trigger] entries[q]).0@,
    ensures
        assoc_map(entries).contains_key(entries[i].0@),
        assoc_map(entries)[entries[i].0@] == entries[i].1,
    decreases entries.len(),
{
    if i < entries.len() - 1 {
        assert(entries.drop_last()[i] == entries[i]);
        lemma_assoc_map_index(entries.drop_last(), i);
        assert(entries[entries.len() - 1].0@ != entries[i].0@);
    }
}

/// The objective with its domain, dimensionality, evaluation counter and memo
/// table.  Its invariant: the domain endpoints are in strict order (by the
/// total-order key on double bit patterns), the dimensionality is positive,
/// and no point is cached twice.
pub struct Problem<O> {
    name: String,
    objective: O,
    lo: u64,
    hi: u64,
    dim: usize,
    cnt: u64,
    memo: Vec<(Vec<u64>, u64)>,
}

impl<O: Objective> Problem<O> {
    pub closed spec fn wf(&self) -> bool {
        &&& spec_fkey(self.lo) < spec_fkey(self.hi)
        &&& self.dim >= 1
        &&& forall|p: int, q: int|
            0 <= p < q < self.memo@.len() ==> (#[trigger] self.memo@[p]).0@ != (
            #[trigger] self.memo@[q]).0@
    }

    /// The cache as a mathematical map from point to fitness bits.
    pub closed spec fn memo_map(&self) -> Map<Seq<u64>, u64> {
        assoc_map(self.memo@)
    }

    pub closed spec fn spec_name(&self) -> Seq<char> {
        self.name@
    }

    pub closed spec fn spec_lo(&self) -> u64 {
        self.lo
    }

    pub closed spec fn spec_hi(&self) -> u64 {
        self.hi
    }

    pub closed spec fn spec_dim(&self) -> usize {
        self.dim
    }

    pub closed spec fn spec_cnt(&self) -> u64 {
        self.cnt
    }

    /// True when a call leaves the problem's identity — name, domain and
    /// dimensionality — untouched.
    pub open spec fn same_shape(&self, other: &Self) -> bool {
        &&& self.spec_name() == other.spec_name()
        &&& self.spec_lo() == other.spec_lo()
        &&& self.spec_hi() == other.spec_hi()
        &&& self.spec_dim() == other.spec_dim()
    }

    pub fn new(name: String, objective: O, lo: u64, hi: u64, dim: usize) -> (p: Problem<O>)
        requires
            spec_fkey(lo) < spec_fkey(hi),
            dim >= 1,
        ensures
            p.wf(),
            p.spec_name() == name@,
            p.spec_lo() == lo,
            p.spec_hi() == hi,
            p.spec_dim() == dim,
            p.spec_cnt() == 0,
            p.memo_map() == Map::<Seq<u64>, u64>::empty(),
    {
        Problem { name, objective, lo, hi, dim, cnt: 0, memo: Vec::new() }
    }

    pub fn name(&self) -> (r: &String)
        ensures
            r@ == self.spec_name(),
    {
        &self.name
    }

    pub fn domain(&self) -> (r: (u64, u64))
        ensures
            r.0 == self.spec_lo(),
            r.1 == self.spec_hi(),
    {
        (self.lo, self.hi)
    }

    pub fn dim(&self) -> (r: usize)
        ensures
            r == self.spec_dim(),
    {
        self.dim
    }

    pub fn cnt(&self) -> (r: u64)
        ensures
            r == self.spec_cnt(),
    {
        self.cnt
    }

    /// Position of a cached point in the memo table, if any.
    fn find(&self, x: &Vec<u64>) -> (r: Option<usize>)
        requires
            self.wf(),
        ensures
            match r {
                Some(i) => i < self.memo@.len() && self.memo@[i as int].0@ == x@
                    && self.memo_map().contains_key(x@) && self.memo_map()[x@]
                    == self.memo@[i as int].1,
                None => !self.memo_map().contains_key(x@),
            },
    {
        proof {
            lemma_assoc_map_membership(self.memo@, x@);
        }
        let n = self.memo.len();
        let mut i: usize = 0;
        while i < n
            invariant
                n == self.memo@.len(),
                i <= n,
                self.wf(),
                forall|j: int| 0 <= j < i ==> (#[trigger] self.memo@[j]).0@ != x@,
            decreases n - i,
        {
            if keys_equal(&self.memo[i].0, x) {
                proof {
                    lemma_assoc_map_index(self.memo@, i as int);
                }
                return Some(i);
            }
            i = i + 1;
        }
        None
    }

    /// Memoized evaluation.  A cached point is served from the table and
    /// costs no evaluation-count increment; a fresh point is evaluated once,
    /// cached, and counted.
    pub fn f(&mut self, x: &Vec<u64>) -> (r: u64)
        requires
            old(self).wf(),
            x@.len() == old(self).spec_dim(),
        ensures
            final(self).wf(),
            old(self).same_shape(final(self)),
            final(self).memo_map().contains_key(x@),
            final(self).memo_map()[x@] == r,
            old(self).memo_map().contains_key(x@) ==> {
                &&& r == old(self).memo_map()[x@]
                &&& final(self).memo_map() == old(self).memo_map()
                &&& final(self).spec_cnt() == old(self).spec_cnt()
            },
            !old(self).memo_map().contains_key(x@) ==> {
                &&& final(self).memo_map() == old(self).memo_map().insert(x@, r)
                &&& final(self).spec_cnt() == bump(old(self).spec_cnt())
            },
    {
        match self.find(x) {
            Some(i) => self.memo[i].1,
            None => {
                let ans = self.objective.eval(x);
                if self.cnt < u64::MAX {
                    self.cnt = self.cnt + 1;
                }
                let key = copy_point(x);
                proof {
                    lemma_assoc_map_membership(self.memo@, x@);
                }
                self.memo.push((key, ans));
                proof {
                    assert(self.memo@.drop_last() == old(self).memo@);
                    assert forall|p: int, q: int|
                        0 <= p < q < self.memo@.len() implies (#[trigger] self.memo@[p]).0@ != (
                    #[trigger] self.memo@[q]).0@ by {
                        if q < self.memo@.len() - 1 {
                            assert(old(self).memo@[p] == self.memo@[p]);
                            assert(old(self).memo@[q] == self.memo@[q]);
                        } else {
                            assert(self.memo@[p] == old(self).memo@[p]);
                            lemma_assoc_map_membership(old(self).memo@, x@);
                        }
                    }
                }
                ans
            },
        }
    }

    /// Evaluation that bypasses the cache and the counter, for export-time
    /// fitness recomputation.
    pub fn f_no_memo(&mut self, x: &Vec<u64>) -> (r: u64)
        requires
            old(self).wf(),
            x@.len() == old(self).spec_dim(),
        ensures
            final(self).wf(),
            old(self).same_shape(final(self)),
            final(self).memo_map() == old(self).memo_map(),
            final(self).spec_cnt() == old(self).spec_cnt(),
    {
        self.objective.eval(x)
    }

    /// Purge the cache; called once per outer iteration.
    pub fn clear_memo(&mut self)
        requires
            old(self).wf(),
        ensures
            final(self).wf(),
            old(self).same_shape(final(self)),
            final(self).memo_map() == Map::<Seq<u64>, u64>::empty(),
            final(self).spec_cnt() == old(self).spec_cnt(),
    {
        self.memo.clear();
    }
}

/// Bitwise equality of two points.
fn keys_equal(a: &Vec<u64>, b: &Vec<u64>) -> (r: bool)
    ensures
        r == (a@ == b@),
{
    if a.len() != b.len() {
        proof {
            assert(a@.len() != b@.len());
        }
        return false;
    }
    let n = a.len();
    let mut i: usize = 0;
    while i < n
        invariant
            n == a@.len(),
            n == b@.len(),
            i <= n,
            forall|j: int| 0 <= j < i ==> a@[j] == b@[j],
        decreases n - i,
    {
        if a[i] != b[i] {
            return false;
        }
        i = i + 1;
    }
    proof {
        assert(a@ =~= b@);
    }
    true
}

/// A bit-exact copy of a point.
fn copy_point(x: &Vec<u64>) -> (r: Vec<u64>)
    ensures
        r@ == x@,
{
    let n = x.len();
    let mut r: Vec<u64> = Vec::new();
    let mut i: usize = 0;
    while i < n
        invariant
            n == x@.len(),
            i <= n,
            r@.len() == i,
            forall|j: int| 0 <= j < i ==> r@[j] == x@[j],
        decreases n - i,
    {
        r.push(x[i]);
        i = i + 1;
    }
    proof {
        assert(r@ =~= x@);
    }
    r
}

/// What one memoized query does to the cache, as a pure function of the
/// cache, the point, and the fitness the objective would freshly return.
pub open spec fn query_memo(m: Map<Seq<u64>, u64>, x: Seq<u64>, fresh: u64) -> Map<Seq<u64>, u64> {
    if m.contains_key(x) {
        m
    } else {
        m.insert(x, fresh)
    }
}

/// What one memoized query returns.
pub open spec fn query_result(m: Map<Seq<u64>, u64>, x: Seq<u64>, fresh: u64) -> u64 {
    if m.contains_key(x) {
        m[x]
    } else {
        fresh
    }
}

/// What one memoized query does to the evaluation counter.
pub open spec fn query_cnt(m: Map<Seq<u64>, u64>, x: Seq<u64>, c: u64) -> u64 {
    if m.contains_key(x) {
        c
    } else {
        bump(c)
    }
}

/// Memoization correctness: after any first query of a point, a second
/// bit-identical query returns the same value, leaves the cache unchanged,
/// and costs zero additional evaluation-count increments — whatever value the
/// objective would have produced the second time.
pub proof fn lemma_second_query_costs_nothing(
    m: Map<Seq<u64>, u64>,
    c: u64,
    x: Seq<u64>,
    first: u64,
    second: u64,
)
    ensures
        ({
            let m1 = query_memo(m, x, first);
            let c1 = query_cnt(m, x, c);
            let r1 = query_result(m, x, first);
            &&& query_result(m1, x, second) == r1
            &&& query_memo(m1, x, second) == m1
            &&& query_cnt(m1, x, c1) == c1
        }),
{
}

} // verus!
