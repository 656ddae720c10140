use gsa_engine::problem::{Objective, Problem};

/// An objective that counts how often it is really invoked.
struct CountingSphere {
    invocations: usize,
}

impl Objective for CountingSphere {
    fn eval(&mut self, x: &Vec<u64>) -> u64 {
        self.invocations += 1;
        let mut sum = 0.0f64;
        for b in x {
            let v = f64::from_bits(*b);
            sum += v * v;
        }
        sum.to_bits()
    }
}

fn point(values: &[f64]) -> Vec<u64> {
    values.iter().map(|v| v.to_bits()).collect()
}

fn new_problem() -> Problem<CountingSphere> {
    Problem::new(
        "Sphere".to_owned(),
        CountingSphere { invocations: 0 },
        (-100.0f64).to_bits(),
        100.0f64.to_bits(),
        3,
    )
}

#[test]
fn second_bit_identical_query_is_free_and_equal() {
    let mut p = new_problem();
    let x = point(&[1.0, -2.0, 3.5]);
    let first = p.f(&x);
    assert_eq!(p.cnt(), 1);
    let second = p.f(&point(&[1.0, -2.0, 3.5]));
    assert_eq!(second, first);
    assert_eq!(p.cnt(), 1);
    assert_eq!(f64::from_bits(first), 1.0 + 4.0 + 3.5 * 3.5);
}

#[test]
fn distinct_points_are_each_counted_once() {
    let mut p = new_problem();
    let a = point(&[0.0, 0.0, 0.0]);
    let b = point(&[1.0, 0.0, 0.0]);
    p.f(&a);
    p.f(&b);
    p.f(&a);
    p.f(&b);
    assert_eq!(p.cnt(), 2);
}

#[test]
fn bitwise_different_zeros_are_different_points() {
    // -0.0 and 0.0 are equal as doubles but not bit-identical, so the memo
    // treats them as two points.
    let mut p = new_problem();
    p.f(&point(&[0.0, 0.0, 0.0]));
    p.f(&point(&[-0.0, 0.0, 0.0]));
    assert_eq!(p.cnt(), 2);
}

#[test]
fn clear_memo_forces_reevaluation() {
    let mut p = new_problem();
    let x = point(&[4.0, 5.0, 6.0]);
    p.f(&x);
    p.clear_memo();
    p.f(&x);
    assert_eq!(p.cnt(), 2);
}

#[test]
fn f_no_memo_bypasses_cache_and_counter() {
    let mut p = new_problem();
    let x = point(&[1.0, 1.0, 1.0]);
    let direct = p.f_no_memo(&x);
    assert_eq!(f64::from_bits(direct), 3.0);
    // The counter ignores uncached evaluation.
    assert_eq!(p.cnt(), 0);
    // And nothing was cached: the next memoized call counts.
    p.f(&x);
    assert_eq!(p.cnt(), 1);
}

#[test]
fn problem_reports_its_shape() {
    let p = new_problem();
    assert_eq!(p.name().as_str(), "Sphere");
    assert_eq!(p.dim(), 3);
    let (lo, hi) = p.domain();
    assert_eq!(f64::from_bits(lo), -100.0);
    assert_eq!(f64::from_bits(hi), 100.0);
}
