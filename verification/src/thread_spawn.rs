//! Moving data into freshly spawned threads and retrieving their results.
//!
//! The computation a worker thread performs is ordinary verified code
//! (`double_each`, `sum_ints`). Only the hop onto another thread — spawning a
//! scoped worker and joining it — goes through a trusted wrapper around
//! `crossbeam_utils`, whose contract records that joining hands back exactly
//! the value the worker's verified closure produced. A worker thread that
//! terminates abnormally is treated as fatal: the wrapper halts rather than
//! losing the failure.

use vstd::prelude::*;

verus! {

/// The sum of a sequence of machine integers, as a mathematical integer.
pub open spec fn sum_of(s: Seq<i32>) -> int
    decreases s.len(),
{
    if s.len() == 0 {
        0
    } else {
        sum_of(s.drop_last()) + s.last()
    }
}

/// Every prefix sum of `s` stays within `i32` range, so an `i32` accumulator
/// never overflows while adding the elements left to right.
pub open spec fn prefix_sums_fit(s: Seq<i32>) -> bool {
    forall|k: int| 0 <= k <= s.len() ==> i32::MIN <= #[trigger] sum_of(s.take(k)) <= i32::MAX
}

/// Multiplies every element by two. This is the work a doubling worker
/// thread performs; it is ordinary verified code.
pub fn double_each(v: Vec<i32>) -> (r: Vec<i32>)
    requires
        forall|i: int| 0 <= i < v@.len() ==> i32::MIN <= 2 * #[trigger] v@[i] <= i32::MAX,
    ensures
        r@.len() == v@.len(),
        forall|i: int| 0 <= i < v@.len() ==> r@[i] == 2 * v@[i],
{
    let mut r: Vec<i32> = Vec::new();
    let mut i: usize = 0;
    while i < v.len()
        invariant
            i <= v@.len(),
            r@.len() == i,
            forall|j: int| 0 <= j < i ==> r@[j] == 2 * v@[j],
            forall|j: int| 0 <= j < v@.len() ==> i32::MIN <= 2 * #[trigger] v@[j] <= i32::MAX,
        decreases v@.len() - i,
    {
        r.push(2 * v[i]);
        i = i + 1;
    }
    r
}

/// Sums the elements left to right; `prefix_sums_fit` rules out overflow.
/// This is the work a summing worker thread performs.
pub fn sum_ints(v: &Vec<i32>) -> (total: i32)
    requires
        prefix_sums_fit(v@),
    ensures
        total == sum_of(v@),
{
    let mut total: i32 = 0;
    let mut i: usize = 0;
    while i < v.len()
        invariant
            i <= v@.len(),
            total == sum_of(v@.take(i as int)),
            prefix_sums_fit(v@),
        decreases v@.len() - i,
    {
        proof {
            assert(v@.take(i + 1).drop_last() =~= v@.take(i as int));
            assert(sum_of(v@.take(i + 1)) == total + v@[i as int]);
        }
        total = total + v[i];
        i = i + 1;
    }
    proof {
        assert(v@.take(v@.len() as int) =~= v@);
    }
    total
}

/// Relies on `crossbeam_utils::thread::scope` and `ScopedJoinHandle::join`:
/// the spawned closure runs on its own thread and `join` returns that
/// closure's result. The closure only calls the verified `double_each`, so
/// the result is its postcondition. Halts if the worker thread terminated
/// abnormally instead of losing the failure.
#[verifier::external_body]
fn run_double_worker(numbers: Vec<i32>) -> (r: Vec<i32>)
    requires
        forall|i: int| 0 <= i < numbers@.len() ==> i32::MIN <= 2 * #[trigger] numbers@[i]
            <= i32::MAX,
    ensures
        r@.len() == numbers@.len(),
        forall|i: int| 0 <= i < numbers@.len() ==> r@[i] == 2 * numbers@[i],
{
    crossbeam_utils::thread::scope(|s| {
        let worker = s.spawn(move |_| double_each(numbers));
        worker.join().expect("worker thread terminated abnormally")
    }).expect("thread scope failed")
}

/// Relies on `crossbeam_utils::thread::scope` and `ScopedJoinHandle::join`:
/// the two closures run on their own threads, both started before either is
/// joined, and each `join` returns its closure's result. The closures only
/// call the verified `sum_ints`, so each result is its postcondition. Halts
/// if a worker thread terminated abnormally instead of losing the failure.
#[verifier::external_body]
fn run_sum_pair(a: Vec<i32>, b: Vec<i32>) -> (sums: (i32, i32))
    requires
        prefix_sums_fit(a@),
        prefix_sums_fit(b@),
    ensures
        sums.0 == sum_of(a@),
        sums.1 == sum_of(b@),
{
    crossbeam_utils::thread::scope(|s| {
        let first = s.spawn(move |_| sum_ints(&a));
        let second = s.spawn(move |_| sum_ints(&b));
        let sum_a = first.join().expect("worker thread terminated abnormally");
        let sum_b = second.join().expect("worker thread terminated abnormally");
        (sum_a, sum_b)
    }).expect("thread scope failed")
}

/// Removing one element from a sequence subtracts exactly that element
/// from its sum.
proof fn lemma_sum_remove(s: Seq<i32>, i: int)
    requires
        0 <= i < s.len(),
    ensures
        sum_of(s.remove(i)) == sum_of(s) - s[i],
    decreases s.len(),
{
    if i == s.len() - 1 {
        assert(s.remove(i) =~= s.drop_last());
    } else {
        assert(s.remove(i).drop_last() =~= s.drop_last().remove(i));
        assert(s.remove(i).last() == s.last());
        lemma_sum_remove(s.drop_last(), i);
    }
}

/// The sums `parallel_sum` returns do not depend on the order of the
/// elements within an input: any two sequences holding the same multiset of
/// elements have the same sum.
pub proof fn lemma_sum_permutation(s1: Seq<i32>, s2: Seq<i32>)
    requires
        s1.to_multiset() == s2.to_multiset(),
    ensures
        sum_of(s1) == sum_of(s2),
    decreases s1.len(),
{
    broadcast use vstd::seq_lib::group_to_multiset_ensures;

    if s1.len() == 0 {
        assert(s2.to_multiset().len() == 0);
    } else {
        let x = s1.last();
        let last = s1.len() - 1;
        assert(s1.to_multiset().count(x) > 0) by {
            assert(s1.contains(x));
        }
        assert(s2.contains(x));
        let j = choose|j: int| 0 <= j < s2.len() && s2[j] == x;
        assert(s1.remove(last).to_multiset() =~= s2.remove(j).to_multiset()) by {
            assert(s1.remove(last).to_multiset() =~= s1.to_multiset().remove(x));
            assert(s2.remove(j).to_multiset() =~= s2.to_multiset().remove(x));
        }
        lemma_sum_permutation(s1.remove(last), s2.remove(j));
        assert(s1.remove(last) =~= s1.drop_last());
        lemma_sum_remove(s2, j);
    }
}

/// Doubles every element of `numbers` in a single newly spawned thread and
/// returns the thread's result: a vector of equal length with every element
/// multiplied by two, order preserved.
///
/// The vector is moved into the worker thread, and the calling thread blocks
/// until the worker finishes. The precondition only rules out elements whose
/// doubling would overflow an `i32`.
pub fn double_in_thread(numbers: Vec<i32>) -> (result: Vec<i32>)
    requires
        forall|i: int| 0 <= i < numbers@.len() ==> i32::MIN <= 2 * #[trigger] numbers@[i]
            <= i32::MAX,
    ensures
        result@.len() == numbers@.len(),
        forall|i: int| 0 <= i < numbers@.len() ==> result@[i] == 2 * numbers@[i],
{
    run_double_worker(numbers)
}

/// Sums `a` and `b` in two concurrently running threads and returns
/// `(sum of a, sum of b)`; each sum is 0 for an empty input.
///
/// The precondition only rules out inputs whose left-to-right summation
/// would overflow an `i32` accumulator.
pub fn parallel_sum(a: Vec<i32>, b: Vec<i32>) -> (sums: (i32, i32))
    requires
        prefix_sums_fit(a@),
        prefix_sums_fit(b@),
    ensures
        sums.0 == sum_of(a@),
        sums.1 == sum_of(b@),
{
    run_sum_pair(a, b)
}

} // verus!
