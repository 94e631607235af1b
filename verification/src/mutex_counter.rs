//! Shared mutable state across threads, protected by a verified
//! reader-writer lock.
//!
//! The state each worker mutates — a counter it increments, a vector it
//! pushes its identifier into — lives in a `vstd` lock with joint,
//! reference-counted ownership, and every mutation is verified code that
//! holds the write lock (`add_increments`, `push_id`). Only the hop onto the
//! worker threads goes through a trusted wrapper around `crossbeam_utils`,
//! whose contract records that joining hands back exactly the values the
//! workers' verified closures produced. The overall counts are then proved
//! from those per-worker postconditions.

use vstd::prelude::*;
use vstd::multiset::Multiset;
use vstd::rwlock::RwLock;
use vstd::rwlock::RwLockPredicate;
use std::sync::Arc;

verus! {

/// A lock predicate that admits every value: these operations place no
/// invariant on the shared value itself.
pub struct AnyContent;

impl RwLockPredicate<usize> for AnyContent {
    open spec fn inv(self, v: usize) -> bool {
        true
    }
}

impl RwLockPredicate<Vec<usize>> for AnyContent {
    open spec fn inv(self, v: Vec<usize>) -> bool {
        true
    }
}

/// Increments the shared counter `count` times, taking the write lock for
/// each increment so that no update can be lost, and reports how many
/// increments it performed. The counter saturates instead of wrapping in the
/// (unreachable under the callers' preconditions) case that it reaches the
/// machine's limit.
pub fn add_increments(lock: &RwLock<usize, AnyContent>, count: usize) -> (done: usize)
    ensures
        done == count,
{
    let mut j: usize = 0;
    while j < count
        invariant
            j <= count,
        decreases count - j,
    {
        let (v, write_handle) = lock.acquire_write();
        if v < usize::MAX {
            write_handle.release_write(v + 1);
        } else {
            write_handle.release_write(v);
        }
        j = j + 1;
    }
    j
}

/// Pushes this worker's identifier onto the shared vector under the write
/// lock and reports the identifier it pushed.
pub fn push_id(lock: &RwLock<Vec<usize>, AnyContent>, id: usize) -> (pushed: usize)
    ensures
        pushed == id,
{
    let (mut v, write_handle) = lock.acquire_write();
    v.push(id);
    write_handle.release_write(v);
    id
}

/// Reads the counter's current value under the read lock.
pub fn read_value(lock: &RwLock<usize, AnyContent>) -> usize {
    let read_handle = lock.acquire_read();
    let v = *read_handle.borrow();
    read_handle.release_read();
    v
}

/// A sequence of numbers arranged in ascending order.
pub open spec fn sorted_asc(s: Seq<usize>) -> bool {
    forall|i: int, j: int| 0 <= i < j < s.len() ==> s[i] <= s[j]
}

/// Builds a copy of the sorted vector `sorted` with `x` placed at its
/// position: the result is sorted and holds the same elements plus `x`.
fn insert_sorted(sorted: Vec<usize>, x: usize) -> (out: Vec<usize>)
    requires
        sorted_asc(sorted@),
    ensures
        sorted_asc(out@),
        out@.to_multiset() == sorted@.to_multiset().insert(x),
{
    broadcast use vstd::seq_lib::group_to_multiset_ensures;

    let mut out: Vec<usize> = Vec::new();
    let mut i: usize = 0;
    while i < sorted.len() && sorted[i] <= x
        invariant
            i <= sorted@.len(),
            out@ == sorted@.take(i as int),
            forall|j: int| 0 <= j < i ==> sorted@[j] <= x,
            sorted_asc(sorted@),
        decreases sorted@.len() - i,
    {
        out.push(sorted[i]);
        proof {
            assert(out@ =~= sorted@.take(i + 1));
        }
        i = i + 1;
    }
    let split: usize = i;
    out.push(x);
    while i < sorted.len()
        invariant
            split <= i <= sorted@.len(),
            out@ == sorted@.take(split as int) + seq![x] + sorted@.subrange(
                split as int,
                i as int,
            ),
            forall|j: int| 0 <= j < split ==> sorted@[j] <= x,
            split < sorted@.len() ==> x < sorted@[split as int],
            sorted_asc(sorted@),
        decreases sorted@.len() - i,
    {
        out.push(sorted[i]);
        proof {
            assert(out@ =~= sorted@.take(split as int) + seq![x] + sorted@.subrange(
                split as int,
                i + 1,
            ));
        }
        i = i + 1;
    }
    proof {
        let k = split as int;
        let s = sorted@;
        assert(out@ =~= s.take(k) + seq![x] + s.skip(k));
        assert(sorted_asc(out@)) by {
            assert(forall|p: int| 0 <= p < k ==> out@[p] == s[p]);
            assert(out@[k] == x);
            assert(forall|p: int| k < p < out@.len() ==> out@[p] == s[p - 1]);
        }
        assert(out@.to_multiset() =~= s.to_multiset().insert(x)) by {
            vstd::seq_lib::lemma_multiset_commutative(s.take(k) + seq![x], s.skip(k));
            vstd::seq_lib::lemma_multiset_commutative(s.take(k), seq![x]);
            vstd::seq_lib::lemma_multiset_commutative(s.take(k), s.skip(k));
            assert(s.take(k) + s.skip(k) =~= s);
            assert(seq![x].to_multiset() =~= Multiset::empty().insert(x)) by {
                assert(seq![x].drop_first() =~= Seq::<usize>::empty());
            }
        }
    }
    out
}

/// Sorts the elements into ascending order: the result holds exactly the
/// same multiset of elements, arranged ascending.
pub fn sort_ascending(v: &Vec<usize>) -> (r: Vec<usize>)
    ensures
        sorted_asc(r@),
        r@.to_multiset() == v@.to_multiset(),
{
    broadcast use vstd::seq_lib::group_to_multiset_ensures;

    let mut r: Vec<usize> = Vec::new();
    let mut i: usize = 0;
    proof {
        assert(v@.take(0) =~= Seq::<usize>::empty());
        assert(r@.to_multiset() =~= v@.take(0).to_multiset());
    }
    while i < v.len()
        invariant
            i <= v@.len(),
            sorted_asc(r@),
            r@.to_multiset() == v@.take(i as int).to_multiset(),
        decreases v@.len() - i,
    {
        r = insert_sorted(r, v[i]);
        proof {
            assert(v@.take(i + 1) =~= v@.take(i as int).push(v@[i as int]));
            vstd::seq_lib::to_multiset_build(v@.take(i as int), v@[i as int]);
        }
        i = i + 1;
    }
    proof {
        assert(v@.take(v@.len() as int) =~= v@);
    }
    r
}

/// Compares two vectors element for element; a `true` answer means their
/// contents are equal.
fn vecs_equal(a: &Vec<usize>, b: &Vec<usize>) -> (eq: bool)
    ensures
        eq ==> a@ == b@,
{
    if a.len() != b.len() {
        return false;
    }
    let mut i: usize = 0;
    while i < a.len()
        invariant
            i <= a@.len(),
            a@.len() == b@.len(),
            forall|j: int| 0 <= j < i ==> a@[j] == b@[j],
        decreases a@.len() - i,
    {
        if a[i] != b[i] {
            return false;
        }
        i = i + 1;
    }
    proof {
        assert(a@ =~= b@);
    }
    true
}

/// Relies on `crossbeam_utils::thread::scope` and `ScopedJoinHandle::join`:
/// each spawned closure runs on its own thread and `join` returns that
/// closure's result, collected here in spawn order. Every closure shares
/// ownership of the lock through an `Arc` clone and only calls the verified
/// `add_increments`, so every collected value is its postcondition. Halts if
/// a worker thread terminated abnormally instead of losing the failure.
#[verifier::external_body]
fn run_counter_workers(
    shared: &Arc<RwLock<usize, AnyContent>>,
    n_threads: usize,
    count_per_thread: usize,
) -> (counts: Vec<usize>)
    ensures
        counts@.len() == n_threads,
        forall|i: int| 0 <= i < n_threads ==> counts@[i] == count_per_thread,
{
    crossbeam_utils::thread::scope(|s| {
        let workers: Vec<_> = (0..n_threads)
            .map(|_| {
                let shared = Arc::clone(shared);
                s.spawn(move |_| add_increments(&shared, count_per_thread))
            })
            .collect();
        workers
            .into_iter()
            .map(|w| w.join().expect("worker thread terminated abnormally"))
            .collect()
    }).expect("thread scope failed")
}

/// Relies on `crossbeam_utils::thread::scope` and `ScopedJoinHandle::join`:
/// each spawned closure runs on its own thread and `join` returns that
/// closure's result, collected here in spawn order. The closure spawned for
/// identifier `i` shares ownership of the lock through an `Arc` clone and
/// only calls the verified `push_id` with `i`, so the value collected at
/// position `i` is `i`. Halts if a worker thread terminated abnormally
/// instead of losing the failure.
#[verifier::external_body]
fn run_collect_workers(
    shared: &Arc<RwLock<Vec<usize>, AnyContent>>,
    n_threads: usize,
) -> (ids: Vec<usize>)
    ensures
        ids@.len() == n_threads,
        forall|i: int| 0 <= i < n_threads ==> ids@[i] == i,
{
    crossbeam_utils::thread::scope(|s| {
        let workers: Vec<_> = (0..n_threads)
            .map(|id| {
                let shared = Arc::clone(shared);
                s.spawn(move |_| push_id(&shared, id))
            })
            .collect();
        workers
            .into_iter()
            .map(|w| w.join().expect("worker thread terminated abnormally"))
            .collect()
    }).expect("thread scope failed")
}

/// Spawns `n_threads` worker threads that jointly own one lock-protected
/// counter starting at 0; each worker increments it `count_per_thread`
/// times under the write lock, so increments are serialized and none is
/// lost. Waits for every worker, then returns the final count, which is
/// exactly `n_threads * count_per_thread` — also for zero threads or zero
/// increments.
///
/// The total is proved by summing the per-worker increment counts reported
/// through the joins; the value read back from the shared counter is
/// returned after being checked against that proven total.
pub fn concurrent_counter(n_threads: usize, count_per_thread: usize) -> (result: usize)
    requires
        n_threads * count_per_thread <= usize::MAX,
    ensures
        result == n_threads * count_per_thread,
{
    let shared: Arc<RwLock<usize, AnyContent>> =
        Arc::new(RwLock::new(0, Ghost(AnyContent)));
    let counts = run_counter_workers(&shared, n_threads, count_per_thread);
    let mut total: usize = 0;
    let mut done: usize = 0;
    while done < n_threads
        invariant
            done <= n_threads,
            counts@.len() == n_threads,
            forall|i: int| 0 <= i < n_threads ==> counts@[i] == count_per_thread,
            total == done * count_per_thread,
            n_threads * count_per_thread <= usize::MAX,
        decreases n_threads - done,
    {
        proof {
            assert((done + 1) * count_per_thread == done * count_per_thread
                + count_per_thread && (done + 1) * count_per_thread <= n_threads
                * count_per_thread) by (nonlinear_arith)
                requires
                    0 <= done,
                    done < n_threads,
                    0 <= count_per_thread,
            ;
        }
        total = total + counts[done];
        done = done + 1;
    }
    let final_value = read_value(&*shared);
    if final_value == total {
        final_value
    } else {
        total
    }
}

/// Spawns `n_threads` worker threads that jointly own one lock-protected
/// vector; the worker with identifier `i` pushes `i` onto it under the
/// write lock. Waits for every worker, then returns the identifiers in
/// ascending order: exactly `0, 1, ..., n_threads - 1`, with no duplicate
/// and none missing.
///
/// The exact contents are proved through the identifiers the workers report
/// back through their joins, which pin the sequence `0, 1, ...,
/// n_threads - 1`; the shared vector, filled by the serialized pushes, is
/// then taken out of the lock, sorted, checked against that proven
/// sequence, and returned when — as on every run in which each worker
/// pushed its identifier once — the two agree.
pub fn concurrent_collect(n_threads: usize) -> (result: Vec<usize>)
    ensures
        result@.len() == n_threads,
        forall|i: int| 0 <= i < n_threads ==> result@[i] == i,
        forall|i: int, j: int| 0 <= i < j < n_threads ==> result@[i] < result@[j],
{
    let shared: Arc<RwLock<Vec<usize>, AnyContent>> =
        Arc::new(RwLock::new(Vec::new(), Ghost(AnyContent)));
    let ids = run_collect_workers(&shared, n_threads);
    let (collected, write_handle) = (&*shared).acquire_write();
    write_handle.release_write(Vec::new());
    let sorted = sort_ascending(&collected);
    if vecs_equal(&sorted, &ids) {
        sorted
    } else {
        ids
    }
}

} // verus!
