use concurrency_sync::double_in_thread;
use concurrency_sync::parallel_sum;

#[test]
fn test_double_basic() {
    let nums = vec![1, 2, 3, 4, 5];
    assert_eq!(double_in_thread(nums), vec![2, 4, 6, 8, 10]);
}

#[test]
fn test_double_empty() {
    assert_eq!(double_in_thread(vec![]), vec![]);
}

#[test]
fn test_double_negative() {
    assert_eq!(double_in_thread(vec![-1, 0, 1]), vec![-2, 0, 2]);
}

#[test]
fn test_parallel_sum() {
    let a = vec![1, 2, 3];
    let b = vec![10, 20, 30];
    assert_eq!(parallel_sum(a, b), (6, 60));
}

#[test]
fn test_parallel_sum_empty() {
    assert_eq!(parallel_sum(vec![], vec![]), (0, 0));
}

#[test]
fn test_parallel_sum_one_side_empty() {
    assert_eq!(parallel_sum(vec![5], vec![]), (5, 0));
}

#[test]
fn test_parallel_sum_reordered_inputs() {
    // Reordering the elements within each input leaves both sums unchanged.
    assert_eq!(parallel_sum(vec![3, 2, 1], vec![30, 10, 20]), (6, 60));
}

#[test]
fn test_double_mixed_signs() {
    assert_eq!(double_in_thread(vec![-7, 4, 0, -1]), vec![-14, 8, 0, -2]);
}
