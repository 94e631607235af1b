use concurrency_sync::concurrent_collect;
use concurrency_sync::concurrent_counter;

#[test]
fn test_counter_single_thread() {
    assert_eq!(concurrent_counter(1, 100), 100);
}

#[test]
fn test_counter_multi_thread() {
    assert_eq!(concurrent_counter(10, 100), 1000);
}

#[test]
fn test_counter_zero() {
    assert_eq!(concurrent_counter(5, 0), 0);
}

#[test]
fn test_counter_zero_threads() {
    assert_eq!(concurrent_counter(0, 7), 0);
}

#[test]
fn test_counter_small_product() {
    assert_eq!(concurrent_counter(3, 3), 9);
}

#[test]
fn test_collect() {
    let result = concurrent_collect(5);
    assert_eq!(result, vec![0, 1, 2, 3, 4]);
}

#[test]
fn test_collect_single() {
    assert_eq!(concurrent_collect(1), vec![0]);
}

#[test]
fn test_collect_larger() {
    assert_eq!(concurrent_collect(8), vec![0, 1, 2, 3, 4, 5, 6, 7]);
}
