use phi_accrual_detector::DetectorError;
use phi_accrual_detector::Statistics;

#[test]
fn test_zero_window_length_rejected() {
    let r = Statistics::new(0);
    assert!(matches!(r, Err(DetectorError::InvalidWindowLength)));
}

#[test]
fn test_first_insert_records_no_interval() {
    let mut stats = Statistics::new(10).unwrap();
    stats.insert(42).unwrap();
    assert_eq!(stats.interval_count(), 0);
    assert_eq!(stats.last_arrived_at().unwrap(), 42);
}

#[test]
fn test_window_bound_and_fifo_eviction() {
    let mut stats = Statistics::new(3).unwrap();
    // Gaps between consecutive arrivals: 1, 2, 3, 4, 5.
    let arrivals = [0i64, 1, 3, 6, 10, 15];
    for t in arrivals {
        stats.insert(t).unwrap();
        assert!(stats.interval_count() <= 3);
    }
    // The two oldest intervals were evicted first, in order.
    assert_eq!(stats.interval_count(), 3);
    assert_eq!(stats.interval_at(0), Some(3));
    assert_eq!(stats.interval_at(1), Some(4));
    assert_eq!(stats.interval_at(2), Some(5));
    assert_eq!(stats.interval_at(3), None);
}

#[test]
fn test_out_of_order_arrival_rejected() {
    let mut stats = Statistics::new(4).unwrap();
    stats.insert(100).unwrap();
    stats.insert(150).unwrap();
    let r = stats.insert(120);
    assert!(matches!(r, Err(DetectorError::OutOfOrderArrival)));
    // The rejected arrival left the window untouched.
    assert_eq!(stats.last_arrived_at().unwrap(), 150);
    assert_eq!(stats.interval_count(), 1);
    assert_eq!(stats.interval_at(0), Some(50));
}

#[test]
fn test_last_arrival_query_before_any_insert() {
    let stats = Statistics::new(4).unwrap();
    assert!(matches!(stats.last_arrived_at(), Err(DetectorError::NotYetInitialized)));
}

#[test]
fn test_interval_sums_exact() {
    let mut stats = Statistics::new(10).unwrap();
    let mut t = 0i64;
    stats.insert(t).unwrap();
    for gap in [1630i64, 4421, 1514, 216, 231, 931, 4182, 102, 104, 241, 5132] {
        t += gap;
        stats.insert(t).unwrap();
    }
    // Eleven intervals into a window of ten: the oldest (1630) is evicted.
    assert_eq!(stats.interval_count(), 10);
    let (sum, sq) = stats.interval_sums();
    assert_eq!(sum, 17074);
    assert_eq!(sq, 66710064);
}

#[test]
fn test_interval_sums_empty_window() {
    let stats = Statistics::new(5).unwrap();
    assert_eq!(stats.interval_sums(), (0, 0));
}
