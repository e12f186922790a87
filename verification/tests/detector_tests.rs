use phi_accrual_detector::Detector;
use phi_accrual_detector::DetectorError;
use phi_accrual_detector::PhiOutcome;
use phi_accrual_detector::Statistics;

/// Finish the phi computation in floating point from an exact outcome:
/// `-log10(1 - cdf((elapsed - mean) / stddev))` with the standard normal
/// cumulative distribution function, computed via the error function.
fn phi_value(outcome: PhiOutcome) -> f64 {
    match outcome {
        PhiOutcome::Infinite => f64::INFINITY,
        PhiOutcome::Zero => 0.0,
        PhiOutcome::Numeric { elapsed, interval_count, interval_sum, interval_sq_sum } => {
            let n = interval_count as f64;
            let mean = interval_sum as f64 / n;
            let variance = interval_sq_sum as f64 / n - mean * mean;
            let sigma = variance.sqrt();
            let z = (elapsed as f64 - mean) / sigma;
            let cdf = 0.5 + 0.5 * libm::erf(z);
            -libm::log10(1.0 - cdf)
        }
    }
}

#[test]
fn test_variant_mean_and_variance_combo_calculation() {
    let mut stats = Statistics::new(10).unwrap();
    let mut curr_time = 0i64;
    stats.insert(curr_time).unwrap();
    let expect_vals = [1630i64, 4421, 1514, 216, 231, 931, 4182, 102, 104, 241, 5132];
    let mut i = 0;
    while i < expect_vals.len() {
        curr_time += expect_vals[i];
        stats.insert(curr_time).unwrap();
        i += 1;
    }
    let (sum, sq) = stats.interval_sums();
    let len = stats.interval_count() as f64;
    let mut mean = sum as f64 / len;
    let mut variance = sq as f64 / len - mean * mean;
    mean = (mean * 100.0).round() * 0.01;
    variance = (variance * 100.0).round() * 0.01;
    assert_eq!(1707.4, mean);
    assert_eq!(3755791.64, variance);

    let mut detector = Detector::new(10).unwrap();
    let mut t = 0i64;
    detector.insert(t).unwrap();
    for gap in expect_vals {
        t += gap;
        detector.insert(t).unwrap();
    }
    let mut suspicion_level: Vec<f64> = vec![];
    for _ in 1..10 {
        t += 250;
        suspicion_level.push(phi_value(detector.phi_outcome(t).unwrap()));
    }
    println!("suspicion -> {:?}", suspicion_level);
    for i in 1..suspicion_level.len() {
        assert!(suspicion_level[i] > suspicion_level[i - 1]);
    }
}

#[test]
fn test_constant_phi_with_constant_pings_calculation() {
    let mut detector = Detector::new(10).unwrap();
    let mut stats = Statistics::new(10).unwrap();
    let mut curr_time = 0i64;
    let mut i = 0;
    while i <= 100 {
        detector.insert(curr_time).unwrap();
        stats.insert(curr_time).unwrap();
        curr_time += 10;
        i += 10;
    }
    let (sum, sq) = stats.interval_sums();
    let len = stats.interval_count() as f64;
    let raw_mean = sum as f64 / len;
    let mean = (raw_mean * 100.0).round() * 0.01;
    let variance = ((sq as f64 / len - raw_mean * raw_mean) * 100.0).round() * 0.01;
    assert_eq!(10.0, mean);
    assert_eq!(0.0, variance);
    curr_time += 10;
    assert_eq!(0.0, phi_value(detector.phi_outcome(curr_time).unwrap()));
}

#[test]
fn test_infinite_phi_at_mean_elapsed_with_zero_variance() {
    let mut detector = Detector::new(10).unwrap();
    for k in 0i64..=10 {
        detector.insert(k * 10).unwrap();
    }
    // Querying exactly one cadence step after the last arrival: the elapsed
    // time equals the learned mean, survival is 0 and phi is infinite.
    assert_eq!(detector.phi_outcome(110).unwrap(), PhiOutcome::Infinite);
    assert!(phi_value(detector.phi_outcome(110).unwrap()).is_infinite());
    // At every other elapsed time survival is 1 and phi is 0.
    assert_eq!(detector.phi_outcome(105).unwrap(), PhiOutcome::Zero);
    assert_eq!(detector.phi_outcome(130).unwrap(), PhiOutcome::Zero);
    assert_eq!(phi_value(detector.phi_outcome(130).unwrap()), 0.0);
}

#[test]
fn test_single_arrival_has_zero_variance_and_mean_zero() {
    let mut detector = Detector::new(5).unwrap();
    detector.insert(1000).unwrap();
    // With no intervals yet the mean is 0: only a query at the arrival
    // itself has an elapsed time equal to the mean.
    assert_eq!(detector.phi_outcome(1000).unwrap(), PhiOutcome::Infinite);
    assert_eq!(detector.phi_outcome(1001).unwrap(), PhiOutcome::Zero);
}

#[test]
fn test_query_before_any_insert_is_refused() {
    let detector = Detector::new(5).unwrap();
    assert!(matches!(detector.phi_outcome(10), Err(DetectorError::NotYetInitialized)));
    assert!(matches!(detector.last_arrived_at(), Err(DetectorError::NotYetInitialized)));
}

#[test]
fn test_zero_window_length_detector_rejected() {
    assert!(matches!(Detector::new(0), Err(DetectorError::InvalidWindowLength)));
    assert!(matches!(
        Detector::with_acceptable_pause(0, 10),
        Err(DetectorError::InvalidWindowLength)
    ));
}

#[test]
fn test_detector_rejects_out_of_order_arrival() {
    let mut detector = Detector::new(3).unwrap();
    detector.insert(500).unwrap();
    assert!(matches!(detector.insert(400), Err(DetectorError::OutOfOrderArrival)));
    assert_eq!(detector.last_arrived_at().unwrap(), 500);
}

#[test]
fn test_grace_period_lowers_phi() {
    let mut plain = Detector::new(10).unwrap();
    let mut graced = Detector::with_acceptable_pause(10, 500).unwrap();
    for t in [0i64, 100, 350, 400, 600, 1000] {
        plain.insert(t).unwrap();
        graced.insert(t).unwrap();
    }
    for q in [1100i64, 1500, 2500, 5000] {
        let phi_plain = phi_value(plain.phi_outcome(q).unwrap());
        let phi_graced = phi_value(graced.phi_outcome(q).unwrap());
        assert!(phi_graced <= phi_plain);
    }
}

#[test]
fn test_idempotent_read() {
    let mut detector = Detector::with_acceptable_pause(4, 50).unwrap();
    for t in [0i64, 30, 90, 200] {
        detector.insert(t).unwrap();
    }
    let q = 450i64;
    let first = detector.phi_outcome(q).unwrap();
    for _ in 0..5 {
        assert_eq!(detector.phi_outcome(q).unwrap(), first);
        assert_eq!(detector.last_arrived_at().unwrap(), 200);
    }
    assert_eq!(phi_value(detector.phi_outcome(q).unwrap()), phi_value(first));
}

#[test]
fn test_numeric_phi_at_mean_is_log_ten_of_two() {
    let mut detector = Detector::new(10).unwrap();
    for t in [0i64, 10, 30] {
        detector.insert(t).unwrap();
    }
    // Intervals [10, 20]: mean 15, population variance 25.  An elapsed time
    // equal to the mean puts the normal cdf at exactly one half, so
    // phi = -log10(1/2) = log10(2).
    match detector.phi_outcome(45).unwrap() {
        PhiOutcome::Numeric { elapsed, interval_count, interval_sum, interval_sq_sum } => {
            assert_eq!(elapsed, 15);
            assert_eq!(interval_count, 2);
            assert_eq!(interval_sum, 30);
            assert_eq!(interval_sq_sum, 500);
        }
        other => panic!("expected a numeric outcome, got {:?}", other),
    }
    let phi = phi_value(detector.phi_outcome(45).unwrap());
    assert!((phi - libm::log10(2.0)).abs() < 1e-12);
}
