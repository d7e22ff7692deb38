use adaptive_mutex::estimate::SpinEstimator;

#[test]
fn update_returns_the_previous_estimate() {
    let est = SpinEstimator::new(0);
    let previous: isize = est.update(40);
    assert_eq!(previous, 0);
    assert_eq!(est.read(), 5);
}

#[test]
fn estimate_climbs_toward_a_higher_observation() {
    let est = SpinEstimator::new(0);
    let mut previous: isize = 0;
    let mut i: usize = 0;
    while i < 40 {
        est.update(40);
        let current: isize = est.read();
        assert!(current >= previous);
        assert!(current <= 40);
        previous = current;
        i += 1;
    }
    assert!(previous > 32);
}

#[test]
fn estimate_descends_toward_a_lower_observation() {
    let est = SpinEstimator::new(80);
    let mut previous: isize = 80;
    let mut i: usize = 0;
    while i < 80 {
        est.update(8);
        let current: isize = est.read();
        assert!(current <= previous);
        assert!(current >= 8);
        previous = current;
        i += 1;
    }
    assert!(previous < 16);
}

#[test]
fn correction_truncates_toward_zero() {
    let est = SpinEstimator::new(0);
    est.update(-1);
    assert_eq!(est.read(), 0);
    est.update(-16);
    assert_eq!(est.read(), -2);
}

#[test]
fn estimate_may_go_negative() {
    let est = SpinEstimator::new(-2);
    est.update(-50);
    assert_eq!(est.read(), -8);
}

#[test]
fn estimator_starts_where_seeded() {
    let est = SpinEstimator::new(0);
    assert_eq!(est.read(), 0);
    let est2 = SpinEstimator::new(12);
    assert_eq!(est2.read(), 12);
}
