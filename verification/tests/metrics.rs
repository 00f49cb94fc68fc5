use project_blaze::metrics::init_zone_counters;
use project_blaze::metrics::ZoneMetrics;

#[test]
fn counters_start_at_zero() {
    assert_eq!(init_zone_counters(0), vec![0]);
    assert_eq!(init_zone_counters(3), vec![0, 0, 0, 0]);
    let metrics = ZoneMetrics::new(2);
    assert_eq!(metrics.occupancy(), 0);
    assert_eq!(metrics.max_occupancy(), 0);
    assert!(!metrics.has_violation());
    assert!(metrics.tracks(0));
    assert!(metrics.tracks(2));
    assert!(!metrics.tracks(3));
    assert_eq!(metrics.zone_occupancy(1), 0);
}

#[test]
fn exclusive_use_raises_no_violation() {
    let mut metrics = ZoneMetrics::new(2);
    metrics.enter(1);
    metrics.enter(2);
    assert_eq!(metrics.occupancy(), 2);
    assert_eq!(metrics.zone_occupancy(1), 1);
    assert_eq!(metrics.zone_occupancy(2), 1);
    assert_eq!(metrics.max_occupancy(), 2);
    metrics.pre_release(1);
    assert_eq!(metrics.occupancy(), 1);
    assert_eq!(metrics.zone_occupancy(1), 0);
    metrics.enter(1);
    metrics.pre_release(2);
    metrics.pre_release(1);
    assert_eq!(metrics.occupancy(), 0);
    assert_eq!(metrics.max_occupancy(), 2);
    assert!(!metrics.has_violation());
}

#[test]
fn two_robots_in_one_zone_are_a_violation() {
    let mut metrics = ZoneMetrics::new(4);
    metrics.enter(3);
    assert!(!metrics.has_violation());
    metrics.enter(3);
    assert!(metrics.has_violation());
    assert_eq!(metrics.zone_occupancy(3), 2);
    metrics.pre_release(3);
    metrics.pre_release(3);
    // The flag records that it happened; it is never taken back.
    assert!(metrics.has_violation());
    assert_eq!(metrics.max_occupancy(), 2);
}

#[test]
fn more_robots_inside_than_zones_is_a_violation() {
    let mut metrics = ZoneMetrics::new(1);
    metrics.enter(1);
    assert!(!metrics.has_violation());
    metrics.enter(0);
    assert!(metrics.has_violation());
    assert_eq!(metrics.occupancy(), 2);
}

#[test]
fn revert_takes_back_an_announced_leave() {
    let mut metrics = ZoneMetrics::new(2);
    metrics.enter(2);
    metrics.pre_release(2);
    assert_eq!(metrics.occupancy(), 0);
    assert_eq!(metrics.zone_occupancy(2), 0);
    metrics.revert_pre_release(2);
    assert_eq!(metrics.occupancy(), 1);
    assert_eq!(metrics.zone_occupancy(2), 1);
    assert_eq!(metrics.max_occupancy(), 1);
    assert!(!metrics.has_violation());
}
