use project_blaze::health_monitor::clamp_nanos;
use project_blaze::health_monitor::is_stale;
use project_blaze::health_monitor::tick_from_offsets;
use project_blaze::health_monitor::HealthMonitor;
use project_blaze::health_monitor::HealthState;
use std::collections::HashSet;
use std::time::Duration;
use std::time::Instant;

#[test]
fn detects_offline_after_timeout() {
    let monitor = HealthMonitor::new();
    let robot = 7;
    let past = Instant::now() - Duration::from_millis(50);
    monitor.set_last_seen_for_test(robot, past);
    // Timeout shorter than elapsed time should mark offline.
    let offline = monitor.detect_offline(Duration::from_millis(10));
    assert!(offline.contains(&robot));
}

#[test]
fn marks_never_heartbeat_after_timeout() {
    let monitor = HealthMonitor::new();
    let robot = 11;
    let past = Instant::now() - Duration::from_millis(30);
    monitor.set_last_seen_for_test(robot, past);
    let offline = monitor.detect_offline(Duration::from_millis(5));
    assert!(offline.contains(&robot));
}

#[test]
fn heartbeat_clears_offline() {
    let monitor = HealthMonitor::new();
    let robot = 21;
    let past = Instant::now() - Duration::from_millis(30);
    monitor.set_last_seen_for_test(robot, past);
    monitor.detect_offline(Duration::from_millis(5));
    assert!(monitor.offline_robots().contains(&robot));
    // Heartbeat should clear the offline status.
    monitor.heartbeat(robot);
    assert!(!monitor.offline_robots().contains(&robot));
}

#[test]
fn deterministic_offline_without_sleep() {
    let monitor = HealthMonitor::new();
    let robot = 42;
    let past = Instant::now() - Duration::from_secs(5);
    monitor.set_last_seen_for_test(robot, past);
    let offline = monitor.detect_offline(Duration::from_secs(1));
    assert!(offline.contains(&robot));
}

#[test]
fn heartbeat_ends_reported_outage() {
    let monitor = HealthMonitor::new();
    let robot = 3;
    let past = Instant::now() - Duration::from_secs(5);
    monitor.set_last_seen_for_test(robot, past);
    let offline = monitor.detect_offline(Duration::from_secs(1));
    assert!(offline.contains(&robot));
    monitor.heartbeat(robot);
    assert!(!monitor.offline_robots().contains(&robot));
    assert!(!monitor.detect_offline(Duration::from_secs(1)).contains(&robot));
    assert!(!monitor.detect_offline_any(Duration::from_secs(1)));
}

#[test]
fn fresh_robot_is_not_offline() {
    let monitor = HealthMonitor::new();
    monitor.register_robot(1);
    monitor.heartbeat(2);
    assert!(monitor.detect_offline(Duration::from_secs(60)).is_empty());
    assert!(!monitor.detect_offline_any(Duration::from_secs(60)));
    assert!(monitor.offline_robots().is_empty());
}

#[test]
fn register_keeps_an_existing_entry() {
    let monitor = HealthMonitor::new();
    let robot = 9;
    let past = Instant::now() - Duration::from_secs(5);
    monitor.set_last_seen_for_test(robot, past);
    monitor.register_robot(robot);
    assert!(monitor.detect_offline_any(Duration::from_secs(1)));
    assert!(monitor.offline_robots().contains(&robot));
}

#[test]
fn evaluation_never_clears_a_mark() {
    let monitor = HealthMonitor::new();
    let robot = 5;
    let past = Instant::now() - Duration::from_secs(5);
    monitor.set_last_seen_for_test(robot, past);
    assert!(monitor.detect_offline(Duration::from_secs(1)).contains(&robot));
    // Under a longer timeout the robot is not overdue, but only a heartbeat
    // clears the mark.
    assert!(monitor.detect_offline(Duration::from_secs(3600)).contains(&robot));
    assert!(monitor.detect_offline_any(Duration::from_secs(3600)));
}

#[test]
fn only_stale_robots_are_reported() {
    let monitor = HealthMonitor::new();
    let now = Instant::now();
    monitor.set_last_seen_for_test(1, now - Duration::from_secs(10));
    monitor.set_last_seen_for_test(2, now - Duration::from_secs(1));
    monitor.set_last_seen_for_test(3, now + Duration::from_secs(10));
    let offline = monitor.detect_offline(Duration::from_secs(5));
    let expected: HashSet<u64> = [1u64].into_iter().collect();
    assert_eq!(offline, expected);
    assert_eq!(monitor.offline_robots(), expected);
}

#[test]
fn health_state_marks_exactly_the_stale() {
    let mut state = HealthState::new();
    state.set_last_seen(1, 1_000);
    state.set_last_seen(2, 1_500);
    state.set_last_seen(3, 3_000);
    // At tick 2_000 with timeout 500: robot 1 is 1_000 late, robot 2 exactly
    // 500 (not more), robot 3 was seen in the future.
    let mut overdue = state.overdue_robots(2_000, 500);
    overdue.sort();
    assert_eq!(overdue, vec![1]);
    let expected: HashSet<u64> = [1u64].into_iter().collect();
    assert_eq!(state.detect_offline(2_000, 500), expected);
    let mut overdue = state.overdue_robots(2_000, 499);
    overdue.sort();
    assert_eq!(overdue, vec![1, 2]);
    assert!(state.detect_offline_any(2_000, 499));
    let expected: HashSet<u64> = [1u64, 2u64].into_iter().collect();
    assert_eq!(state.offline_robots(), expected);
    state.heartbeat(1, 2_000);
    let expected: HashSet<u64> = [2u64].into_iter().collect();
    assert_eq!(state.offline_robots(), expected);
    assert_eq!(state.detect_offline(2_000, 0), expected);
    state.heartbeat(2, 2_000);
    assert!(!state.detect_offline_any(2_000, 0));
    // One nanosecond later, with no patience at all, everybody seen before
    // is overdue.
    let expected: HashSet<u64> = [1u64, 2u64].into_iter().collect();
    assert_eq!(state.detect_offline(2_001, 0), expected);
}

#[test]
fn health_state_register_is_idempotent() {
    let mut state = HealthState::new();
    assert!(state.overdue_robots(i64::MAX, 0).is_empty());
    state.register_robot(4, 100);
    state.register_robot(4, 900);
    // The first registration stands: at tick 1_000 the robot is 900 late.
    assert_eq!(state.overdue_robots(1_000, 899), vec![4]);
    assert!(state.overdue_robots(1_000, 900).is_empty());
    assert!(state.offline_robots().is_empty());
}

#[test]
fn staleness_is_measured_without_overflow() {
    assert!(is_stale(i64::MAX, i64::MIN, u64::MAX - 1));
    assert!(!is_stale(i64::MAX, i64::MIN, u64::MAX));
    assert!(!is_stale(i64::MIN, i64::MAX, 0));
    assert!(!is_stale(5, 5, 0));
    assert!(is_stale(6, 5, 0));
    assert!(!is_stale(6, 5, 1));
}

#[test]
fn ticks_are_clamped_offsets() {
    assert_eq!(tick_from_offsets(0, 0), 0);
    assert_eq!(tick_from_offsets(1_500, 0), 1_500);
    assert_eq!(tick_from_offsets(0, 1_500), -1_500);
    assert_eq!(tick_from_offsets(u128::MAX, 0), i64::MAX);
    assert_eq!(tick_from_offsets(0, u128::MAX), -i64::MAX);
    assert_eq!(tick_from_offsets(i64::MAX as u128, 0), i64::MAX);
    assert_eq!(clamp_nanos(0), 0);
    assert_eq!(clamp_nanos(17), 17);
    assert_eq!(clamp_nanos(u64::MAX as u128), u64::MAX);
    assert_eq!(clamp_nanos(u64::MAX as u128 + 1), u64::MAX);
}
