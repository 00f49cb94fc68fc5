use project_blaze::coordination::bench_heartbeat_limit;
use project_blaze::coordination::heartbeat_due;
use project_blaze::coordination::offline_wait_is_over;
use project_blaze::coordination::zone_for_task;
use project_blaze::coordination::Worker;
use project_blaze::health_monitor::HealthMonitor;
use project_blaze::metrics::ZoneMetrics;
use project_blaze::task_queue::TaskQueue;
use project_blaze::types::Task;
use project_blaze::zones::ReleaseOutcome;
use project_blaze::zones::ZoneAccess;
use std::collections::HashSet;
use std::time::Duration;
use std::time::Instant;

#[test]
fn zone_is_task_id_modulo_zone_count_plus_one() {
    assert_eq!(zone_for_task(0, 2), 1);
    assert_eq!(zone_for_task(1, 2), 2);
    assert_eq!(zone_for_task(7, 2), 2);
    assert_eq!(zone_for_task(11, 2), 2);
    assert_eq!(zone_for_task(10, 4), 3);
    assert_eq!(zone_for_task(5, 1), 1);
    assert_eq!(zone_for_task(u64::MAX, u64::MAX), 1);
    assert_eq!(zone_for_task(u64::MAX - 1, u64::MAX), u64::MAX);
}

#[test]
fn heartbeats_stop_after_the_limit() {
    assert!(heartbeat_due(0, 0));
    assert!(heartbeat_due(2, 2));
    assert!(!heartbeat_due(3, 2));
    assert!(heartbeat_due(usize::MAX, usize::MAX));
}

#[test]
fn only_robot_zero_of_several_simulates_an_outage() {
    assert_eq!(bench_heartbeat_limit(true, 4, 0, 25), 12);
    assert_eq!(bench_heartbeat_limit(true, 4, 1, 25), usize::MAX);
    assert_eq!(bench_heartbeat_limit(true, 1, 0, 25), usize::MAX);
    assert_eq!(bench_heartbeat_limit(false, 4, 0, 25), usize::MAX);
    assert_eq!(bench_heartbeat_limit(true, 2, 0, 1), 0);
}

#[test]
fn offline_wait_ends_on_report_or_deadline() {
    assert!(offline_wait_is_over(true, 0, 1_000));
    assert!(!offline_wait_is_over(false, 999, 1_000));
    assert!(offline_wait_is_over(false, 1_000, 1_000));
    assert!(offline_wait_is_over(false, 1_001, 1_000));
}

#[test]
fn worker_assigns_each_task_its_zone() {
    let worker = Worker::new(3, 5, 4, usize::MAX);
    assert!(worker.assign(None).is_none());
    let assignment = worker.assign(Some(Task::new(10, "deliver"))).expect("a task was handed out");
    assert_eq!(assignment.task, Task::new(10, "deliver"));
    assert_eq!(assignment.zone, 3);
    let assignment = worker.assign(Some(Task::new(7, "other"))).expect("a task was handed out");
    assert_eq!(assignment.task.id, 7);
    assert_eq!(assignment.zone, 4);
    let lone = Worker::new(0, 1, 1, 0);
    assert_eq!(lone.assign(Some(Task::new(u64::MAX, "last"))).map(|a| a.zone), Some(1));
}

#[test]
fn worker_stops_when_queue_is_closed() {
    let queue = TaskQueue::new();
    queue.close();
    let worker = Worker::new(1, 3, 2, usize::MAX);
    assert!(worker.fetch(&queue).is_none());
    assert_eq!(worker.completed(), 0);
    assert!(!worker.is_done());
}

#[test]
fn worker_that_does_not_own_the_zone_is_told_so() {
    let zones = ZoneAccess::new();
    let monitor = HealthMonitor::new();
    zones.acquire(2, 8);
    let mut worker = Worker::new(1, 2, 2, usize::MAX);
    assert_eq!(worker.leave_zone(&zones, &monitor, 2), ReleaseOutcome::NotOwner { owner: 8 });
    assert_eq!(worker.leave_zone(&zones, &monitor, 1), ReleaseOutcome::Unoccupied);
    assert!(zones.occupied_zones().contains(&2));
    assert!(worker.is_done());
}

#[test]
fn worker_without_tasks_is_done_at_once() {
    let worker = Worker::new(1, 0, 2, usize::MAX);
    assert!(worker.is_done());
}

#[test]
fn worker_that_stops_heartbeats_is_reported_offline() {
    let queue = TaskQueue::new();
    let zones = ZoneAccess::new();
    let monitor = HealthMonitor::new();
    for id in 0..3u64 {
        assert!(queue.push(Task::new(id, "deliver")).is_ok());
    }
    // The robot reports a heartbeat after its first task only.
    let mut worker = Worker::new(1, 3, 2, 1);
    let stale = Instant::now() - Duration::from_secs(5);
    for round in 0..3usize {
        monitor.set_last_seen_for_test(1, stale);
        assert!(monitor.detect_offline(Duration::from_secs(1)).contains(&1));
        let assignment = worker.fetch(&queue).expect("a task is queued");
        assert_eq!(assignment.task.id, round as u64);
        assert_eq!(assignment.zone, assignment.task.id % 2 + 1);
        let _waited = worker.enter_zone(&zones, assignment.zone);
        assert!(zones.occupied_zones().contains(&assignment.zone));
        assert_eq!(worker.leave_zone(&zones, &monitor, assignment.zone), ReleaseOutcome::Released);
        assert!(zones.occupied_zones().is_empty());
        assert_eq!(worker.completed(), round + 1);
        // Only the heartbeat after the first task clears the mark.
        assert_eq!(monitor.offline_robots().contains(&1), round >= 1);
    }
    assert!(worker.is_done());
}

#[test]
fn four_workers_share_twelve_tasks_over_two_zones() {
    let queue = TaskQueue::new();
    let zones = ZoneAccess::new();
    let monitor = HealthMonitor::new();
    let mut metrics = ZoneMetrics::new(2);
    for id in 0..12u64 {
        assert!(queue.push(Task::new(id, &format!("deliver-{id}"))).is_ok());
    }
    let mut workers: Vec<Worker> = (0..4u64).map(|robot| Worker::new(robot, 3, 2, usize::MAX)).collect();
    for robot in 0..4u64 {
        monitor.register_robot(robot);
    }
    let mut seen: HashSet<u64> = HashSet::new();
    let mut duplicate_tasks = false;
    let mut max_zone_occupancy = 0;
    // Two robots at a time: consecutive task ids fall into different zones,
    // so both are inside at once, each alone in its zone.
    for round in 0..3 {
        for pair in 0..2usize {
            let first = pair * 2;
            let second = pair * 2 + 1;
            let a = workers[first].fetch(&queue).expect("a task is queued");
            let b = workers[second].fetch(&queue).expect("a task is queued");
            for id in [a.task.id, b.task.id] {
                if !seen.insert(id) {
                    duplicate_tasks = true;
                }
            }
            assert_ne!(a.zone, b.zone);
            workers[first].enter_zone(&zones, a.zone);
            metrics.enter(a.zone);
            workers[second].enter_zone(&zones, b.zone);
            metrics.enter(b.zone);
            assert_eq!(zones.occupied_zones().len(), 2);
            for zone in [a.zone, b.zone] {
                max_zone_occupancy = max_zone_occupancy.max(metrics.zone_occupancy(zone));
            }
            // Nobody else can leave a zone on behalf of its owner.
            assert!(!zones.release(a.zone, second as u64));
            metrics.pre_release(a.zone);
            assert!(workers[first].leave_zone(&zones, &monitor, a.zone).is_released());
            metrics.pre_release(b.zone);
            assert!(workers[second].leave_zone(&zones, &monitor, b.zone).is_released());
        }
        assert!(workers.iter().all(|worker| worker.completed() == round + 1));
    }
    assert!(workers.iter().all(|worker| worker.is_done()));
    let expected: HashSet<u64> = (0..12u64).collect();
    assert_eq!(seen, expected);
    assert!(!duplicate_tasks);
    assert_eq!(max_zone_occupancy, 1);
    assert_eq!(metrics.max_occupancy(), 2);
    assert!(!metrics.has_violation());
    assert_eq!(queue.len(), 0);
    assert!(queue.try_pop().is_none());
    assert!(zones.occupied_zones().is_empty());
    assert!(monitor.offline_robots().is_empty());
}
