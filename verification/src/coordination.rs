//! How one robot composes the three primitives: fetch a task, take its
//! zone, do the work, leave the zone, report liveness.
//!
//! The work itself belongs to the caller. A robot's loop is
//! `fetch`, `enter_zone`, the work, `leave_zone`, until `fetch` returns
//! `None` or the robot `is_done`.

use crate::clock::duration_between;
use crate::clock::duration_nanos;
use crate::clock::instant_now;
use crate::health_monitor::clamp_nanos;
use crate::health_monitor::HealthMonitor;
use crate::health_monitor::Nanos;
use crate::task_queue::TaskQueue;
use crate::types::RobotId;
use crate::types::Task;
use crate::types::TaskId;
use crate::types::ZoneId;
use crate::zones::ReleaseOutcome;
use crate::zones::ZoneAccess;
use vstd::prelude::*;

verus! {

/// The zone in which task `id` is carried out when there are `zones_total`
/// zones, numbered from 1.
pub open spec fn zone_for(id: TaskId, zones_total: u64) -> int {
    id % zones_total + 1
}

/// Computes `zone_for`.
pub fn zone_for_task(id: TaskId, zones_total: u64) -> (zone: ZoneId)
    requires
        zones_total > 0,
    ensures
        zone == zone_for(id, zones_total),
        1 <= zone <= zones_total,
{
    id % zones_total + 1
}

/// Whether a robot that has completed `completed` tasks still reports
/// heartbeats, given that it reports them for its first `limit` tasks.
pub fn heartbeat_due(completed: usize, limit: usize) -> (due: bool)
    ensures
        due == (completed <= limit),
{
    completed <= limit
}

/// Number of tasks after which a robot of a benchmark run stops reporting
/// heartbeats. Only robot 0 ever stops, halfway through its share, and only
/// when an outage is simulated among more than one robot.
pub fn bench_heartbeat_limit(
    simulate_offline: bool,
    robots: usize,
    robot: RobotId,
    tasks_per_robot: usize,
) -> (limit: usize)
    ensures
        limit == (if simulate_offline && robots > 1 && robot == 0 {
            tasks_per_robot as int / 2
        } else {
            usize::MAX as int
        }),
{
    if simulate_offline && robots > 1 && robot == 0 {
        tasks_per_robot / 2
    } else {
        usize::MAX
    }
}

/// Whether waiting for an offline report is over: a robot is offline, or
/// the wait has lasted `max_wait` or longer.
pub fn offline_wait_is_over(any_offline: bool, waited: Nanos, max_wait: Nanos) -> (over: bool)
    ensures
        over == (any_offline || waited >= max_wait),
{
    any_offline || waited >= max_wait
}

/// A task together with the zone in which it is to be carried out.
pub struct Assignment {
    pub task: Task,
    pub zone: ZoneId,
}

/// Mathematical model of a robot's progress.
pub struct WorkerModel {
    pub robot: RobotId,
    pub tasks: nat,
    pub zones_total: u64,
    pub heartbeat_limit: nat,
    pub completed: nat,
}

/// One robot: its share of the work and how far it has come.
pub struct Worker {
    robot: RobotId,
    tasks: usize,
    zones_total: u64,
    heartbeat_limit: usize,
    completed: usize,
}

impl View for Worker {
    type V = WorkerModel;

    closed spec fn view(&self) -> WorkerModel {
        WorkerModel {
            robot: self.robot,
            tasks: self.tasks as nat,
            zones_total: self.zones_total,
            heartbeat_limit: self.heartbeat_limit as nat,
            completed: self.completed as nat,
        }
    }
}

impl Worker {
    #[verifier::type_invariant]
    spec fn well_formed(self) -> bool {
        self.zones_total > 0 && self.completed <= self.tasks
    }

    /// A robot that is to complete `tasks` tasks among `zones_total` zones
    /// and reports a heartbeat after each of its first `heartbeat_limit`
    /// tasks.
    pub fn new(robot: RobotId, tasks: usize, zones_total: u64, heartbeat_limit: usize) -> (worker:
        Worker)
        requires
            zones_total > 0,
        ensures
            worker@ == (WorkerModel {
                robot,
                tasks: tasks as nat,
                zones_total,
                heartbeat_limit: heartbeat_limit as nat,
                completed: 0,
            }),
    {
        Worker { robot, tasks, zones_total, heartbeat_limit, completed: 0 }
    }

    /// Number of tasks completed so far.
    pub fn completed(&self) -> (completed: usize)
        ensures
            completed == self@.completed,
            self@.completed <= self@.tasks,
            self@.zones_total > 0,
    {
        proof {
            use_type_invariant(self);
        }
        self.completed
    }

    /// Whether the robot has completed its share.
    pub fn is_done(&self) -> (done: bool)
        ensures
            done == (self@.completed >= self@.tasks),
    {
        self.completed >= self.tasks
    }

    /// What the robot does with what the queue handed out: a task is
    /// assigned its zone; nothing means that the robot stops.
    pub fn assign(&self, popped: Option<Task>) -> (next: Option<Assignment>)
        ensures
            popped is None ==> next is None,
            popped matches Some(task) ==> {
                &&& next matches Some(assignment)
                &&& assignment.task == task
                &&& assignment.zone == zone_for(task.id, self@.zones_total)
                &&& 1 <= assignment.zone <= self@.zones_total
            },
    {
        proof {
            use_type_invariant(self);
        }
        match popped {
            Some(task) => {
                let zone = zone_for_task(task.id, self.zones_total);
                Some(Assignment { task, zone })
            },
            None => None,
        }
    }

    /// Blocks for the next task and assigns it its zone, as `assign` says.
    /// `None` means that the queue is closed and drained: the robot stops.
    pub fn fetch(&self, queue: &TaskQueue) -> (next: Option<Assignment>)
        ensures
            next matches Some(assignment) ==> assignment.zone == zone_for(
                assignment.task.id,
                self@.zones_total,
            ) && 1 <= assignment.zone <= self@.zones_total,
    {
        self.assign(queue.pop_blocking_or_closed())
    }

    /// Blocks until the robot owns `zone` and returns how long it waited.
    pub fn enter_zone(&self, zones: &ZoneAccess, zone: ZoneId) -> (waited: Nanos) {
        let start = instant_now();
        zones.acquire(zone, self.robot);
        clamp_nanos(duration_nanos(&duration_between(&instant_now(), &start)))
    }

    /// Tries to release `zone`, counts the task as completed and reports a
    /// heartbeat if one is due. Returns what the release found.
    pub fn leave_zone(&mut self, zones: &ZoneAccess, monitor: &HealthMonitor, zone: ZoneId) -> (outcome:
        ReleaseOutcome)
        requires
            old(self)@.completed < old(self)@.tasks,
        ensures
            final(self)@ == (WorkerModel {
                completed: old(self)@.completed + 1,
                ..old(self)@
            }),
            outcome matches ReleaseOutcome::NotOwner { owner } ==> owner != old(self)@.robot,
    {
        proof {
            use_type_invariant(&*self);
        }
        let outcome = zones.try_release(zone, self.robot);
        self.completed = self.completed + 1;
        if heartbeat_due(self.completed, self.heartbeat_limit) {
            monitor.heartbeat(self.robot);
        }
        outcome
    }
}

} // verus!
