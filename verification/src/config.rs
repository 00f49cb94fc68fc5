//! Run parameters: defaults, and the rules a run's parameters must meet.

use vstd::prelude::*;

verus! {

/// Robots of a benchmark run unless stated otherwise.
pub const DEFAULT_ROBOTS: usize = 4;

/// Tasks per robot of a benchmark run unless stated otherwise.
pub const DEFAULT_TASKS_PER_ROBOT: usize = 25;

/// Zones of a benchmark run unless stated otherwise.
pub const DEFAULT_ZONES: u64 = 2;

/// Milliseconds of simulated work per task unless stated otherwise.
pub const DEFAULT_WORK_MS: u64 = 5;

/// Liveness timeout of the demo, in milliseconds.
pub const DEMO_OFFLINE_TIMEOUT_MS: u64 = 200;

/// Longest wait for an offline report at the end of the demo, in
/// milliseconds.
pub const DEMO_OFFLINE_MAX_WAIT_MS: u64 = 600;

/// Liveness timeout of a benchmark run, in milliseconds.
pub const BENCH_OFFLINE_TIMEOUT_MS: u64 = 500;

/// Longest wait for an offline report at the end of a benchmark run, in
/// milliseconds.
pub const BENCH_OFFLINE_MAX_WAIT_MS: u64 = 1000;

/// Pause between two polls while waiting for an offline report, in
/// milliseconds.
pub const OFFLINE_POLL_MS: u64 = 50;

/// Why a set of run parameters is refused.
#[derive(Clone, Copy, Debug, PartialEq, Eq, Structural)]
pub enum ConfigError {
    /// A run without robots was asked for.
    NoRobots,
    /// A run without tasks was asked for.
    NoTasks,
    /// A run without zones was asked for.
    NoZones,
}

/// The parameters of one benchmark run.
#[derive(Clone, Copy, Debug, PartialEq, Eq, Structural)]
pub struct BenchConfig {
    pub robots: usize,
    pub tasks_per_robot: usize,
    pub zones_total: u64,
    pub work_ms: u64,
    pub validate: bool,
    pub simulate_offline: bool,
}

/// `value`, or `default` where none is given.
pub open spec fn or_default<T>(value: Option<T>, default: T) -> T {
    match value {
        Some(given) => given,
        None => default,
    }
}

/// The verdict on the parameters of a benchmark run: each missing one takes
/// its default; then the first of robots, tasks per robot and zones that is
/// zero decides the error.
pub open spec fn bench_verdict(
    robots: Option<usize>,
    tasks_per_robot: Option<usize>,
    zones_total: Option<u64>,
    work_ms: Option<u64>,
    validate: bool,
    simulate_offline: bool,
) -> Result<BenchConfig, ConfigError> {
    let config = BenchConfig {
        robots: or_default(robots, DEFAULT_ROBOTS),
        tasks_per_robot: or_default(tasks_per_robot, DEFAULT_TASKS_PER_ROBOT),
        zones_total: or_default(zones_total, DEFAULT_ZONES),
        work_ms: or_default(work_ms, DEFAULT_WORK_MS),
        validate,
        simulate_offline,
    };
    if config.robots == 0 {
        Err(ConfigError::NoRobots)
    } else if config.tasks_per_robot == 0 {
        Err(ConfigError::NoTasks)
    } else if config.zones_total == 0 {
        Err(ConfigError::NoZones)
    } else {
        Ok(config)
    }
}

/// Fills in defaults and checks the parameters of a benchmark run.
pub fn resolve_bench(
    robots: Option<usize>,
    tasks_per_robot: Option<usize>,
    zones_total: Option<u64>,
    work_ms: Option<u64>,
    validate: bool,
    simulate_offline: bool,
) -> (verdict: Result<BenchConfig, ConfigError>)
    ensures
        verdict == bench_verdict(
            robots,
            tasks_per_robot,
            zones_total,
            work_ms,
            validate,
            simulate_offline,
        ),
{
    let robots = match robots {
        Some(given) => given,
        None => DEFAULT_ROBOTS,
    };
    let tasks_per_robot = match tasks_per_robot {
        Some(given) => given,
        None => DEFAULT_TASKS_PER_ROBOT,
    };
    let zones_total = match zones_total {
        Some(given) => given,
        None => DEFAULT_ZONES,
    };
    let work_ms = match work_ms {
        Some(given) => given,
        None => DEFAULT_WORK_MS,
    };
    if robots == 0 {
        return Err(ConfigError::NoRobots);
    }
    if tasks_per_robot == 0 {
        return Err(ConfigError::NoTasks);
    }
    if zones_total == 0 {
        return Err(ConfigError::NoZones);
    }
    Ok(BenchConfig { robots, tasks_per_robot, zones_total, work_ms, validate, simulate_offline })
}

impl BenchConfig {
    /// Number of tasks of the whole run, unless it exceeds what a `usize`
    /// holds.
    pub fn total_tasks(&self) -> (total: Option<usize>)
        ensures
            total == (if self.robots * self.tasks_per_robot <= usize::MAX {
                Some((self.robots * self.tasks_per_robot) as usize)
            } else {
                None
            }),
    {
        self.robots.checked_mul(self.tasks_per_robot)
    }
}

/// The entries of `values` that are not zero, in order.
pub open spec fn positive(values: Seq<u64>) -> Seq<u64> {
    values.filter(|value: u64| value > 0)
}

/// Whether some entry of `values` is zero.
pub open spec fn has_zero(values: Seq<usize>) -> bool {
    exists|i: int| 0 <= i < values.len() && values[i] == 0
}

/// Whether some entry of `values` is zero.
pub fn contains_zero(values: &Vec<usize>) -> (found: bool)
    ensures
        found == has_zero(values@),
{
    let mut i: usize = 0;
    while i < values.len()
        invariant
            i <= values.len(),
            forall|j: int| 0 <= j < i ==> values@[j] != 0,
        decreases values.len() - i,
    {
        if values[i] == 0 {
            return true;
        }
        i += 1;
    }
    false
}

/// Drops every zero from `values`, keeping the order of the rest.
pub fn retain_positive(values: &Vec<u64>) -> (kept: Vec<u64>)
    ensures
        kept@ == positive(values@),
{
    let mut kept: Vec<u64> = Vec::new();
    let mut i: usize = 0;
    while i < values.len()
        invariant
            i <= values.len(),
            kept@ == positive(values@.take(i as int)),
        decreases values.len() - i,
    {
        proof {
            let done = values@.take(i as int);
            let next = values@.take(i as int + 1);
            assert(next.drop_last() == done);
            reveal(Seq::filter);
        }
        if values[i] > 0 {
            kept.push(values[i]);
        }
        i += 1;
    }
    assert(values@.take(values@.len() as int) == values@);
    kept
}

/// Robot counts of a stress sweep unless stated otherwise.
pub open spec fn default_robot_sets() -> Seq<usize> {
    seq![1, 2, 4, 8, 12]
}

/// Task counts per robot of a stress sweep unless stated otherwise.
pub open spec fn default_task_sets() -> Seq<usize> {
    seq![10, 25, 50]
}

/// Zone counts of a stress sweep unless stated otherwise.
pub open spec fn default_zone_sets() -> Seq<u64> {
    seq![1, 2, 4]
}

/// The set that was given, or `default` where none was.
pub open spec fn set_or_default<T>(given: Option<Vec<T>>, default: Seq<T>) -> Seq<T> {
    match given {
        Some(values) => values@,
        None => default,
    }
}

/// The parameters of a stress sweep: one benchmark run for every
/// combination of the three sets.
pub struct StressConfig {
    pub robot_sets: Vec<usize>,
    pub task_sets: Vec<usize>,
    pub zone_sets: Vec<u64>,
    pub work_ms: u64,
    pub validate: bool,
    pub simulate_offline: bool,
    /// How many zone counts were dropped because they were zero.
    pub dropped_zone_sets: usize,
}

/// Fills in defaults and checks the sets of a stress sweep. A zero among
/// the robot counts or the task counts refuses the sweep. Zeros among the
/// zone counts are dropped and counted; the sweep is refused only if no
/// zone count is left.
pub fn resolve_stress(
    robot_sets: Option<Vec<usize>>,
    task_sets: Option<Vec<usize>>,
    zone_sets: Option<Vec<u64>>,
    work_ms: Option<u64>,
    validate: bool,
    simulate_offline: bool,
) -> (verdict: Result<StressConfig, ConfigError>)
    ensures
        ({
            let robots = set_or_default(robot_sets, default_robot_sets());
            let tasks = set_or_default(task_sets, default_task_sets());
            let zones = set_or_default(zone_sets, default_zone_sets());
            if has_zero(robots) {
                verdict == Err::<StressConfig, ConfigError>(ConfigError::NoRobots)
            } else if has_zero(tasks) {
                verdict == Err::<StressConfig, ConfigError>(ConfigError::NoTasks)
            } else if positive(zones).len() == 0 {
                verdict == Err::<StressConfig, ConfigError>(ConfigError::NoZones)
            } else {
                &&& verdict matches Ok(config)
                &&& config.robot_sets@ == robots
                &&& config.task_sets@ == tasks
                &&& config.zone_sets@ == positive(zones)
                &&& config.work_ms == or_default(work_ms, DEFAULT_WORK_MS)
                &&& config.validate == validate
                &&& config.simulate_offline == simulate_offline
                &&& config.dropped_zone_sets == zones.len() - positive(zones).len()
            }
        }),
{
    let robot_sets = match robot_sets {
        Some(given) => given,
        None => {
            let sets: Vec<usize> = vec![1, 2, 4, 8, 12];
            sets
        },
    };
    let task_sets = match task_sets {
        Some(given) => given,
        None => {
            let sets: Vec<usize> = vec![10, 25, 50];
            sets
        },
    };
    let zone_sets = match zone_sets {
        Some(given) => given,
        None => {
            let sets: Vec<u64> = vec![1, 2, 4];
            sets
        },
    };
    let work_ms = match work_ms {
        Some(given) => given,
        None => DEFAULT_WORK_MS,
    };
    if contains_zero(&robot_sets) {
        return Err(ConfigError::NoRobots);
    }
    if contains_zero(&task_sets) {
        return Err(ConfigError::NoTasks);
    }
    let kept = retain_positive(&zone_sets);
    proof {
        zone_sets@.lemma_filter_len(|value: u64| value > 0);
    }
    if kept.len() == 0 {
        return Err(ConfigError::NoZones);
    }
    let dropped_zone_sets = zone_sets.len() - kept.len();
    Ok(
        StressConfig {
            robot_sets,
            task_sets,
            zone_sets: kept,
            work_ms,
            validate,
            simulate_offline,
            dropped_zone_sets,
        },
    )
}

} // verus!
