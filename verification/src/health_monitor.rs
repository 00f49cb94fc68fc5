//! Heartbeat tracking and offline detection for robots.

use crate::clock::duration_between;
use crate::clock::duration_nanos;
use crate::clock::instant_now;
use crate::sync::guard_mut;
use crate::sync::mutex_lock;
use crate::sync::mutex_new;
use crate::types::RobotId;
use std::collections::HashMap;
use std::collections::HashSet;
use std::sync::Mutex;
use std::time::Duration;
use std::time::Instant;
use vstd::prelude::*;
use vstd::std_specs::iter::IteratorSpec;

verus! {

broadcast use vstd::std_specs::hash::group_hash_axioms;

/// A reading of the monitor's monotonic clock, in nanoseconds. Readings
/// taken before the clock's origin are negative.
pub type Tick = i64;

/// A span of time in nanoseconds.
pub type Nanos = u64;

/// Time that has passed at `now` since `last`; zero if `last` is not in the
/// past.
pub open spec fn elapsed(now: Tick, last: Tick) -> int {
    if now >= last {
        now - last
    } else {
        0
    }
}

/// Mathematical model of the monitor: when each tracked robot was last seen,
/// and which robots are marked offline.
pub struct HealthModel {
    pub last_seen: Map<RobotId, Tick>,
    pub offline: Set<RobotId>,
}

impl HealthModel {
    /// Nobody tracked, nobody offline.
    pub open spec fn empty() -> HealthModel {
        HealthModel { last_seen: Map::empty(), offline: Set::empty() }
    }

    /// Whether `robot` is tracked and was last seen more than `timeout`
    /// before `now`.
    pub open spec fn is_overdue(self, robot: RobotId, now: Tick, timeout: Nanos) -> bool {
        self.last_seen.contains_key(robot) && elapsed(now, self.last_seen[robot]) > timeout
    }

    /// The robots that are overdue at `now`.
    pub open spec fn overdue(self, now: Tick, timeout: Nanos) -> Set<RobotId> {
        Set::new(|robot: RobotId| self.is_overdue(robot, now, timeout))
    }

    /// After `register`: an untracked robot is tracked from `now` on; a
    /// tracked one keeps its entry.
    pub open spec fn register(self, robot: RobotId, now: Tick) -> HealthModel {
        if self.last_seen.contains_key(robot) {
            self
        } else {
            HealthModel { last_seen: self.last_seen.insert(robot, now), offline: self.offline }
        }
    }

    /// After `heartbeat`: the robot was seen at `now` and is not offline.
    pub open spec fn heartbeat(self, robot: RobotId, now: Tick) -> HealthModel {
        HealthModel {
            last_seen: self.last_seen.insert(robot, now),
            offline: self.offline.remove(robot),
        }
    }

    /// After an evaluation at `now`: every overdue robot is marked offline;
    /// no mark is removed.
    pub open spec fn evaluate(self, now: Tick, timeout: Nanos) -> HealthModel {
        HealthModel {
            last_seen: self.last_seen,
            offline: self.offline.union(self.overdue(now, timeout)),
        }
    }

    /// After overwriting the last-seen reading of `robot`; offline marks are
    /// untouched.
    pub open spec fn set_last_seen(self, robot: RobotId, at: Tick) -> HealthModel {
        HealthModel { last_seen: self.last_seen.insert(robot, at), offline: self.offline }
    }
}

/// Staleness decides: a tracked robot that is not marked offline is marked
/// by an evaluation if and only if it was last seen more than `timeout`
/// ago. A robot that is already marked stays marked whatever its age.
pub proof fn evaluation_marks_exactly_the_stale(
    state: HealthModel,
    robot: RobotId,
    now: Tick,
    timeout: Nanos,
)
    requires
        state.last_seen.contains_key(robot),
    ensures
        !state.offline.contains(robot) ==> (state.evaluate(now, timeout).offline.contains(robot)
            <==> elapsed(now, state.last_seen[robot]) > timeout),
        state.offline.contains(robot) ==> state.evaluate(now, timeout).offline.contains(robot),
{
}

/// A heartbeat clears the offline mark at once and whatever the reading,
/// and an evaluation made before more than `timeout` has passed since the
/// heartbeat does not set it again.
pub proof fn heartbeat_clears_offline_mark(
    state: HealthModel,
    robot: RobotId,
    seen: Tick,
    now: Tick,
    timeout: Nanos,
)
    ensures
        !state.heartbeat(robot, seen).offline.contains(robot),
        !state.heartbeat(robot, seen).evaluate(seen, timeout).offline.contains(robot),
        elapsed(now, seen) <= timeout ==> !state.heartbeat(robot, seen).evaluate(
            now,
            timeout,
        ).offline.contains(robot),
{
}

/// An offline mark comes from an evaluation only: a robot marked after an
/// evaluation was marked before it or was overdue at it, and no other
/// operation adds a mark.
pub proof fn offline_marks_come_from_evaluations(
    state: HealthModel,
    robot: RobotId,
    other: RobotId,
    now: Tick,
    timeout: Nanos,
)
    ensures
        state.evaluate(now, timeout).offline.contains(robot) ==> state.offline.contains(robot)
            || state.is_overdue(robot, now, timeout),
        state.register(other, now).offline == state.offline,
        state.set_last_seen(other, now).offline == state.offline,
        state.heartbeat(other, now).offline.subset_of(state.offline),
{
}

/// Tracking is permanent: no operation removes a last-seen entry, and
/// registering a tracked robot changes nothing.
pub proof fn tracked_robots_stay_tracked(
    state: HealthModel,
    robot: RobotId,
    other: RobotId,
    now: Tick,
    timeout: Nanos,
)
    requires
        state.last_seen.contains_key(robot),
    ensures
        state.register(other, now).last_seen.contains_key(robot),
        state.heartbeat(other, now).last_seen.contains_key(robot),
        state.evaluate(now, timeout).last_seen.contains_key(robot),
        state.set_last_seen(other, now).last_seen.contains_key(robot),
        state.register(robot, now) == state,
{
}

/// One operation on the monitor's state, as some thread performs it while
/// it holds the monitor's lock.
pub enum HealthOp {
    /// A registration of `robot` at tick `now`.
    Register { robot: RobotId, now: Tick },
    /// A heartbeat of `robot` at tick `now`.
    Heartbeat { robot: RobotId, now: Tick },
    /// An evaluation at tick `now` against `timeout`.
    Evaluate { now: Tick, timeout: Nanos },
}

impl HealthModel {
    /// The state after `op`.
    pub open spec fn apply(self, op: HealthOp) -> HealthModel {
        match op {
            HealthOp::Register { robot, now } => self.register(robot, now),
            HealthOp::Heartbeat { robot, now } => self.heartbeat(robot, now),
            HealthOp::Evaluate { now, timeout } => self.evaluate(now, timeout),
        }
    }

    /// The state after the operations `ops`, performed in this order.
    pub open spec fn run(self, ops: Seq<HealthOp>) -> HealthModel
        decreases ops.len(),
    {
        if ops.len() == 0 {
            self
        } else {
            self.apply(ops[0]).run(ops.drop_first())
        }
    }

    /// Every robot marked offline is tracked.
    pub open spec fn marks_only_known_robots(self) -> bool {
        self.offline.subset_of(self.last_seen.dom())
    }
}

/// Whatever registrations, heartbeats and evaluations happen in whatever
/// order, every robot that was tracked stays tracked, and only tracked
/// robots are ever marked offline.
pub proof fn only_known_robots_go_offline(start: HealthModel, ops: Seq<HealthOp>)
    requires
        start.marks_only_known_robots(),
    ensures
        start.run(ops).marks_only_known_robots(),
        start.last_seen.dom().subset_of(start.run(ops).last_seen.dom()),
        HealthModel::empty().marks_only_known_robots(),
    decreases ops.len(),
{
    if ops.len() > 0 {
        only_known_robots_go_offline(start.apply(ops[0]), ops.drop_first());
    }
}

/// Whether more than `timeout` has passed at `now` since `last`.
pub fn is_stale(now: Tick, last: Tick, timeout: Nanos) -> (stale: bool)
    ensures
        stale == (elapsed(now, last) > timeout),
{
    if now >= last {
        let passed: i128 = now as i128 - last as i128;
        passed > timeout as i128
    } else {
        false
    }
}

/// A copy of `set`.
fn snapshot(set: &HashSet<RobotId>) -> (copy: HashSet<RobotId>)
    ensures
        copy@ == set@,
{
    let mut copy: HashSet<RobotId> = HashSet::new();
    for robot in it: set.iter()
        invariant
            it.seq().unref().to_set() == set@,
            it.seq().unref().take(it.seq().len() as int) == it.seq().unref(),
            copy@ == it.seq().unref().take(it.index() as int).to_set(),
    {
        proof {
            let all = it.seq().unref();
            let done = it.index() as int;
            all.take(done).lemma_push_to_set_commute(all[done]);
        }
        copy.insert(*robot);
    }
    copy
}

/// The state a `HealthMonitor` guards.
pub struct HealthState {
    last_seen: HashMap<RobotId, Tick>,
    offline: HashSet<RobotId>,
}

impl View for HealthState {
    type V = HealthModel;

    closed spec fn view(&self) -> HealthModel {
        HealthModel { last_seen: self.last_seen@, offline: self.offline@ }
    }
}

impl HealthState {
    /// Nobody tracked, nobody offline.
    pub fn new() -> (state: HealthState)
        ensures
            state@ == HealthModel::empty(),
    {
        HealthState { last_seen: HashMap::new(), offline: HashSet::new() }
    }

    /// Starts tracking `robot` with `now` as its last-seen reading, unless it
    /// is tracked already.
    pub fn register_robot(&mut self, robot: RobotId, now: Tick)
        ensures
            final(self)@ == old(self)@.register(robot, now),
    {
        if !self.last_seen.contains_key(&robot) {
            self.last_seen.insert(robot, now);
        }
    }

    /// Records that `robot` was seen at `now` and clears its offline mark,
    /// whatever `now` is.
    pub fn heartbeat(&mut self, robot: RobotId, now: Tick)
        ensures
            final(self)@ == old(self)@.heartbeat(robot, now),
    {
        self.last_seen.insert(robot, now);
        self.offline.remove(&robot);
    }

    /// Overwrites the last-seen reading of `robot`.
    pub fn set_last_seen(&mut self, robot: RobotId, at: Tick)
        ensures
            final(self)@ == old(self)@.set_last_seen(robot, at),
    {
        self.last_seen.insert(robot, at);
    }

    /// Marks every robot that is overdue at `now` as offline.
    fn mark_overdue(&mut self, now: Tick, timeout: Nanos)
        ensures
            final(self)@ == old(self)@.evaluate(now, timeout),
    {
        // The overdue robots are collected first, so the offline set is not
        // changed while the last-seen map is walked.
        let overdue = self.overdue_robots(now, timeout);
        let mut i: usize = 0;
        while i < overdue.len()
            invariant
                i <= overdue.len(),
                self.last_seen == old(self).last_seen,
                self.offline@ == old(self).offline@.union(overdue@.take(i as int).to_set()),
            decreases overdue.len() - i,
        {
            proof {
                let done = i as int;
                assert(overdue@.take(done + 1) == overdue@.take(done).push(overdue@[done]));
                overdue@.take(done).lemma_push_to_set_commute(overdue@[done]);
            }
            self.offline.insert(overdue[i]);
            i += 1;
        }
        assert(overdue@.take(overdue@.len() as int) == overdue@);
    }

    /// Marks every overdue robot as offline and returns all robots that are
    /// marked offline now. Marks set by earlier evaluations stay until a
    /// heartbeat clears them.
    pub fn detect_offline(&mut self, now: Tick, timeout: Nanos) -> (offline: HashSet<RobotId>)
        ensures
            final(self)@ == old(self)@.evaluate(now, timeout),
            offline@ == final(self)@.offline,
    {
        self.mark_overdue(now, timeout);
        snapshot(&self.offline)
    }

    /// Marks every overdue robot as offline and tells whether any robot is
    /// marked offline now.
    pub fn detect_offline_any(&mut self, now: Tick, timeout: Nanos) -> (any: bool)
        ensures
            final(self)@ == old(self)@.evaluate(now, timeout),
            any == !final(self)@.offline.is_empty(),
    {
        self.mark_overdue(now, timeout);
        !self.offline.is_empty()
    }

    /// The robots marked offline, without a new evaluation.
    pub fn offline_robots(&self) -> (offline: HashSet<RobotId>)
        ensures
            offline@ == self@.offline,
    {
        snapshot(&self.offline)
    }

    /// The tracked robots that are overdue at `now`, each listed once.
    pub fn overdue_robots(&self, now: Tick, timeout: Nanos) -> (overdue: Vec<RobotId>)
        ensures
            overdue@.to_set() == self@.overdue(now, timeout),
            overdue@.no_duplicates(),
    {
        let mut overdue: Vec<RobotId> = Vec::new();
        proof {
            let entries = self.last_seen.iter().remaining();
            assert forall|robot: RobotId| #[trigger]
                self.last_seen@.contains_key(robot) implies listed_before(
                entries,
                entries.len() as int,
                robot,
            ) by {
                let entry = (&robot, &self.last_seen@[robot]);
                assert(entries.contains(entry));
                let i = choose|i: int| 0 <= i < entries.len() && entries[i] == entry;
                assert(key_at(entries, i) == robot);
            }
        }
        for entry in it: self.last_seen.iter()
            invariant
                it.seq().no_duplicates(),
                forall|i: int|
                    0 <= i < it.seq().len() ==> self.last_seen@.contains_key(
                        #[trigger] key_at(it.seq(), i),
                    ) && self.last_seen@[key_at(it.seq(), i)] == *it.seq()[i].1,
                forall|robot: RobotId| #[trigger]
                    self.last_seen@.contains_key(robot) ==> listed_before(
                        it.seq(),
                        it.seq().len() as int,
                        robot,
                    ),
                forall|robot: RobotId| #[trigger]
                    overdue@.contains(robot) <==> self@.is_overdue(robot, now, timeout)
                        && listed_before(it.seq(), it.index() as int, robot),
                overdue@.no_duplicates(),
        {
            let (robot, last) = entry;
            let ghost entries = it.seq();
            let ghost at = it.index() as int;
            let ghost before = overdue@;
            assert(key_at(entries, at) == *robot);
            assert(!listed_before(entries, at, *robot)) by {
                if listed_before(entries, at, *robot) {
                    let i = choose|i: int| 0 <= i < at && key_at(entries, i) == *robot;
                    assert(self.last_seen@[key_at(entries, i)] == *entries[i].1);
                    assert(self.last_seen@[key_at(entries, at)] == *entries[at].1);
                    assert(entries[i] == entries[at]);
                }
            }
            if is_stale(now, *last, timeout) {
                overdue.push(*robot);
                assert(!before.contains(*robot));
                assert forall|i: int, j: int| 0 <= i < j < overdue@.len() implies overdue@[i]
                    != overdue@[j] by {
                    assert(before.contains(before[i]));
                }
            }
            assert forall|other: RobotId| #[trigger]
                overdue@.contains(other) <==> self@.is_overdue(other, now, timeout)
                    && listed_before(entries, at + 1, other) by {
                if listed_before(entries, at + 1, other) {
                    let i = choose|i: int| 0 <= i < at + 1 && key_at(entries, i) == other;
                    if i < at {
                        assert(listed_before(entries, at, other));
                    }
                }
                if listed_before(entries, at, other) {
                    let i = choose|i: int| 0 <= i < at && key_at(entries, i) == other;
                    assert(0 <= i < at + 1 && key_at(entries, i) == other);
                }
                if other == *robot {
                    assert(0 <= at < at + 1 && key_at(entries, at) == other);
                }
                if overdue@.len() > before.len() {
                    assert(overdue@ == before.push(*robot));
                    assert(overdue@.last() == *robot);
                    if before.contains(other) {
                        let j = choose|j: int| 0 <= j < before.len() && before[j] == other;
                        assert(overdue@[j] == other);
                    }
                    if overdue@.contains(other) {
                        let j = choose|j: int| 0 <= j < overdue@.len() && overdue@[j] == other;
                        if j < before.len() {
                            assert(before[j] == other);
                        }
                    }
                }
            }
        }
        proof {
            assert forall|robot: RobotId|
                overdue@.to_set().contains(robot) <==> self@.overdue(now, timeout).contains(
                    robot,
                ) by {
                if self@.is_overdue(robot, now, timeout) {
                    assert(self.last_seen@.contains_key(robot));
                }
            }
        }
        overdue
    }
}

/// The robot of entry `i` of a walk through the last-seen map.
spec fn key_at(entries: Seq<(&RobotId, &Tick)>, i: int) -> RobotId {
    *entries[i].0
}

/// Whether `robot` is among the first `bound` entries of a walk through the
/// last-seen map.
spec fn listed_before(entries: Seq<(&RobotId, &Tick)>, bound: int, robot: RobotId) -> bool {
    exists|i: int| 0 <= i < bound && key_at(entries, i) == robot
}

/// The reading that lies `ahead` nanoseconds after the clock's origin or
/// `behind` nanoseconds before it; at most one of the two is non-zero for a
/// real instant. Offsets beyond the range of a `Tick` are clamped to it.
pub open spec fn tick_at(ahead: u128, behind: u128) -> int {
    if ahead > 0 {
        if ahead > i64::MAX {
            i64::MAX as int
        } else {
            ahead as int
        }
    } else if behind > i64::MAX {
        -(i64::MAX as int)
    } else {
        -(behind as int)
    }
}

/// Computes `tick_at`.
pub fn tick_from_offsets(ahead: u128, behind: u128) -> (tick: Tick)
    ensures
        tick == tick_at(ahead, behind),
{
    if ahead > 0 {
        if ahead > i64::MAX as u128 {
            i64::MAX
        } else {
            ahead as i64
        }
    } else if behind > i64::MAX as u128 {
        -i64::MAX
    } else {
        -(behind as i64)
    }
}

/// A span of `nanos` nanoseconds as `Nanos`, clamped to its range.
pub fn clamp_nanos(nanos: u128) -> (clamped: Nanos)
    ensures
        clamped == (if nanos > u64::MAX {
            u64::MAX as int
        } else {
            nanos as int
        }),
{
    if nanos > u64::MAX as u128 {
        u64::MAX
    } else {
        nanos as u64
    }
}

/// Liveness tracking shared between threads.
///
/// Clock readings are taken under the lock and turned into ticks relative
/// to the instant at which the monitor was created. Every method takes the
/// lock, performs exactly one operation of `HealthState` with the current
/// tick and releases the lock. What a call finds depends on the clock and
/// on the other threads, so nothing is promised here beyond the contract of
/// the state operation performed.
pub struct HealthMonitor {
    state: Mutex<HealthState>,
    origin: Instant,
}

impl HealthMonitor {
    /// A monitor that tracks nobody; its clock starts now.
    pub fn new() -> (monitor: HealthMonitor) {
        HealthMonitor { state: mutex_new(HealthState::new()), origin: instant_now() }
    }

    /// The tick of `at` on this monitor's clock: `tick_at` of the time from
    /// the monitor's creation to `at` and of the time from `at` to the
    /// monitor's creation, as the clock measures them.
    fn tick_of(&self, at: &Instant) -> (tick: Tick)
        ensures
            exists|ahead: u128, behind: u128| tick == #[trigger] tick_at(ahead, behind),
    {
        let ahead = duration_nanos(&duration_between(at, &self.origin));
        let behind = duration_nanos(&duration_between(&self.origin, at));
        tick_from_offsets(ahead, behind)
    }

    /// Performs `HealthState::register_robot` with the current tick.
    pub fn register_robot(&self, robot: RobotId) {
        let mut guard = mutex_lock(&self.state);
        let now = self.tick_of(&instant_now());
        let state = guard_mut(&mut guard);
        state.register_robot(robot, now);
    }

    /// Performs `HealthState::heartbeat` with the current tick.
    pub fn heartbeat(&self, robot: RobotId) {
        let mut guard = mutex_lock(&self.state);
        let now = self.tick_of(&instant_now());
        let state = guard_mut(&mut guard);
        state.heartbeat(robot, now);
    }

    /// Performs `HealthState::detect_offline` with the current tick and
    /// `timeout` in nanoseconds.
    pub fn detect_offline(&self, timeout: Duration) -> (offline: HashSet<RobotId>) {
        let limit = clamp_nanos(duration_nanos(&timeout));
        let mut guard = mutex_lock(&self.state);
        let now = self.tick_of(&instant_now());
        let state = guard_mut(&mut guard);
        state.detect_offline(now, limit)
    }

    /// Performs `HealthState::detect_offline_any` with the current tick and
    /// `timeout` in nanoseconds.
    pub fn detect_offline_any(&self, timeout: Duration) -> (any: bool) {
        let limit = clamp_nanos(duration_nanos(&timeout));
        let mut guard = mutex_lock(&self.state);
        let now = self.tick_of(&instant_now());
        let state = guard_mut(&mut guard);
        state.detect_offline_any(now, limit)
    }

    /// Performs `HealthState::offline_robots`.
    pub fn offline_robots(&self) -> (offline: HashSet<RobotId>) {
        let mut guard = mutex_lock(&self.state);
        let state = guard_mut(&mut guard);
        state.offline_robots()
    }

    /// Performs `HealthState::set_last_seen` with the tick of `instant`,
    /// which may lie before the monitor's creation. Meant for deterministic
    /// checks that cannot afford to sleep.
    pub fn set_last_seen_for_test(&self, robot: RobotId, instant: Instant) {
        let at = self.tick_of(&instant);
        let mut guard = mutex_lock(&self.state);
        let state = guard_mut(&mut guard);
        state.set_last_seen(robot, at);
    }
}

} // verus!
