//! Zone access control: at most one robot owns a zone at any time.

use crate::sync::condvar_new;
use crate::sync::guard_mut;
use crate::sync::mutex_lock;
use crate::sync::mutex_new;
use crate::sync::notify_all;
use crate::types::RobotId;
use crate::types::ZoneId;
use std::collections::HashMap;
use std::collections::HashSet;
use std::sync::Condvar;
use std::sync::Mutex;
use std::sync::MutexGuard;
use vstd::prelude::*;

verus! {

broadcast use vstd::std_specs::hash::group_hash_axioms;

/// What an attempt to release a zone found.
#[derive(Clone, Copy, Debug, PartialEq, Eq, Structural)]
pub enum ReleaseOutcome {
    /// The caller owned the zone; it is free now.
    Released,
    /// The zone belongs to another robot; nothing changed.
    NotOwner { owner: RobotId },
    /// Nobody owned the zone; nothing changed.
    Unoccupied,
}

impl ReleaseOutcome {
    /// Whether the release took effect.
    pub fn is_released(&self) -> (released: bool)
        ensures
            released == (*self == ReleaseOutcome::Released),
    {
        match self {
            ReleaseOutcome::Released => true,
            _ => false,
        }
    }
}

/// What releasing `zone` on behalf of `robot` finds in the ownership map
/// `owners`.
pub open spec fn release_outcome(owners: Map<ZoneId, RobotId>, zone: ZoneId, robot: RobotId)
    -> ReleaseOutcome {
    if !owners.contains_key(zone) {
        ReleaseOutcome::Unoccupied
    } else if owners[zone] == robot {
        ReleaseOutcome::Released
    } else {
        ReleaseOutcome::NotOwner { owner: owners[zone] }
    }
}

/// The ownership map after `robot` tries to take `zone`: recorded as owner
/// if the zone was free, unchanged otherwise.
pub open spec fn after_acquire(owners: Map<ZoneId, RobotId>, zone: ZoneId, robot: RobotId) -> Map<
    ZoneId,
    RobotId,
> {
    if owners.contains_key(zone) {
        owners
    } else {
        owners.insert(zone, robot)
    }
}

/// The ownership map after `robot` tries to release `zone`: the entry is
/// removed if `robot` owned the zone, unchanged otherwise.
pub open spec fn after_release(owners: Map<ZoneId, RobotId>, zone: ZoneId, robot: RobotId) -> Map<
    ZoneId,
    RobotId,
> {
    if owners.contains_key(zone) && owners[zone] == robot {
        owners.remove(zone)
    } else {
        owners
    }
}

/// One operation on the ownership table, as some thread performs it while
/// it holds the table's lock.
pub enum ZoneOp {
    /// An attempt to take a zone; a blocked robot repeats it after every
    /// wake-up.
    Acquire { zone: ZoneId, robot: RobotId },
    /// An attempt to release a zone.
    Release { zone: ZoneId, robot: RobotId },
}

/// The ownership map after `op`.
pub open spec fn after_op(owners: Map<ZoneId, RobotId>, op: ZoneOp) -> Map<ZoneId, RobotId> {
    match op {
        ZoneOp::Acquire { zone, robot } => after_acquire(owners, zone, robot),
        ZoneOp::Release { zone, robot } => after_release(owners, zone, robot),
    }
}

/// The ownership map after the operations `ops`, performed in this order.
pub open spec fn after_ops(owners: Map<ZoneId, RobotId>, ops: Seq<ZoneOp>) -> Map<
    ZoneId,
    RobotId,
>
    decreases ops.len(),
{
    if ops.len() == 0 {
        owners
    } else {
        after_ops(after_op(owners, ops[0]), ops.drop_first())
    }
}

/// The robots that the ownership map lets into `zone`: its owner, if any.
pub open spec fn occupants(owners: Map<ZoneId, RobotId>, zone: ZoneId) -> Set<RobotId> {
    if owners.contains_key(zone) {
        set![owners[zone]]
    } else {
        Set::empty()
    }
}

/// The robots inside `zone` after `op`, given those `inside` before it: a
/// robot enters when its acquire is granted and leaves when its release is
/// accepted.
pub open spec fn inside_after_op(
    inside: Set<RobotId>,
    owners: Map<ZoneId, RobotId>,
    op: ZoneOp,
    zone: ZoneId,
) -> Set<RobotId> {
    match op {
        ZoneOp::Acquire { zone: taken, robot } => if taken == zone && !owners.contains_key(
            taken,
        ) {
            inside.insert(robot)
        } else {
            inside
        },
        ZoneOp::Release { zone: freed, robot } => if freed == zone && release_outcome(
            owners,
            freed,
            robot,
        ) == ReleaseOutcome::Released {
            inside.remove(robot)
        } else {
            inside
        },
    }
}

/// The robots inside `zone` after the operations `ops`, given those `inside`
/// before them.
pub open spec fn inside_after_ops(
    inside: Set<RobotId>,
    owners: Map<ZoneId, RobotId>,
    ops: Seq<ZoneOp>,
    zone: ZoneId,
) -> Set<RobotId>
    decreases ops.len(),
{
    if ops.len() == 0 {
        inside
    } else {
        inside_after_ops(
            inside_after_op(inside, owners, ops[0], zone),
            after_op(owners, ops[0]),
            ops.drop_first(),
            zone,
        )
    }
}

/// Exclusivity: whatever acquires and releases are attempted by whatever
/// robots in whatever order, the robots that were let into a zone and have
/// not left it are exactly its recorded owner, so there is never more than
/// one of them.
pub proof fn zone_is_exclusive(owners: Map<ZoneId, RobotId>, ops: Seq<ZoneOp>, zone: ZoneId)
    ensures
        inside_after_ops(occupants(owners, zone), owners, ops, zone) == occupants(
            after_ops(owners, ops),
            zone,
        ),
        inside_after_ops(occupants(owners, zone), owners, ops, zone).finite(),
        inside_after_ops(occupants(owners, zone), owners, ops, zone).len() <= 1,
    decreases ops.len(),
{
    if ops.len() > 0 {
        let next = after_op(owners, ops[0]);
        assert(inside_after_op(occupants(owners, zone), owners, ops[0], zone) =~= occupants(
            next,
            zone,
        ));
        zone_is_exclusive(next, ops.drop_first(), zone);
    }
}

/// A grant opens the zone to exactly the robot that asked: an acquire is
/// granted if and only if the zone is free, and then the robot is its only
/// occupant.
pub proof fn acquire_grants_free_zone_only(
    owners: Map<ZoneId, RobotId>,
    zone: ZoneId,
    robot: RobotId,
)
    ensures
        owners.contains_key(zone) ==> after_acquire(owners, zone, robot) == owners,
        !owners.contains_key(zone) ==> occupants(after_acquire(owners, zone, robot), zone)
            == set![robot],
{
}

/// A release by a robot that does not own the zone is rejected: it reports
/// the owner and leaves the zone with it. In particular, after `owner` has
/// been granted a free zone, no other robot can release it.
pub proof fn release_by_non_owner_is_rejected(
    owners: Map<ZoneId, RobotId>,
    zone: ZoneId,
    owner: RobotId,
    intruder: RobotId,
)
    requires
        owner != intruder,
    ensures
        owners.contains_key(zone) && owners[zone] == owner ==> {
            &&& release_outcome(owners, zone, intruder) == (ReleaseOutcome::NotOwner { owner })
            &&& after_release(owners, zone, intruder) == owners
        },
        !owners.contains_key(zone) ==> {
            let held = after_acquire(owners, zone, owner);
            &&& release_outcome(held, zone, intruder) == (ReleaseOutcome::NotOwner { owner })
            &&& after_release(held, zone, intruder) == held
            &&& held[zone] == owner
        },
{
}

/// Wake-up condition: a release by the owner frees the zone, so the next
/// attempt of any waiting robot is granted. (Which waiter makes the next
/// attempt, and how soon, is up to the scheduler.)
pub proof fn release_lets_a_waiter_in(
    owners: Map<ZoneId, RobotId>,
    zone: ZoneId,
    owner: RobotId,
    waiter: RobotId,
)
    requires
        owners.contains_key(zone),
        owners[zone] == owner,
    ensures
        release_outcome(owners, zone, owner) == ReleaseOutcome::Released,
        !after_release(owners, zone, owner).contains_key(zone),
        occupants(after_acquire(after_release(owners, zone, owner), zone, waiter), zone)
            == set![waiter],
{
}

/// The state a `ZoneAccess` guards: which robot owns which zone. A zone
/// without an entry is free.
pub struct ZoneOwnership {
    occupied: HashMap<ZoneId, RobotId>,
}

impl View for ZoneOwnership {
    type V = Map<ZoneId, RobotId>;

    closed spec fn view(&self) -> Map<ZoneId, RobotId> {
        self.occupied@
    }
}

impl ZoneOwnership {
    /// No zone is owned.
    pub fn new() -> (table: ZoneOwnership)
        ensures
            table@ == Map::<ZoneId, RobotId>::empty(),
    {
        ZoneOwnership { occupied: HashMap::new() }
    }

    /// Whether `zone` has an owner.
    pub fn is_occupied(&self, zone: ZoneId) -> (occupied: bool)
        ensures
            occupied == self@.contains_key(zone),
    {
        self.occupied.contains_key(&zone)
    }

    /// The robot that owns `zone`, if any.
    pub fn owner(&self, zone: ZoneId) -> (owner: Option<RobotId>)
        ensures
            owner == (if self@.contains_key(zone) {
                Some(self@[zone])
            } else {
                None
            }),
    {
        match self.occupied.get(&zone) {
            Some(robot) => Some(*robot),
            None => None,
        }
    }

    /// Records `robot` as owner of `zone` if the zone is free. Returns
    /// whether it did; an owned zone stays with its owner.
    pub fn try_acquire(&mut self, zone: ZoneId, robot: RobotId) -> (acquired: bool)
        ensures
            acquired == !old(self)@.contains_key(zone),
            final(self)@ == after_acquire(old(self)@, zone, robot),
    {
        if self.occupied.contains_key(&zone) {
            return false;
        }
        self.occupied.insert(zone, robot);
        true
    }

    /// One round of a blocking acquire: takes `zone` for `robot` if it is
    /// free, and tells whether the robot has to go on waiting.
    pub fn must_wait_for(&mut self, zone: ZoneId, robot: RobotId) -> (wait: bool)
        ensures
            wait == old(self)@.contains_key(zone),
            final(self)@ == after_acquire(old(self)@, zone, robot),
    {
        !self.try_acquire(zone, robot)
    }

    /// Frees `zone` if `robot` owns it. Any other caller changes nothing and
    /// learns why.
    pub fn release(&mut self, zone: ZoneId, robot: RobotId) -> (outcome: ReleaseOutcome)
        ensures
            outcome == release_outcome(old(self)@, zone, robot),
            final(self)@ == after_release(old(self)@, zone, robot),
    {
        let owner = self.owner(zone);
        match owner {
            Some(current) => {
                if current == robot {
                    self.occupied.remove(&zone);
                    ReleaseOutcome::Released
                } else {
                    ReleaseOutcome::NotOwner { owner: current }
                }
            },
            None => ReleaseOutcome::Unoccupied,
        }
    }

    /// The zones that have an owner.
    pub fn occupied_zones(&self) -> (zones: HashSet<ZoneId>)
        ensures
            zones@ == self@.dom(),
    {
        let mut zones: HashSet<ZoneId> = HashSet::new();
        for zone in it: self.occupied.keys()
            invariant
                it.seq().unref().to_set() == self.occupied@.dom(),
                it.seq().unref().take(it.seq().len() as int) == it.seq().unref(),
                zones@ == it.seq().unref().take(it.index() as int).to_set(),
        {
            proof {
                let keys = it.seq().unref();
                let done = it.index() as int;
                keys.take(done).lemma_push_to_set_commute(keys[done]);
            }
            zones.insert(*zone);
        }
        zones
    }
}

/// `Condvar::wait_while` on the table's condition variable, with the attempt
/// to take the zone as its condition: releases the lock and blocks while
/// `ZoneOwnership::must_wait_for` says so, trying again after every wake-up,
/// and returns holding the lock once an attempt has succeeded. Attempt and wait
/// are one atomic step with respect to the lock, so a release made after a
/// failed attempt is never missed. Nothing is claimed about the state found;
/// a poisoned mutex is fatal.
#[verifier::external_body]
fn wait_and_acquire<'a>(
    available: &Condvar,
    guard: MutexGuard<'a, ZoneOwnership>,
    zone: ZoneId,
    robot: RobotId,
) -> (held: MutexGuard<'a, ZoneOwnership>) {
    available.wait_while(guard, |table| table.must_wait_for(zone, robot)).expect(
        "zone mutex poisoned",
    )
}

/// Zone ownership shared between threads: robots block until a zone is free
/// and release it when done.
///
/// Every method takes the table's lock, performs operations of
/// `ZoneOwnership` and releases the lock. What a call finds depends on the
/// other threads, so the contracts here state only what holds for every
/// state the call may find; the exact effect is the contract of the state
/// operation it performs. Waiters are served in no particular order, and a
/// robot that waits for a zone cannot be cancelled.
pub struct ZoneAccess {
    occupied: Mutex<ZoneOwnership>,
    available: Condvar,
}

impl ZoneAccess {
    /// No zone is owned.
    pub fn new() -> (access: ZoneAccess) {
        ZoneAccess { occupied: mutex_new(ZoneOwnership::new()), available: condvar_new() }
    }

    /// Blocks until `ZoneOwnership::must_wait_for` has taken `zone` for
    /// `robot`; on return the robot owns the zone.
    pub fn acquire(&self, zone: ZoneId, robot: RobotId) {
        let guard = mutex_lock(&self.occupied);
        let _held = wait_and_acquire(&self.available, guard, zone, robot);
    }

    /// Performs `ZoneOwnership::release` and, if the zone became free, wakes
    /// every waiter so that each re-checks its zone. A caller that does not
    /// own the zone changes nothing and is told what was found instead.
    pub fn try_release(&self, zone: ZoneId, robot: RobotId) -> (outcome: ReleaseOutcome)
        ensures
            outcome matches ReleaseOutcome::NotOwner { owner } ==> owner != robot,
    {
        let mut guard = mutex_lock(&self.occupied);
        let table = guard_mut(&mut guard);
        let outcome = table.release(zone, robot);
        if outcome.is_released() {
            notify_all(&self.available);
        }
        outcome
    }

    /// Releases `zone` on behalf of `robot`; `false` if the robot does not
    /// own it, in which case nothing changed.
    pub fn release(&self, zone: ZoneId, robot: RobotId) -> (released: bool) {
        self.try_release(zone, robot).is_released()
    }

    /// The zones owned at the moment of the call; advisory, since other
    /// threads may change them at once.
    pub fn occupied_zones(&self) -> (zones: HashSet<ZoneId>) {
        let mut guard = mutex_lock(&self.occupied);
        let table = guard_mut(&mut guard);
        table.occupied_zones()
    }
}

} // verus!
