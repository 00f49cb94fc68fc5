//! Occupancy bookkeeping for validation runs: how many robots are inside
//! zones, the highest number seen, and whether exclusivity was ever broken.

use crate::types::ZoneId;
use vstd::prelude::*;

verus! {

/// Mathematical model of the occupancy counters. Zones are numbered from 1
/// to `zones_total`; `per_zone[0]` is unused.
pub struct MetricsModel {
    pub zones_total: nat,
    pub occupancy: nat,
    pub max_occupancy: nat,
    pub violation: bool,
    pub per_zone: Seq<nat>,
}

impl MetricsModel {
    /// All counters at zero for `zones_total` zones, no violation seen.
    pub open spec fn fresh(zones_total: nat) -> MetricsModel {
        MetricsModel {
            zones_total,
            occupancy: 0,
            max_occupancy: 0,
            violation: false,
            per_zone: Seq::new(zones_total + 1, |i: int| 0nat),
        }
    }

    /// Whether `zone` has a counter.
    pub open spec fn tracks(self, zone: ZoneId) -> bool {
        zone < self.per_zone.len()
    }

    /// After a robot has entered `zone`: both counts go up by one, the
    /// maximum follows, and a violation is recorded if the zone now holds
    /// more than one robot or more robots are inside than there are zones.
    pub open spec fn enter(self, zone: ZoneId) -> MetricsModel {
        let inside = self.occupancy + 1;
        let in_zone = self.per_zone[zone as int] + 1;
        MetricsModel {
            zones_total: self.zones_total,
            occupancy: inside,
            max_occupancy: if inside > self.max_occupancy {
                inside
            } else {
                self.max_occupancy
            },
            violation: self.violation || in_zone > 1 || inside > self.zones_total,
            per_zone: self.per_zone.update(zone as int, in_zone),
        }
    }

    /// After a robot has announced that it leaves `zone`: both counts go
    /// down by one.
    pub open spec fn pre_release(self, zone: ZoneId) -> MetricsModel {
        MetricsModel {
            zones_total: self.zones_total,
            occupancy: (self.occupancy - 1) as nat,
            max_occupancy: self.max_occupancy,
            violation: self.violation,
            per_zone: self.per_zone.update(zone as int, (self.per_zone[zone as int] - 1) as nat),
        }
    }

    /// After an announced leave was taken back because the release failed:
    /// both counts go up by one again; nothing else changes.
    pub open spec fn revert_pre_release(self, zone: ZoneId) -> MetricsModel {
        MetricsModel {
            zones_total: self.zones_total,
            occupancy: self.occupancy + 1,
            max_occupancy: self.max_occupancy,
            violation: self.violation,
            per_zone: self.per_zone.update(zone as int, self.per_zone[zone as int] + 1),
        }
    }

    /// Unless a violation is recorded, no zone holds more than one robot.
    pub open spec fn exclusive_unless_flagged(self) -> bool {
        !self.violation ==> forall|zone: int|
            0 <= zone < self.per_zone.len() ==> #[trigger] self.per_zone[zone] <= 1
    }
}

/// The violation flag is sound: counters that start fresh keep
/// `exclusive_unless_flagged` through every enter and every announced
/// leave, so an unflagged run never had two robots in one zone.
pub proof fn unflagged_means_exclusive(metrics: MetricsModel, zone: ZoneId)
    requires
        metrics.exclusive_unless_flagged(),
        metrics.tracks(zone),
    ensures
        MetricsModel::fresh(metrics.zones_total).exclusive_unless_flagged(),
        metrics.enter(zone).exclusive_unless_flagged(),
        metrics.per_zone[zone as int] > 0 ==> metrics.pre_release(zone).exclusive_unless_flagged(),
{
}

/// Taking back an announced leave restores the counters exactly.
pub proof fn revert_undoes_pre_release(metrics: MetricsModel, zone: ZoneId)
    requires
        metrics.tracks(zone),
        metrics.occupancy > 0,
        metrics.per_zone[zone as int] > 0,
    ensures
        metrics.pre_release(zone).revert_pre_release(zone) == metrics,
{
    let back = metrics.pre_release(zone).revert_pre_release(zone);
    assert(back.per_zone =~= metrics.per_zone);
}

/// Counters for `zones_total` zones, all zero: one per zone number from 0
/// to `zones_total`.
pub fn init_zone_counters(zones_total: usize) -> (counters: Vec<usize>)
    requires
        zones_total < usize::MAX,
    ensures
        counters@ == Seq::new((zones_total + 1) as nat, |i: int| 0usize),
{
    let mut counters: Vec<usize> = Vec::with_capacity(zones_total + 1);
    let mut i: usize = 0;
    while i <= zones_total
        invariant
            zones_total < usize::MAX,
            i <= zones_total + 1,
            counters@ == Seq::new(i as nat, |i: int| 0usize),
        decreases zones_total + 1 - i,
    {
        counters.push(0);
        i += 1;
    }
    counters
}

/// Occupancy counters of one run.
pub struct ZoneMetrics {
    zones_total: usize,
    occupancy: usize,
    max_occupancy: usize,
    zone_violation: bool,
    per_zone_occupancy: Vec<usize>,
}

impl View for ZoneMetrics {
    type V = MetricsModel;

    closed spec fn view(&self) -> MetricsModel {
        MetricsModel {
            zones_total: self.zones_total as nat,
            occupancy: self.occupancy as nat,
            max_occupancy: self.max_occupancy as nat,
            violation: self.zone_violation,
            per_zone: self.per_zone_occupancy@.map_values(|count: usize| count as nat),
        }
    }
}

impl ZoneMetrics {
    /// The model's per-zone counts are the stored counters, one for one.
    proof fn counters_match_model(&self)
        ensures
            self@.per_zone.len() == self.per_zone_occupancy@.len(),
            self@.per_zone.len() <= usize::MAX,
            forall|zone: int|
                0 <= zone < self.per_zone_occupancy@.len() ==> #[trigger] self@.per_zone[zone]
                    == self.per_zone_occupancy@[zone],
    {
        assert(self.per_zone_occupancy@.len() == self.per_zone_occupancy.len());
    }

    /// Fresh counters for zones `1..=zones_total`.
    pub fn new(zones_total: usize) -> (metrics: ZoneMetrics)
        requires
            zones_total < usize::MAX,
        ensures
            metrics@ == MetricsModel::fresh(zones_total as nat),
    {
        let metrics = ZoneMetrics {
            zones_total,
            occupancy: 0,
            max_occupancy: 0,
            zone_violation: false,
            per_zone_occupancy: init_zone_counters(zones_total),
        };
        assert(metrics@.per_zone =~= MetricsModel::fresh(zones_total as nat).per_zone);
        metrics
    }

    /// Whether `zone` has a counter.
    pub fn tracks(&self, zone: ZoneId) -> (known: bool)
        ensures
            known == self@.tracks(zone),
    {
        proof {
            self.counters_match_model();
        }
        zone < self.per_zone_occupancy.len() as u64
    }

    /// Records that a robot has entered `zone`.
    pub fn enter(&mut self, zone: ZoneId)
        requires
            old(self)@.tracks(zone),
            old(self)@.occupancy < usize::MAX,
            old(self)@.per_zone[zone as int] < usize::MAX,
        ensures
            final(self)@ == old(self)@.enter(zone),
    {
        proof {
            self.counters_match_model();
        }
        let current = self.occupancy + 1;
        self.occupancy = current;
        let zone_index = zone as usize;
        let zone_count = self.per_zone_occupancy[zone_index] + 1;
        self.per_zone_occupancy.set(zone_index, zone_count);
        if zone_count > 1 {
            self.zone_violation = true;
        }
        if current > self.max_occupancy {
            self.max_occupancy = current;
        }
        if current > self.zones_total {
            self.zone_violation = true;
        }
        assert(self@.per_zone =~= old(self)@.enter(zone).per_zone);
    }

    /// Records that a robot is about to release `zone`.
    pub fn pre_release(&mut self, zone: ZoneId)
        requires
            old(self)@.tracks(zone),
            old(self)@.occupancy > 0,
            old(self)@.per_zone[zone as int] > 0,
        ensures
            final(self)@ == old(self)@.pre_release(zone),
    {
        proof {
            self.counters_match_model();
        }
        let zone_index = zone as usize;
        let zone_count = self.per_zone_occupancy[zone_index] - 1;
        self.per_zone_occupancy.set(zone_index, zone_count);
        self.occupancy = self.occupancy - 1;
        assert(self@.per_zone =~= old(self)@.pre_release(zone).per_zone);
    }

    /// Takes back `pre_release` after the release was refused.
    pub fn revert_pre_release(&mut self, zone: ZoneId)
        requires
            old(self)@.tracks(zone),
            old(self)@.occupancy < usize::MAX,
            old(self)@.per_zone[zone as int] < usize::MAX,
        ensures
            final(self)@ == old(self)@.revert_pre_release(zone),
    {
        proof {
            self.counters_match_model();
        }
        let zone_index = zone as usize;
        let zone_count = self.per_zone_occupancy[zone_index] + 1;
        self.per_zone_occupancy.set(zone_index, zone_count);
        self.occupancy = self.occupancy + 1;
        assert(self@.per_zone =~= old(self)@.revert_pre_release(zone).per_zone);
    }

    /// Number of robots inside zones right now.
    pub fn occupancy(&self) -> (inside: usize)
        ensures
            inside == self@.occupancy,
    {
        self.occupancy
    }

    /// Number of robots inside `zone` right now.
    pub fn zone_occupancy(&self, zone: ZoneId) -> (inside: usize)
        requires
            self@.tracks(zone),
        ensures
            inside == self@.per_zone[zone as int],
    {
        proof {
            self.counters_match_model();
        }
        self.per_zone_occupancy[zone as usize]
    }

    /// Highest number of robots that were inside zones at once.
    pub fn max_occupancy(&self) -> (max: usize)
        ensures
            max == self@.max_occupancy,
    {
        self.max_occupancy
    }

    /// Whether exclusivity was ever seen broken.
    pub fn has_violation(&self) -> (violation: bool)
        ensures
            violation == self@.violation,
    {
        self.zone_violation
    }
}

} // verus!
