//! Several conversions at once on one pool: what holds of all of them
//! together, in every state that they can reach.

use crate::load::config::LoadBalancerConfig;
use crate::load::convert::{
    convert_spec, expected, held_slot, holds, EventView, JobView, PhaseView,
};
use crate::load::laws::{
    law_slot_in_use_is_exclusive, law_slot_is_taken_free, law_step_keeps_pool_consistent,
};
use crate::load::model::{idle, lemma_leased_none, PoolState};
use bytes::Bytes;
use vstd::prelude::*;
use vstd::set_lib::{lemma_int_range, lemma_len_subset, lemma_map_size, set_int_range};

verus! {

/// A pool and the conversions that are on their way through it.
pub struct SystemState {
    /// The pool.
    pub pool: PoolState,
    /// The conversions, in the order in which they arrived.
    pub jobs: Seq<JobView>,
}

/// The conversions that hold a slot, by their position.
pub open spec fn holders(jobs: Seq<JobView>) -> Set<int> {
    Set::new(|j: int| 0 <= j < jobs.len() && held_slot(jobs[j].phase) is Some)
}

/// The conversions in flight, by their position: those whose document a
/// backend is converting.
pub open spec fn in_flight(jobs: Seq<JobView>) -> Set<int> {
    Set::new(|j: int| 0 <= j < jobs.len() && jobs[j].phase is Converting)
}

impl SystemState {
    /// The pool is consistent, every conversion that holds a slot holds one
    /// of the pool that is in use, and no two conversions hold the same
    /// slot.
    pub open spec fn wf(self) -> bool {
        &&& self.pool.wf()
        &&& forall|j: int| 0 <= j < self.jobs.len() ==> holds(self.pool, #[trigger] self.jobs[j])
        &&& forall|j: int, k: int|
            #![trigger self.jobs[j], self.jobs[k]]
            0 <= j < self.jobs.len() && 0 <= k < self.jobs.len() && j != k && held_slot(
                self.jobs[j].phase,
            ) is Some ==> held_slot(self.jobs[j].phase) != held_slot(self.jobs[k].phase)
    }

    /// A pool of `backends` idle slots, and no conversion yet.
    pub open spec fn fresh(backends: nat) -> SystemState {
        SystemState {
            pool: PoolState { slots: Seq::new(backends, |i: int| idle()), permits_held: 0 },
            jobs: Seq::empty(),
        }
    }

    /// A conversion of `file` arrives.
    pub open spec fn arrive(self, file: Bytes) -> SystemState {
        SystemState {
            jobs: self.jobs.push(JobView { file, failed: 0, phase: PhaseView::Waiting }),
            ..self
        }
    }

    /// The conversion at position `j` takes a step, at time `now`, on what
    /// its caller reports.
    pub open spec fn step(
        self,
        j: int,
        event: EventView,
        now: u64,
        config: LoadBalancerConfig,
    ) -> SystemState {
        let (action, pool, job) = convert_spec(self.pool, self.jobs[j], event, now, config);
        SystemState { pool, jobs: self.jobs.update(j, job) }
    }
}

/// A fresh pool without conversions is consistent.
pub proof fn law_fresh_system_is_consistent(backends: nat)
    ensures
        SystemState::fresh(backends).wf(),
        SystemState::fresh(backends).pool.slots.len() == backends,
{
    lemma_leased_none(SystemState::fresh(backends).pool.slots);
}

/// The arrival of a conversion keeps pool and conversions consistent.
pub proof fn law_arrival_keeps_system_consistent(system: SystemState, file: Bytes)
    requires
        system.wf(),
    ensures
        system.arrive(file).wf(),
        system.arrive(file).pool == system.pool,
{
}

/// A step of any conversion keeps pool and conversions consistent, and
/// keeps the number of slots.
pub proof fn law_step_keeps_system_consistent(
    system: SystemState,
    j: int,
    event: EventView,
    now: u64,
    config: LoadBalancerConfig,
)
    requires
        system.wf(),
        0 <= j < system.jobs.len(),
        expected(system.jobs[j].phase, event),
    ensures
        system.step(j, event, now, config).wf(),
        system.step(j, event, now, config).pool.slots.len() == system.pool.slots.len(),
        system.step(j, event, now, config).jobs.len() == system.jobs.len(),
{
    let next = system.step(j, event, now, config);
    let stepping = system.jobs[j];
    law_step_keeps_pool_consistent(system.pool, stepping, event, now, config);
    law_slot_is_taken_free(system.pool, stepping, event, now, config);
    assert forall|k: int| 0 <= k < next.jobs.len() && k != j implies holds(
        next.pool,
        #[trigger] next.jobs[k],
    ) && (held_slot(next.jobs[k].phase) is Some ==> held_slot(next.jobs[k].phase) != held_slot(
        next.jobs[j].phase,
    )) by {
        assert(next.jobs[k] == system.jobs[k]);
        assert(holds(system.pool, system.jobs[k]));
        if let Some(slot) = held_slot(system.jobs[k].phase) {
            assert(held_slot(system.jobs[j].phase) != held_slot(system.jobs[k].phase));
            law_slot_in_use_is_exclusive(system.pool, stepping, event, now, config, slot);
        }
    }
    assert forall|a: int, b: int|
        #![trigger next.jobs[a], next.jobs[b]]
        0 <= a < next.jobs.len() && 0 <= b < next.jobs.len() && a != b && held_slot(
            next.jobs[a].phase,
        ) is Some implies held_slot(next.jobs[a].phase) != held_slot(next.jobs[b].phase) by {
        if a != j && b != j {
            assert(next.jobs[a] == system.jobs[a]);
            assert(next.jobs[b] == system.jobs[b]);
            assert(held_slot(system.jobs[a].phase) != held_slot(system.jobs[b].phase));
        } else if a == j {
            assert(holds(next.pool, next.jobs[b]));
        } else {
            assert(holds(next.pool, next.jobs[a]));
        }
    }
}

/// No more conversions are in flight than the pool has backends.
///
/// In every consistent state of a pool of `N` slots and its conversions,
/// at most `N` conversions hold a slot, and at most `N` are in flight.
pub proof fn law_conversions_in_flight_bounded(system: SystemState)
    requires
        system.wf(),
    ensures
        holders(system.jobs).finite(),
        in_flight(system.jobs).finite(),
        in_flight(system.jobs).len() <= holders(system.jobs).len() <= system.pool.slots.len(),
{
    let jobs = system.jobs;
    let held = holders(jobs);
    let slot_of = |j: int| held_slot(jobs[j].phase)->0;
    let slots = set_int_range(0, system.pool.slots.len() as int);
    lemma_int_range(0, jobs.len() as int);
    lemma_int_range(0, system.pool.slots.len() as int);
    assert(held.subset_of(set_int_range(0, jobs.len() as int)));
    lemma_len_subset(held, set_int_range(0, jobs.len() as int));
    assert forall|a: int, b: int|
        held.contains(a) && held.contains(b) && #[trigger] slot_of(a) == #[trigger] slot_of(
            b,
        ) implies a == b by {
        if a != b {
            assert(held_slot(jobs[a].phase) != held_slot(jobs[b].phase));
        }
    }
    lemma_map_size(held, held.map(slot_of), slot_of);
    assert forall|slot: int| held.map(slot_of).contains(slot) implies slots.contains(slot) by {
        let j = choose|j: int| held.contains(j) && slot_of(j) == slot;
        assert(holds(system.pool, jobs[j]));
    }
    lemma_len_subset(held.map(slot_of), slots);
    assert(in_flight(jobs).subset_of(held));
    lemma_len_subset(in_flight(jobs), held);
}

} // verus!
