//! The pool of backends: its slots, its permits, and the scan that acquires
//! a slot.

use crate::load::config::LoadBalancerConfig;
use crate::load::model::{
    earlier, held_for_probe, idle, lemma_candidate_skips, lemma_leased_none,
    lemma_leased_positive, lemma_leased_update, next_candidate, noted, passed_over, probe_spec,
    release_spec, resting, scan_spec, try_acquire_spec, wake_after, PoolState, ScanView,
    SlotState,
};
use vstd::prelude::*;

verus! {

/// One backend of the pool, with what the pool remembers of it.
pub struct ClientSlot<C> {
    /// The backend's client.
    client: C,
    /// A caller holds the slot exclusively.
    in_use: bool,
    /// The backend was busy when last probed: the time before which it is
    /// not probed again.
    next_busy_check: Option<u64>,
}

impl<C> View for ClientSlot<C> {
    type V = SlotState;

    closed spec fn view(&self) -> SlotState {
        SlotState { in_use: self.in_use, next_busy_check: self.next_busy_check }
    }
}

/// A counting set of permits with a fixed capacity.
pub struct PermitGate {
    capacity: usize,
    held: usize,
}

impl PermitGate {
    /// Number of permits that can be held at a time.
    pub closed spec fn spec_capacity(&self) -> usize {
        self.capacity
    }

    /// Number of permits that are held.
    pub closed spec fn spec_held(&self) -> usize {
        self.held
    }

    /// No more permits are held than there are.
    pub open spec fn wf(&self) -> bool {
        self.held() <= self.capacity()
    }

    /// A set of `capacity` permits, none of them held.
    pub fn new(capacity: usize) -> (gate: Self)
        ensures
            gate.wf(),
            gate.capacity() == capacity,
            gate.held() == 0,
    {
        PermitGate { capacity, held: 0 }
    }

    /// Number of permits that can be held at a time.
    #[verifier::when_used_as_spec(spec_capacity)]
    pub fn capacity(&self) -> (capacity: usize)
        ensures
            capacity == self.capacity(),
    {
        self.capacity
    }

    /// Number of permits that are held.
    #[verifier::when_used_as_spec(spec_held)]
    pub fn held(&self) -> (held: usize)
        ensures
            held == self.held(),
    {
        self.held
    }

    /// Hands out one permit if one is left.
    pub fn try_acquire(&mut self) -> (granted: bool)
        requires
            old(self).wf(),
        ensures
            final(self).wf(),
            final(self).capacity() == old(self).capacity(),
            granted == (old(self).held() < old(self).capacity()),
            final(self).held() == old(self).held() + if granted { 1int } else { 0int },
    {
        if self.held < self.capacity {
            self.held = self.held + 1;
            true
        } else {
            false
        }
    }

    /// Takes back one permit.
    pub fn release(&mut self)
        requires
            old(self).wf(),
            old(self).held() > 0,
        ensures
            final(self).wf(),
            final(self).capacity() == old(self).capacity(),
            final(self).held() == old(self).held() - 1,
    {
        self.held = self.held - 1;
    }
}

/// Exclusive use of one slot, paired with one permit: what a caller holds
/// while it converts on the slot's backend.
#[derive(Debug)]
pub struct SlotLease {
    slot: usize,
}

impl SlotLease {
    /// Position of the leased slot in the pool.
    pub closed spec fn spec_slot(&self) -> usize {
        self.slot
    }

    /// Position of the leased slot in the pool.
    #[verifier::when_used_as_spec(spec_slot)]
    pub fn slot(&self) -> (slot: usize)
        ensures
            slot == self.slot(),
    {
        self.slot
    }
}

/// A scan that holds one slot and waits for the answer of that slot's probe.
#[derive(Debug)]
pub struct Scan {
    slot: usize,
    next_wake_time: Option<u64>,
}

impl Scan {
    /// Position of the slot whose backend is to be probed.
    pub closed spec fn spec_slot(&self) -> usize {
        self.slot
    }

    /// The earliest wake time that the scan has noted so far.
    pub closed spec fn spec_noted(&self) -> Option<u64> {
        self.next_wake_time
    }

    /// Position of the slot whose backend is to be probed.
    #[verifier::when_used_as_spec(spec_slot)]
    pub fn slot(&self) -> (slot: usize)
        ensures
            slot == self.slot(),
    {
        self.slot
    }

    /// The earliest wake time that the scan has noted so far.
    #[verifier::when_used_as_spec(spec_noted)]
    pub fn noted(&self) -> (noted: Option<u64>)
        ensures
            noted == self.noted(),
    {
        self.next_wake_time
    }
}

/// How an attempt to acquire a slot ended.
#[derive(Debug)]
pub enum TryAcquireResult {
    /// The caller holds a slot and a permit.
    Acquired { client: SlotLease },
    /// A permit was had, but every slot was in use and none is resting. A
    /// slot is given back together with its permit, so a consistent pool
    /// has a slot that is not in use whenever it has a permit left, and no
    /// attempt on it ends this way.
    BusyInternally,
    /// Every slot that could be looked at is resting after a busy answer.
    BusyExternally {
        /// Earliest time at which a resting slot may be probed again.
        next_wake_time: u64,
    },
}

impl View for TryAcquireResult {
    type V = ScanView;

    open spec fn view(&self) -> ScanView {
        match *self {
            TryAcquireResult::Acquired { client } => ScanView::Acquired { slot: client.slot() as int },
            TryAcquireResult::BusyInternally => ScanView::BusyInternally,
            TryAcquireResult::BusyExternally { next_wake_time } => ScanView::BusyExternally {
                next_wake_time,
            },
        }
    }
}

/// What the caller of a scan does next.
#[derive(Debug)]
pub enum ScanStep {
    /// Every permit is held. Wait until one is released, then try again.
    Saturated,
    /// Probe the backend of the scan's slot and report the answer with
    /// `on_probe`.
    Probe(Scan),
    /// The attempt has ended.
    Done(TryAcquireResult),
}

impl View for ScanStep {
    type V = ScanView;

    open spec fn view(&self) -> ScanView {
        match *self {
            ScanStep::Saturated => ScanView::Saturated,
            ScanStep::Probe(scan) => ScanView::Probe { slot: scan.slot() as int, noted: scan.noted() },
            ScanStep::Done(result) => result@,
        }
    }
}

/// Whether the answer of a probe counts as busy. A probe that failed counts
/// as busy: only a plain "not busy" frees the backend for use.
pub open spec fn reports_busy<E>(probe: Result<bool, E>) -> bool {
    !(probe matches Ok(false))
}

/// The earlier of a noted wake time, if any, and `time`.
pub fn earlier_of(wake: Option<u64>, time: u64) -> (wake_time: Option<u64>)
    ensures
        wake_time == earlier(wake, time),
{
    match wake {
        Some(noted) => if noted <= time { Some(noted) } else { Some(time) },
        None => Some(time),
    }
}

/// Load balancer over a fixed pool of backends. Conversions go to the first
/// backend, in the pool's order, that is neither in use nor resting after a
/// busy answer.
pub struct OfficeConvertLoadBalancer<C> {
    /// The backends, one slot each.
    clients: Vec<ClientSlot<C>>,
    /// One permit per slot: a caller takes one before it looks for a slot.
    client_permit: PermitGate,
    /// Timing and retry settings.
    config: LoadBalancerConfig,
}

impl<C> View for OfficeConvertLoadBalancer<C> {
    type V = PoolState;

    closed spec fn view(&self) -> PoolState {
        PoolState {
            slots: self.clients@.map_values(|slot: ClientSlot<C>| slot@),
            permits_held: self.client_permit.held() as nat,
        }
    }
}

impl<C> OfficeConvertLoadBalancer<C> {
    /// The backends' clients in the pool's order.
    pub closed spec fn backends(&self) -> Seq<C> {
        self.clients@.map_values(|slot: ClientSlot<C>| slot.client)
    }

    /// The settings that the pool was made with.
    pub closed spec fn spec_config(&self) -> LoadBalancerConfig {
        self.config
    }

    /// Number of permits of the pool.
    pub closed spec fn capacity(&self) -> nat {
        self.client_permit.capacity() as nat
    }

    /// The pool is consistent: one slot and one permit per backend, and
    /// between two steps a permit held for each slot in use and for nothing
    /// else.
    pub open spec fn wf(&self) -> bool {
        &&& self@.wf()
        &&& self@.slots.len() == self.backends().len()
        &&& self@.slots.len() == self.capacity()
    }

    /// The pool in the middle of a scan: as between steps, with the scan's
    /// permit held beside the others.
    pub open spec fn scanning(&self) -> bool {
        &&& self@.scanning()
        &&& self@.slots.len() == self.backends().len()
        &&& self@.slots.len() == self.capacity()
    }

    /// `scan` holds a slot of this pool.
    pub open spec fn parked(&self, scan: Scan) -> bool {
        scan.slot() < self@.slots.len() && self@.slots[scan.slot() as int].in_use
    }

    /// `lease` holds a slot of this pool.
    pub open spec fn leases(&self, lease: SlotLease) -> bool {
        lease.slot() < self@.slots.len() && self@.slots[lease.slot() as int].in_use
    }

    /// A load balancer over `clients` with the standard settings.
    pub fn new(clients: Vec<C>) -> (pool: Self)
        ensures
            pool.wf(),
            pool.backends() == clients@,
            pool.config() == LoadBalancerConfig::standard(),
            pool@.permits_held == 0,
            pool@.slots.len() == clients@.len(),
            forall|i: int| 0 <= i < clients@.len() ==> pool@.slots[i] == idle(),
    {
        Self::new_with_timing(clients, LoadBalancerConfig::default())
    }

    /// A load balancer over `clients` with the settings `timing`. Every
    /// backend gets a slot, in the order given; no slot is in use or
    /// resting, and no permit is held.
    pub fn new_with_timing(clients: Vec<C>, timing: LoadBalancerConfig) -> (pool: Self)
        ensures
            pool.wf(),
            pool.backends() == clients@,
            pool.config() == timing,
            pool@.permits_held == 0,
            pool@.slots.len() == clients@.len(),
            forall|i: int| 0 <= i < clients@.len() ==> pool@.slots[i] == idle(),
    {
        let ghost given = clients@;
        let mut slots: Vec<ClientSlot<C>> = Vec::new();
        for client in it: clients
            invariant
                it.seq() == given,
                slots@.len() == it.index(),
                forall|i: int|
                    0 <= i < slots@.len() ==> (#[trigger] slots@[i]).client == given[i]
                        && !slots@[i].in_use && slots@[i].next_busy_check.is_none(),
        {
            slots.push(ClientSlot { client, in_use: false, next_busy_check: None });
        }
        let total_clients = slots.len();
        let pool = OfficeConvertLoadBalancer {
            clients: slots,
            client_permit: PermitGate::new(total_clients),
            config: timing,
        };
        proof {
            assert(pool.backends() =~= given);
            assert forall|i: int| 0 <= i < given.len() implies pool@.slots[i] == idle() by {
                assert(pool@.slots[i] == pool.clients@[i]@);
            }
            lemma_leased_none(pool@.slots);
        }
        pool
    }

    /// The settings that the pool was made with.
    #[verifier::when_used_as_spec(spec_config)]
    pub fn config(&self) -> (config: LoadBalancerConfig)
        ensures
            config == self.config(),
    {
        self.config
    }

    /// Number of slots, which is the number of backends.
    pub fn len(&self) -> (len: usize)
        ensures
            len == self@.slots.len(),
    {
        self.clients.len()
    }

    /// Number of permits that callers hold.
    pub fn permits_held(&self) -> (held: usize)
        ensures
            held == self@.permits_held,
    {
        self.client_permit.held()
    }

    /// Whether a caller holds the slot at `slot`.
    pub fn in_use(&self, slot: usize) -> (in_use: bool)
        requires
            slot < self@.slots.len(),
        ensures
            in_use == self@.slots[slot as int].in_use,
    {
        self.clients[slot].in_use
    }

    /// The time before which the backend at `slot` is not probed again, if
    /// it was busy when last probed.
    pub fn next_busy_check(&self, slot: usize) -> (until: Option<u64>)
        requires
            slot < self@.slots.len(),
        ensures
            until == self@.slots[slot as int].next_busy_check,
    {
        self.clients[slot].next_busy_check
    }

    /// The client of the backend at `slot`.
    pub fn client(&self, slot: usize) -> (client: &C)
        requires
            slot < self.backends().len(),
        ensures
            *client == self.backends()[slot as int],
    {
        &self.clients[slot].client
    }

    /// Goes on with a scan under a held permit: looks at the slots from
    /// `from` on, having noted `wake` before.
    fn scan_from(&mut self, from: usize, wake: Option<u64>, now: u64) -> (step: ScanStep)
        requires
            old(self).scanning(),
            from <= old(self)@.slots.len(),
        ensures
            final(self).wf(),
            final(self).backends() == old(self).backends(),
            final(self).config() == old(self).config(),
            step@ == scan_spec(old(self)@, from as int, wake, now).0,
            final(self)@ == scan_spec(old(self)@, from as int, wake, now).1,
    {
        let ghost before = self@;
        let total: usize = self.clients.len();
        let mut seen: Option<u64> = wake;
        let mut at: usize = from;
        while at < total
            invariant
                from <= at <= total == self.clients@.len(),
                self@ == before,
                before == old(self)@,
                self.scanning(),
                self.backends() == old(self).backends(),
                self.config() == old(self).config(),
                forall|i: int| from <= i < at ==> passed_over(#[trigger] before.slots[i], now),
                seen == wake_after(before.slots, from as int, at as int, wake),
            decreases total - at,
        {
            let ghost so_far = seen;
            let mut rests: bool = self.clients[at].in_use;
            if !rests {
                if let Some(until) = self.clients[at].next_busy_check {
                    seen = earlier_of(seen, until);
                    rests = now < until;
                }
            }
            assert(seen == wake_after(before.slots, from as int, at + 1, wake)) by {
                assert(seen == noted(so_far, before.slots[at as int]));
            }
            assert(rests == passed_over(before.slots[at as int], now));
            if !rests {
                self.clients[at].in_use = true;
                self.clients[at].next_busy_check = None;
                proof {
                    lemma_candidate_skips(before.slots, from as int, at as int, now);
                    lemma_leased_update(before.slots, at as int, held_for_probe());
                    assert(self@.slots =~= before.slots.update(at as int, held_for_probe()));
                    assert(self.backends() =~= old(self).backends());
                    assert(next_candidate(before.slots, at as int, now) == at);
                }
                return ScanStep::Probe(Scan { slot: at, next_wake_time: seen });
            }
            at = at + 1;
        }
        proof {
            lemma_candidate_skips(before.slots, from as int, total as int, now);
        }
        self.client_permit.release();
        match seen {
            Some(next_wake_time) => ScanStep::Done(TryAcquireResult::BusyExternally { next_wake_time }),
            None => ScanStep::Done(TryAcquireResult::BusyInternally),
        }
    }

    /// Tries once, at time `now`, to acquire a slot: takes a permit, then
    /// looks at the slots in their order, from the first.
    ///
    /// A slot in use is passed over, and so is one that rests until after
    /// `now`. The first other slot is held for the caller, who probes its
    /// backend and reports with `on_probe`. With no such slot the permit is
    /// given back and the attempt ends busy. With every permit held nothing
    /// changes and the caller is told to wait.
    pub fn try_acquire_client(&mut self, now: u64) -> (step: ScanStep)
        requires
            old(self).wf(),
        ensures
            final(self).wf(),
            final(self).backends() == old(self).backends(),
            final(self).config() == old(self).config(),
            step@ == try_acquire_spec(old(self)@, now).0,
            final(self)@ == try_acquire_spec(old(self)@, now).1,
    {
        if !self.client_permit.try_acquire() {
            return ScanStep::Saturated;
        }
        self.scan_from(0, None, now)
    }

    /// Goes on with `scan` once the probe of its slot has answered, at time
    /// `now`.
    ///
    /// On "not busy" the caller has acquired the slot. On any other answer
    /// the slot is freed and rests until `now + retry_busy_check_after`,
    /// and the scan goes on with the slots behind it.
    pub fn on_probe<E>(&mut self, scan: Scan, probe: Result<bool, E>, now: u64) -> (step: ScanStep)
        requires
            old(self).wf(),
            old(self).parked(scan),
            now + old(self).config().retry_busy_check_after <= u64::MAX,
        ensures
            final(self).wf(),
            final(self).backends() == old(self).backends(),
            final(self).config() == old(self).config(),
            step@ == probe_spec(
                old(self)@,
                scan.slot() as int,
                scan.noted(),
                reports_busy(probe),
                now,
                old(self).config().retry_busy_check_after,
            ).0,
            final(self)@ == probe_spec(
                old(self)@,
                scan.slot() as int,
                scan.noted(),
                reports_busy(probe),
                now,
                old(self).config().retry_busy_check_after,
            ).1,
    {
        let slot: usize = scan.slot;
        match probe {
            Ok(false) => {
                return ScanStep::Done(TryAcquireResult::Acquired { client: SlotLease { slot } });
            },
            _ => {},
        }
        let ghost before = self@;
        let until: u64 = now + self.config.retry_busy_check_after;
        self.clients[slot].in_use = false;
        self.clients[slot].next_busy_check = Some(until);
        proof {
            lemma_leased_update(before.slots, slot as int, resting(until));
            assert(self@.slots =~= before.slots.update(slot as int, resting(until)));
            assert(self.backends() =~= old(self).backends());
        }
        let wake = earlier_of(scan.next_wake_time, until);
        self.scan_from(slot + 1, wake, now)
    }

    /// Gives up `scan` while the probe of its slot is still out: frees the
    /// slot and gives back the permit.
    pub fn abandon(&mut self, scan: Scan)
        requires
            old(self).wf(),
            old(self).parked(scan),
        ensures
            final(self).wf(),
            final(self).backends() == old(self).backends(),
            final(self).config() == old(self).config(),
            final(self)@ == release_spec(old(self)@, scan.slot() as int),
    {
        self.release(SlotLease { slot: scan.slot });
    }

    /// Gives back a leased slot and its permit.
    pub fn release(&mut self, lease: SlotLease)
        requires
            old(self).wf(),
            old(self).leases(lease),
        ensures
            final(self).wf(),
            final(self).backends() == old(self).backends(),
            final(self).config() == old(self).config(),
            final(self)@ == release_spec(old(self)@, lease.slot() as int),
    {
        let ghost before = self@;
        let slot: usize = lease.slot;
        proof {
            lemma_leased_positive(before.slots, slot as int);
        }
        self.clients[slot].in_use = false;
        self.client_permit.release();
        proof {
            let freed = SlotState { in_use: false, ..before.slots[slot as int] };
            lemma_leased_update(before.slots, slot as int, freed);
            assert(self@.slots =~= before.slots.update(slot as int, freed));
            assert(self.backends() =~= old(self).backends());
        }
    }
}

} // verus!
