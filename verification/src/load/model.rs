//! Mathematical model of the pool: what a scan over the slots selects and
//! which wake time it reports.

use vstd::prelude::*;

verus! {

/// What the pool remembers of one slot.
pub struct SlotState {
    /// A caller holds the slot exclusively.
    pub in_use: bool,
    /// The backend was busy when last probed and is not probed again before
    /// this time. `None`: known free, or never probed.
    pub next_busy_check: Option<u64>,
}

/// What the pool remembers of all slots and of its permits.
pub struct PoolState {
    /// The slots in their fixed order.
    pub slots: Seq<SlotState>,
    /// Number of permits that callers hold.
    pub permits_held: nat,
}

/// What a step of a scan hands to the caller.
pub enum ScanView {
    /// Every permit is held: the caller waits for one to be released.
    Saturated,
    /// The slot is held for the caller, who probes its backend next. The
    /// scan so far has noted the wake time `noted`.
    Probe { slot: int, noted: Option<u64> },
    /// The caller holds the slot and one permit.
    Acquired { slot: int },
    /// No slot was free to be looked at and none is resting.
    BusyInternally,
    /// No slot could be acquired. The earliest time noted at which a resting
    /// slot may be probed again is `next_wake_time`.
    BusyExternally { next_wake_time: u64 },
}

/// Number of slots that are in use.
pub open spec fn leased(slots: Seq<SlotState>) -> nat
    decreases slots.len(),
{
    if slots.len() == 0 {
        0
    } else {
        leased(slots.drop_last()) + if slots.last().in_use { 1nat } else { 0nat }
    }
}

impl PoolState {
    /// Between two steps of the pool a permit is held for every slot in
    /// use and for nothing else, and there are no more permits than slots.
    pub open spec fn wf(self) -> bool {
        leased(self.slots) == self.permits_held <= self.slots.len()
    }

    /// In the middle of a scan its permit is held beside those of the
    /// slots in use.
    pub open spec fn scanning(self) -> bool {
        leased(self.slots) + 1 == self.permits_held <= self.slots.len()
    }
}

/// A scan at time `now` passes over the slot without probing its backend:
/// the slot is in use, or it rests until a later time.
pub open spec fn passed_over(slot: SlotState, now: u64) -> bool {
    slot.in_use || (slot.next_busy_check matches Some(until) && now < until)
}

/// The first slot at or after `from` that a scan at time `now` does not pass
/// over, or the number of slots if there is none.
pub open spec fn next_candidate(slots: Seq<SlotState>, from: int, now: u64) -> int
    decreases slots.len() - from,
{
    if from < 0 || from >= slots.len() {
        slots.len() as int
    } else if !passed_over(slots[from], now) {
        from
    } else {
        next_candidate(slots, from + 1, now)
    }
}

/// The earlier of a noted wake time, if any, and `time`.
pub open spec fn earlier(wake: Option<u64>, time: u64) -> Option<u64> {
    match wake {
        Some(noted) if noted <= time => Some(noted),
        _ => Some(time),
    }
}

/// The wake time noted after a scan has looked at `slot`: a slot that the
/// scan could lock and that carries a busy-check time is a candidate.
pub open spec fn noted(wake: Option<u64>, slot: SlotState) -> Option<u64> {
    match slot.next_busy_check {
        Some(until) if !slot.in_use => earlier(wake, until),
        _ => wake,
    }
}

/// The wake time noted after a scan that started with `wake` has looked at
/// the slots from `from` up to, not including, `to`.
pub open spec fn wake_after(slots: Seq<SlotState>, from: int, to: int, wake: Option<u64>) -> Option<u64>
    decreases to - from,
{
    if to <= from {
        wake
    } else {
        noted(wake_after(slots, from, to - 1, wake), slots[to - 1])
    }
}

/// A slot that is neither in use nor resting.
pub open spec fn idle() -> SlotState {
    SlotState { in_use: false, next_busy_check: None }
}

/// A slot as a scan leaves it when it holds it for a probe: in use, with no
/// busy-check time.
pub open spec fn held_for_probe() -> SlotState {
    SlotState { in_use: true, next_busy_check: None }
}

/// A slot as it is left after a busy answer: free, resting until `until`.
pub open spec fn resting(until: u64) -> SlotState {
    SlotState { in_use: false, next_busy_check: Some(until) }
}

/// A scan under a held permit, at time `now`, over the slots from `from` on,
/// having noted `wake` before: what it hands to the caller and how it leaves
/// the pool.
///
/// The first slot that is not passed over is held for a probe. If there is
/// none, the permit is given back and the scan ends busy: externally if a
/// wake time was noted, internally if not.
pub open spec fn scan_spec(state: PoolState, from: int, wake: Option<u64>, now: u64) -> (
    ScanView,
    PoolState,
) {
    let slot = next_candidate(state.slots, from, now);
    if slot < state.slots.len() {
        (
            ScanView::Probe { slot, noted: wake_after(state.slots, from, slot + 1, wake) },
            PoolState { slots: state.slots.update(slot, held_for_probe()), ..state },
        )
    } else {
        (
            match wake_after(state.slots, from, state.slots.len() as int, wake) {
                Some(next_wake_time) => ScanView::BusyExternally { next_wake_time },
                None => ScanView::BusyInternally,
            },
            PoolState { permits_held: (state.permits_held - 1) as nat, ..state },
        )
    }
}

/// One attempt to acquire a slot at time `now`: take a permit, if one is
/// left, and scan from the first slot.
pub open spec fn try_acquire_spec(state: PoolState, now: u64) -> (ScanView, PoolState) {
    if state.permits_held >= state.slots.len() {
        (ScanView::Saturated, state)
    } else {
        scan_spec(PoolState { permits_held: state.permits_held + 1, ..state }, 0, None, now)
    }
}

/// The continuation of a scan that holds `slot` for a probe and has noted
/// `wake`, once the probe has answered at time `now`.
///
/// A backend that is not busy is acquired. A busy one is left resting until
/// `now + retry_busy_check_after`, that time is noted, and the scan goes on
/// behind it.
pub open spec fn probe_spec(
    state: PoolState,
    slot: int,
    wake: Option<u64>,
    busy: bool,
    now: u64,
    retry_busy_check_after: u64,
) -> (ScanView, PoolState) {
    if !busy {
        (ScanView::Acquired { slot }, state)
    } else {
        let until = (now + retry_busy_check_after) as u64;
        scan_spec(
            PoolState { slots: state.slots.update(slot, resting(until)), ..state },
            slot + 1,
            earlier(wake, until),
            now,
        )
    }
}

/// The pool after the holder of `slot` has given back the slot and its
/// permit.
pub open spec fn release_spec(state: PoolState, slot: int) -> PoolState {
    PoolState {
        slots: state.slots.update(slot, SlotState { in_use: false, ..state.slots[slot] }),
        permits_held: (state.permits_held - 1) as nat,
    }
}

/// Replacing one slot changes the number of slots in use by what the old
/// and the new slot contribute.
pub proof fn lemma_leased_update(slots: Seq<SlotState>, at: int, slot: SlotState)
    requires
        0 <= at < slots.len(),
    ensures
        leased(slots.update(at, slot)) + (if slots[at].in_use { 1nat } else { 0nat }) == leased(slots) + (
        if slot.in_use { 1nat } else { 0nat }),
    decreases slots.len(),
{
    let changed = slots.update(at, slot);
    if at == slots.len() - 1 {
        assert(changed.drop_last() =~= slots.drop_last());
    } else {
        assert(changed.drop_last() =~= slots.drop_last().update(at, slot));
        lemma_leased_update(slots.drop_last(), at, slot);
    }
}

/// With no slot in use, none is counted.
pub proof fn lemma_leased_none(slots: Seq<SlotState>)
    requires
        forall|i: int| 0 <= i < slots.len() ==> !slots[i].in_use,
    ensures
        leased(slots) == 0,
    decreases slots.len(),
{
    if slots.len() > 0 {
        lemma_leased_none(slots.drop_last());
    }
}

/// With fewer slots in use than there are, some slot is not in use.
pub proof fn lemma_some_slot_free(slots: Seq<SlotState>)
    requires
        leased(slots) < slots.len(),
    ensures
        exists|i: int| 0 <= i < slots.len() && !(#[trigger] slots[i]).in_use,
    decreases slots.len(),
{
    if slots.last().in_use {
        lemma_some_slot_free(slots.drop_last());
        let i = choose|i: int| 0 <= i < slots.len() - 1 && !(#[trigger] slots.drop_last()[i]).in_use;
        assert(!slots[i].in_use);
    } else {
        assert(!slots[slots.len() - 1].in_use);
    }
}

/// A slot in use is counted.
pub proof fn lemma_leased_positive(slots: Seq<SlotState>, at: int)
    requires
        0 <= at < slots.len(),
        slots[at].in_use,
    ensures
        leased(slots) >= 1,
    decreases slots.len(),
{
    if at < slots.len() - 1 {
        lemma_leased_positive(slots.drop_last(), at);
    }
}

/// The next candidate from `from` lies behind every slot in `[from, to)`
/// when all of them are passed over.
pub proof fn lemma_candidate_skips(slots: Seq<SlotState>, from: int, to: int, now: u64)
    requires
        0 <= from <= to <= slots.len(),
        forall|i: int| from <= i < to ==> passed_over(#[trigger] slots[i], now),
    ensures
        next_candidate(slots, from, now) == next_candidate(slots, to, now),
    decreases to - from,
{
    if from < to {
        lemma_candidate_skips(slots, from + 1, to, now);
    }
}

/// The next candidate lies at or behind the start, within the pool or at
/// its end; it is not passed over, and every slot before it is.
pub proof fn lemma_candidate_is_first(slots: Seq<SlotState>, from: int, now: u64)
    requires
        0 <= from <= slots.len(),
    ensures
        from <= next_candidate(slots, from, now) <= slots.len(),
        next_candidate(slots, from, now) < slots.len() ==> !passed_over(
            slots[next_candidate(slots, from, now)],
            now,
        ),
        forall|i: int|
            from <= i < next_candidate(slots, from, now) ==> passed_over(#[trigger] slots[i], now),
    decreases slots.len() - from,
{
    if from < slots.len() && passed_over(slots[from], now) {
        lemma_candidate_is_first(slots, from + 1, now);
    }
}

/// A scan leaves every slot as it was, but for the one it holds for a
/// probe; that one was not passed over, and every slot between the start
/// and it was.
pub proof fn lemma_scan_frame(state: PoolState, from: int, wake: Option<u64>, now: u64)
    requires
        0 <= from <= state.slots.len(),
    ensures
        scan_spec(state, from, wake, now).1.slots.len() == state.slots.len(),
        forall|i: int|
            0 <= i < state.slots.len() && i != next_candidate(state.slots, from, now)
                ==> #[trigger] scan_spec(state, from, wake, now).1.slots[i] == state.slots[i],
        scan_spec(state, from, wake, now).0 matches ScanView::Probe { slot, .. } ==> {
            &&& slot == next_candidate(state.slots, from, now)
            &&& from <= slot < state.slots.len()
            &&& !passed_over(state.slots[slot], now)
            &&& scan_spec(state, from, wake, now).1.slots[slot] == held_for_probe()
        },
        !(scan_spec(state, from, wake, now).0 is Probe) ==> scan_spec(state, from, wake, now).1.slots
            == state.slots,
        !(scan_spec(state, from, wake, now).0 is Saturated),
        !(scan_spec(state, from, wake, now).0 is Acquired),
{
    lemma_candidate_is_first(state.slots, from, now);
}

/// A scan in its middle ends between steps: it either holds a slot under
/// its permit or has given the permit back.
pub proof fn lemma_scan_keeps_wf(state: PoolState, from: int, wake: Option<u64>, now: u64)
    requires
        state.scanning(),
        0 <= from <= state.slots.len(),
    ensures
        scan_spec(state, from, wake, now).1.wf(),
{
    lemma_candidate_is_first(state.slots, from, now);
    let slot = next_candidate(state.slots, from, now);
    if slot < state.slots.len() {
        lemma_leased_update(state.slots, slot, held_for_probe());
    }
}

/// Giving back a slot in use keeps the pool consistent.
pub proof fn lemma_release_keeps_wf(state: PoolState, slot: int)
    requires
        state.wf(),
        0 <= slot < state.slots.len(),
        state.slots[slot].in_use,
    ensures
        release_spec(state, slot).wf(),
        release_spec(state, slot).slots.len() == state.slots.len(),
{
    lemma_leased_positive(state.slots, slot);
    lemma_leased_update(state.slots, slot, SlotState { in_use: false, ..state.slots[slot] });
}

} // verus!
