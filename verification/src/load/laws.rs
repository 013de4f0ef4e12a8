//! What holds of the load balancer whatever its callers and the backends
//! do.

use crate::client::RequestError;
use crate::load::config::LoadBalancerConfig;
use crate::load::convert::{
    convert_spec, expected, follow_scan, held_slot, holds, ActionView, EventView, JobView,
    PhaseView,
};
use crate::load::model::{
    earlier, leased, lemma_candidate_is_first, lemma_candidate_skips, lemma_leased_none,
    lemma_leased_positive, lemma_leased_update, lemma_release_keeps_wf, lemma_scan_frame,
    lemma_scan_keeps_wf, lemma_some_slot_free, next_candidate, noted, passed_over, probe_spec,
    release_spec, resting, scan_spec, try_acquire_spec, wake_after, PoolState, ScanView,
    SlotState,
};
use crate::load::retry::{acquire_spec, backend_calls, convert_result, goes_again, AcquireView};
use crate::payload::bytes_content;
use bytes::Bytes;
use vstd::prelude::*;

verus! {

/// The slot, if any, that an action sends the caller to.
pub open spec fn action_slot(action: ActionView) -> Option<int> {
    match action {
        ActionView::Probe { slot } => Some(slot),
        ActionView::Convert { slot, .. } => Some(slot),
        _ => None,
    }
}

/// What a scan under a held permit, followed by the conversion, does to
/// the pool and to the conversion.
proof fn lemma_scan_followed(
    state: PoolState,
    from: int,
    wake: Option<u64>,
    now: u64,
    content: Seq<u8>,
)
    requires
        state.scanning(),
        0 <= from <= state.slots.len(),
    ensures
        ({
            let (outcome, next) = scan_spec(state, from, wake, now);
            let (action, phase) = follow_scan(outcome, now, content);
            &&& next.wf()
            &&& next.slots.len() == state.slots.len()
            &&& held_slot(phase) == action_slot(action)
            &&& !(action is Return)
            &&& held_slot(phase) matches Some(slot) ==> {
                &&& from <= slot < state.slots.len()
                &&& !passed_over(state.slots[slot], now)
                &&& next.slots[slot].in_use
            }
            &&& forall|i: int|
                0 <= i < state.slots.len() && held_slot(phase) != Some(i) ==> #[trigger] next.slots[i]
                    == state.slots[i]
        }),
{
    lemma_scan_frame(state, from, wake, now);
    lemma_scan_keeps_wf(state, from, wake, now);
}

/// What a step of a conversion does to the pool and to the conversion.
///
/// The pool stays consistent and keeps its slots. The conversion holds no
/// slot afterwards or one that is in use, and it is that slot that the
/// caller is sent to. A slot that it comes to hold was not passed over. No
/// slot changes but one that the conversion holds before or after the
/// step. The step returns a result only from a conversion on a backend,
/// and then the conversion's slot and permit are given back.
proof fn lemma_step(
    state: PoolState,
    job: JobView,
    event: EventView,
    now: u64,
    config: LoadBalancerConfig,
)
    requires
        state.wf(),
        holds(state, job),
        expected(job.phase, event),
    ensures
        ({
            let (action, next, after) = convert_spec(state, job, event, now, config);
            &&& next.wf()
            &&& next.slots.len() == state.slots.len()
            &&& holds(next, after)
            &&& action is Return || held_slot(after.phase) == action_slot(action)
            &&& held_slot(after.phase) matches Some(slot) ==> {
                ||| held_slot(job.phase) == Some(slot)
                ||| !passed_over(state.slots[slot], now)
            }
            &&& forall|i: int|
                0 <= i < state.slots.len() && held_slot(job.phase) != Some(i) && held_slot(
                    after.phase,
                ) != Some(i) ==> #[trigger] next.slots[i] == state.slots[i]
            &&& action is Return ==> (job.phase matches PhaseView::Converting { slot } && {
                &&& next == release_spec(state, slot)
                &&& after.phase is Finished
            })
        }),
{
    let content = bytes_content(job.file);
    match (job.phase, event) {
        (PhaseView::Waiting, EventView::Ready) => {
            if state.permits_held < state.slots.len() {
                let taken = PoolState { permits_held: state.permits_held + 1, ..state };
                lemma_scan_followed(taken, 0, None, now, content);
            }
        },
        (PhaseView::Probing { slot: own, noted }, EventView::Probed { busy }) => {
            if busy {
                let until = (now + config.retry_busy_check_after) as u64;
                let marked = PoolState { slots: state.slots.update(own, resting(until)), ..state };
                lemma_leased_update(state.slots, own, resting(until));
                lemma_scan_followed(marked, own + 1, earlier(noted, until), now, content);
            }
        },
        (PhaseView::Converting { slot: own }, EventView::Converted(result)) => {
            let released = release_spec(state, own);
            lemma_release_keeps_wf(state, own);
            if goes_again(job.failed, config.retry_attempts as nat, result)
                && released.permits_held < released.slots.len() {
                let taken = PoolState { permits_held: released.permits_held + 1, ..released };
                lemma_scan_followed(taken, 0, None, now, content);
            }
        },
        _ => {},
    }
}

/// No more slots are in use than the pool has backends.
///
/// A conversion in flight holds a slot, and no slot is held twice. In a
/// consistent pool of `N` slots the slots in use are as many as the permits
/// held, and no more than `N`.
pub proof fn law_in_flight_bounded(state: PoolState)
    requires
        state.wf(),
    ensures
        leased(state.slots) == state.permits_held,
        state.permits_held <= state.slots.len(),
{
}

/// Every step of every conversion keeps the pool consistent, keeps its
/// number of slots, and leaves the conversion holding no slot or one that
/// is in use. So the bound on the slots in use holds in every state that
/// the pool can reach.
pub proof fn law_step_keeps_pool_consistent(
    state: PoolState,
    job: JobView,
    event: EventView,
    now: u64,
    config: LoadBalancerConfig,
)
    requires
        state.wf(),
        holds(state, job),
        expected(job.phase, event),
    ensures
        ({
            let (action, next, after) = convert_spec(state, job, event, now, config);
            &&& next.wf()
            &&& next.slots.len() == state.slots.len()
            &&& holds(next, after)
            &&& leased(next.slots) <= state.slots.len()
        }),
{
    lemma_step(state, job, event, now, config);
}

/// A conversion comes to hold only a slot that was not in use. With the
/// exclusive use of a slot in use, no two conversions hold the same slot.
pub proof fn law_slot_is_taken_free(
    state: PoolState,
    job: JobView,
    event: EventView,
    now: u64,
    config: LoadBalancerConfig,
)
    requires
        state.wf(),
        holds(state, job),
        expected(job.phase, event),
    ensures
        held_slot(convert_spec(state, job, event, now, config).2.phase) matches Some(slot) ==> {
            ||| held_slot(job.phase) == Some(slot)
            ||| 0 <= slot < state.slots.len() && !state.slots[slot].in_use
        },
{
    lemma_step(state, job, event, now, config);
}

/// A step of a conversion changes no slot but one that the conversion
/// holds before the step or after it. So what the pool remembers of a slot
/// is written only under the exclusive use of that slot.
pub proof fn law_only_held_slots_change(
    state: PoolState,
    job: JobView,
    event: EventView,
    now: u64,
    config: LoadBalancerConfig,
    slot: int,
)
    requires
        state.wf(),
        holds(state, job),
        expected(job.phase, event),
        0 <= slot < state.slots.len(),
        held_slot(job.phase) != Some(slot),
        held_slot(convert_spec(state, job, event, now, config).2.phase) != Some(slot),
    ensures
        convert_spec(state, job, event, now, config).1.slots[slot] == state.slots[slot],
{
    lemma_step(state, job, event, now, config);
}

/// A conversion that ends has given back its slot and its permit, whatever
/// its result: the step that returns the result leaves the conversion
/// holding nothing and the pool without the conversion's slot in use.
pub proof fn law_ended_conversion_holds_nothing(
    state: PoolState,
    job: JobView,
    event: EventView,
    now: u64,
    config: LoadBalancerConfig,
)
    requires
        state.wf(),
        holds(state, job),
        expected(job.phase, event),
        convert_spec(state, job, event, now, config).0 is Return,
    ensures
        job.phase matches PhaseView::Converting { slot } && {
            &&& convert_spec(state, job, event, now, config).1 == release_spec(state, slot)
            &&& !convert_spec(state, job, event, now, config).1.slots[slot].in_use
            &&& convert_spec(state, job, event, now, config).1.permits_held + 1
                == state.permits_held
            &&& convert_spec(state, job, event, now, config).2.phase is Finished
        },
{
    lemma_step(state, job, event, now, config);
    if let PhaseView::Converting { slot } = job.phase {
        lemma_leased_positive(state.slots, slot);
    }
}

/// With every permit held, an attempt to acquire a slot changes nothing
/// and tells the caller to wait.
pub proof fn law_saturated_pool_admits_none(state: PoolState, now: u64)
    requires
        state.wf(),
        state.permits_held == state.slots.len(),
    ensures
        try_acquire_spec(state, now) == (ScanView::Saturated, state),
{
}

/// A backend that answers "not busy" is acquired by the caller whose scan
/// held its slot for the probe, and the slot stays in use.
pub proof fn law_free_backend_is_acquired(
    state: PoolState,
    slot: int,
    wake: Option<u64>,
    now: u64,
    retry_busy_check_after: u64,
)
    requires
        0 <= slot < state.slots.len(),
        state.slots[slot].in_use,
    ensures
        probe_spec(state, slot, wake, false, now, retry_busy_check_after) == (
            ScanView::Acquired { slot },
            state,
        ),
        probe_spec(state, slot, wake, false, now, retry_busy_check_after).1.slots[slot].in_use,
{
}

/// A slot in use is exclusive: a step of any conversion that does not
/// hold the slot leaves it as it is, does not come to hold it, and does not
/// send its caller to the slot's backend.
pub proof fn law_slot_in_use_is_exclusive(
    state: PoolState,
    job: JobView,
    event: EventView,
    now: u64,
    config: LoadBalancerConfig,
    slot: int,
)
    requires
        state.wf(),
        holds(state, job),
        expected(job.phase, event),
        0 <= slot < state.slots.len(),
        state.slots[slot].in_use,
        held_slot(job.phase) != Some(slot),
    ensures
        ({
            let (action, next, after) = convert_spec(state, job, event, now, config);
            &&& next.slots[slot] == state.slots[slot]
            &&& held_slot(after.phase) != Some(slot)
            &&& action_slot(action) != Some(slot)
        }),
{
    lemma_step(state, job, event, now, config);
}

/// A scan that comes to a slot in use goes on to the next candidate behind
/// it.
pub proof fn law_scan_skips_slot_in_use(slots: Seq<SlotState>, slot: int, now: u64)
    requires
        0 <= slot < slots.len(),
        slots[slot].in_use,
    ensures
        next_candidate(slots, slot, now) == next_candidate(slots, slot + 1, now),
        next_candidate(slots, slot, now) > slot,
{
    lemma_candidate_is_first(slots, slot + 1, now);
}

/// A backend that answers "busy" at time `now`, or whose probe fails, is
/// left resting until `now + retry_busy_check_after`.
pub proof fn law_busy_backend_rests(
    state: PoolState,
    slot: int,
    wake: Option<u64>,
    now: u64,
    retry_busy_check_after: u64,
)
    requires
        0 <= slot < state.slots.len(),
        now + retry_busy_check_after <= u64::MAX,
    ensures
        probe_spec(state, slot, wake, true, now, retry_busy_check_after).1.slots[slot] == resting(
            (now + retry_busy_check_after) as u64,
        ),
{
    let until = (now + retry_busy_check_after) as u64;
    let marked = PoolState { slots: state.slots.update(slot, resting(until)), ..state };
    lemma_scan_frame(marked, slot + 1, earlier(wake, until), now);
    lemma_candidate_is_first(marked.slots, slot + 1, now);
}

/// A backend that rests until `until` is not probed before that time: a
/// step of any conversion at a time before `until` leaves the slot resting
/// and does not send its caller to the slot's backend.
pub proof fn law_resting_backend_is_not_probed(
    state: PoolState,
    job: JobView,
    event: EventView,
    now: u64,
    config: LoadBalancerConfig,
    slot: int,
    until: u64,
)
    requires
        state.wf(),
        holds(state, job),
        expected(job.phase, event),
        0 <= slot < state.slots.len(),
        state.slots[slot] == resting(until),
        now < until,
    ensures
        ({
            let (action, next, after) = convert_spec(state, job, event, now, config);
            &&& next.slots[slot] == resting(until)
            &&& held_slot(after.phase) != Some(slot)
            &&& action_slot(action) != Some(slot)
        }),
{
    lemma_step(state, job, event, now, config);
}

/// A wake time is noted and is no later than `time`.
pub open spec fn no_later(wake: Option<u64>, time: u64) -> bool {
    wake matches Some(noted) && noted <= time
}

/// The wake time noted over a range of slots is no later than the wake
/// time noted before and than the busy-check time of any slot in the range
/// that is not in use; and it is one of these times.
pub proof fn lemma_wake_is_earliest(slots: Seq<SlotState>, from: int, to: int, wake: Option<u64>)
    requires
        0 <= from <= to <= slots.len(),
    ensures
        wake matches Some(before) ==> no_later(wake_after(slots, from, to, wake), before),
        forall|i: int|
            from <= i < to && !slots[i].in_use ==> ((#[trigger] slots[i]).next_busy_check matches Some(
                until,
            ) ==> no_later(wake_after(slots, from, to, wake), until)),
        wake_after(slots, from, to, wake) == wake || exists|i: int|
            from <= i < to && !slots[i].in_use && #[trigger] slots[i].next_busy_check == wake_after(
                slots,
                from,
                to,
                wake,
            ),
    decreases to - from,
{
    if from < to {
        lemma_wake_is_earliest(slots, from, to - 1, wake);
        let before = wake_after(slots, from, to - 1, wake);
        let after = wake_after(slots, from, to, wake);
        assert(after == noted(before, slots[to - 1]));
        if after != before {
            assert(!slots[to - 1].in_use && slots[to - 1].next_busy_check == after);
        } else if before != wake {
            let i = choose|i: int|
                from <= i < to - 1 && !slots[i].in_use && #[trigger] slots[i].next_busy_check
                    == before;
            assert(from <= i < to && !slots[i].in_use && slots[i].next_busy_check == after);
        }
    }
}

/// With every backend resting, the caller sleeps until the earliest of
/// their busy-check times.
///
/// When no slot is in use and each rests until after `now`, an attempt to
/// acquire a slot leaves the pool as it is and ends busy outside the pool.
/// Its wake time is the busy-check time of one of the slots and no later
/// than that of any other, and the caller is told to sleep until then. The
/// caller then reports ready, and the next attempt looks at the pool anew.
pub proof fn law_all_resting_sleeps_until_earliest(state: PoolState, now: u64)
    requires
        state.wf(),
        state.slots.len() >= 1,
        forall|i: int|
            0 <= i < state.slots.len() ==> !(#[trigger] state.slots[i]).in_use && (
            state.slots[i].next_busy_check matches Some(until) && now < until),
    ensures
        try_acquire_spec(state, now).1 == state,
        try_acquire_spec(state, now).0 matches ScanView::BusyExternally { next_wake_time } && {
            &&& now < next_wake_time
            &&& acquire_spec(try_acquire_spec(state, now).0, now) == (AcquireView::SleepUntil {
                wake_time: next_wake_time,
            })
            &&& forall|i: int|
                0 <= i < state.slots.len() ==> ((#[trigger] state.slots[i]).next_busy_check matches Some(
                    until,
                ) && next_wake_time <= until)
            &&& exists|i: int|
                0 <= i < state.slots.len() && #[trigger] state.slots[i].next_busy_check == Some(
                    next_wake_time,
                )
        },
{
    let total = state.slots.len() as int;
    lemma_leased_none(state.slots);
    let taken = PoolState { permits_held: state.permits_held + 1, ..state };
    lemma_candidate_skips(state.slots, 0, total, now);
    lemma_wake_is_earliest(state.slots, 0, total, None);
    let wake = wake_after(state.slots, 0, total, None);
    assert(state.slots[0].next_busy_check is Some);
    assert(wake is Some);
    let i = choose|i: int|
        0 <= i < total && !state.slots[i].in_use && #[trigger] state.slots[i].next_busy_check
            == wake;
    assert(state.slots[i].next_busy_check == wake);
    assert(scan_spec(taken, 0, None, now).1 == state);
}

/// With every backend resting, a conversion that is ready is told to sleep
/// until the earliest of their busy-check times. The pool stays as it is
/// and the conversion stays waiting, so that it looks at the pool anew when
/// it reports ready after its sleep.
pub proof fn law_all_resting_conversion_sleeps(
    state: PoolState,
    job: JobView,
    now: u64,
    config: LoadBalancerConfig,
)
    requires
        state.wf(),
        state.slots.len() >= 1,
        job.phase is Waiting,
        forall|i: int|
            0 <= i < state.slots.len() ==> !(#[trigger] state.slots[i]).in_use && (
            state.slots[i].next_busy_check matches Some(until) && now < until),
    ensures
        convert_spec(state, job, EventView::Ready, now, config).1 == state,
        convert_spec(state, job, EventView::Ready, now, config).2 == job,
        convert_spec(state, job, EventView::Ready, now, config).0 matches ActionView::SleepUntil {
            wake_time,
        } && try_acquire_spec(state, now).0 == (ScanView::BusyExternally {
            next_wake_time: wake_time,
        }),
{
    law_all_resting_sleeps_until_earliest(state, now);
}

/// An attempt that gets a permit does not end busy inside the pool: a
/// permit is left only while some slot is not in use, and such a slot is
/// held for a probe or rests, which gives a wake time.
pub proof fn law_attempt_is_not_busy_internally(state: PoolState, now: u64)
    requires
        state.wf(),
    ensures
        !(try_acquire_spec(state, now).0 is BusyInternally),
{
    if state.permits_held < state.slots.len() {
        let total = state.slots.len() as int;
        lemma_some_slot_free(state.slots);
        let free = choose|i: int| 0 <= i < total && !(#[trigger] state.slots[i]).in_use;
        lemma_candidate_is_first(state.slots, 0, now);
        lemma_wake_is_earliest(state.slots, 0, total, None);
        if next_candidate(state.slots, 0, now) == total {
            assert(passed_over(state.slots[free], now));
        }
    }
}

/// The first slot at or after `from` that a scan at time `now` does not
/// pass over and whose backend answers "not busy", or the number of slots
/// if there is none. `busy` tells for each slot how its backend answers.
pub open spec fn first_free(
    slots: Seq<SlotState>,
    from: int,
    now: u64,
    busy: spec_fn(int) -> bool,
) -> int
    decreases slots.len() - from,
{
    if from < 0 || from >= slots.len() {
        slots.len() as int
    } else if !passed_over(slots[from], now) && !busy(from) {
        from
    } else {
        first_free(slots, from + 1, now, busy)
    }
}

/// The end of a scan that goes on from `from` under a held permit when
/// every probe is answered at time `now`, as `busy` tells.
pub open spec fn scan_end(
    state: PoolState,
    from: int,
    wake: Option<u64>,
    now: u64,
    busy: spec_fn(int) -> bool,
    retry_busy_check_after: u64,
) -> (ScanView, PoolState)
    decreases state.slots.len() - from,
{
    let slot = next_candidate(state.slots, from, now);
    if 0 <= from <= slot < state.slots.len() && busy(slot) {
        let until = (now + retry_busy_check_after) as u64;
        let held = scan_spec(state, from, wake, now).1;
        scan_end(
            PoolState { slots: held.slots.update(slot, resting(until)), ..held },
            slot + 1,
            earlier(wake_after(state.slots, from, slot + 1, wake), until),
            now,
            busy,
            retry_busy_check_after,
        )
    } else if 0 <= from <= slot < state.slots.len() {
        (ScanView::Acquired { slot }, scan_spec(state, from, wake, now).1)
    } else {
        scan_spec(state, from, wake, now)
    }
}

/// Each step of the scan whose end `scan_end` gives is a step of the pool:
/// where the scan holds a slot for a probe, its end is the end of the scan
/// that the answer of the probe leads to.
pub proof fn law_scan_end_follows_the_steps(
    state: PoolState,
    from: int,
    wake: Option<u64>,
    now: u64,
    busy: spec_fn(int) -> bool,
    retry_busy_check_after: u64,
)
    requires
        0 <= from <= state.slots.len(),
    ensures
        ({
            let (outcome, held) = scan_spec(state, from, wake, now);
            match outcome {
                ScanView::Probe { slot, noted } => {
                    let (answer, next) = probe_spec(
                        held,
                        slot,
                        noted,
                        busy(slot),
                        now,
                        retry_busy_check_after,
                    );
                    scan_end(state, from, wake, now, busy, retry_busy_check_after) == if busy(
                        slot,
                    ) {
                        scan_end(
                            PoolState {
                                slots: held.slots.update(
                                    slot,
                                    resting((now + retry_busy_check_after) as u64),
                                ),
                                ..held
                            },
                            slot + 1,
                            earlier(noted, (now + retry_busy_check_after) as u64),
                            now,
                            busy,
                            retry_busy_check_after,
                        )
                    } else {
                        (answer, next)
                    }
                },
                _ => scan_end(state, from, wake, now, busy, retry_busy_check_after) == (
                    outcome,
                    held,
                ),
            }
        }),
{
    lemma_candidate_is_first(state.slots, from, now);
}

/// Slots that agree from `from` on have the same first free slot from
/// there.
proof fn lemma_first_free_agrees(
    a: Seq<SlotState>,
    b: Seq<SlotState>,
    from: int,
    now: u64,
    busy: spec_fn(int) -> bool,
)
    requires
        a.len() == b.len(),
        0 <= from,
        forall|i: int| from <= i < a.len() ==> a[i] == b[i],
    ensures
        first_free(a, from, now, busy) == first_free(b, from, now, busy),
    decreases a.len() - from,
{
    if from < a.len() {
        lemma_first_free_agrees(a, b, from + 1, now, busy);
    }
}

/// The first free slot lies behind every slot that is passed over.
proof fn lemma_first_free_skips(
    slots: Seq<SlotState>,
    from: int,
    to: int,
    now: u64,
    busy: spec_fn(int) -> bool,
)
    requires
        0 <= from <= to <= slots.len(),
        forall|i: int| from <= i < to ==> passed_over(#[trigger] slots[i], now),
    ensures
        first_free(slots, from, now, busy) == first_free(slots, to, now, busy),
    decreases to - from,
{
    if from < to {
        lemma_first_free_skips(slots, from + 1, to, now, busy);
    }
}

/// The first free backend wins: a scan whose probes are all answered at
/// time `now` acquires the first slot, in the pool's order, that it does
/// not pass over and whose backend answers "not busy". Where there is no
/// such slot it acquires none.
pub proof fn law_first_free_backend_wins(
    state: PoolState,
    from: int,
    wake: Option<u64>,
    now: u64,
    busy: spec_fn(int) -> bool,
    retry_busy_check_after: u64,
)
    requires
        0 <= from <= state.slots.len(),
    ensures
        ({
            let outcome = scan_end(state, from, wake, now, busy, retry_busy_check_after).0;
            let slot = first_free(state.slots, from, now, busy);
            if slot < state.slots.len() {
                outcome == (ScanView::Acquired { slot })
            } else {
                outcome is BusyInternally || outcome is BusyExternally
            }
        }),
    decreases state.slots.len() - from,
{
    lemma_candidate_is_first(state.slots, from, now);
    let slot = next_candidate(state.slots, from, now);
    lemma_first_free_skips(state.slots, from, slot, now, busy);
    if slot < state.slots.len() && busy(slot) {
        let until = (now + retry_busy_check_after) as u64;
        let held = scan_spec(state, from, wake, now).1;
        let marked = PoolState { slots: held.slots.update(slot, resting(until)), ..held };
        lemma_first_free_agrees(state.slots, marked.slots, slot + 1, now, busy);
        law_first_free_backend_wins(
            marked,
            slot + 1,
            earlier(wake_after(state.slots, from, slot + 1, wake), until),
            now,
            busy,
            retry_busy_check_after,
        );
    }
}

/// A rejection is returned at once: when the first call to a backend ends
/// with an error that allows no retry, the conversion has made that one
/// call and ends with that error.
pub proof fn law_rejection_is_not_retried(
    retry_attempts: nat,
    results: Seq<Result<Bytes, RequestError>>,
)
    requires
        results.len() >= 1,
        results[0] matches Err(error) && !error.retryable(),
    ensures
        backend_calls(0, retry_attempts, results) == 1,
        convert_result(0, retry_attempts, results) == Some(results[0]),
{
}

/// Retries are bounded: when every call to a backend ends with an error
/// that allows a retry, a conversion that has `failed` failed attempts
/// behind it makes `retry_attempts - failed + 1` further calls and ends
/// with the error of the last of them.
proof fn lemma_retries_from(
    failed: nat,
    retry_attempts: nat,
    results: Seq<Result<Bytes, RequestError>>,
)
    requires
        failed <= retry_attempts,
        results.len() >= retry_attempts - failed + 1,
        forall|i: int|
            0 <= i < results.len() ==> (#[trigger] results[i] matches Err(error)
                && error.retryable()),
    ensures
        backend_calls(failed, retry_attempts, results) == retry_attempts - failed + 1,
        convert_result(failed, retry_attempts, results) == Some(results[retry_attempts - failed]),
    decreases retry_attempts - failed,
{
    assert(results[0] is Err);
    if failed < retry_attempts {
        let rest = results.drop_first();
        assert forall|i: int| 0 <= i < rest.len() implies (#[trigger] rest[i] matches Err(error)
            && error.retryable()) by {
            assert(rest[i] == results[i + 1]);
        }
        lemma_retries_from(failed + 1, retry_attempts, rest);
        assert(rest[retry_attempts - failed - 1] == results[retry_attempts - failed]);
    }
}

/// Retries are bounded: when every call to a backend ends with an error
/// that allows a retry, the conversion makes `retry_attempts + 1` calls and
/// ends with the error of the last of them.
pub proof fn law_retries_are_bounded(
    retry_attempts: nat,
    results: Seq<Result<Bytes, RequestError>>,
)
    requires
        results.len() >= retry_attempts + 1,
        forall|i: int|
            0 <= i < results.len() ==> (#[trigger] results[i] matches Err(error)
                && error.retryable()),
    ensures
        backend_calls(0, retry_attempts, results) == retry_attempts + 1,
        convert_result(0, retry_attempts, results) == Some(results[retry_attempts as int]),
{
    lemma_retries_from(0, retry_attempts, results);
}

} // verus!
