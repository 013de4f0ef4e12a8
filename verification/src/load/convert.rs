//! One conversion, step by step: the load balancer decides and the caller
//! acts. The caller waits, probes and converts as it is told, and reports
//! back what came of it.

use crate::client::RequestError;
use crate::load::config::LoadBalancerConfig;
use crate::load::model::{probe_spec, release_spec, try_acquire_spec, PoolState, ScanView};
use crate::load::pool::{reports_busy, OfficeConvertLoadBalancer, Scan, ScanStep, SlotLease};
use crate::load::retry::{
    acquire_client, acquire_spec, goes_again, AcquireStep, AcquireView, ConvertAttempts,
    ConvertStep,
};
use crate::payload::bytes_content;
use bytes::Bytes;
use vstd::prelude::*;

verus! {

/// Where a conversion stands.
#[derive(Debug)]
pub enum Phase {
    /// It holds nothing and looks for a backend when the caller is ready.
    Waiting,
    /// It holds a slot and a permit, and the slot's backend is being probed.
    Probing(Scan),
    /// It holds a slot and a permit, and the slot's backend converts.
    Converting(SlotLease),
    /// It is over.
    Finished,
}

/// Where a conversion stands, as a plain value.
pub enum PhaseView {
    Waiting,
    Probing { slot: int, noted: Option<u64> },
    Converting { slot: int },
    Finished,
}

impl View for Phase {
    type V = PhaseView;

    open spec fn view(&self) -> PhaseView {
        match *self {
            Phase::Waiting => PhaseView::Waiting,
            Phase::Probing(scan) => PhaseView::Probing { slot: scan.slot() as int, noted: scan.noted() },
            Phase::Converting(lease) => PhaseView::Converting { slot: lease.slot() as int },
            Phase::Finished => PhaseView::Finished,
        }
    }
}

/// One conversion on its way through the pool.
#[derive(Debug)]
pub struct ConvertJob {
    attempts: ConvertAttempts,
    phase: Phase,
}

/// One conversion, as a plain value.
pub struct JobView {
    /// The document to convert.
    pub file: Bytes,
    /// Number of attempts that have failed and were followed by another.
    pub failed: nat,
    /// Where the conversion stands.
    pub phase: PhaseView,
}

impl View for ConvertJob {
    type V = JobView;

    closed spec fn view(&self) -> JobView {
        JobView { file: self.attempts.file(), failed: self.attempts.failed(), phase: self.phase@ }
    }
}

/// What the caller reports to the load balancer.
#[derive(Debug)]
pub enum ConvertEvent<E> {
    /// The caller is ready to look for a backend: at the start, and after
    /// each wait that it was told to make.
    Ready,
    /// The probe of the backend has answered, or has failed.
    Probed(Result<bool, E>),
    /// The conversion on the backend has ended.
    Converted(Result<Bytes, RequestError>),
}

/// What the caller reports, as a plain value.
pub enum EventView {
    Ready,
    Probed { busy: bool },
    Converted(Result<Bytes, RequestError>),
}

impl<E> View for ConvertEvent<E> {
    type V = EventView;

    open spec fn view(&self) -> EventView {
        match *self {
            ConvertEvent::Ready => EventView::Ready,
            ConvertEvent::Probed(probe) => EventView::Probed { busy: reports_busy(probe) },
            ConvertEvent::Converted(result) => EventView::Converted(result),
        }
    }
}

/// What the caller does next.
#[derive(Debug)]
pub enum ConvertAction {
    /// Wait until a permit is released, then report ready.
    WaitForPermit,
    /// Report ready at once.
    RetryNow,
    /// Wait until the given time, then report ready.
    SleepUntil(u64),
    /// Probe the backend at `slot` and report its answer.
    Probe { slot: usize },
    /// Convert `file` on the backend at `slot` and report the result.
    Convert { slot: usize, file: Bytes },
    /// The conversion is over with this result.
    Return(Result<Bytes, RequestError>),
}

/// What the caller does next, as a plain value.
pub enum ActionView {
    WaitForPermit,
    RetryNow,
    SleepUntil { wake_time: u64 },
    Probe { slot: int },
    Convert { slot: int, content: Seq<u8> },
    Return(Result<Bytes, RequestError>),
}

impl View for ConvertAction {
    type V = ActionView;

    open spec fn view(&self) -> ActionView {
        match *self {
            ConvertAction::WaitForPermit => ActionView::WaitForPermit,
            ConvertAction::RetryNow => ActionView::RetryNow,
            ConvertAction::SleepUntil(wake_time) => ActionView::SleepUntil { wake_time },
            ConvertAction::Probe { slot } => ActionView::Probe { slot: slot as int },
            ConvertAction::Convert { slot, file } => ActionView::Convert {
                slot: slot as int,
                content: bytes_content(file),
            },
            ConvertAction::Return(result) => ActionView::Return(result),
        }
    }
}

/// The event is one that a conversion in this phase waits for.
pub open spec fn expected(phase: PhaseView, event: EventView) -> bool {
    match (phase, event) {
        (PhaseView::Waiting, EventView::Ready) => true,
        (PhaseView::Probing { .. }, EventView::Probed { .. }) => true,
        (PhaseView::Converting { .. }, EventView::Converted(_)) => true,
        _ => false,
    }
}

/// The slot, if any, that a conversion in this phase holds.
pub open spec fn held_slot(phase: PhaseView) -> Option<int> {
    match phase {
        PhaseView::Probing { slot, .. } => Some(slot),
        PhaseView::Converting { slot } => Some(slot),
        _ => None,
    }
}

/// The conversion holds no slot, or one of the pool that is in use.
pub open spec fn holds(state: PoolState, job: JobView) -> bool {
    held_slot(job.phase) matches Some(slot) ==> 0 <= slot < state.slots.len()
        && state.slots[slot].in_use
}

/// What a conversion of a document with the bytes `content` does, at time
/// `now`, when a step of a scan has handed it `outcome`: the caller's next
/// action and the conversion's next phase.
pub open spec fn follow_scan(outcome: ScanView, now: u64, content: Seq<u8>) -> (
    ActionView,
    PhaseView,
) {
    match outcome {
        ScanView::Saturated => (ActionView::WaitForPermit, PhaseView::Waiting),
        ScanView::Probe { slot, noted } => (
            ActionView::Probe { slot },
            PhaseView::Probing { slot, noted },
        ),
        _ => match acquire_spec(outcome, now) {
            AcquireView::Acquired { slot } => (
                ActionView::Convert { slot, content },
                PhaseView::Converting { slot },
            ),
            AcquireView::RetryNow => (ActionView::RetryNow, PhaseView::Waiting),
            AcquireView::SleepUntil { wake_time } => (
                ActionView::SleepUntil { wake_time },
                PhaseView::Waiting,
            ),
        },
    }
}

/// One step of a conversion: from the pool, the conversion and what the
/// caller reports at time `now` to the caller's next action, the pool and
/// the conversion after the step.
///
/// A conversion that is ready tries to acquire a slot. One whose probe has
/// answered goes on with its scan. One whose backend has finished gives back
/// its slot and permit; it then ends with the result, or, after an error
/// that allows a retry and with retries left, tries to acquire a slot again.
pub open spec fn convert_spec(
    state: PoolState,
    job: JobView,
    event: EventView,
    now: u64,
    config: LoadBalancerConfig,
) -> (ActionView, PoolState, JobView) {
    let content = bytes_content(job.file);
    match (job.phase, event) {
        (PhaseView::Waiting, EventView::Ready) => {
            let (outcome, next) = try_acquire_spec(state, now);
            let (action, phase) = follow_scan(outcome, now, content);
            (action, next, JobView { phase, ..job })
        },
        (PhaseView::Probing { slot, noted }, EventView::Probed { busy }) => {
            let (outcome, next) = probe_spec(
                state,
                slot,
                noted,
                busy,
                now,
                config.retry_busy_check_after,
            );
            let (action, phase) = follow_scan(outcome, now, content);
            (action, next, JobView { phase, ..job })
        },
        (PhaseView::Converting { slot }, EventView::Converted(result)) => {
            let released = release_spec(state, slot);
            if goes_again(job.failed, config.retry_attempts as nat, result) {
                let (outcome, next) = try_acquire_spec(released, now);
                let (action, phase) = follow_scan(outcome, now, content);
                (action, next, JobView { failed: job.failed + 1, phase, ..job })
            } else {
                (
                    ActionView::Return(result),
                    released,
                    JobView { phase: PhaseView::Finished, ..job },
                )
            }
        },
        _ => (ActionView::RetryNow, state, job),
    }
}

impl ConvertJob {
    /// A conversion of `file` that has not started.
    pub fn new(file: Bytes) -> (job: Self)
        ensures
            job@ == (JobView { file, failed: 0, phase: PhaseView::Waiting }),
    {
        ConvertJob { attempts: ConvertAttempts::new(file), phase: Phase::Waiting }
    }

    /// Whether the conversion is over.
    pub fn is_finished(&self) -> (finished: bool)
        ensures
            finished == (self@.phase is Finished),
    {
        match self.phase {
            Phase::Finished => true,
            _ => false,
        }
    }

    /// Whether `event` is one that the conversion waits for.
    pub fn expects<E>(&self, event: &ConvertEvent<E>) -> (expects: bool)
        ensures
            expects == expected(self@.phase, event@),
    {
        match (&self.phase, event) {
            (Phase::Waiting, ConvertEvent::Ready) => true,
            (Phase::Probing(_), ConvertEvent::Probed(_)) => true,
            (Phase::Converting(_), ConvertEvent::Converted(_)) => true,
            _ => false,
        }
    }

    /// Acts on what a step of a scan has handed to the conversion.
    fn follow(&mut self, step: ScanStep, now: u64) -> (action: ConvertAction)
        ensures
            action@ == follow_scan(step@, now, bytes_content(old(self)@.file)).0,
            final(self)@.phase == follow_scan(step@, now, bytes_content(old(self)@.file)).1,
            final(self)@.file == old(self)@.file,
            final(self)@.failed == old(self)@.failed,
    {
        match step {
            ScanStep::Saturated => {
                self.phase = Phase::Waiting;
                ConvertAction::WaitForPermit
            },
            ScanStep::Probe(scan) => {
                let slot = scan.slot();
                self.phase = Phase::Probing(scan);
                ConvertAction::Probe { slot }
            },
            ScanStep::Done(outcome) => match acquire_client(outcome, now) {
                AcquireStep::Acquired(lease) => {
                    let slot = lease.slot();
                    let file = self.attempts.input();
                    self.phase = Phase::Converting(lease);
                    ConvertAction::Convert { slot, file }
                },
                AcquireStep::RetryNow => {
                    self.phase = Phase::Waiting;
                    ConvertAction::RetryNow
                },
                AcquireStep::SleepUntil(wake_time) => {
                    self.phase = Phase::Waiting;
                    ConvertAction::SleepUntil(wake_time)
                },
            },
        }
    }
}

impl<C> OfficeConvertLoadBalancer<C> {
    /// The conversion holds no slot, or one of this pool that is in use.
    pub open spec fn holds(&self, job: ConvertJob) -> bool {
        holds(self@, job@)
    }

    /// Takes the conversion `job` one step further, at time `now`, on what
    /// the caller reports in `event`, and tells the caller what to do next.
    ///
    /// The caller starts a conversion by reporting that it is ready. It
    /// then does what each step tells it and reports the outcome, until a
    /// step returns the conversion's result.
    pub fn convert<E>(&mut self, job: &mut ConvertJob, event: ConvertEvent<E>, now: u64) -> (action:
        ConvertAction)
        requires
            old(self).wf(),
            old(self).holds(*old(job)),
            expected(old(job)@.phase, event@),
            event is Probed ==> now + old(self).config().retry_busy_check_after <= u64::MAX,
        ensures
            final(self).wf(),
            final(self).backends() == old(self).backends(),
            final(self).config() == old(self).config(),
            final(self).holds(*final(job)),
            action@ == convert_spec(old(self)@, old(job)@, event@, now, old(self).config()).0,
            final(self)@ == convert_spec(old(self)@, old(job)@, event@, now, old(self).config()).1,
            final(job)@ == convert_spec(old(self)@, old(job)@, event@, now, old(self).config()).2,
    {
        let mut phase = Phase::Waiting;
        std::mem::swap(&mut job.phase, &mut phase);
        match (phase, event) {
            (Phase::Waiting, ConvertEvent::Ready) => {
                let step = self.try_acquire_client(now);
                job.follow(step, now)
            },
            (Phase::Probing(scan), ConvertEvent::Probed(probe)) => {
                let step = self.on_probe(scan, probe, now);
                job.follow(step, now)
            },
            (Phase::Converting(lease), ConvertEvent::Converted(result)) => {
                self.release(lease);
                match job.attempts.on_result(result, self.config().retry_attempts) {
                    ConvertStep::Return(result) => {
                        job.phase = Phase::Finished;
                        ConvertAction::Return(result)
                    },
                    ConvertStep::Retry => {
                        let step = self.try_acquire_client(now);
                        job.follow(step, now)
                    },
                }
            },
            (other, _) => {
                job.phase = other;
                ConvertAction::RetryNow
            },
        }
    }

    /// Whether the conversion holds no slot, or one of this pool that is
    /// in use.
    pub fn check_holds(&self, job: &ConvertJob) -> (holds: bool)
        ensures
            holds == self.holds(*job),
    {
        match &job.phase {
            Phase::Probing(scan) => scan.slot() < self.len() && self.in_use(scan.slot()),
            Phase::Converting(lease) => lease.slot() < self.len() && self.in_use(lease.slot()),
            _ => true,
        }
    }

    /// Ends the conversion `job` where it stands, for a caller that gives
    /// up: a slot that the conversion holds is freed and its permit given
    /// back.
    pub fn cancel(&mut self, job: ConvertJob)
        requires
            old(self).wf(),
            old(self).holds(job),
        ensures
            final(self).wf(),
            final(self).backends() == old(self).backends(),
            final(self).config() == old(self).config(),
            final(self)@ == match held_slot(job@.phase) {
                Some(slot) => release_spec(old(self)@, slot),
                None => old(self)@,
            },
    {
        match job.phase {
            Phase::Probing(scan) => self.abandon(scan),
            Phase::Converting(lease) => self.release(lease),
            _ => {},
        }
    }
}

} // verus!
