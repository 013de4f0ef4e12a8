//! The orchestration around one conversion: what to do with the outcome of
//! an attempt to acquire a slot, and when a failed conversion is tried
//! again.

use crate::client::RequestError;
use crate::load::model::ScanView;
use crate::load::pool::{SlotLease, TryAcquireResult};
use crate::payload::{bytes_content, share};
use bytes::Bytes;
use vstd::prelude::*;

verus! {

/// What a caller does after an attempt to acquire a slot has ended.
#[derive(Debug)]
pub enum AcquireStep {
    /// The caller holds a slot: convert on its backend.
    Acquired(SlotLease),
    /// Try again at once.
    RetryNow,
    /// Wait until the given time, then try again.
    SleepUntil(u64),
}

/// What a caller does after an attempt to acquire a slot has ended, as a
/// plain value.
pub enum AcquireView {
    Acquired { slot: int },
    RetryNow,
    SleepUntil { wake_time: u64 },
}

impl View for AcquireStep {
    type V = AcquireView;

    open spec fn view(&self) -> AcquireView {
        match *self {
            AcquireStep::Acquired(lease) => AcquireView::Acquired { slot: lease.slot() as int },
            AcquireStep::RetryNow => AcquireView::RetryNow,
            AcquireStep::SleepUntil(wake_time) => AcquireView::SleepUntil { wake_time },
        }
    }
}

/// What follows, at time `now`, from the end of an attempt to acquire a
/// slot. An attempt that ended busy inside the pool is repeated at once.
/// One that ended busy outside is repeated at its wake time, or at once if
/// that time has passed.
pub open spec fn acquire_spec(outcome: ScanView, now: u64) -> AcquireView {
    match outcome {
        ScanView::Acquired { slot } => AcquireView::Acquired { slot },
        ScanView::BusyExternally { next_wake_time } if now <= next_wake_time => AcquireView::SleepUntil {
            wake_time: next_wake_time,
        },
        _ => AcquireView::RetryNow,
    }
}

/// Decides, at time `now`, how a caller goes on after an attempt to acquire
/// a slot has ended with `outcome`.
pub fn acquire_client(outcome: TryAcquireResult, now: u64) -> (step: AcquireStep)
    ensures
        step@ == acquire_spec(outcome@, now),
{
    match outcome {
        TryAcquireResult::Acquired { client } => AcquireStep::Acquired(client),
        TryAcquireResult::BusyInternally => AcquireStep::RetryNow,
        TryAcquireResult::BusyExternally { next_wake_time } => {
            if now > next_wake_time {
                AcquireStep::RetryNow
            } else {
                AcquireStep::SleepUntil(next_wake_time)
            }
        },
    }
}

/// What follows from the result of one conversion on a backend.
#[derive(Debug)]
pub enum ConvertStep {
    /// The conversion is over with this result.
    Return(Result<Bytes, RequestError>),
    /// Acquire a slot again and convert once more.
    Retry,
}

/// After `failed` failed attempts, a conversion with the result `result`
/// is tried again: the result is an error that allows it, and fewer than
/// `retry_attempts` retries were used.
pub open spec fn goes_again(
    failed: nat,
    retry_attempts: nat,
    result: Result<Bytes, RequestError>,
) -> bool {
    result matches Err(error) && error.retryable() && failed < retry_attempts
}

/// What follows from `result` after `failed` failed attempts.
pub open spec fn convert_step_spec(
    failed: nat,
    retry_attempts: nat,
    result: Result<Bytes, RequestError>,
) -> ConvertStep {
    if goes_again(failed, retry_attempts, result) {
        ConvertStep::Retry
    } else {
        ConvertStep::Return(result)
    }
}

/// Number of calls to a backend that a conversion makes when it has
/// `failed` failed attempts behind it and its further calls end with
/// `results`, in this order.
pub open spec fn backend_calls(
    failed: nat,
    retry_attempts: nat,
    results: Seq<Result<Bytes, RequestError>>,
) -> nat
    decreases results.len(),
{
    if results.len() == 0 {
        0
    } else if goes_again(failed, retry_attempts, results[0]) {
        1 + backend_calls(failed + 1, retry_attempts, results.drop_first())
    } else {
        1
    }
}

/// The result of a conversion that has `failed` failed attempts behind it
/// and whose further calls end with `results`, in this order; `None` while
/// the conversion still goes on after the last of them.
pub open spec fn convert_result(
    failed: nat,
    retry_attempts: nat,
    results: Seq<Result<Bytes, RequestError>>,
) -> Option<Result<Bytes, RequestError>>
    decreases results.len(),
{
    if results.len() == 0 {
        None
    } else if goes_again(failed, retry_attempts, results[0]) {
        convert_result(failed + 1, retry_attempts, results.drop_first())
    } else {
        Some(results[0])
    }
}

/// One conversion on its way through the pool: the document, and how many
/// attempts have failed.
#[derive(Debug)]
pub struct ConvertAttempts {
    file: Bytes,
    failed: usize,
}

impl ConvertAttempts {
    /// The document to convert.
    pub closed spec fn file(&self) -> Bytes {
        self.file
    }

    /// Number of attempts that have failed and were followed by another.
    pub closed spec fn failed(&self) -> nat {
        self.failed as nat
    }

    /// A conversion of `file` that has not been attempted.
    pub fn new(file: Bytes) -> (attempts: Self)
        ensures
            attempts.file() == file,
            attempts.failed() == 0,
    {
        ConvertAttempts { file, failed: 0 }
    }

    /// The document for the next attempt. The conversion keeps its own
    /// handle, so that a failed attempt does not use the document up.
    pub fn input(&self) -> (file: Bytes)
        ensures
            bytes_content(file) == bytes_content(self.file()),
    {
        share(&self.file)
    }

    /// Takes in the result of one conversion on a backend.
    ///
    /// A document is returned, and so is an error that allows no retry.
    /// After an error that allows one, the conversion is tried again until
    /// `retry_attempts` retries are used up; then that error is returned.
    pub fn on_result(&mut self, result: Result<Bytes, RequestError>, retry_attempts: usize) -> (step:
        ConvertStep)
        ensures
            step == convert_step_spec(old(self).failed(), retry_attempts as nat, result),
            final(self).file() == old(self).file(),
            final(self).failed() == old(self).failed() + if step is Retry { 1nat } else { 0nat },
    {
        let again = match &result {
            Ok(_) => false,
            Err(error) => error.is_retry() && self.failed < retry_attempts,
        };
        if again {
            self.failed = self.failed + 1;
            ConvertStep::Retry
        } else {
            ConvertStep::Return(result)
        }
    }
}

} // verus!
