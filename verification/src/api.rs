//! The request interface: what a request asks of the pipeline, and what the
//! caller is told when it cannot be done.

use crate::batch::BatchConfig;
use crate::enqueue::{enqueue_error_text, EnqueueError, EnqueueErrorView};
use crate::job::JobPayload;
use vstd::prelude::*;
use vstd::string::StringExecFns;

verus! {

/// The status of a request that was taken.
pub const ACCEPTED: u16 = 202;

/// The status of a request that is refused as it stands.
pub const BAD_REQUEST: u16 = 400;

/// The status of a request that could not be carried out.
pub const INTERNAL_SERVER_ERROR: u16 = 500;

/// How a single job gets to the broker.
#[derive(Debug, Clone, Copy, PartialEq, Eq, Structural)]
pub enum Route {
    /// It is sent at once, over a connection of its own.
    Immediate,
    /// It joins the accumulator and is sent with a batch.
    Batched,
}

/// Why a request failed.
#[derive(Debug, Clone, PartialEq, Eq)]
pub enum Failure {
    /// A batch request without jobs.
    EmptyBatch,
    /// A single job could not be submitted.
    Enqueue(EnqueueError),
    /// A batch could not be submitted.
    EnqueueBatch(EnqueueError),
}

/// The model of a [`Failure`].
pub enum FailureView {
    EmptyBatch,
    Enqueue(EnqueueErrorView),
    EnqueueBatch(EnqueueErrorView),
}

impl View for Failure {
    type V = FailureView;

    open spec fn view(&self) -> FailureView {
        match self {
            Failure::EmptyBatch => FailureView::EmptyBatch,
            Failure::Enqueue(error) => FailureView::Enqueue(error@),
            Failure::EnqueueBatch(error) => FailureView::EnqueueBatch(error@),
        }
    }
}

/// The route that a configuration sends single jobs on.
pub open spec fn route_of(config: BatchConfig) -> Route {
    if config.auto_batch_enabled {
        Route::Batched
    } else {
        Route::Immediate
    }
}

/// The status that a failure is answered with: a request that holds nothing
/// is the caller's fault, and everything else is not.
pub open spec fn failure_status(failure: FailureView) -> u16 {
    match failure {
        FailureView::EmptyBatch => BAD_REQUEST,
        _ => INTERNAL_SERVER_ERROR,
    }
}

/// The text that a failure is answered with.
pub open spec fn failure_text(failure: FailureView) -> Seq<char> {
    match failure {
        FailureView::EmptyBatch => "Batch request must contain at least one job"@,
        FailureView::Enqueue(error) => "Failed to enqueue job: "@ + enqueue_error_text(error),
        FailureView::EnqueueBatch(error) => "Failed to enqueue batch jobs: "@
            + enqueue_error_text(error),
    }
}

/// The status that a request is answered with: taken, or the status of its
/// failure.
pub fn status<T>(outcome: &Result<T, Failure>) -> (code: u16)
    ensures
        code == (match outcome {
            Ok(_) => ACCEPTED,
            Err(failure) => failure_status(failure@),
        }),
{
    match outcome {
        Ok(_) => ACCEPTED,
        Err(failure) => failure.status(),
    }
}

/// Chooses the route of single jobs.
pub fn route(config: &BatchConfig) -> (chosen: Route)
    ensures
        chosen == route_of(*config),
{
    if config.auto_batch_enabled {
        Route::Batched
    } else {
        Route::Immediate
    }
}

/// Admits a batch request unless it holds no job.
pub fn admit_batch(jobs: &Vec<JobPayload>) -> (admitted: Result<(), Failure>)
    ensures
        admitted == (if jobs@.len() == 0 {
            Err::<(), Failure>(Failure::EmptyBatch)
        } else {
            Ok::<(), Failure>(())
        }),
{
    if jobs.len() == 0 {
        Err(Failure::EmptyBatch)
    } else {
        Ok(())
    }
}

impl Failure {
    /// The status that this failure is answered with.
    pub fn status(&self) -> (status: u16)
        ensures
            status == failure_status(self@),
    {
        match self {
            Failure::EmptyBatch => BAD_REQUEST,
            _ => INTERNAL_SERVER_ERROR,
        }
    }

    /// The text that this failure is answered with.
    pub fn message(&self) -> (text: String)
        ensures
            text@ == failure_text(self@),
    {
        match self {
            Failure::EmptyBatch => String::from_str("Batch request must contain at least one job"),
            Failure::Enqueue(error) => String::from_str("Failed to enqueue job: ").concat(
                error.message().as_str(),
            ),
            Failure::EnqueueBatch(error) => String::from_str(
                "Failed to enqueue batch jobs: ",
            ).concat(error.message().as_str()),
        }
    }
}

} // verus!
