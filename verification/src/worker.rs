//! The worker's side: what becomes of one job that the broker hands out.
//!
//! A job is decoded by its tag and checked against the rules of its kind.
//! The arithmetic itself is left to the caller, who gets the decoded job
//! back; only a failure is something the broker hears of.

use crate::broker::{Job, JobView};
use crate::job::{
    decode_error_text, decode_job, job_type_of, operation_named, DecodeError, DecodeErrorView,
    JobPayload, JobPayloadView, MathArgs, Operation,
};
use vstd::prelude::*;
use vstd::string::StringExecFns;

verus! {

/// A computation that the rules of its kind forbid.
#[derive(Debug, Clone, Copy, PartialEq, Eq, Structural)]
pub enum DomainError {
    /// A division whose divisor is zero.
    DivisionByZero,
}

/// Why a job failed. The broker is told of the failure, and the worker goes
/// on with the next job.
#[derive(Debug, Clone, PartialEq, Eq)]
pub enum JobError {
    /// The job came without any argument.
    MissingArguments,
    /// The tag or the argument could not be read.
    Decode(DecodeError),
    /// The job was read, and asks for what cannot be computed.
    Domain(DomainError),
}

/// The model of a [`JobError`].
pub enum JobErrorView {
    MissingArguments,
    Decode(DecodeErrorView),
    Domain(DomainError),
}

impl View for JobError {
    type V = JobErrorView;

    open spec fn view(&self) -> JobErrorView {
        match self {
            JobError::MissingArguments => JobErrorView::MissingArguments,
            JobError::Decode(error) => JobErrorView::Decode(error@),
            JobError::Domain(error) => JobErrorView::Domain(*error),
        }
    }
}

/// Whether a binary64 bit pattern is a zero: all bits clear but, at most,
/// the sign.
pub open spec fn is_zero(bits: u64) -> bool {
    bits == 0 || bits == 0x8000_0000_0000_0000
}

/// What stands against carrying out a job, if anything does: a division
/// whose divisor is zero. Every other job can be carried out.
pub open spec fn domain_error(job: JobPayloadView) -> Option<DomainError> {
    if job.op == Operation::Divide && is_zero(job.args.b) {
        Some(DomainError::DivisionByZero)
    } else {
        None
    }
}

/// What becomes of a job that the broker handed out: the decoded job, which
/// may then be carried out, or the failure to report.
pub open spec fn handle(job: JobView) -> Result<JobPayloadView, JobErrorView> {
    if job.args.len() == 0 {
        Err(JobErrorView::MissingArguments)
    } else {
        match decode_job(job.kind, job.args[0]) {
            Err(error) => Err(JobErrorView::Decode(error)),
            Ok(payload) => match domain_error(payload) {
                Some(error) => Err(JobErrorView::Domain(error)),
                None => Ok(payload),
            },
        }
    }
}

/// The text of a domain error.
pub open spec fn domain_error_text(error: DomainError) -> Seq<char> {
    match error {
        DomainError::DivisionByZero => "Division by zero"@,
    }
}

/// The text of a job's failure.
pub open spec fn job_error_text(error: JobErrorView) -> Seq<char> {
    match error {
        JobErrorView::MissingArguments => "Job missing arguments"@,
        JobErrorView::Decode(inner) => "Failed to parse job payload: "@ + decode_error_text(inner),
        JobErrorView::Domain(inner) => domain_error_text(inner),
    }
}

/// The tags of the jobs that a worker takes, in the order of the variants.
pub open spec fn registered_tags() -> Seq<Seq<char>> {
    seq![
        job_type_of(Operation::Add),
        job_type_of(Operation::Subtract),
        job_type_of(Operation::Multiply),
        job_type_of(Operation::Divide),
    ]
}

/// Decides whether a division may be carried out: it may unless the divisor
/// is zero, of either sign.
pub fn handle_divide(args: &MathArgs) -> (checked: Result<(), DomainError>)
    ensures
        checked == (if is_zero(args.b) {
            Err::<(), DomainError>(DomainError::DivisionByZero)
        } else {
            Ok::<(), DomainError>(())
        }),
{
    if args.b == 0 || args.b == 0x8000_0000_0000_0000 {
        Err(DomainError::DivisionByZero)
    } else {
        Ok(())
    }
}

/// Checks a decoded job against the rules of its kind.
pub fn check_domain(payload: &JobPayload) -> (checked: Result<(), DomainError>)
    ensures
        checked == (match domain_error(payload@) {
            Some(error) => Err::<(), DomainError>(error),
            None => Ok::<(), DomainError>(()),
        }),
{
    match payload {
        JobPayload::Divide(args) => handle_divide(args),
        _ => Ok(()),
    }
}

/// Generic job handler: reads the job's first argument by the job's tag and
/// checks it against the rules of its kind.
///
/// `Ok` hands back the decoded job, which may be carried out; `Err` is the
/// failure that the broker is told of.
pub fn job_handler(job: Job) -> (outcome: Result<JobPayload, JobError>)
    ensures
        match outcome {
            Ok(payload) => handle(job@) == Ok::<JobPayloadView, JobErrorView>(payload@),
            Err(error) => handle(job@) == Err::<JobPayloadView, JobErrorView>(error@),
        },
{
    let Job { id: _, kind, args } = job;
    let mut args = args;
    if args.len() == 0 {
        return Err(JobError::MissingArguments);
    }
    let first = args.swap_remove(0);
    match JobPayload::from_job_type(kind.as_str(), first) {
        Err(error) => Err(JobError::Decode(error)),
        Ok(payload) => match check_domain(&payload) {
            Err(error) => Err(JobError::Domain(error)),
            Ok(()) => Ok(payload),
        },
    }
}

/// The tags to register a worker under: one for each kind of job.
pub fn registered_job_types() -> (tags: Vec<&'static str>)
    ensures
        tags@.len() == registered_tags().len(),
        forall|i: int| 0 <= i < tags@.len() ==> (#[trigger] tags@[i])@ == registered_tags()[i],
{
    let mut tags: Vec<&'static str> = Vec::with_capacity(4);
    tags.push(Operation::Add.job_type());
    tags.push(Operation::Subtract.job_type());
    tags.push(Operation::Multiply.job_type());
    tags.push(Operation::Divide.job_type());
    tags
}

impl DomainError {
    /// The text of this error.
    pub fn message(&self) -> (text: String)
        ensures
            text@ == domain_error_text(*self),
    {
        match self {
            DomainError::DivisionByZero => String::from_str("Division by zero"),
        }
    }
}

impl JobError {
    /// The text of this failure, as the broker is told it.
    pub fn message(&self) -> (text: String)
        ensures
            text@ == job_error_text(self@),
    {
        match self {
            JobError::MissingArguments => String::from_str("Job missing arguments"),
            JobError::Decode(error) => String::from_str("Failed to parse job payload: ").concat(
                error.message().as_str(),
            ),
            JobError::Domain(error) => error.message(),
        }
    }
}

/// Dispatch is total over the registered tags: a tag is read as a kind of
/// job if and only if it is one of the tags that a worker registers.
pub proof fn lemma_registered_tags_are_the_known_tags(tag: Seq<char>)
    ensures
        operation_named(tag) is Some <==> registered_tags().contains(tag),
{
    if registered_tags().contains(tag) {
        // each registered tag is the tag of a kind of job, and is read as it
        crate::job::lemma_tag_round_trip(Operation::Add);
        crate::job::lemma_tag_round_trip(Operation::Subtract);
        crate::job::lemma_tag_round_trip(Operation::Multiply);
        crate::job::lemma_tag_round_trip(Operation::Divide);
    }
    if operation_named(tag) is Some {
        // a tag that is read is the tag of its kind, which is registered
        let at: int = match operation_named(tag)->0 {
            Operation::Add => 0,
            Operation::Subtract => 1,
            Operation::Multiply => 2,
            Operation::Divide => 3,
        };
        assert(registered_tags()[at] == tag);
    }
}

} // verus!
