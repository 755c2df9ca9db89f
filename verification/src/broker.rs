//! What is handed to the broker: a job under an identifier of its own.

use crate::job::{encode_args, job_type_of, JobPayload, JobPayloadView};
use crate::value::{views_of, Value, ValueView};
use vstd::prelude::*;
use vstd::string::StringExecFns;

verus! {

/// A job as the broker carries it: an identifier, the tag of its kind, and
/// its arguments.
#[derive(Debug, Clone, PartialEq)]
pub struct Job {
    pub id: String,
    pub kind: String,
    pub args: Vec<Value>,
}

/// The model of a [`Job`].
pub struct JobView {
    pub id: Seq<char>,
    pub kind: Seq<char>,
    pub args: Seq<ValueView>,
}

impl View for Job {
    type V = JobView;

    open spec fn view(&self) -> JobView {
        JobView { id: self.id@, kind: self.kind@, args: views_of(self.args@) }
    }
}

/// A letter of the English alphabet or a decimal digit.
pub open spec fn is_alphanumeric(c: char) -> bool {
    ('a' <= c && c <= 'z') || ('A' <= c && c <= 'Z') || ('0' <= c && c <= '9')
}

/// The shape of an identifier that the broker's client library draws:
/// sixteen letters and digits.
pub open spec fn is_job_id(id: Seq<char>) -> bool {
    &&& id.len() == 16
    &&& forall|i: int| 0 <= i < id.len() ==> is_alphanumeric(#[trigger] id[i])
}

/// The job that carries `payload` under the identifier `id`: the tag of its
/// kind, and its encoded arguments as the one argument.
pub open spec fn job_for(payload: JobPayloadView, id: Seq<char>) -> JobView {
    JobView { id, kind: job_type_of(payload.op), args: seq![encode_args(payload.args)] }
}

/// Draws a fresh job identifier with `faktory::JobId::random`.
///
/// The identifier is random, so nothing is said of which one comes back: only
/// that it is sixteen characters long and that each is an ASCII letter or
/// digit. That much holds of every identifier, since the client library makes
/// one of sixteen samples of `rand::distributions::Alphanumeric`.
#[verifier::external_body]
pub(crate) fn random_job_id() -> (id: String)
    ensures
        is_job_id(id@),
{
    faktory::JobId::random().to_string()
}

impl Job {
    /// Makes the job that carries `payload` under the identifier `id`.
    pub fn with_id(payload: &JobPayload, id: String) -> (job: Job)
        ensures
            job@ == job_for(payload@, id@),
            job.id == id,
    {
        let mut args: Vec<Value> = Vec::with_capacity(1);
        args.push(payload.math_args().to_value());
        let job = Job { id, kind: String::from_str(payload.job_type()), args };
        proof {
            assert(job@.args =~= seq![encode_args(payload@.args)]);
        }
        job
    }

    /// Makes the job that carries `payload` under a fresh random identifier.
    pub fn create(payload: &JobPayload) -> (job: Job)
        ensures
            is_job_id(job@.id),
            job@ == job_for(payload@, job@.id),
    {
        Job::with_id(payload, random_job_id())
    }
}

} // verus!
