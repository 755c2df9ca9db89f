//! The enqueue pipeline: how jobs get to the broker over a pooled connection.
//!
//! Getting a connection and writing to the broker are the caller's work. The
//! pipeline decides what is to be done next: it asks for one connection, hands
//! out the jobs one after the other, and says how the submission ended. The
//! caller carries out each step and reports how it went.

use crate::batch::BatchQueue;
use crate::broker::{is_job_id, job_for, random_job_id, Job, JobView};
use crate::job::JobPayload;
use std::collections::VecDeque;
use vstd::prelude::*;
use vstd::string::StringExecFns;

verus! {

/// How many connections to the broker the pool holds at most.
pub const POOL_MAX_SIZE: usize = 50;

/// The pool could not hand out a connection.
#[derive(Debug, Clone, PartialEq, Eq)]
pub struct ConnectionError {
    /// What the pool said.
    pub detail: String,
}

/// Why a submission failed.
#[derive(Debug, Clone, PartialEq, Eq)]
pub enum EnqueueError {
    /// No connection could be had.
    Connection(ConnectionError),
    /// The broker did not take the job; what its client said is kept.
    Write(String),
    /// The broker did not take a job of a batch; what its client said is kept.
    BatchWrite(String),
}

/// The model of an [`EnqueueError`].
pub enum EnqueueErrorView {
    Connection(Seq<char>),
    Write(Seq<char>),
    BatchWrite(Seq<char>),
}

impl View for EnqueueError {
    type V = EnqueueErrorView;

    open spec fn view(&self) -> EnqueueErrorView {
        match self {
            EnqueueError::Connection(error) => EnqueueErrorView::Connection(error.detail@),
            EnqueueError::Write(detail) => EnqueueErrorView::Write(detail@),
            EnqueueError::BatchWrite(detail) => EnqueueErrorView::BatchWrite(detail@),
        }
    }
}

/// A submission under way: the jobs that are still to be handed out, and
/// what the caller gets once the broker has taken them all.
pub struct Submission<T> {
    pending: VecDeque<Job>,
    connected: bool,
    batch: bool,
    receipt: T,
}

/// The model of a [`Submission`].
pub struct SubmissionView<T> {
    /// The jobs that are still to be handed out, next first.
    pub pending: Seq<JobView>,
    /// Whether the connection has been had.
    pub connected: bool,
    /// Whether the submission is one of a batch.
    pub batch: bool,
    /// What the caller gets once the broker has taken every job.
    pub receipt: T,
}

/// What the caller is to do next.
pub enum Step<T> {
    /// Get one connection from the pool, and keep it until the end.
    Acquire(Submission<T>),
    /// Write this job to the broker over the connection.
    Send(Submission<T>, Job),
    /// Give the connection back, if there is one: the submission has ended.
    Done(Result<T, EnqueueError>),
}

/// The model of a [`Step`].
pub enum StepView<T> {
    Acquire(SubmissionView<T>),
    Send(SubmissionView<T>, JobView),
    Done(Result<T, EnqueueErrorView>),
}

/// The models of a sequence of jobs, one for one.
pub open spec fn job_views(jobs: Seq<Job>) -> Seq<JobView> {
    Seq::new(jobs.len(), |i: int| jobs[i]@)
}

impl<T> View for Submission<T> {
    type V = SubmissionView<T>;

    closed spec fn view(&self) -> SubmissionView<T> {
        SubmissionView {
            pending: job_views(self.pending@),
            connected: self.connected,
            batch: self.batch,
            receipt: self.receipt,
        }
    }
}

impl<T> View for Step<T> {
    type V = StepView<T>;

    open spec fn view(&self) -> StepView<T> {
        match self {
            Step::Acquire(submission) => StepView::Acquire(submission@),
            Step::Send(submission, job) => StepView::Send(submission@, job@),
            Step::Done(Ok(receipt)) => StepView::Done(Ok(*receipt)),
            Step::Done(Err(error)) => StepView::Done(Err(error@)),
        }
    }
}

/// The first step of a submission. Without jobs there is nothing to get a
/// connection for, and the submission has ended well; else the connection
/// comes first.
pub open spec fn begin<T>(jobs: Seq<JobView>, batch: bool, receipt: T) -> StepView<T> {
    if jobs.len() == 0 {
        StepView::Done(Ok(receipt))
    } else {
        StepView::Acquire(SubmissionView { pending: jobs, connected: false, batch, receipt })
    }
}

/// The failure that ends a submission whose last step went wrong.
pub open spec fn failure<T>(submission: SubmissionView<T>, detail: Seq<char>) -> EnqueueErrorView {
    if !submission.connected {
        EnqueueErrorView::Connection(detail)
    } else if submission.batch {
        EnqueueErrorView::BatchWrite(detail)
    } else {
        EnqueueErrorView::Write(detail)
    }
}

/// The step that follows, given how the last one went. A failure ends the
/// submission at once. After a success the next job is handed out, and when
/// none is left the submission has ended well.
pub open spec fn resume<T>(submission: SubmissionView<T>, outcome: Result<(), Seq<char>>) -> StepView<
    T,
> {
    match outcome {
        Err(detail) => StepView::Done(Err(failure(submission, detail))),
        Ok(()) => if submission.pending.len() == 0 {
            StepView::Done(Ok(submission.receipt))
        } else {
            StepView::Send(
                SubmissionView {
                    pending: submission.pending.drop_first(),
                    connected: true,
                    batch: submission.batch,
                    receipt: submission.receipt,
                },
                submission.pending[0],
            )
        },
    }
}

/// The text of a submission's failure.
pub open spec fn enqueue_error_text(error: EnqueueErrorView) -> Seq<char> {
    match error {
        EnqueueErrorView::Connection(_) => "Failed to get Faktory connection from pool"@,
        EnqueueErrorView::Write(_) => "Failed to enqueue job"@,
        EnqueueErrorView::BatchWrite(_) => "Failed to enqueue job in batch"@,
    }
}

/// The jobs carry the payloads, one for one and in order, each under the
/// identifier at its place, and each identifier has the shape of a drawn one.
pub open spec fn carries(jobs: Seq<JobView>, payloads: Seq<JobPayload>, ids: Seq<String>) -> bool {
    &&& jobs.len() == payloads.len()
    &&& ids.len() == payloads.len()
    &&& forall|i: int|
        0 <= i < payloads.len() ==> #[trigger] jobs[i] == job_for(payloads[i]@, ids[i]@)
            && is_job_id(ids[i]@)
}

impl<T> Submission<T> {
    /// How many jobs are still to be handed out.
    pub fn remaining(&self) -> (count: usize)
        ensures
            count == self@.pending.len(),
    {
        self.pending.len()
    }

    /// Begins the submission of `jobs`, in their order, for which the caller
    /// gets `receipt` once the broker has taken them all.
    pub fn begin(jobs: Vec<Job>, batch: bool, receipt: T) -> (step: Step<T>)
        ensures
            step@ == begin(job_views(jobs@), batch, receipt),
    {
        if jobs.len() == 0 {
            return Step::Done(Ok(receipt));
        }
        let ghost all = jobs@;
        let mut pending: VecDeque<Job> = VecDeque::with_capacity(jobs.len());
        for job in it: jobs
            invariant
                it.seq() == all,
                pending@ == all.subrange(0, it.index() as int),
        {
            pending.push_back(job);
        }
        assert(pending@ =~= all);
        Step::Acquire(Submission { pending, connected: false, batch, receipt })
    }

    /// Takes the outcome of the step that was asked for last, which is `Ok`
    /// or what the pool or the broker's client said, and gives the next step.
    pub fn resume(self, outcome: Result<(), String>) -> (step: Step<T>)
        ensures
            step@ == resume(
                self@,
                match outcome {
                    Ok(()) => Ok::<(), Seq<char>>(()),
                    Err(detail) => Err::<(), Seq<char>>(detail@),
                },
            ),
    {
        let Submission { pending, connected, batch, receipt } = self;
        let mut pending = pending;
        match outcome {
            Err(detail) => {
                let error = if !connected {
                    EnqueueError::Connection(ConnectionError { detail })
                } else if batch {
                    EnqueueError::BatchWrite(detail)
                } else {
                    EnqueueError::Write(detail)
                };
                Step::Done(Err(error))
            },
            Ok(()) => {
                let ghost before = pending@;
                match pending.pop_front() {
                    None => Step::Done(Ok(receipt)),
                    Some(job) => {
                        proof {
                            assert(job_views(pending@) =~= job_views(before).drop_first());
                        }
                        Step::Send(Submission { pending, connected: true, batch, receipt }, job)
                    },
                }
            },
        }
    }
}

impl EnqueueError {
    /// The text of this failure, as the caller of the pipeline is told it.
    pub fn message(&self) -> (text: String)
        ensures
            text@ == enqueue_error_text(self@),
    {
        match self {
            EnqueueError::Connection(_) => String::from_str(
                "Failed to get Faktory connection from pool",
            ),
            EnqueueError::Write(_) => String::from_str("Failed to enqueue job"),
            EnqueueError::BatchWrite(_) => String::from_str("Failed to enqueue job in batch"),
        }
    }

    /// What the pool or the broker's client said.
    pub fn detail(&self) -> (text: &str)
        ensures
            text@ == (match self@ {
                EnqueueErrorView::Connection(detail) => detail,
                EnqueueErrorView::Write(detail) => detail,
                EnqueueErrorView::BatchWrite(detail) => detail,
            }),
    {
        match self {
            EnqueueError::Connection(error) => error.detail.as_str(),
            EnqueueError::Write(detail) => detail.as_str(),
            EnqueueError::BatchWrite(detail) => detail.as_str(),
        }
    }
}

/// Makes one job for each payload, in order, each under a fresh identifier,
/// and lists the identifiers in the same order.
pub fn prepare_jobs(payloads: &Vec<JobPayload>) -> (prepared: (Vec<Job>, Vec<String>))
    ensures
        carries(job_views(prepared.0@), payloads@, prepared.1@),
{
    let mut jobs: Vec<Job> = Vec::with_capacity(payloads.len());
    let mut ids: Vec<String> = Vec::with_capacity(payloads.len());
    let mut i: usize = 0;
    while i < payloads.len()
        invariant
            i <= payloads@.len(),
            jobs@.len() == i,
            ids@.len() == i,
            forall|k: int|
                0 <= k < i ==> #[trigger] job_views(jobs@)[k] == job_for(payloads@[k]@, ids@[k]@)
                    && is_job_id(ids@[k]@),
        decreases payloads@.len() - i,
    {
        let job = Job::create(&payloads[i]);
        let id = job.id.clone();
        let ghost jobs_before = jobs@;
        let ghost ids_before = ids@;
        jobs.push(job);
        ids.push(id);
        proof {
            assert forall|k: int| 0 <= k < i + 1 implies #[trigger] job_views(jobs@)[k] == job_for(
                payloads@[k]@,
                ids@[k]@,
            ) && is_job_id(ids@[k]@) by {
                if k < i {
                    assert(job_views(jobs_before)[k] == job_for(payloads@[k]@, ids_before[k]@));
                }
            }
        }
        i += 1;
    }
    assert(carries(job_views(jobs@), payloads@, ids@));
    (jobs, ids)
}

/// Sends one job: the job is made at once, under a fresh identifier, and the
/// first step asks for the connection. The identifier is the receipt.
pub fn enqueue_job(payload: JobPayload) -> (step: Step<String>)
    ensures
        step@ matches StepView::Acquire(submission) && is_job_id(submission.receipt@)
            && submission == (SubmissionView {
            pending: seq![job_for(payload@, submission.receipt@)],
            connected: false,
            batch: false,
            receipt: submission.receipt,
        }),
{
    let job = Job::create(&payload);
    let id = job.id.clone();
    let mut jobs: Vec<Job> = Vec::with_capacity(1);
    jobs.push(job);
    proof {
        assert(job_views(jobs@) =~= seq![job_for(payload@, id@)]);
    }
    Submission::begin(jobs, false, id)
}

/// Sends multiple jobs over a single connection. Without payloads nothing is
/// asked of the pool or the broker, and the receipt is the empty list. Else
/// one job is made for each payload, in order, and the receipt lists their
/// identifiers in that order.
pub fn enqueue_batch_jobs(payloads: Vec<JobPayload>) -> (step: Step<Vec<String>>)
    ensures
        match step@ {
            StepView::Done(Ok(ids)) => payloads@.len() == 0 && ids@.len() == 0,
            StepView::Acquire(submission) => payloads@.len() > 0 && !submission.connected
                && submission.batch && carries(submission.pending, payloads@, submission.receipt@),
            _ => false,
        },
{
    if payloads.is_empty() {
        return Step::Done(Ok(Vec::new()));
    }
    let (jobs, ids) = prepare_jobs(&payloads);
    Submission::begin(jobs, true, ids)
}

/// Takes a job under auto-batching. The job's identifier is drawn at once and
/// is the receipt. The payload joins the queue; if the queue is then full,
/// all that waits is taken out and sent as one batch, and else nothing is
/// sent yet: the job waits for the queue to fill or for the timer.
pub fn enqueue_job_with_batching(queue: &mut BatchQueue, payload: JobPayload) -> (step: Step<
    String,
>)
    ensures
        final(queue).config() == old(queue).config(),
        match step@ {
            StepView::Done(Ok(id)) => old(queue)@.len() + 1 < old(queue).config().max_batch_size
                && final(queue)@ == old(queue)@.push(payload) && is_job_id(id@),
            StepView::Acquire(submission) => old(queue)@.len() + 1 >= old(
                queue,
            ).config().max_batch_size && final(queue)@.len() == 0 && is_job_id(
                submission.receipt@,
            ) && !submission.connected && submission.batch && exists|ids: Seq<String>|
                carries(submission.pending, old(queue)@.push(payload), ids),
            _ => false,
        },
{
    let id = random_job_id();
    queue.add(payload);
    if queue.should_flush() {
        let batch = queue.flush();
        let (jobs, ids) = prepare_jobs(&batch);
        let ghost made = job_views(jobs@);
        let step = Submission::begin(jobs, true, id);
        proof {
            assert(step@->Acquire_0.pending == made);
        }
        step
    } else {
        Step::Done(Ok(id))
    }
}

/// What a submission has asked of its caller in the course of a run.
pub struct Run<T> {
    /// How often a connection was asked for.
    pub acquired: nat,
    /// The jobs that were handed out to be written, in that order.
    pub sent: Seq<JobView>,
    /// How the submission ended, if it did.
    pub ended: Option<Result<T, EnqueueErrorView>>,
}

/// The run that starts at `step`, where the caller reports `outcomes` one
/// after the other for as long as steps are asked of it.
pub open spec fn run_from<T>(step: StepView<T>, outcomes: Seq<Result<(), Seq<char>>>) -> Run<T>
    decreases outcomes.len(),
{
    match step {
        StepView::Done(result) => Run { acquired: 0, sent: Seq::empty(), ended: Some(result) },
        StepView::Acquire(submission) => if outcomes.len() == 0 {
            Run { acquired: 1, sent: Seq::empty(), ended: None }
        } else {
            let rest = run_from(resume(submission, outcomes[0]), outcomes.drop_first());
            Run { acquired: rest.acquired + 1, sent: rest.sent, ended: rest.ended }
        },
        StepView::Send(submission, job) => if outcomes.len() == 0 {
            Run { acquired: 0, sent: seq![job], ended: None }
        } else {
            let rest = run_from(resume(submission, outcomes[0]), outcomes.drop_first());
            Run { acquired: rest.acquired, sent: seq![job] + rest.sent, ended: rest.ended }
        },
    }
}

/// Once the connection stands, a run asks for no other, hands out the
/// remaining jobs in their order, and ends well only after the last of them.
proof fn lemma_run_while_connected<T>(
    submission: SubmissionView<T>,
    job: JobView,
    outcomes: Seq<Result<(), Seq<char>>>,
)
    requires
        submission.connected,
    ensures
        ({
            let run = run_from(StepView::Send(submission, job), outcomes);
            &&& run.acquired == 0
            &&& run.sent.is_prefix_of(seq![job] + submission.pending)
            &&& run.sent.len() >= 1
            &&& run.ended is Some ==> run.sent.len() <= outcomes.len()
            &&& run.ended matches Some(Ok(receipt)) ==> receipt == submission.receipt && run.sent
                == seq![job] + submission.pending
            &&& run.ended matches Some(Err(error)) ==> !(error is Connection)
        }),
    decreases outcomes.len(),
{
    reveal_with_fuel(run_from, 3);
    let all = seq![job] + submission.pending;
    if outcomes.len() == 0 {
        assert(seq![job] =~= all.subrange(0, 1));
    } else {
        let next = resume(submission, outcomes[0]);
        match next {
            StepView::Send(later, following) => {
                lemma_run_while_connected(later, following, outcomes.drop_first());
                let rest = run_from(next, outcomes.drop_first());
                let tail = seq![following] + later.pending;
                assert(seq![job] + rest.sent =~= all.subrange(0, 1 + rest.sent.len() as int)) by {
                    assert(rest.sent == tail.subrange(0, rest.sent.len() as int));
                }
            },
            StepView::Done(result) => {
                assert(seq![job] + Seq::<JobView>::empty() =~= all.subrange(0, 1));
            },
            StepView::Acquire(_) => {},
        }
    }
}

/// A submission asks for one connection at most, and for none where there
/// is no job. It hands the jobs out in the order in which they were given,
/// from the first one on and without a gap. It ends well only when every job
/// has been handed out and taken, and then with the receipt it was begun
/// with. Without jobs it has ended well before anything is asked.
pub proof fn lemma_one_connection_jobs_in_order<T>(
    jobs: Seq<JobView>,
    batch: bool,
    receipt: T,
    outcomes: Seq<Result<(), Seq<char>>>,
)
    ensures
        ({
            let run = run_from(begin(jobs, batch, receipt), outcomes);
            &&& run.acquired <= 1
            &&& run.acquired == 0 <==> jobs.len() == 0
            &&& run.sent.is_prefix_of(jobs)
            &&& run.ended matches Some(Ok(handed)) ==> handed == receipt && run.sent == jobs
            &&& run.ended matches Some(Err(error)) ==> (error is Connection <==> run.sent.len()
                == 0)
            &&& jobs.len() == 0 ==> run.ended == Some(Ok::<T, EnqueueErrorView>(receipt))
        }),
{
    reveal_with_fuel(run_from, 3);
    let first = begin(jobs, batch, receipt);
    let run = run_from(first, outcomes);
    if jobs.len() == 0 {
        assert(run.sent =~= jobs.subrange(0, 0));
    } else if outcomes.len() == 0 {
        assert(run.sent =~= jobs.subrange(0, 0));
    } else {
        let submission = first->Acquire_0;
        let next = resume(submission, outcomes[0]);
        match next {
            StepView::Send(later, job) => {
                lemma_run_while_connected(later, job, outcomes.drop_first());
                assert(seq![job] + later.pending =~= jobs);
            },
            StepView::Done(result) => {
                assert(run.sent =~= jobs.subrange(0, 0));
            },
            StepView::Acquire(_) => {},
        }
    }
}

} // verus!
