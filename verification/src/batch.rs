//! The batch accumulator: the buffer of jobs that wait to be sent together.
//!
//! Callers share one accumulator behind a lock. Each method runs under that
//! lock, so the calls of all callers line up in some order; the laws below
//! hold of every such order.

use crate::job::JobPayload;
use vstd::prelude::*;

verus! {

/// How many jobs a batch holds at most, unless the process is told otherwise.
pub const DEFAULT_MAX_BATCH_SIZE: usize = 100;

/// How many milliseconds a job waits at most, unless the process is told
/// otherwise.
pub const DEFAULT_MAX_BATCH_DELAY_MS: u64 = 50;

/// Configuration for batch processing
#[derive(Debug, Clone, Copy, PartialEq, Eq, Structural)]
pub struct BatchConfig {
    /// Maximum number of jobs to batch together
    pub max_batch_size: usize,
    /// Maximum time to wait before flushing a batch (milliseconds)
    pub max_batch_delay_ms: u64,
    /// Whether to enable auto-batching for individual job endpoints
    pub auto_batch_enabled: bool,
}

impl Default for BatchConfig {
    /// Batches of a hundred jobs, sent after fifty milliseconds at the
    /// latest, with auto-batching switched on.
    fn default() -> (config: BatchConfig)
        ensures
            config == (BatchConfig {
                max_batch_size: DEFAULT_MAX_BATCH_SIZE,
                max_batch_delay_ms: DEFAULT_MAX_BATCH_DELAY_MS,
                auto_batch_enabled: true,
            }),
    {
        BatchConfig {
            max_batch_size: DEFAULT_MAX_BATCH_SIZE,
            max_batch_delay_ms: DEFAULT_MAX_BATCH_DELAY_MS,
            auto_batch_enabled: true,
        }
    }
}

/// One call on the shared queue, as it takes effect under the lock.
pub enum QueueCall {
    /// `add` of this job.
    Add(JobPayload),
    /// `flush`, as a caller makes it once the queue is full.
    Flush,
    /// The flush that the timer makes: it takes a batch only where jobs wait.
    Tick,
}

/// What a run of calls has led to: the jobs that still wait, and the batches
/// that were taken out, in the order in which they were taken.
#[verifier::ext_equal]
pub struct QueueRun {
    pub pending: Seq<JobPayload>,
    pub batches: Seq<Seq<JobPayload>>,
}

/// The effect of one call, as the contracts of `add` and `flush` state it.
pub open spec fn after_call(run: QueueRun, call: QueueCall) -> QueueRun {
    match call {
        QueueCall::Add(job) => QueueRun { pending: run.pending.push(job), batches: run.batches },
        QueueCall::Flush => QueueRun {
            pending: Seq::empty(),
            batches: run.batches.push(run.pending),
        },
        QueueCall::Tick => if run.pending.len() > 0 {
            QueueRun { pending: Seq::empty(), batches: run.batches.push(run.pending) }
        } else {
            run
        },
    }
}

/// The effect of one call on a queue in which `pending` waits: what waits
/// afterwards, and the batch that the call has taken out, if it has.
pub open spec fn effect(pending: Seq<JobPayload>, call: QueueCall) -> QueueRun {
    after_call(QueueRun { pending, batches: Seq::empty() }, call)
}

/// Batching queue for collecting jobs
pub struct BatchQueue {
    pending_jobs: Vec<JobPayload>,
    config: BatchConfig,
}

impl View for BatchQueue {
    type V = Seq<JobPayload>;

    /// The jobs that wait, oldest first.
    closed spec fn view(&self) -> Seq<JobPayload> {
        self.pending_jobs@
    }
}

impl BatchQueue {
    /// The configuration that the queue was made with.
    pub closed spec fn config(&self) -> BatchConfig {
        self.config
    }

    /// Makes an empty queue.
    pub fn new(config: BatchConfig) -> (queue: BatchQueue)
        ensures
            queue@ == Seq::<JobPayload>::empty(),
            queue.config() == config,
    {
        BatchQueue { pending_jobs: Vec::with_capacity(config.max_batch_size), config }
    }

    /// Puts a job behind those that wait.
    pub fn add(&mut self, job: JobPayload)
        ensures
            final(self)@ == old(self)@.push(job),
            final(self).config() == old(self).config(),
            effect(old(self)@, QueueCall::Add(job)) == (QueueRun {
                pending: final(self)@,
                batches: Seq::empty(),
            }),
    {
        self.pending_jobs.push(job);
    }

    /// Whether as many jobs wait as a batch may hold.
    pub fn should_flush(&self) -> (full: bool)
        ensures
            full <==> self@.len() >= self.config().max_batch_size,
    {
        self.pending_jobs.len() >= self.config.max_batch_size
    }

    /// Takes out all the jobs that wait, oldest first, and leaves the queue
    /// empty.
    pub fn flush(&mut self) -> (batch: Vec<JobPayload>)
        ensures
            batch@ == old(self)@,
            final(self)@ == Seq::<JobPayload>::empty(),
            final(self).config() == old(self).config(),
            effect(old(self)@, QueueCall::Flush) == (QueueRun {
                pending: final(self)@,
                batches: seq![batch@],
            }),
    {
        let mut batch: Vec<JobPayload> = Vec::with_capacity(self.config.max_batch_size);
        std::mem::swap(&mut self.pending_jobs, &mut batch);
        batch
    }

    /// How many jobs wait.
    pub fn len(&self) -> (count: usize)
        ensures
            count == self@.len(),
    {
        self.pending_jobs.len()
    }
}

/// The effect of a run of calls on a new queue.
pub open spec fn after_calls(calls: Seq<QueueCall>) -> QueueRun
    decreases calls.len(),
{
    if calls.len() == 0 {
        QueueRun { pending: Seq::empty(), batches: Seq::empty() }
    } else {
        after_call(after_calls(calls.drop_last()), calls.last())
    }
}

/// The jobs that a run of calls has added, in the order of the calls.
pub open spec fn added(calls: Seq<QueueCall>) -> Seq<JobPayload>
    decreases calls.len(),
{
    if calls.len() == 0 {
        Seq::empty()
    } else {
        match calls.last() {
            QueueCall::Add(job) => added(calls.drop_last()).push(job),
            _ => added(calls.drop_last()),
        }
    }
}

/// The batches laid end to end.
pub open spec fn joined(batches: Seq<Seq<JobPayload>>) -> Seq<JobPayload>
    decreases batches.len(),
{
    if batches.len() == 0 {
        Seq::empty()
    } else {
        joined(batches.drop_last()) + batches.last()
    }
}

/// No job is lost and none is handed out twice: in whatever order calls of
/// `add` and flushes take effect, the batches handed out so far, laid end to
/// end, followed by the jobs that still wait, are exactly the jobs that were
/// added, each once and in the order in which it was added.
pub proof fn lemma_every_job_in_one_batch(calls: Seq<QueueCall>)
    ensures
        joined(after_calls(calls).batches) + after_calls(calls).pending == added(calls),
    decreases calls.len(),
{
    if calls.len() > 0 {
        let before = after_calls(calls.drop_last());
        let after = after_calls(calls);
        lemma_every_job_in_one_batch(calls.drop_last());
        if after.batches != before.batches {
            // the last call took a batch: all that waited
            assert(after.batches.drop_last() =~= before.batches);
        }
    }
}

/// A flush leaves nothing behind: once a flush has taken effect, by a caller
/// or by the timer, every job added before it stands in a batch that was
/// handed out. So a job waits no longer than until the next tick of the timer.
pub proof fn lemma_flush_takes_every_job(calls: Seq<QueueCall>)
    requires
        calls.len() > 0,
        calls.last() is Flush || calls.last() is Tick,
    ensures
        after_calls(calls).pending.len() == 0,
        joined(after_calls(calls).batches) == added(calls),
{
    lemma_every_job_in_one_batch(calls);
}

/// The jobs that the first `count` calls of a run have added.
pub open spec fn added_by(calls: Seq<QueueCall>, count: int) -> Seq<JobPayload> {
    added(calls.subrange(0, count))
}

/// The jobs that the first `count` calls of a run have handed out in
/// batches, laid end to end.
pub open spec fn taken_by(calls: Seq<QueueCall>, count: int) -> Seq<JobPayload> {
    joined(after_calls(calls.subrange(0, count)).batches)
}

/// What has been added stays added, and what has been handed out stays
/// handed out: later calls only add to the end of either.
pub proof fn lemma_runs_only_grow(calls: Seq<QueueCall>, count: int)
    requires
        0 <= count <= calls.len(),
    ensures
        added_by(calls, count).is_prefix_of(added(calls)),
        taken_by(calls, count).is_prefix_of(joined(after_calls(calls).batches)),
    decreases calls.len() - count,
{
    if count == calls.len() {
        assert(calls.subrange(0, count) =~= calls);
        assert(added(calls) =~= added(calls).subrange(0, added(calls).len() as int));
        let taken = joined(after_calls(calls).batches);
        assert(taken =~= taken.subrange(0, taken.len() as int));
    } else {
        let shorter = calls.drop_last();
        assert(shorter.subrange(0, count) =~= calls.subrange(0, count));
        lemma_runs_only_grow(shorter, count);
        let before = after_calls(shorter);
        let after = after_calls(calls);
        let part_added = added_by(calls, count);
        let part_taken = taken_by(calls, count);
        // the last call adds to the end of what was added or of what was taken
        if calls.last() is Add {
            assert(part_added =~= added(calls).subrange(0, part_added.len() as int));
        }
        if after.batches != before.batches {
            assert(after.batches.drop_last() =~= before.batches);
            assert(part_taken =~= joined(after.batches).subrange(0, part_taken.len() as int));
        }
    }
}

/// A job is handed out by the next flush at the latest. Let a job be added by
/// the call at `at`, and let a later call, at `flush`, be a flush by a caller
/// or by the timer. Right after the job was added, it stands in no batch;
/// right after the flush, it stands in one, at the place at which it was
/// added; and the batches in between left the earlier ones as they were. So
/// the job waits for no longer than it takes the timer to fire next.
pub proof fn lemma_job_is_taken_by_the_next_flush(
    calls: Seq<QueueCall>,
    at: int,
    flush: int,
    job: JobPayload,
)
    requires
        0 <= at < flush < calls.len(),
        calls[at] == QueueCall::Add(job),
        calls[flush] is Flush || calls[flush] is Tick,
    ensures
        taken_by(calls, at + 1).len() < added_by(calls, at + 1).len(),
        added_by(calls, at + 1).last() == job,
        taken_by(calls, at + 1).is_prefix_of(taken_by(calls, flush + 1)),
        added_by(calls, at + 1).is_prefix_of(taken_by(calls, flush + 1)),
{
    let early = calls.subrange(0, at + 1);
    let late = calls.subrange(0, flush + 1);
    // right after the add, the job is the last of those that wait
    lemma_every_job_in_one_batch(early);
    // right after the flush, everything that was added has been handed out
    lemma_flush_takes_every_job(late);
    assert(late.subrange(0, at + 1) =~= early);
    lemma_runs_only_grow(late, at + 1);
}

} // verus!
