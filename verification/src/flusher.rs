//! The timer-driven flusher: the background loop that sends what waits in
//! the accumulator, however little it is.
//!
//! Sleeping and sending are the caller's work. The flusher says which of the
//! two comes next; the caller does it and comes back.

use crate::batch::{effect, BatchQueue, QueueCall, QueueRun};
use crate::enqueue::EnqueueError;
use crate::job::JobPayload;
use vstd::prelude::*;

verus! {

/// What the background loop is to do next.
#[derive(Debug, PartialEq, Eq)]
pub enum FlusherAction {
    /// Sleep for this many milliseconds, then take the lock on the queue and
    /// call [`Flusher::on_wake`].
    Sleep(u64),
    /// Send these jobs as one batch, then call [`Flusher::on_submitted`].
    Submit(Vec<JobPayload>),
}

/// A batch that the flusher could not send. The failure is put on record and
/// goes no further: no producer hears of it, and the jobs of the batch are
/// lost.
#[derive(Debug, Clone, PartialEq, Eq)]
pub struct BackgroundFlushError {
    pub error: EnqueueError,
}

/// The background flusher. It keeps nothing but its interval.
#[derive(Debug, Clone, Copy, PartialEq, Eq, Structural)]
pub struct Flusher {
    pub interval_ms: u64,
}

/// Background task that periodically flushes the batch queue: makes the
/// flusher, which begins by sleeping for one interval.
pub fn batch_flusher(flush_interval_ms: u64) -> (started: (Flusher, FlusherAction))
    ensures
        started.0.interval_ms == flush_interval_ms,
        started.1 == FlusherAction::Sleep(flush_interval_ms),
{
    (Flusher { interval_ms: flush_interval_ms }, FlusherAction::Sleep(flush_interval_ms))
}

impl Flusher {
    /// The timer has fired, and the caller holds the lock on the queue. If
    /// jobs wait, all of them are taken out to be sent, oldest first, and the
    /// queue is left empty; if none waits, the loop sleeps again.
    pub fn on_wake(&self, queue: &mut BatchQueue) -> (action: FlusherAction)
        ensures
            final(queue).config() == old(queue).config(),
            final(queue)@.len() == 0,
            match action {
                FlusherAction::Submit(batch) => old(queue)@.len() > 0 && batch@ == old(queue)@,
                FlusherAction::Sleep(millis) => old(queue)@.len() == 0 && millis
                    == self.interval_ms,
            },
            effect(old(queue)@, QueueCall::Tick) == (QueueRun {
                pending: final(queue)@,
                batches: match action {
                    FlusherAction::Submit(batch) => seq![batch@],
                    FlusherAction::Sleep(_) => Seq::empty(),
                },
            }),
    {
        if queue.len() > 0 {
            FlusherAction::Submit(queue.flush())
        } else {
            FlusherAction::Sleep(self.interval_ms)
        }
    }

    /// The batch has been sent, or has failed to be. Either way the loop
    /// sleeps again: a batch that the broker did not take is dropped, not put
    /// back and not sent again. Its failure is handed back to be put on
    /// record.
    pub fn on_submitted(&self, outcome: Result<Vec<String>, EnqueueError>) -> (next: (
        FlusherAction,
        Option<BackgroundFlushError>,
    ))
        ensures
            next.0 == FlusherAction::Sleep(self.interval_ms),
            next.1 == (match outcome {
                Ok(_) => None::<BackgroundFlushError>,
                Err(error) => Some(BackgroundFlushError { error }),
            }),
    {
        let lost = match outcome {
            Ok(_) => None,
            Err(error) => Some(BackgroundFlushError { error }),
        };
        (FlusherAction::Sleep(self.interval_ms), lost)
    }
}

} // verus!
