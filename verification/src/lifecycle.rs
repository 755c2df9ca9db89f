//! The life of a worker process, from connecting to the broker until it
//! stops.
//!
//! Connecting, running the fetch loop, waiting for a signal and keeping the
//! drain deadline are the caller's work. The caller reports what happened,
//! and is told what to do about it.

use vstd::prelude::*;

verus! {

/// How many seconds a worker that was told to stop is given to finish the
/// jobs that it has in hand.
pub const DRAIN_DEADLINE_SECS: u64 = 30;

/// How many jobs a worker has in hand at once, unless it is told otherwise.
pub const DEFAULT_WORKER_CONCURRENCY: usize = 500;

/// Where a worker stands.
#[derive(Debug, Clone, Copy, PartialEq, Eq, Structural)]
pub enum Phase {
    /// The session with the broker is being set up.
    Connecting,
    /// Jobs are fetched and handled.
    Running,
    /// No new job is taken; those in hand may finish until the deadline.
    Draining,
    /// Nothing is fetched or handled any more.
    Stopped,
}

/// How the fetch loop came to its end.
#[derive(Debug, Clone, Copy, PartialEq, Eq, Structural)]
pub enum LoopExit {
    /// It returned without an error.
    Clean,
    /// It returned an error.
    Failed,
    /// It panicked.
    Panicked,
}

/// What the caller reports.
#[derive(Debug, Clone, Copy, PartialEq, Eq, Structural)]
pub enum Event {
    /// The session with the broker stands.
    Connected,
    /// The session could not be set up.
    ConnectFailed,
    /// The process was told to terminate.
    ShutdownSignal,
    /// The fetch loop has ended.
    LoopEnded(LoopExit),
    /// The drain deadline has passed.
    DeadlineElapsed,
}

/// How a worker ended.
#[derive(Debug, Clone, Copy, PartialEq, Eq, Structural)]
pub enum Report {
    /// The broker could not be reached.
    ConnectFailed,
    /// The fetch loop ended without an error before the deadline.
    CleanShutdown,
    /// The fetch loop ended with an error.
    WorkerError,
    /// The fetch loop panicked.
    WorkerPanicked,
    /// The deadline passed with jobs still in hand; the broker will hand
    /// them out again.
    ShutdownTimeout,
}

/// What the caller is to do.
#[derive(Debug, Clone, Copy, PartialEq, Eq, Structural)]
pub enum Action {
    /// Nothing new: go on as before.
    Proceed,
    /// Start the fetch loop, and wait for the signal to terminate.
    Run,
    /// Take no new job, and wait for the fetch loop to end, for so many
    /// seconds at most.
    Drain(u64),
    /// Terminate, and say how the worker ended.
    Exit(Report),
}

/// A worker's state: its phase, and how the fetch loop ended if it ended
/// before the worker was told to stop.
#[derive(Debug, Clone, Copy, PartialEq, Eq, Structural)]
pub struct Worker {
    pub phase: Phase,
    pub ended: Option<LoopExit>,
}

/// The report for a fetch loop that has ended.
pub open spec fn report_of(exit: LoopExit) -> Report {
    match exit {
        LoopExit::Clean => Report::CleanShutdown,
        LoopExit::Failed => Report::WorkerError,
        LoopExit::Panicked => Report::WorkerPanicked,
    }
}

/// The state that follows an event, and what is to be done.
///
/// An event that a phase does not wait for changes nothing. A fetch loop
/// that ends while the worker runs is remembered, and reported once the
/// worker is told to stop.
pub open spec fn transition(worker: Worker, event: Event) -> (Worker, Action) {
    match (worker.phase, event) {
        (Phase::Connecting, Event::Connected) => (
            Worker { phase: Phase::Running, ended: None },
            Action::Run,
        ),
        (Phase::Connecting, Event::ConnectFailed) => (
            Worker { phase: Phase::Stopped, ended: worker.ended },
            Action::Exit(Report::ConnectFailed),
        ),
        (Phase::Running, Event::LoopEnded(exit)) => (
            Worker { phase: Phase::Running, ended: Some(exit) },
            Action::Proceed,
        ),
        (Phase::Running, Event::ShutdownSignal) => match worker.ended {
            Some(exit) => (
                Worker { phase: Phase::Stopped, ended: worker.ended },
                Action::Exit(report_of(exit)),
            ),
            None => (
                Worker { phase: Phase::Draining, ended: None },
                Action::Drain(DRAIN_DEADLINE_SECS),
            ),
        },
        (Phase::Draining, Event::LoopEnded(exit)) => (
            Worker { phase: Phase::Stopped, ended: Some(exit) },
            Action::Exit(report_of(exit)),
        ),
        (Phase::Draining, Event::DeadlineElapsed) => (
            Worker { phase: Phase::Stopped, ended: worker.ended },
            Action::Exit(Report::ShutdownTimeout),
        ),
        _ => (worker, Action::Proceed),
    }
}

/// How far a phase is on the way from connecting to stopped.
pub open spec fn rank(phase: Phase) -> nat {
    match phase {
        Phase::Connecting => 0,
        Phase::Running => 1,
        Phase::Draining => 2,
        Phase::Stopped => 3,
    }
}

/// The state after a run of events.
pub open spec fn after_events(worker: Worker, events: Seq<Event>) -> Worker
    decreases events.len(),
{
    if events.len() == 0 {
        worker
    } else {
        transition(after_events(worker, events.drop_last()), events.last()).0
    }
}

impl Worker {
    /// A worker that is about to connect.
    pub fn new() -> (worker: Worker)
        ensures
            worker == (Worker { phase: Phase::Connecting, ended: None }),
    {
        Worker { phase: Phase::Connecting, ended: None }
    }

    /// Takes an event and says what is to be done.
    pub fn step(&mut self, event: Event) -> (action: Action)
        ensures
            (*final(self), action) == transition(*old(self), event),
    {
        match (self.phase, event) {
            (Phase::Connecting, Event::Connected) => {
                self.phase = Phase::Running;
                self.ended = None;
                Action::Run
            },
            (Phase::Connecting, Event::ConnectFailed) => {
                self.phase = Phase::Stopped;
                Action::Exit(Report::ConnectFailed)
            },
            (Phase::Running, Event::LoopEnded(exit)) => {
                self.ended = Some(exit);
                Action::Proceed
            },
            (Phase::Running, Event::ShutdownSignal) => match self.ended {
                Some(exit) => {
                    self.phase = Phase::Stopped;
                    Action::Exit(report(exit))
                },
                None => {
                    self.phase = Phase::Draining;
                    Action::Drain(DRAIN_DEADLINE_SECS)
                },
            },
            (Phase::Draining, Event::LoopEnded(exit)) => {
                self.phase = Phase::Stopped;
                self.ended = Some(exit);
                Action::Exit(report(exit))
            },
            (Phase::Draining, Event::DeadlineElapsed) => {
                self.phase = Phase::Stopped;
                Action::Exit(Report::ShutdownTimeout)
            },
            _ => Action::Proceed,
        }
    }

    /// Whether the worker has stopped.
    pub fn is_stopped(&self) -> (stopped: bool)
        ensures
            stopped == (self.phase == Phase::Stopped),
    {
        match self.phase {
            Phase::Stopped => true,
            _ => false,
        }
    }
}

/// The report for a fetch loop that has ended.
pub fn report(exit: LoopExit) -> (report: Report)
    ensures
        report == report_of(exit),
{
    match exit {
        LoopExit::Clean => Report::CleanShutdown,
        LoopExit::Failed => Report::WorkerError,
        LoopExit::Panicked => Report::WorkerPanicked,
    }
}

/// A worker never goes back: each event leaves it in its phase or takes it
/// to a later one.
pub proof fn lemma_phases_only_advance(worker: Worker, event: Event)
    ensures
        rank(worker.phase) <= rank(transition(worker, event).0.phase),
{
}

/// Stopped is final: a worker that has stopped stays as it is whatever is
/// reported, and nothing more is asked of the caller.
pub proof fn lemma_stopped_is_final(worker: Worker, events: Seq<Event>)
    requires
        worker.phase == Phase::Stopped,
    ensures
        after_events(worker, events) == worker,
        forall|event: Event| #[trigger] transition(worker, event) == (worker, Action::Proceed),
    decreases events.len(),
{
    if events.len() > 0 {
        lemma_stopped_is_final(worker, events.drop_last());
    }
}

/// The worker terminates exactly when it comes to a stop: an event asks the
/// caller to exit if and only if it takes the worker from another phase to
/// `Stopped`.
pub proof fn lemma_exit_when_stopping(worker: Worker, event: Event)
    ensures
        transition(worker, event).1 is Exit <==> worker.phase != Phase::Stopped && transition(
            worker,
            event,
        ).0.phase == Phase::Stopped,
{
}

/// A timeout is reported only to a draining worker whose deadline has passed,
/// and a draining worker whose fetch loop ends in time is never reported as
/// timed out.
pub proof fn lemma_timeout_only_at_deadline(worker: Worker, event: Event)
    ensures
        transition(worker, event).1 == Action::Exit(Report::ShutdownTimeout) <==> worker.phase
            == Phase::Draining && event == Event::DeadlineElapsed,
{
}

} // verus!
