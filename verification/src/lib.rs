//! A job pipeline in front of a broker, with its rules proved.
//!
//! Producers hand in jobs, which go to the broker one by one or gathered in
//! batches; workers take jobs from the broker, decode them and report how
//! they went. This crate holds the decisions of both sides. Talking to the
//! broker, sleeping and locking are left to the program around it: where such
//! work alternates with decisions, the crate says what is to be done next and
//! is told how it went.

pub mod api;
pub mod batch;
pub mod broker;
pub mod enqueue;
pub mod flusher;
pub mod job;
pub mod lifecycle;
pub mod text;
pub mod value;
pub mod worker;

pub use batch::{BatchConfig, BatchQueue};
pub use broker::Job;
pub use enqueue::{
    enqueue_batch_jobs, enqueue_job, enqueue_job_with_batching, ConnectionError, EnqueueError,
    Step, Submission,
};
pub use flusher::{batch_flusher, BackgroundFlushError, Flusher, FlusherAction};
pub use job::{DecodeError, JobPayload, MathArgs, Operation};
pub use value::Value;
pub use worker::{handle_divide, job_handler, DomainError, JobError};
