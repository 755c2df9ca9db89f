use work_factory::broker::Job;
use work_factory::job::{DecodeError, JobPayload, MathArgs, Operation};
use work_factory::lifecycle::{
    Action, Event, LoopExit, Phase, Report, Worker, DEFAULT_WORKER_CONCURRENCY,
    DRAIN_DEADLINE_SECS,
};
use work_factory::value::Value;
use work_factory::worker::{
    check_domain, handle_divide, job_handler, registered_job_types, DomainError, JobError,
};

fn args(a: f64, b: f64) -> MathArgs {
    MathArgs { a: a.to_bits(), b: b.to_bits(), request_id: None }
}

fn job_of(payload: &JobPayload) -> Job {
    Job::with_id(payload, "0123456789abcdef".to_string())
}

#[test]
fn division_by_zero_fails_whatever_the_dividend() {
    for a in [0.0, 1.0, -7.5, f64::MAX, f64::INFINITY, f64::NAN] {
        assert_eq!(handle_divide(&args(a, 0.0)), Err(DomainError::DivisionByZero));
        assert_eq!(handle_divide(&args(a, -0.0)), Err(DomainError::DivisionByZero));
    }
    assert_eq!(DomainError::DivisionByZero.message(), "Division by zero");
}

#[test]
fn division_by_anything_else_is_let_through() {
    for b in [1.0, -1.0, f64::MIN_POSITIVE, 5e-324, f64::INFINITY, f64::NAN, 1e300] {
        assert_eq!(handle_divide(&args(6.0, b)), Ok(()), "{}", b);
    }
}

#[test]
fn only_division_has_a_domain_rule() {
    assert_eq!(check_domain(&JobPayload::Add(args(1.0, 0.0))), Ok(()));
    assert_eq!(check_domain(&JobPayload::Subtract(args(1.0, 0.0))), Ok(()));
    assert_eq!(check_domain(&JobPayload::Multiply(args(1.0, 0.0))), Ok(()));
    assert_eq!(check_domain(&JobPayload::Divide(args(1.0, 0.0))), Err(DomainError::DivisionByZero));
    assert_eq!(check_domain(&JobPayload::Divide(args(1.0, 2.0))), Ok(()));
}

#[test]
fn handler_hands_back_the_decoded_job() {
    for op in [Operation::Add, Operation::Subtract, Operation::Multiply, Operation::Divide] {
        let payload = JobPayload::new(op, args(6.0, 3.0));
        assert_eq!(job_handler(job_of(&payload)), Ok(payload));
    }
}

#[test]
fn handler_reads_only_the_first_argument() {
    let payload = JobPayload::Add(args(1.0, 2.0));
    let mut job = job_of(&payload);
    job.args.push(Value::Text("ignored".to_string()));
    job.args.push(Value::Null);
    assert_eq!(job_handler(job), Ok(payload));
}

#[test]
fn unknown_tag_fails_the_job_and_the_next_job_is_handled() {
    let good = JobPayload::Add(args(1.0, 2.0));
    let mut bogus = job_of(&good);
    bogus.kind = "math_power".to_string();
    let outcome = job_handler(bogus);
    assert_eq!(
        outcome,
        Err(JobError::Decode(DecodeError::UnknownJobType("math_power".to_string())))
    );
    assert_eq!(
        outcome.unwrap_err().message(),
        "Failed to parse job payload: Unknown job type: math_power"
    );
    // the failure is a value, and the worker goes on
    let mut worker = Worker::new();
    assert_eq!(worker.step(Event::Connected), Action::Run);
    assert_eq!(worker.phase, Phase::Running);
    assert_eq!(job_handler(job_of(&good)), Ok(good));
    assert!(!worker.is_stopped());
}

#[test]
fn job_without_arguments_fails() {
    let job = Job { id: "0123456789abcdef".to_string(), kind: "math_add".to_string(), args: vec![] };
    let error = job_handler(job).unwrap_err();
    assert_eq!(error, JobError::MissingArguments);
    assert_eq!(error.message(), "Job missing arguments");
}

#[test]
fn job_with_malformed_arguments_fails() {
    let job = Job {
        id: "0123456789abcdef".to_string(),
        kind: "math_multiply".to_string(),
        args: vec![Value::Text("2 x 3".to_string())],
    };
    let error = job_handler(job).unwrap_err();
    assert_eq!(error, JobError::Decode(DecodeError::MalformedArgs(Operation::Multiply)));
    assert_eq!(error.message(), "Failed to parse job payload: Failed to parse Multiply job args");
}

#[test]
fn division_by_zero_fails_the_job() {
    let error = job_handler(job_of(&JobPayload::Divide(args(1.0, 0.0)))).unwrap_err();
    assert_eq!(error, JobError::Domain(DomainError::DivisionByZero));
    assert_eq!(error.message(), "Division by zero");
}

#[test]
fn workers_register_the_four_tags() {
    let tags = registered_job_types();
    assert_eq!(tags, vec!["math_add", "math_subtract", "math_multiply", "math_divide"]);
    for tag in tags {
        assert!(Operation::from_job_type(tag).is_some());
    }
}

#[test]
fn clean_shutdown_well_before_the_deadline() {
    // One job is in hand when the signal comes, and is done after one second
    // of the thirty that the worker is given: the loop ends before the
    // deadline can pass.
    let mut worker = Worker::new();
    assert_eq!(worker.step(Event::Connected), Action::Run);
    let drain = worker.step(Event::ShutdownSignal);
    assert_eq!(drain, Action::Drain(30));
    assert_eq!(worker.phase, Phase::Draining);
    let done_after_secs = 1;
    let event = match drain {
        Action::Drain(deadline) if done_after_secs < deadline => Event::LoopEnded(LoopExit::Clean),
        _ => Event::DeadlineElapsed,
    };
    let action = worker.step(event);
    assert_eq!(action, Action::Exit(Report::CleanShutdown));
    assert_ne!(action, Action::Exit(Report::ShutdownTimeout));
    assert!(worker.is_stopped());
    // the deadline that passes afterwards changes nothing
    assert_eq!(worker.step(Event::DeadlineElapsed), Action::Proceed);
    assert!(worker.is_stopped());
}

#[test]
fn deadline_passing_first_is_a_timeout() {
    let mut worker = Worker::new();
    worker.step(Event::Connected);
    worker.step(Event::ShutdownSignal);
    assert_eq!(worker.step(Event::DeadlineElapsed), Action::Exit(Report::ShutdownTimeout));
    assert!(worker.is_stopped());
    assert_eq!(worker.step(Event::LoopEnded(LoopExit::Clean)), Action::Proceed);
}

#[test]
fn failed_connection_stops_the_worker() {
    let mut worker = Worker::new();
    assert_eq!(worker.phase, Phase::Connecting);
    assert_eq!(worker.step(Event::ConnectFailed), Action::Exit(Report::ConnectFailed));
    assert!(worker.is_stopped());
    assert_eq!(worker.step(Event::Connected), Action::Proceed);
    assert!(worker.is_stopped());
}

#[test]
fn loop_that_ends_early_is_reported_at_the_signal() {
    for (exit, report) in [
        (LoopExit::Clean, Report::CleanShutdown),
        (LoopExit::Failed, Report::WorkerError),
        (LoopExit::Panicked, Report::WorkerPanicked),
    ] {
        let mut worker = Worker::new();
        worker.step(Event::Connected);
        assert_eq!(worker.step(Event::LoopEnded(exit)), Action::Proceed);
        assert_eq!(worker.phase, Phase::Running);
        assert_eq!(worker.step(Event::ShutdownSignal), Action::Exit(report));
        assert!(worker.is_stopped());
    }
}

#[test]
fn loop_that_ends_while_draining_is_reported_at_once() {
    for (exit, report) in [
        (LoopExit::Clean, Report::CleanShutdown),
        (LoopExit::Failed, Report::WorkerError),
        (LoopExit::Panicked, Report::WorkerPanicked),
    ] {
        let mut worker = Worker::new();
        worker.step(Event::Connected);
        worker.step(Event::ShutdownSignal);
        assert_eq!(worker.step(Event::LoopEnded(exit)), Action::Exit(report));
        assert_eq!(worker.ended, Some(exit));
    }
}

#[test]
fn events_out_of_turn_change_nothing() {
    let mut worker = Worker::new();
    for event in [Event::ShutdownSignal, Event::DeadlineElapsed, Event::LoopEnded(LoopExit::Clean)] {
        assert_eq!(worker.step(event), Action::Proceed);
        assert_eq!(worker, Worker::new());
    }
    worker.step(Event::Connected);
    for event in [Event::Connected, Event::ConnectFailed, Event::DeadlineElapsed] {
        assert_eq!(worker.step(event), Action::Proceed);
        assert_eq!(worker.phase, Phase::Running);
    }
    worker.step(Event::ShutdownSignal);
    for event in [Event::Connected, Event::ConnectFailed, Event::ShutdownSignal] {
        assert_eq!(worker.step(event), Action::Proceed);
        assert_eq!(worker.phase, Phase::Draining);
    }
}

#[test]
fn worker_defaults() {
    assert_eq!(DRAIN_DEADLINE_SECS, 30);
    assert_eq!(DEFAULT_WORKER_CONCURRENCY, 500);
}
