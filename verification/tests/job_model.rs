use work_factory::job::{DecodeError, JobPayload, MathArgs, Operation};
use work_factory::value::{duplicate, find, Value};

fn bits(x: f64) -> u64 {
    x.to_bits()
}

fn args(a: f64, b: f64, request_id: Option<&str>) -> MathArgs {
    MathArgs { a: bits(a), b: bits(b), request_id: request_id.map(|s| s.to_string()) }
}

fn record(members: Vec<(&str, Value)>) -> Value {
    Value::Record(members.into_iter().map(|(k, v)| (k.to_string(), v)).collect())
}

#[test]
fn test_job_type_roundtrip() {
    let payload = JobPayload::Add(MathArgs {
        a: bits(5.0),
        b: bits(3.0),
        request_id: Some("test-123".to_string()),
    });

    let job_type = payload.job_type();
    let args = payload.to_args().unwrap();

    let parsed = JobPayload::from_job_type(job_type, args).unwrap();

    match parsed {
        JobPayload::Add(args) => {
            assert_eq!(f64::from_bits(args.a), 5.0);
            assert_eq!(f64::from_bits(args.b), 3.0);
            assert_eq!(args.request_id.as_deref(), Some("test-123"));
        }
        _ => panic!("Wrong job type parsed"),
    }
}

#[test]
fn job_type_names_each_variant() {
    assert_eq!(JobPayload::Add(args(1.0, 2.0, None)).job_type(), "math_add");
    assert_eq!(JobPayload::Subtract(args(1.0, 2.0, None)).job_type(), "math_subtract");
    assert_eq!(JobPayload::Multiply(args(1.0, 2.0, None)).job_type(), "math_multiply");
    assert_eq!(JobPayload::Divide(args(1.0, 2.0, None)).job_type(), "math_divide");
}

#[test]
fn operations_are_found_by_their_tags() {
    for op in [Operation::Add, Operation::Subtract, Operation::Multiply, Operation::Divide] {
        assert_eq!(Operation::from_job_type(op.job_type()), Some(op));
    }
    assert_eq!(Operation::from_job_type("math_power"), None);
    assert_eq!(Operation::from_job_type(""), None);
    assert_eq!(Operation::from_job_type("math_add "), None);
    assert_eq!(Operation::from_job_type("MATH_ADD"), None);
}

#[test]
fn to_args_writes_a_record_of_three_members() {
    let encoded = JobPayload::Multiply(args(2.5, -4.0, Some("r-1"))).to_args().unwrap();
    assert_eq!(
        encoded,
        record(vec![
            ("a", Value::Number(bits(2.5))),
            ("b", Value::Number(bits(-4.0))),
            ("request_id", Value::Text("r-1".to_string())),
        ])
    );
}

#[test]
fn to_args_writes_null_for_a_missing_request_id() {
    let encoded = JobPayload::Add(args(1.0, 2.0, None)).to_args().unwrap();
    assert_eq!(
        encoded,
        record(vec![
            ("a", Value::Number(bits(1.0))),
            ("b", Value::Number(bits(2.0))),
            ("request_id", Value::Null),
        ])
    );
}

#[test]
fn every_variant_is_read_back_as_it_was_written() {
    let samples = vec![
        args(5.0, 3.0, Some("test-123")),
        args(0.0, -0.0, None),
        args(f64::MAX, f64::MIN_POSITIVE, Some("")),
        args(f64::INFINITY, f64::NEG_INFINITY, None),
        MathArgs { a: f64::NAN.to_bits(), b: 0x7ff8_0000_0000_0001, request_id: None },
    ];
    for sample in samples {
        for op in [Operation::Add, Operation::Subtract, Operation::Multiply, Operation::Divide] {
            let payload = JobPayload::new(op, sample.clone());
            let encoded = payload.to_args().unwrap();
            let decoded = JobPayload::from_job_type(payload.job_type(), encoded).unwrap();
            assert_eq!(decoded, payload);
        }
    }
}

#[test]
fn new_makes_the_variant_of_the_operation() {
    let a = args(1.0, 2.0, Some("x"));
    assert_eq!(JobPayload::new(Operation::Add, a.clone()), JobPayload::Add(a.clone()));
    assert_eq!(JobPayload::new(Operation::Subtract, a.clone()), JobPayload::Subtract(a.clone()));
    assert_eq!(JobPayload::new(Operation::Multiply, a.clone()), JobPayload::Multiply(a.clone()));
    assert_eq!(JobPayload::new(Operation::Divide, a.clone()), JobPayload::Divide(a.clone()));
    let payload = JobPayload::Divide(a.clone());
    assert_eq!(payload.operation(), Operation::Divide);
    assert_eq!(payload.math_args(), &a);
}

#[test]
fn unknown_job_type_is_rejected_with_its_tag() {
    let value = JobPayload::Add(args(1.0, 2.0, None)).to_args().unwrap();
    let error = JobPayload::from_job_type("math_modulo", value).unwrap_err();
    assert_eq!(error, DecodeError::UnknownJobType("math_modulo".to_string()));
    assert_eq!(error.message(), "Unknown job type: math_modulo");
}

#[test]
fn malformed_args_are_rejected_with_the_variant() {
    let cases = vec![
        Value::Null,
        Value::Bool(true),
        Value::Number(bits(1.0)),
        Value::Text("5".to_string()),
        record(vec![]),
        record(vec![("a", Value::Number(bits(1.0)))]),
        record(vec![("b", Value::Number(bits(1.0)))]),
        record(vec![("a", Value::Text("1".to_string())), ("b", Value::Number(bits(1.0)))]),
        record(vec![("a", Value::Number(bits(1.0))), ("b", Value::Null)]),
        record(vec![
            ("a", Value::Number(bits(1.0))),
            ("b", Value::Number(bits(2.0))),
            ("request_id", Value::Number(bits(7.0))),
        ]),
        record(vec![
            ("a", Value::Number(bits(1.0))),
            ("b", Value::Number(bits(2.0))),
            ("request_id", Value::List(vec![])),
        ]),
        Value::List(vec![]),
        Value::List(vec![Value::Number(bits(1.0)), Value::Number(bits(2.0))]),
        Value::List(vec![
            Value::Number(bits(1.0)),
            Value::Number(bits(2.0)),
            Value::Null,
            Value::Null,
        ]),
        Value::List(vec![Value::Number(bits(1.0)), Value::Null, Value::Null]),
    ];
    for value in cases {
        let error = JobPayload::from_job_type("math_subtract", duplicate(&value)).unwrap_err();
        assert_eq!(error, DecodeError::MalformedArgs(Operation::Subtract), "{:?}", value);
    }
    assert_eq!(
        DecodeError::MalformedArgs(Operation::Add).message(),
        "Failed to parse Add job args"
    );
    assert_eq!(
        DecodeError::MalformedArgs(Operation::Subtract).message(),
        "Failed to parse Subtract job args"
    );
    assert_eq!(
        DecodeError::MalformedArgs(Operation::Multiply).message(),
        "Failed to parse Multiply job args"
    );
    assert_eq!(
        DecodeError::MalformedArgs(Operation::Divide).message(),
        "Failed to parse Divide job args"
    );
}

#[test]
fn an_unknown_tag_is_reported_before_the_args_are_read() {
    let error = JobPayload::from_job_type("nothing", Value::Null).unwrap_err();
    assert_eq!(error, DecodeError::UnknownJobType("nothing".to_string()));
}

#[test]
fn a_record_may_leave_out_the_request_id_and_hold_more() {
    let value = record(vec![
        ("note", Value::Bool(true)),
        ("b", Value::Number(bits(2.0))),
        ("a", Value::Number(bits(1.0))),
    ]);
    let decoded = JobPayload::from_job_type("math_divide", value).unwrap();
    assert_eq!(decoded, JobPayload::Divide(args(1.0, 2.0, None)));
}

#[test]
fn a_record_is_read_by_the_first_member_of_a_name() {
    let value = record(vec![
        ("a", Value::Number(bits(1.0))),
        ("a", Value::Text("second".to_string())),
        ("b", Value::Number(bits(2.0))),
    ]);
    let decoded = JobPayload::from_job_type("math_add", value).unwrap();
    assert_eq!(decoded, JobPayload::Add(args(1.0, 2.0, None)));
}

#[test]
fn a_list_of_three_is_read_by_position() {
    let value = Value::List(vec![
        Value::Number(bits(9.0)),
        Value::Number(bits(3.0)),
        Value::Text("by-position".to_string()),
    ]);
    let decoded = JobPayload::from_job_type("math_divide", value).unwrap();
    assert_eq!(decoded, JobPayload::Divide(args(9.0, 3.0, Some("by-position"))));

    let value =
        Value::List(vec![Value::Number(bits(9.0)), Value::Number(bits(3.0)), Value::Null]);
    let decoded = JobPayload::from_job_type("math_add", value).unwrap();
    assert_eq!(decoded, JobPayload::Add(args(9.0, 3.0, None)));
}

#[test]
fn math_args_are_read_from_a_borrowed_value() {
    let value = args(1.5, 2.5, Some("id")).to_value();
    assert_eq!(MathArgs::from_value(&value), Some(args(1.5, 2.5, Some("id"))));
    assert_eq!(MathArgs::from_value(&Value::Null), None);
}

#[test]
fn find_returns_the_first_member_of_the_name() {
    let members = vec![
        ("x".to_string(), Value::Number(1)),
        ("y".to_string(), Value::Number(2)),
        ("x".to_string(), Value::Number(3)),
    ];
    assert_eq!(find(&members, "x"), Some(&Value::Number(1)));
    assert_eq!(find(&members, "y"), Some(&Value::Number(2)));
    assert_eq!(find(&members, "z"), None);
    assert_eq!(find(&Vec::new(), "x"), None);
}

#[test]
fn duplicate_copies_a_nested_value() {
    let value = record(vec![
        ("list", Value::List(vec![Value::Null, Value::Bool(false), Value::Number(7)])),
        ("inner", record(vec![("text", Value::Text("héllo".to_string()))])),
    ]);
    assert_eq!(duplicate(&value), value);
    assert_eq!(value.clone(), value);
}
