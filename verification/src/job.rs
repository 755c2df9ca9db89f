//! The job model: the closed set of job variants, their arguments, and the
//! encoding of a job as a type tag with one structured argument.

use crate::text::same_text;
use crate::value::{find, lemma_record_view, member, Value, ValueView};
use std::convert::Infallible;
use vstd::prelude::*;
use vstd::string::StringExecFns;

verus! {

/// The computation that a job asks for.
#[derive(Debug, Clone, Copy, PartialEq, Eq, Structural)]
pub enum Operation {
    Add,
    Subtract,
    Multiply,
    Divide,
}

/// The arguments of an arithmetic job.
///
/// The operands are binary64 values, held by their IEEE 754 bit patterns.
#[derive(Debug, Clone, PartialEq, Eq)]
pub struct MathArgs {
    pub a: u64,
    pub b: u64,
    /// Optional identifier for tracking the operation
    pub request_id: Option<String>,
}

/// The model of [`MathArgs`].
pub struct MathArgsView {
    pub a: u64,
    pub b: u64,
    pub request_id: Option<Seq<char>>,
}

impl View for MathArgs {
    type V = MathArgsView;

    open spec fn view(&self) -> MathArgsView {
        MathArgsView {
            a: self.a,
            b: self.b,
            request_id: match self.request_id {
                Some(text) => Some(text@),
                None => None,
            },
        }
    }
}

/// All supported job types in the system.
#[derive(Debug, Clone, PartialEq, Eq)]
pub enum JobPayload {
    /// Add two numbers together
    Add(MathArgs),
    /// Subtract two numbers
    Subtract(MathArgs),
    /// Multiply two numbers
    Multiply(MathArgs),
    /// Divide two numbers
    Divide(MathArgs),
}

/// The model of a [`JobPayload`]: which computation, on which arguments.
pub struct JobPayloadView {
    pub op: Operation,
    pub args: MathArgsView,
}

impl View for JobPayload {
    type V = JobPayloadView;

    open spec fn view(&self) -> JobPayloadView {
        match self {
            JobPayload::Add(args) => JobPayloadView { op: Operation::Add, args: args@ },
            JobPayload::Subtract(args) => JobPayloadView { op: Operation::Subtract, args: args@ },
            JobPayload::Multiply(args) => JobPayloadView { op: Operation::Multiply, args: args@ },
            JobPayload::Divide(args) => JobPayloadView { op: Operation::Divide, args: args@ },
        }
    }
}

/// Why a tag and an argument could not be read as a job.
#[derive(Debug, Clone, PartialEq, Eq)]
pub enum DecodeError {
    /// The tag names no job variant; the tag is kept.
    UnknownJobType(String),
    /// The tag names this variant, but the argument does not hold its fields.
    MalformedArgs(Operation),
}

/// The model of a [`DecodeError`].
pub enum DecodeErrorView {
    UnknownJobType(Seq<char>),
    MalformedArgs(Operation),
}

impl View for DecodeError {
    type V = DecodeErrorView;

    open spec fn view(&self) -> DecodeErrorView {
        match self {
            DecodeError::UnknownJobType(tag) => DecodeErrorView::UnknownJobType(tag@),
            DecodeError::MalformedArgs(op) => DecodeErrorView::MalformedArgs(*op),
        }
    }
}

/// The tag under which the broker files jobs of this kind.
pub open spec fn job_type_of(op: Operation) -> Seq<char> {
    match op {
        Operation::Add => "math_add"@,
        Operation::Subtract => "math_subtract"@,
        Operation::Multiply => "math_multiply"@,
        Operation::Divide => "math_divide"@,
    }
}

/// The kind of job that a tag stands for, if it stands for one.
pub open spec fn operation_named(tag: Seq<char>) -> Option<Operation> {
    if tag == "math_add"@ {
        Some(Operation::Add)
    } else if tag == "math_subtract"@ {
        Some(Operation::Subtract)
    } else if tag == "math_multiply"@ {
        Some(Operation::Multiply)
    } else if tag == "math_divide"@ {
        Some(Operation::Divide)
    } else {
        None
    }
}

/// The argument that carries `args`: a record of the two operands and the
/// request identifier, which is null where there is none.
pub open spec fn encode_args(args: MathArgsView) -> ValueView {
    ValueView::Record(
        seq![
            ("a"@, ValueView::Number(args.a)),
            ("b"@, ValueView::Number(args.b)),
            (
                "request_id"@,
                match args.request_id {
                    Some(text) => ValueView::Text(text),
                    None => ValueView::Null,
                },
            ),
        ],
    )
}

/// A field that has to hold a number.
pub open spec fn number_in(field: Option<ValueView>) -> Option<u64> {
    match field {
        Some(ValueView::Number(bits)) => Some(bits),
        _ => None,
    }
}

/// A field that may be missing or null, and otherwise has to hold text.
/// The outer `None` says that the field holds something else.
pub open spec fn optional_text_in(field: Option<ValueView>) -> Option<Option<Seq<char>>> {
    match field {
        None => Some(None),
        Some(ValueView::Null) => Some(None),
        Some(ValueView::Text(text)) => Some(Some(text)),
        _ => None,
    }
}

/// The arguments made of three fields, where each of them was read.
pub open spec fn assemble(
    a: Option<u64>,
    b: Option<u64>,
    request_id: Option<Option<Seq<char>>>,
) -> Option<MathArgsView> {
    match (a, b, request_id) {
        (Some(a), Some(b), Some(request_id)) => Some(MathArgsView { a, b, request_id }),
        _ => None,
    }
}

/// The arguments that a value holds, if it holds any.
///
/// A record is read by its members `a`, `b` and `request_id`; other members
/// are passed over. A list is read by position and has exactly three items.
/// No other value holds arguments.
pub open spec fn decode_args(value: ValueView) -> Option<MathArgsView> {
    match value {
        ValueView::Record(members) => assemble(
            number_in(member(members, "a"@)),
            number_in(member(members, "b"@)),
            optional_text_in(member(members, "request_id"@)),
        ),
        ValueView::List(items) => if items.len() == 3 {
            assemble(
                number_in(Some(items[0])),
                number_in(Some(items[1])),
                optional_text_in(Some(items[2])),
            )
        } else {
            None
        },
        _ => None,
    }
}

/// The job that a tag and an argument stand for, or the reason why they
/// stand for none.
pub open spec fn decode_job(tag: Seq<char>, value: ValueView) -> Result<
    JobPayloadView,
    DecodeErrorView,
> {
    match operation_named(tag) {
        None => Err(DecodeErrorView::UnknownJobType(tag)),
        Some(op) => match decode_args(value) {
            None => Err(DecodeErrorView::MalformedArgs(op)),
            Some(args) => Ok(JobPayloadView { op, args }),
        },
    }
}

/// The name of a job kind, as error texts spell it.
pub open spec fn operation_name(op: Operation) -> Seq<char> {
    match op {
        Operation::Add => "Add"@,
        Operation::Subtract => "Subtract"@,
        Operation::Multiply => "Multiply"@,
        Operation::Divide => "Divide"@,
    }
}

/// The text of a decoding error.
pub open spec fn decode_error_text(error: DecodeErrorView) -> Seq<char> {
    match error {
        DecodeErrorView::UnknownJobType(tag) => "Unknown job type: "@ + tag,
        DecodeErrorView::MalformedArgs(op) => "Failed to parse "@ + operation_name(op)
            + " job args"@,
    }
}

impl Operation {
    /// The tag under which the broker files jobs of this kind.
    pub fn job_type(&self) -> (tag: &'static str)
        ensures
            tag@ == job_type_of(*self),
    {
        match self {
            Operation::Add => "math_add",
            Operation::Subtract => "math_subtract",
            Operation::Multiply => "math_multiply",
            Operation::Divide => "math_divide",
        }
    }

    /// Reads a tag.
    pub fn from_job_type(tag: &str) -> (op: Option<Operation>)
        ensures
            op == operation_named(tag@),
    {
        if same_text(tag, "math_add") {
            Some(Operation::Add)
        } else if same_text(tag, "math_subtract") {
            Some(Operation::Subtract)
        } else if same_text(tag, "math_multiply") {
            Some(Operation::Multiply)
        } else if same_text(tag, "math_divide") {
            Some(Operation::Divide)
        } else {
            None
        }
    }

    /// The name of this kind of job, as error texts spell it.
    pub fn name(&self) -> (name: &'static str)
        ensures
            name@ == operation_name(*self),
    {
        match self {
            Operation::Add => "Add",
            Operation::Subtract => "Subtract",
            Operation::Multiply => "Multiply",
            Operation::Divide => "Divide",
        }
    }
}

impl MathArgs {
    /// Encodes the arguments as a record.
    pub fn to_value(&self) -> (value: Value)
        ensures
            value@ == encode_args(self@),
    {
        let request_id = match &self.request_id {
            Some(text) => Value::Text(text.clone()),
            None => Value::Null,
        };
        let mut members: Vec<(String, Value)> = Vec::with_capacity(3);
        members.push((String::from_str("a"), Value::Number(self.a)));
        members.push((String::from_str("b"), Value::Number(self.b)));
        members.push((String::from_str("request_id"), request_id));
        proof {
            lemma_record_view(members);
            assert(crate::value::members_of(members@) =~= encode_args(self@)->Record_0);
        }
        Value::Record(members)
    }

    /// Reads arguments out of a value.
    pub fn from_value(value: &Value) -> (args: Option<MathArgs>)
        ensures
            match args {
                Some(args) => decode_args(value@) == Some(args@),
                None => decode_args(value@) is None,
            },
    {
        match value {
            Value::Record(members) => {
                proof {
                    lemma_record_view(*members);
                }
                let a = read_number(find(members, "a"));
                let b = read_number(find(members, "b"));
                let request_id = read_optional_text(find(members, "request_id"));
                build(a, b, request_id)
            },
            Value::List(items) => {
                proof {
                    crate::value::lemma_list_view(*items);
                }
                if items.len() == 3 {
                    let a = read_number(Some(&items[0]));
                    let b = read_number(Some(&items[1]));
                    let request_id = read_optional_text(Some(&items[2]));
                    build(a, b, request_id)
                } else {
                    None
                }
            },
            _ => None,
        }
    }
}

/// Reads a field that has to hold a number.
fn read_number(field: Option<&Value>) -> (bits: Option<u64>)
    ensures
        bits == number_in(
            match field {
                Some(value) => Some(value@),
                None => None,
            },
        ),
{
    match field {
        Some(Value::Number(bits)) => Some(*bits),
        _ => None,
    }
}

/// Reads a field that may be missing or null, and otherwise has to hold text.
fn read_optional_text(field: Option<&Value>) -> (text: Option<Option<String>>)
    ensures
        match text {
            Some(Some(t)) => optional_text_in(
                match field {
                    Some(value) => Some(value@),
                    None => None,
                },
            ) == Some(Some(t@)),
            Some(None) => optional_text_in(
                match field {
                    Some(value) => Some(value@),
                    None => None,
                },
            ) == Some(None::<Seq<char>>),
            None => optional_text_in(
                match field {
                    Some(value) => Some(value@),
                    None => None,
                },
            ) is None,
        },
{
    match field {
        None => Some(None),
        Some(Value::Null) => Some(None),
        Some(Value::Text(text)) => Some(Some(text.clone())),
        _ => None,
    }
}

/// Puts three fields together, where each of them was read.
fn build(a: Option<u64>, b: Option<u64>, request_id: Option<Option<String>>) -> (args: Option<
    MathArgs,
>)
    ensures
        match args {
            Some(args) => a is Some && b is Some && request_id is Some && args.a == a->0 && args.b
                == b->0 && args.request_id == request_id->0,
            None => a is None || b is None || request_id is None,
        },
{
    match (a, b, request_id) {
        (Some(a), Some(b), Some(request_id)) => Some(MathArgs { a, b, request_id }),
        _ => None,
    }
}

impl JobPayload {
    /// Makes the job of the given kind on the given arguments.
    pub fn new(op: Operation, args: MathArgs) -> (payload: JobPayload)
        ensures
            payload@ == (JobPayloadView { op, args: args@ }),
            payload.args() == args,
    {
        match op {
            Operation::Add => JobPayload::Add(args),
            Operation::Subtract => JobPayload::Subtract(args),
            Operation::Multiply => JobPayload::Multiply(args),
            Operation::Divide => JobPayload::Divide(args),
        }
    }

    /// The arguments of this job.
    pub open spec fn args(&self) -> MathArgs {
        match self {
            JobPayload::Add(args) => *args,
            JobPayload::Subtract(args) => *args,
            JobPayload::Multiply(args) => *args,
            JobPayload::Divide(args) => *args,
        }
    }

    /// The kind of this job.
    pub fn operation(&self) -> (op: Operation)
        ensures
            op == self@.op,
    {
        match self {
            JobPayload::Add(_) => Operation::Add,
            JobPayload::Subtract(_) => Operation::Subtract,
            JobPayload::Multiply(_) => Operation::Multiply,
            JobPayload::Divide(_) => Operation::Divide,
        }
    }

    /// The arguments of this job.
    pub fn math_args(&self) -> (args: &MathArgs)
        ensures
            *args == self.args(),
            args@ == self@.args,
    {
        match self {
            JobPayload::Add(args) => args,
            JobPayload::Subtract(args) => args,
            JobPayload::Multiply(args) => args,
            JobPayload::Divide(args) => args,
        }
    }

    /// Get the job type string for the broker
    pub fn job_type(&self) -> (tag: &'static str)
        ensures
            tag@ == job_type_of(self@.op),
    {
        self.operation().job_type()
    }

    /// Encode the job arguments as a structured value. Every job can be
    /// encoded: the error type has no value.
    pub fn to_args(&self) -> (encoded: Result<Value, Infallible>)
        ensures
            encoded matches Ok(value) && value@ == encode_args(self@.args),
    {
        Ok(self.math_args().to_value())
    }

    /// Parse job payload from job type and structured args
    pub fn from_job_type(job_type: &str, args: Value) -> (decoded: Result<JobPayload, DecodeError>)
        ensures
            match decoded {
                Ok(payload) => decode_job(job_type@, args@) == Ok::<
                    JobPayloadView,
                    DecodeErrorView,
                >(payload@),
                Err(error) => decode_job(job_type@, args@) == Err::<
                    JobPayloadView,
                    DecodeErrorView,
                >(error@),
            },
    {
        match Operation::from_job_type(job_type) {
            None => Err(DecodeError::UnknownJobType(String::from_str(job_type))),
            Some(op) => match MathArgs::from_value(&args) {
                None => Err(DecodeError::MalformedArgs(op)),
                Some(math_args) => Ok(JobPayload::new(op, math_args)),
            },
        }
    }
}

impl DecodeError {
    /// The text of this error.
    pub fn message(&self) -> (text: String)
        ensures
            text@ == decode_error_text(self@),
    {
        match self {
            DecodeError::UnknownJobType(tag) => String::from_str("Unknown job type: ").concat(
                tag.as_str(),
            ),
            DecodeError::MalformedArgs(op) => String::from_str("Failed to parse ").concat(
                op.name(),
            ).concat(" job args"),
        }
    }
}

/// Every kind of job is found again under its own tag, so no two kinds share
/// a tag.
pub proof fn lemma_tag_round_trip(op: Operation)
    ensures
        operation_named(job_type_of(op)) == Some(op),
{
    reveal_strlit("math_add");
    reveal_strlit("math_subtract");
    reveal_strlit("math_multiply");
    reveal_strlit("math_divide");
    // the tags differ in length, but for two, which differ in a letter
    assert("math_add"@.len() == 8);
    assert("math_subtract"@.len() == 13);
    assert("math_multiply"@.len() == 13);
    assert("math_divide"@.len() == 11);
    assert("math_subtract"@[5] != "math_multiply"@[5]);
}

/// A tag stands for a kind of job only if it is that kind's own tag.
pub proof fn lemma_tag_determines_kind(tag: Seq<char>, op: Operation)
    requires
        operation_named(tag) == Some(op),
    ensures
        tag == job_type_of(op),
{
}

/// Arguments are read back from their encoding as they were.
pub proof fn lemma_args_round_trip(args: MathArgsView)
    ensures
        decode_args(encode_args(args)) == Some(args),
{
    reveal_strlit("a");
    reveal_strlit("b");
    reveal_strlit("request_id");
    reveal_with_fuel(member, 4);
    // the three names differ, so each member is found at its own place
    assert("a"@[0] != "b"@[0]);
    assert("request_id"@.len() == 10);
}

/// Decoding undoes encoding: the tag and the argument that a job is sent
/// under are read back as that same job, whatever the job.
pub proof fn lemma_job_round_trip(job: JobPayloadView)
    ensures
        decode_job(job_type_of(job.op), encode_args(job.args)) == Ok::<
            JobPayloadView,
            DecodeErrorView,
        >(job),
{
    lemma_tag_round_trip(job.op);
    lemma_args_round_trip(job.args);
}

} // verus!
