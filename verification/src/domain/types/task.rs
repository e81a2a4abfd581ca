use crate::errors::{AppError, ErrorView, Kind};
use vstd::prelude::*;

verus! {

/// The records an SNS notification brings to a Lambda function.
pub struct SnsEventData {
    pub records: Vec<SnsRecord>,
}

pub struct SnsRecord {
    pub sns: SnsMessage,
}

pub struct SnsMessage {
    pub message: String,
}

/// The records an SQS queue brings to a Lambda function.
pub struct SqsEventData {
    pub records: Vec<SqsRecord>,
}

pub struct SqsRecord {
    pub body: String,
}

/// What an asynchronous task is given.
pub struct AsyncTaskPayload {
    pub name: String,
}

/// What a synchronous task is given.
pub struct SyncTaskPayload {
    pub name: String,
}

/// What a synchronous task answers.
pub struct SyncTaskResponse {
    pub name: String,
}

impl SnsEventData {
    /// The message of the first record, the one a task handles.
    pub fn first_message(&self) -> (r: Option<&String>)
        ensures
            match r {
                Some(m) => self.records@.len() > 0 && m@ == self.records@[0].sns.message@,
                None => self.records@.len() == 0,
            },
    {
        if self.records.len() == 0 {
            None
        } else {
            Some(&self.records[0].sns.message)
        }
    }
}

impl SqsEventData {
    /// The body of the first record.
    pub fn first_body(&self) -> (r: Option<&String>)
        ensures
            match r {
                Some(b) => self.records@.len() > 0 && b@ == self.records@[0].body@,
                None => self.records@.len() == 0,
            },
    {
        if self.records.len() == 0 {
            None
        } else {
            Some(&self.records[0].body)
        }
    }
}

/// What a task could not read: the event it was given, or the message in it.
#[derive(Debug, Clone, Copy, PartialEq, Eq, Structural)]
pub enum TaskInput {
    Payload,
    Message,
}

/// The message of the error for input that a task could not read.
pub open spec fn task_input_message(what: TaskInput) -> Seq<char> {
    match what {
        TaskInput::Payload => "failed to parse payload"@,
        TaskInput::Message => "failed to parse message"@,
    }
}

/// The error for input that a task could not read: a bad request that says
/// which input, caused by the reader's error.
pub fn task_input_error(what: TaskInput, src: String) -> (r: AppError)
    ensures
        r@ == (ErrorView { kind: Kind::BadRequest, msg: Some(task_input_message(what)), src: Some(src@) }),
{
    let msg = match what {
        TaskInput::Payload => String::from_str("failed to parse payload"),
        TaskInput::Message => String::from_str("failed to parse message"),
    };
    Kind::BadRequest.with(msg).with_src(src)
}

impl AsyncTaskPayload {
    /// The payload that the `callAsyncTask` mutation publishes.
    pub fn example() -> (r: AsyncTaskPayload)
        ensures
            r.name@ == "My Async Task"@,
    {
        AsyncTaskPayload { name: String::from_str("My Async Task") }
    }
}

impl SyncTaskPayload {
    /// The payload that the `callSyncTask` mutation sends.
    pub fn example() -> (r: SyncTaskPayload)
        ensures
            r.name@ == "My Sync Task"@,
    {
        SyncTaskPayload { name: String::from_str("My Sync Task") }
    }
}

} // verus!
