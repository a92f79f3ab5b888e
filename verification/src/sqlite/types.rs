//! The requests that the embedded server takes, and the responses it gives.
use vstd::prelude::*;
use vstd::string::*;

use crate::json::Json;
use crate::string_map::StringMap;
pub use crate::types::{PromiseState, SettleState, TaskState};

verus! {

// Records

/// A value as the server keeps it: its data stays the encoded string that came
/// over the wire.
#[derive(Debug)]
pub struct Value {
    pub headers: Option<StringMap>,
    pub data: Option<String>,
}

/// A durable promise.
#[derive(Debug)]
pub struct PromiseRecord {
    pub id: String,
    pub state: PromiseState,
    pub param: Value,
    pub value: Value,
    pub tags: StringMap,
    pub timeout_at: i64,
    pub created_at: i64,
    pub settled_at: Option<i64>,
}

/// A task.
#[derive(Debug)]
pub struct TaskRecord {
    pub id: String,
    pub state: TaskState,
    pub version: i64,
    pub resumes: i64,
    pub ttl: Option<i64>,
    pub pid: Option<String>,
}

/// A schedule.
#[derive(Debug)]
pub struct ScheduleRecord {
    pub id: String,
    pub cron: String,
    pub promise_id: String,
    pub promise_timeout: i64,
    pub promise_param: Value,
    pub promise_tags: StringMap,
    pub created_at: i64,
    pub next_run_at: i64,
    pub last_run_at: Option<i64>,
}

// Request payloads

#[derive(Debug)]
pub struct PromiseGetData {
    pub id: String,
}

#[derive(Debug)]
pub struct PromiseCreateData {
    pub id: String,
    pub timeout_at: i64,
    pub param: Value,
    pub tags: StringMap,
}

#[derive(Debug)]
pub struct PromiseSettleData {
    pub id: String,
    pub state: SettleState,
    pub value: Value,
}

#[derive(Debug)]
pub struct PromiseRegisterCallbackData {
    pub awaited: String,
    pub awaiter: String,
}

#[derive(Debug)]
pub struct PromiseRegisterListenerData {
    pub awaited: String,
    pub address: String,
}

#[derive(Debug)]
pub struct PromiseSearchData {
    pub state: Option<PromiseState>,
    pub tags: Option<StringMap>,
    pub cursor: Option<String>,
    pub limit: Option<i64>,
}

#[derive(Debug)]
pub struct TaskGetData {
    pub id: String,
}

/// Create a promise together with a task that is acquired at once.
#[derive(Debug)]
pub struct TaskCreateData {
    pub pid: String,
    pub ttl: i64,
    /// The payload of the embedded `promise.create` action.
    pub action: PromiseCreateData,
}

#[derive(Debug)]
pub struct TaskAcquireData {
    pub id: String,
    pub version: i64,
    pub pid: String,
    pub ttl: i64,
}

#[derive(Debug)]
pub struct TaskReleaseData {
    pub id: String,
    pub version: i64,
}

#[derive(Debug)]
pub struct TaskFulfillData {
    pub id: String,
    pub version: i64,
    /// The payload of the embedded `promise.settle` action.
    pub action: PromiseSettleData,
}

#[derive(Debug)]
pub struct TaskSuspendData {
    pub id: String,
    pub version: i64,
    /// The payloads of the embedded `promise.register_callback` actions.
    pub actions: Vec<PromiseRegisterCallbackData>,
}

/// An action to be performed only while the task is still held.
#[derive(Debug)]
pub struct FenceAction {
    pub kind: String,
    pub data: Json,
}

#[derive(Debug)]
pub struct TaskFenceData {
    pub id: String,
    pub version: i64,
    pub action: FenceAction,
}

/// A task that a worker reports to be alive.
#[derive(Debug)]
pub struct TaskRef {
    pub id: String,
    pub version: i64,
}

#[derive(Debug)]
pub struct TaskHeartbeatData {
    pub pid: String,
    pub tasks: Vec<TaskRef>,
}

#[derive(Debug)]
pub struct TaskHaltData {
    pub id: String,
}

#[derive(Debug)]
pub struct TaskContinueData {
    pub id: String,
}

#[derive(Debug)]
pub struct TaskSearchData {
    pub state: Option<TaskState>,
    pub cursor: Option<String>,
    pub limit: Option<i64>,
}

#[derive(Debug)]
pub struct ScheduleGetData {
    pub id: String,
}

#[derive(Debug)]
pub struct ScheduleCreateData {
    pub id: String,
    pub cron: String,
    pub promise_id: String,
    pub promise_timeout: i64,
    pub promise_param: Value,
    pub promise_tags: StringMap,
}

#[derive(Debug)]
pub struct ScheduleDeleteData {
    pub id: String,
}

#[derive(Debug)]
pub struct ScheduleSearchData {
    pub tags: Option<StringMap>,
    pub cursor: Option<String>,
    pub limit: Option<i64>,
}

// Envelopes

#[derive(Debug)]
pub struct RequestHead {
    pub corr_id: String,
}

/// A request.
#[derive(Debug)]
pub struct RequestEnvelope {
    pub kind: String,
    pub head: RequestHead,
    pub data: Json,
}

#[derive(Debug)]
pub struct ResponseHead {
    pub corr_id: String,
    pub status: i32,
}

/// The head of the response to a fenced action.
#[derive(Debug)]
pub struct ActionHead {
    pub corr_id: String,
    pub status: i32,
    pub version: String,
}

/// The outcome of a fenced action.
#[derive(Debug)]
pub enum ActionData {
    Promise(PromiseRecord),
    Text(String),
}

/// The response to a fenced action, inside the response to its fence.
#[derive(Debug)]
pub struct ActionEnvelope {
    pub kind: String,
    pub head: ActionHead,
    pub data: ActionData,
}

/// The payload of a response.
#[derive(Debug)]
pub enum ResponseData {
    /// The empty object.
    Empty,
    /// The empty array.
    EmptyList,
    /// A message.
    Text(String),
    Promise(PromiseRecord),
    Promises { promises: Vec<PromiseRecord>, cursor: Option<String> },
    Task(TaskRecord),
    TaskCreate { task: TaskRecord, promise: PromiseRecord, preload: Vec<PromiseRecord> },
    TaskAcquire { task: TaskRecord, promise: PromiseRecord, preload: Vec<PromiseRecord> },
    TaskFulfill { promise: PromiseRecord },
    TaskSuspend { preload: Vec<PromiseRecord> },
    TaskFence { action: ActionEnvelope, preload: Vec<PromiseRecord> },
    Tasks { tasks: Vec<TaskRecord>, cursor: Option<String> },
    Schedule(ScheduleRecord),
    Schedules { schedules: Vec<ScheduleRecord>, cursor: Option<String> },
    Snapshot(Json),
}

/// A response.
#[derive(Debug)]
pub struct ResponseEnvelope {
    pub kind: String,
    pub head: ResponseHead,
    pub data: ResponseData,
}

impl ResponseEnvelope {
    /// Whether this response has the given kind, correlation id and status.
    pub open spec fn is_headed(self, kind: Seq<char>, corr_id: Seq<char>, status: int) -> bool {
        &&& self.kind@ == kind
        &&& self.head.corr_id@ == corr_id
        &&& self.head.status == status
    }

    /// A response with the given status and payload.
    pub fn new(kind: String, corr_id: String, status: i32, data: ResponseData) -> (response:
        ResponseEnvelope)
        ensures
            response.is_headed(kind@, corr_id@, status as int),
            response.data == data,
    {
        ResponseEnvelope { kind, head: ResponseHead { corr_id, status }, data }
    }

    /// A response that reports success.
    pub fn success(kind: String, corr_id: String, data: ResponseData) -> (response:
        ResponseEnvelope)
        ensures
            response.is_headed(kind@, corr_id@, 200),
            response.data == data,
    {
        ResponseEnvelope::new(kind, corr_id, 200, data)
    }

    /// A response that reports a failure in words.
    pub fn error(kind: String, corr_id: String, status: i32, message: &str) -> (response:
        ResponseEnvelope)
        ensures
            response.is_headed(kind@, corr_id@, status as int),
            response.data matches ResponseData::Text(m) && m@ == message@,
    {
        ResponseEnvelope::new(kind, corr_id, status, ResponseData::Text(message.to_owned()))
    }
}

} // verus!
