//! How a request is worked through: as steps, each of which either asks for one
//! call of the storage or gives the response.
//!
//! A [`Pending`] request names the call that it waits for ([`Pending::action`])
//! and is taken on with the answer to it ([`Pending::resume`]), until it is
//! [`Step::Done`]. Whoever drives the steps performs the calls of one request
//! inside one transaction.
use vstd::prelude::*;
use vstd::string::*;

use super::persistence::{
    PromiseCreateParams, PromiseCreateResult, PromiseSettleParams, PromiseSettleResult,
    RegisterCallbackResult, ScheduleCreateParams, TaskAcquireParams, TaskAcquireResult,
    TaskContinueResult, TaskCreateParams, TaskCreateResult, TaskFenceCreateParams,
    TaskFenceResult, TaskFenceSettleParams, TaskFulfillParams, TaskFulfillResult,
    TaskHaltResult, TaskReleaseResult, TaskSuspendResult,
};
use super::processing::TimeoutRun;
use super::promise_ops::{
    PromiseCreateWait, PromiseGetWait, PromiseRegisterCallbackWait, PromiseRegisterListenerWait,
    PromiseSearchWait, PromiseSettleWait,
};
use super::schedule_ops::{
    ScheduleCreateWait, ScheduleDeleteWait, ScheduleGetWait, ScheduleSearchWait,
};
use super::task_ops::{
    TaskAcquireWait, TaskContinueWait, TaskCreateWait, TaskFenceWait, TaskFulfillWait,
    TaskGetWait, TaskHaltWait, TaskHeartbeatWait, TaskReleaseWait, TaskSearchWait,
    TaskSuspendWait,
};
use super::types::{
    PromiseCreateData, PromiseGetData, PromiseRecord, PromiseRegisterCallbackData,
    PromiseRegisterListenerData, PromiseSearchData, PromiseSettleData, ResponseData,
    ResponseEnvelope, ScheduleCreateData, ScheduleDeleteData, ScheduleGetData, ScheduleRecord,
    ScheduleSearchData, TaskAcquireData, TaskContinueData, TaskCreateData, TaskFenceData,
    TaskFulfillData, TaskGetData, TaskHaltData, TaskHeartbeatData, TaskRecord, TaskReleaseData,
    TaskSearchData, TaskSuspendData,
};
use crate::json::Json;
use crate::string_map::StringMap;
use crate::text::texts_of;

verus! {

/// The operations of the server.
#[derive(Debug, Clone, Copy, PartialEq, Eq, Structural)]
pub enum Route {
    PromiseGet,
    PromiseCreate,
    PromiseSettle,
    PromiseRegisterCallback,
    PromiseRegisterListener,
    PromiseSearch,
    TaskGet,
    TaskCreate,
    TaskAcquire,
    TaskRelease,
    TaskFulfill,
    TaskSuspend,
    TaskFence,
    TaskHeartbeat,
    TaskHalt,
    TaskContinue,
    TaskSearch,
    ScheduleGet,
    ScheduleCreate,
    ScheduleDelete,
    ScheduleSearch,
    DebugStart,
    DebugStop,
    DebugReset,
    DebugSnap,
    DebugTick,
}

/// The decoded payload of a request.
#[derive(Debug)]
pub enum RequestData {
    PromiseGet(PromiseGetData),
    PromiseCreate(PromiseCreateData),
    PromiseSettle(PromiseSettleData),
    PromiseRegisterCallback(PromiseRegisterCallbackData),
    PromiseRegisterListener(PromiseRegisterListenerData),
    PromiseSearch(PromiseSearchData),
    TaskGet(TaskGetData),
    TaskCreate(TaskCreateData),
    TaskAcquire(TaskAcquireData),
    TaskRelease(TaskReleaseData),
    TaskFulfill(TaskFulfillData),
    TaskSuspend(TaskSuspendData),
    TaskFence(TaskFenceData),
    TaskHeartbeat(TaskHeartbeatData),
    TaskHalt(TaskHaltData),
    TaskContinue(TaskContinueData),
    TaskSearch(TaskSearchData),
    ScheduleGet(ScheduleGetData),
    ScheduleCreate(ScheduleCreateData),
    ScheduleDelete(ScheduleDeleteData),
    ScheduleSearch(ScheduleSearchData),
}

/// What came of decoding and validating a payload.
#[derive(Debug)]
pub enum Decoded {
    /// The payload does not have the shape of the operation's data; with the
    /// decoder's message.
    Malformed(String),
    /// The payload has the shape, but breaks a validation rule; with the
    /// formatted validation errors.
    Invalid(String),
    Valid(RequestData),
}

/// A call that is to be made before a request can go on.
pub enum Action<'a> {
    /// Decode and validate `data` as the payload of the operation `route`.
    Decode { route: Route, data: &'a Json },
    /// Whether `cron` is a valid cron expression.
    IsValidCron { cron: &'a str },
    /// The first time after `after` that `cron` names.
    NextCron { cron: &'a str, after: i64 },
    /// Settle those of the promises that have timed out.
    TryTimeout { ids: Vec<&'a str>, time: i64 },
    /// Lock the promise and the task with this id.
    LockForUpdate { id: &'a str },
    PromiseGet { id: &'a str },
    PromiseCreate(PromiseCreateParams<'a>),
    PromiseSettle(PromiseSettleParams<'a>),
    PromiseRegisterCallback { awaited: &'a str, awaiter: &'a str, time: i64 },
    PromiseRegisterListener { awaited: &'a str, address: &'a str },
    PromiseSearch {
        state: Option<&'a str>,
        tags: Option<&'a str>,
        cursor: Option<&'a str>,
        limit: i64,
    },
    TaskGet { id: &'a str },
    TaskCreate(TaskCreateParams<'a>),
    /// Fire the callbacks registered on a settled promise.
    ProcessCallbacks { id: &'a str, time: i64 },
    /// The promises that the holder of a task is likely to ask for.
    ComputePreload { id: &'a str },
    TaskAcquire(TaskAcquireParams<'a>),
    TaskRelease { id: &'a str, version: i64, time: i64, retry_timeout: i64 },
    TaskFulfill(TaskFulfillParams<'a>),
    TaskSuspend { id: &'a str, version: i64, awaited_ids: Vec<&'a str> },
    TaskFenceCreate(TaskFenceCreateParams<'a>),
    TaskFenceSettle(TaskFenceSettleParams<'a>),
    TaskHeartbeat { pid: &'a str, tasks: Vec<(&'a str, i64)>, time: i64 },
    TaskHalt { id: &'a str },
    TaskContinue { id: &'a str, time: i64 },
    TaskSearch { state: Option<&'a str>, cursor: Option<&'a str>, limit: i64 },
    ScheduleGet { id: &'a str },
    ScheduleCreate(ScheduleCreateParams<'a>),
    ScheduleDelete { id: &'a str },
    ScheduleSearch { tags: Option<&'a str>, cursor: Option<&'a str>, limit: i64 },
    /// Clear all data.
    DebugReset,
    /// A picture of all data.
    Snap,
    /// Process expired promise timeouts, task retries and task leases.
    ProcessTimeouts { time: i64 },
    /// The schedules that are due, each with the time at which it was due.
    GetExpiredScheduleTimeouts { time: i64 },
    /// Create the promise of a due schedule and move the schedule on.
    ProcessScheduleTimeout {
        schedule_id: &'a str,
        fired_at: i64,
        next_run_at: i64,
        time: i64,
        promise_tags: &'a StringMap,
    },
}

impl<'a> Action<'a> {
    /// Whether this call settles the timed out among the promises `ids`.
    pub open spec fn is_try_timeout(self, ids: Seq<Seq<char>>, time: i64) -> bool {
        self matches Action::TryTimeout { ids: i, time: t } && texts_of(i@) == ids && t == time
    }
}

/// The answer to a call.
#[derive(Debug)]
pub enum Event {
    Decoded(Decoded),
    CronValid(bool),
    NextCron(i64),
    /// A call that answers nothing is done.
    Done,
    Locked { task_exists: bool },
    Promise(Option<PromiseRecord>),
    Promises(Vec<PromiseRecord>),
    PromiseCreated(PromiseCreateResult),
    PromiseSettled(PromiseSettleResult),
    CallbackRegistered(RegisterCallbackResult),
    Task(Option<TaskRecord>),
    Tasks(Vec<TaskRecord>),
    TaskCreated(TaskCreateResult),
    TaskAcquired(TaskAcquireResult),
    TaskReleased(TaskReleaseResult),
    TaskFulfilled(TaskFulfillResult),
    TaskSuspended(TaskSuspendResult),
    TaskFenced(TaskFenceResult),
    TaskHalted(TaskHaltResult),
    TaskContinued(TaskContinueResult),
    Schedule(Option<ScheduleRecord>),
    Schedules(Vec<ScheduleRecord>),
    ScheduleCreated(ScheduleRecord),
    ScheduleDeleted(bool),
    Snapshot(Json),
    ExpiredSchedules(Vec<(String, i64)>),
    /// Whether the schedule fired, rather than having fired before.
    ScheduleFired(bool),
}

/// What identifies a request in its response.
#[derive(Debug)]
pub struct Head {
    pub kind: String,
    pub corr_id: String,
}

/// What a request carries through all of its steps.
#[derive(Debug)]
pub struct Ticket {
    pub head: Head,
    pub route: Route,
    /// The time at which the request came in.
    pub now: i64,
    /// The configured retry timeout of pending tasks.
    pub retry_timeout: i64,
}

/// What a request waits for.
#[derive(Debug)]
pub enum Wait {
    Decode(Json),
    PromiseGet(PromiseGetWait),
    PromiseCreate(PromiseCreateWait),
    PromiseSettle(PromiseSettleWait),
    PromiseRegisterCallback(PromiseRegisterCallbackWait),
    PromiseRegisterListener(PromiseRegisterListenerWait),
    PromiseSearch(PromiseSearchWait),
    TaskGet(TaskGetWait),
    TaskCreate(TaskCreateWait),
    TaskAcquire(TaskAcquireWait),
    TaskRelease(TaskReleaseWait),
    TaskFulfill(TaskFulfillWait),
    TaskSuspend(TaskSuspendWait),
    TaskHeartbeat(TaskHeartbeatWait),
    TaskHalt(TaskHaltWait),
    TaskContinue(TaskContinueWait),
    TaskSearch(TaskSearchWait),
    TaskFence(TaskFenceWait),
    ScheduleGet(ScheduleGetWait),
    ScheduleCreate(ScheduleCreateWait),
    ScheduleDelete(ScheduleDeleteWait),
    ScheduleSearch(ScheduleSearchWait),
    /// Clear all data.
    Reset,
    /// Take a picture of all data.
    Snap,
    /// Process what has timed out.
    Tick(TimeoutRun),
}

/// A request that waits for a call.
#[derive(Debug)]
pub struct Pending {
    pub ticket: Ticket,
    pub wait: Wait,
}

/// How far a request has come.
#[derive(Debug)]
pub enum Step {
    Wait(Pending),
    Done(ResponseEnvelope),
}

impl Step {
    /// Whether the request of the ticket `t` goes on to wait for `wait`.
    pub open spec fn waits(self, t: Ticket, wait: Wait) -> bool {
        self == Step::Wait((Pending { ticket: t, wait }))
    }

    /// Whether this is the response, with this status and payload, to the
    /// request of the ticket `t`.
    pub open spec fn is_reply(self, t: Ticket, status: int, data: ResponseData) -> bool {
        self matches Step::Done(r) && r.is_headed(t.head.kind@, t.head.corr_id@, status) && r.data
            == data
    }

    /// Whether this is the response, with this status and message, to the
    /// request of the ticket `t`.
    pub open spec fn is_error(self, t: Ticket, status: int, message: Seq<char>) -> bool {
        &&& self matches Step::Done(r)
        &&& r.is_headed(t.head.kind@, t.head.corr_id@, status)
        &&& r.data matches ResponseData::Text(m)
        &&& m@ == message
    }
}

impl Ticket {
    /// Go on to wait for `wait`.
    pub fn wait(self, wait: Wait) -> (out: Step)
        ensures
            out.waits(self, wait),
    {
        Step::Wait(Pending { ticket: self, wait })
    }

    /// Respond with this status and payload.
    pub fn reply(self, status: i32, data: ResponseData) -> (out: Step)
        ensures
            out.is_reply(self, status as int, data),
    {
        Step::Done(ResponseEnvelope::new(self.head.kind, self.head.corr_id, status, data))
    }

    /// Respond with this payload, reporting success.
    pub fn success(self, data: ResponseData) -> (out: Step)
        ensures
            out.is_reply(self, 200, data),
    {
        Step::Done(ResponseEnvelope::success(self.head.kind, self.head.corr_id, data))
    }

    /// Respond with this status and message.
    pub fn error(self, status: i32, message: &str) -> (out: Step)
        ensures
            out.is_error(self, status as int, message@),
    {
        Step::Done(
            ResponseEnvelope::error(self.head.kind, self.head.corr_id, status, message),
        )
    }
}

} // verus!
