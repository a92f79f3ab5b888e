//! The operations on tasks.
use vstd::prelude::*;
use vstd::string::*;

use super::persistence::{
    TaskAcquireParams, TaskAcquireResult, TaskCreateParams, TaskCreateResult,
    TaskFenceCreateParams, TaskFenceResult, TaskFenceSettleParams, TaskFulfillParams,
};
use super::promise_ops::{
    birth, birth_of, checked_limit, create_error, create_fault, has_routable_target, limit_of, page,
    page_of, target, target_of, target_routable, try_timeout, MapTexts, PageLimit, DEFAULT_LIMIT,
};
use super::steps::{Action, Decoded, Event, RequestData, Route, Step, Ticket, Wait};
use super::types::{
    ActionData, ActionEnvelope, ActionHead, PromiseCreateData, PromiseRecord,
    PromiseRegisterCallbackData, PromiseSettleData, PromiseState, ResponseData, TaskAcquireData,
    TaskContinueData, TaskCreateData, TaskFenceData, TaskFulfillData, TaskGetData, TaskHaltData,
    TaskHeartbeatData, TaskRecord, TaskRef, TaskReleaseData, TaskSearchData, TaskState,
    TaskSuspendData,
};
use crate::ids::{same_origin, share_origin};
use crate::json::{Json, JsonTree};
use crate::string_map::{optional_json, optional_map_json};
use crate::text::{borrowed, joined, optional_str, optional_text, same_text, texts_of};

verus! {

// task.get

/// Where `task.get` stands.
#[derive(Debug)]
pub enum TaskGetWait {
    Timeout(TaskGetData),
    Read(TaskGetData),
}

/// Answer with a task.
pub fn op_task_get(t: Ticket, r: TaskGetData) -> (out: Step)
    ensures
        out.waits(t, Wait::TaskGet(TaskGetWait::Timeout(r))),
{
    t.wait(Wait::TaskGet(TaskGetWait::Timeout(r)))
}

impl TaskGetWait {
    /// The call that is waited for.
    pub open spec fn calls(self, t: Ticket, a: Action) -> bool {
        match self {
            TaskGetWait::Timeout(r) => a.is_try_timeout(seq![r.id@], t.now),
            TaskGetWait::Read(r) => a matches Action::TaskGet { id } && id@ == r.id@,
        }
    }

    /// The answers to that call.
    pub open spec fn admits(self, e: Event) -> bool {
        match self {
            TaskGetWait::Timeout(_) => e is Done,
            TaskGetWait::Read(_) => e is Task,
        }
    }

    /// What follows from an answer.
    pub open spec fn next(self, t: Ticket, e: Event, out: Step) -> bool {
        match (self, e) {
            (TaskGetWait::Timeout(r), _) => out.waits(t, Wait::TaskGet(TaskGetWait::Read(r))),
            (_, Event::Task(Some(task))) => out.is_reply(t, 200, ResponseData::Task(task)),
            _ => out.is_error(t, 404, "Task not found"@),
        }
    }

    pub fn action<'a>(&'a self, t: &Ticket) -> (a: Action<'a>)
        ensures
            self.calls(*t, a),
    {
        match self {
            TaskGetWait::Timeout(r) => try_timeout(r.id.as_str(), t.now),
            TaskGetWait::Read(r) => Action::TaskGet { id: r.id.as_str() },
        }
    }

    pub fn accepts(&self, e: &Event) -> (admitted: bool)
        ensures
            admitted == self.admits(*e),
    {
        match (self, e) {
            (TaskGetWait::Timeout(_), Event::Done) => true,
            (TaskGetWait::Read(_), Event::Task(_)) => true,
            _ => false,
        }
    }

    pub fn resume(self, t: Ticket, e: Event) -> (out: Step)
        requires
            self.admits(e),
        ensures
            self.next(t, e, out),
    {
        match (self, e) {
            (TaskGetWait::Timeout(r), _) => t.wait(Wait::TaskGet(TaskGetWait::Read(r))),
            (_, Event::Task(Some(task))) => t.success(ResponseData::Task(task)),
            _ => t.error(404, "Task not found"),
        }
    }
}

// task.create

/// Where `task.create` stands.
#[derive(Debug)]
pub enum TaskCreateWait {
    Timeout(TaskCreateData),
    Lock(TaskCreateData),
    Store(TaskCreateData, MapTexts),
    /// The promise turned out to be settled: fire its callbacks.
    Callbacks(TaskCreateData, TaskCreateResult),
    /// The task exists and is pending at this version: acquire it.
    Acquire(TaskCreateData, PromiseRecord, i64),
    /// The task is held: collect what its holder is likely to ask for.
    Preload(TaskRecord, PromiseRecord),
}

/// What follows from a valid request to create a task, given whether the target
/// of its promise is routable.
pub open spec fn task_create_begins(
    t: Ticket,
    r: TaskCreateData,
    routable: bool,
    out: Step,
) -> bool {
    match create_fault(r.action, routable) {
        Some(why) => out.is_error(t, 400, why),
        None => out.waits(t, Wait::TaskCreate(TaskCreateWait::Timeout(r))),
    }
}

/// Create a promise and a task for it, and acquire the task at once. Where the
/// task exists and is pending, it is acquired; where it is fulfilled, it is
/// answered as it is. Nothing is created with a target that is not routable or
/// outside the lineage that the promise declares.
pub fn op_task_create(t: Ticket, r: TaskCreateData) -> (out: Step)
    ensures
        task_create_begins(t, r, target_routable(r.action.tags@), out),
{
    let routable = has_routable_target(&r.action.tags);
    begin_task_create(t, r, routable)
}

/// Create a task, given whether the target of its promise is routable.
pub fn begin_task_create(t: Ticket, r: TaskCreateData, routable: bool) -> (out: Step)
    ensures
        task_create_begins(t, r, routable, out),
{
    match create_error(&r.action, routable) {
        Some(why) => t.error(400, why),
        None => t.wait(Wait::TaskCreate(TaskCreateWait::Timeout(r))),
    }
}

/// Whether this is the response that hands out a task with its promise.
pub open spec fn is_task_reply(
    out: Step,
    t: Ticket,
    task: TaskRecord,
    promise: PromiseRecord,
    preload: Seq<PromiseRecord>,
) -> bool {
    &&& out matches Step::Done(r)
    &&& r.is_headed(t.head.kind@, t.head.corr_id@, 200)
    &&& r.data matches ResponseData::TaskCreate { task: given, promise: p, preload: l }
    &&& given == task
    &&& p == promise
    &&& l@ == preload
}

/// Hand out a task that nothing is preloaded for.
fn task_reply(t: Ticket, task: TaskRecord, promise: PromiseRecord) -> (out: Step)
    ensures
        is_task_reply(out, t, task, promise, Seq::empty()),
{
    t.success(ResponseData::TaskCreate { task, promise, preload: Vec::new() })
}

/// The record of a task that the worker of the request `r` holds at a version.
pub open spec fn held(r: TaskCreateData, state: TaskState, version: i64) -> TaskRecord {
    TaskRecord {
        id: r.action.id,
        state,
        version,
        resumes: 0,
        ttl: Some(r.ttl),
        pid: Some(r.pid),
    }
}

/// The record of a task that is over.
pub open spec fn fulfilled(r: TaskCreateData, version: i64) -> TaskRecord {
    TaskRecord {
        id: r.action.id,
        state: TaskState::Fulfilled,
        version,
        resumes: 0,
        ttl: None,
        pid: None,
    }
}

/// The state of the task that the storage reports, by name.
pub open spec fn reported_state(res: TaskCreateResult) -> Option<TaskState> {
    match res.task_state {
        Some(name) => TaskState::named(name@),
        None => None,
    }
}

/// What the storage keeps true of a task and its promise: a task is fulfilled
/// exactly where its promise is settled.
pub open spec fn consistent(res: TaskCreateResult) -> bool {
    if res.task_created {
        &&& reported_state(res) is Some
        &&& (res.promise.state == PromiseState::Pending) == (reported_state(res) != Some(
            TaskState::Fulfilled,
        ))
    } else {
        reported_state(res) == Some(TaskState::Fulfilled) ==> res.promise.state
            != PromiseState::Pending
    }
}

/// What follows from what the storage reports of the task.
pub open spec fn task_decided(
    t: Ticket,
    r: TaskCreateData,
    res: TaskCreateResult,
    out: Step,
) -> bool {
    if res.task_created {
        match reported_state(res)->Some_0 {
            TaskState::Acquired => out.waits(
                t,
                Wait::TaskCreate(
                    TaskCreateWait::Preload(held(r, TaskState::Acquired, 1), res.promise),
                ),
            ),
            TaskState::Fulfilled => is_task_reply(
                out,
                t,
                fulfilled(r, 0),
                res.promise,
                Seq::empty(),
            ),
            state => is_task_reply(out, t, held(r, state, 0), res.promise, Seq::empty()),
        }
    } else {
        match (reported_state(res), res.task_version) {
            (Some(TaskState::Fulfilled), version) => is_task_reply(
                out,
                t,
                fulfilled(
                    r,
                    match version {
                        Some(v) => v,
                        None => 0,
                    },
                ),
                res.promise,
                Seq::empty(),
            ),
            (Some(TaskState::Pending), Some(version)) => out.waits(
                t,
                Wait::TaskCreate(TaskCreateWait::Acquire(r, res.promise, version)),
            ),
            _ => if res.task_state is None {
                out.is_error(t, 422, "Promise exists without a target task"@)
            } else {
                out.is_error(t, 409, "Already exists"@)
            },
        }
    }
}

/// Go on from what the storage reports of the task.
pub fn decide_task(t: Ticket, r: TaskCreateData, res: TaskCreateResult) -> (out: Step)
    requires
        consistent(res),
    ensures
        task_decided(t, r, res, out),
{
    let state = match &res.task_state {
        Some(name) => TaskState::parse(name.as_str()),
        None => None,
    };
    if res.task_created {
        match state {
            Some(TaskState::Acquired) => t.wait(
                Wait::TaskCreate(
                    TaskCreateWait::Preload(
                        TaskRecord {
                            id: r.action.id,
                            state: TaskState::Acquired,
                            version: 1,
                            resumes: 0,
                            ttl: Some(r.ttl),
                            pid: Some(r.pid),
                        },
                        res.promise,
                    ),
                ),
            ),
            Some(TaskState::Fulfilled) => task_reply(
                t,
                TaskRecord {
                    id: r.action.id,
                    state: TaskState::Fulfilled,
                    version: 0,
                    resumes: 0,
                    ttl: None,
                    pid: None,
                },
                res.promise,
            ),
            Some(other) => task_reply(
                t,
                TaskRecord {
                    id: r.action.id,
                    state: other,
                    version: 0,
                    resumes: 0,
                    ttl: Some(r.ttl),
                    pid: Some(r.pid),
                },
                res.promise,
            ),
            None => vstd::pervasive::unreached(),
        }
    } else {
        match (state, res.task_version) {
            (Some(TaskState::Fulfilled), version) => {
                let version: i64 = match version {
                    Some(v) => v,
                    None => 0,
                };
                task_reply(
                    t,
                    TaskRecord {
                        id: r.action.id,
                        state: TaskState::Fulfilled,
                        version,
                        resumes: 0,
                        ttl: None,
                        pid: None,
                    },
                    res.promise,
                )
            },
            (Some(TaskState::Pending), Some(version)) => t.wait(
                Wait::TaskCreate(TaskCreateWait::Acquire(r, res.promise, version)),
            ),
            _ => if res.task_state.is_none() {
                t.error(422, "Promise exists without a target task")
            } else {
                t.error(409, "Already exists")
            },
        }
    }
}

/// What the storage keeps true of an attempt to acquire the task of the promise
/// `promise` at a version: it succeeds only while the promise is pending, and
/// then counts the version up; a fulfilled task comes with its settled promise;
/// and otherwise the task was not pending at that version.
pub open spec fn attempt_consistent(
    promise: PromiseRecord,
    version: i64,
    a: TaskAcquireResult,
) -> bool {
    if a.was_acquired {
        &&& promise.state == PromiseState::Pending
        &&& a.task_version matches Some(v)
        &&& v == version + 1
    } else if a.task_state == Some(TaskState::Fulfilled) {
        &&& a.promise matches Some(p)
        &&& p.state != PromiseState::Pending
        &&& a.task_version is Some
    } else {
        &&& a.task_state is Some
        &&& a.task_version is Some
        &&& a.task_state != Some(TaskState::Pending) || a.task_version != Some(version)
    }
}

/// Whether an attempt to acquire a task is as the storage keeps it.
fn attempt_is_consistent(
    promise: &PromiseRecord,
    version: i64,
    a: &TaskAcquireResult,
) -> (ok: bool)
    ensures
        ok == attempt_consistent(*promise, version, *a),
{
    if a.was_acquired {
        promise.state == PromiseState::Pending && match a.task_version {
            Some(v) => version < i64::MAX && v == version + 1,
            None => false,
        }
    } else {
        match (a.task_state, a.task_version) {
            (Some(TaskState::Fulfilled), Some(_)) => match &a.promise {
                Some(p) => p.state != PromiseState::Pending,
                None => false,
            },
            (Some(TaskState::Pending), Some(v)) => v != version,
            (Some(_), Some(_)) => true,
            _ => false,
        }
    }
}

impl TaskCreateWait {
    /// The call that is waited for.
    pub open spec fn calls(self, t: Ticket, a: Action) -> bool {
        match self {
            TaskCreateWait::Timeout(r) => a.is_try_timeout(seq![r.action.id@], t.now),
            TaskCreateWait::Lock(r) => a matches Action::LockForUpdate { id } && id@
                == r.action.id@,
            TaskCreateWait::Store(r, texts) => {
                let b = birth_of(r.action.tags@, r.action.timeout_at, t.now);
                &&& a matches Action::TaskCreate(p)
                &&& p.promise_id@ == r.action.id@
                &&& p.state@ == b.state.name()
                &&& optional_str(p.param_headers) == optional_text(texts.headers)
                &&& optional_str(p.param_data) == optional_text(r.action.param.data)
                &&& p.tags@ == texts.tags@
                &&& p.timeout_at == r.action.timeout_at
                &&& p.created_at == b.created_at
                &&& p.settled_at == b.settled_at
                &&& p.already_timedout == b.already_timedout
                &&& p.ttl == r.ttl
                &&& p.pid@ == r.pid@
            },
            TaskCreateWait::Callbacks(r, _) => {
                &&& a matches Action::ProcessCallbacks { id, time }
                &&& id@ == r.action.id@
                &&& time == t.now
            },
            TaskCreateWait::Acquire(r, _, version) => {
                &&& a matches Action::TaskAcquire(p)
                &&& p.task_id@ == r.action.id@
                &&& p.version == version
                &&& p.time == t.now
                &&& p.ttl == r.ttl
                &&& p.pid@ == r.pid@
            },
            TaskCreateWait::Preload(task, _) => a matches Action::ComputePreload { id } && id@
                == task.id@,
        }
    }

    /// The answers to that call.
    pub open spec fn admits(self, e: Event) -> bool {
        match self {
            TaskCreateWait::Timeout(_) => e is Done,
            TaskCreateWait::Lock(_) => e is Locked,
            TaskCreateWait::Store(_, _) => e matches Event::TaskCreated(res) && (
            res.promise.state == PromiseState::Pending ==> consistent(res)),
            TaskCreateWait::Callbacks(_, res) => e is Done && consistent(res),
            TaskCreateWait::Acquire(_, promise, version) => e matches Event::TaskAcquired(a)
                && attempt_consistent(promise, version, a),
            TaskCreateWait::Preload(_, _) => e is Promises,
        }
    }

    /// What follows from an answer.
    pub open spec fn next(self, t: Ticket, e: Event, out: Step) -> bool {
        match (self, e) {
            (TaskCreateWait::Timeout(r), _) => out.waits(
                t,
                Wait::TaskCreate(TaskCreateWait::Lock(r)),
            ),
            (TaskCreateWait::Lock(r), _) => {
                &&& out matches Step::Wait(p)
                &&& p.ticket == t
                &&& p.wait matches Wait::TaskCreate(TaskCreateWait::Store(s, texts))
                &&& s == r
                &&& texts.encode(r.action)
            },
            (TaskCreateWait::Store(r, _), Event::TaskCreated(res)) => if res.promise.state
                == PromiseState::Pending {
                task_decided(t, r, res, out)
            } else {
                out.waits(t, Wait::TaskCreate(TaskCreateWait::Callbacks(r, res)))
            },
            (TaskCreateWait::Callbacks(r, res), _) => task_decided(t, r, res, out),
            (TaskCreateWait::Acquire(r, promise, version), Event::TaskAcquired(a)) => if a.was_acquired {
                out.waits(
                    t,
                    Wait::TaskCreate(
                        TaskCreateWait::Preload(
                            held(r, TaskState::Acquired, a.task_version->Some_0),
                            promise,
                        ),
                    ),
                )
            } else if a.task_state == Some(TaskState::Fulfilled) {
                is_task_reply(
                    out,
                    t,
                    fulfilled(r, a.task_version->Some_0),
                    a.promise->Some_0,
                    Seq::empty(),
                )
            } else {
                out.is_error(t, 409, "Already exists"@)
            },
            (TaskCreateWait::Preload(task, promise), Event::Promises(preload)) => out.is_reply(
                t,
                200,
                ResponseData::TaskCreate { task, promise, preload },
            ),
            _ => false,
        }
    }

    pub fn action<'a>(&'a self, t: &Ticket) -> (a: Action<'a>)
        ensures
            self.calls(*t, a),
    {
        match self {
            TaskCreateWait::Timeout(r) => try_timeout(r.action.id.as_str(), t.now),
            TaskCreateWait::Lock(r) => Action::LockForUpdate { id: r.action.id.as_str() },
            TaskCreateWait::Store(r, texts) => {
                let b = birth(&r.action.tags, r.action.timeout_at, t.now);
                Action::TaskCreate(
                    TaskCreateParams {
                        promise_id: r.action.id.as_str(),
                        state: b.state.as_str(),
                        param_headers: borrowed(&texts.headers),
                        param_data: borrowed(&r.action.param.data),
                        tags: texts.tags.as_str(),
                        timeout_at: r.action.timeout_at,
                        created_at: b.created_at,
                        settled_at: b.settled_at,
                        already_timedout: b.already_timedout,
                        ttl: r.ttl,
                        pid: r.pid.as_str(),
                    },
                )
            },
            TaskCreateWait::Callbacks(r, _) => Action::ProcessCallbacks {
                id: r.action.id.as_str(),
                time: t.now,
            },
            TaskCreateWait::Acquire(r, _, version) => Action::TaskAcquire(
                TaskAcquireParams {
                    task_id: r.action.id.as_str(),
                    version: *version,
                    time: t.now,
                    ttl: r.ttl,
                    pid: r.pid.as_str(),
                },
            ),
            TaskCreateWait::Preload(task, _) => Action::ComputePreload { id: task.id.as_str() },
        }
    }

    pub fn accepts(&self, e: &Event) -> (admitted: bool)
        ensures
            admitted == self.admits(*e),
    {
        match (self, e) {
            (TaskCreateWait::Timeout(_), Event::Done) => true,
            (TaskCreateWait::Lock(_), Event::Locked { .. }) => true,
            (TaskCreateWait::Store(_, _), Event::TaskCreated(res)) => res.promise.state
                != PromiseState::Pending || is_consistent(res),
            (TaskCreateWait::Callbacks(_, res), Event::Done) => is_consistent(res),
            (TaskCreateWait::Acquire(_, promise, version), Event::TaskAcquired(a)) =>
                attempt_is_consistent(promise, *version, a),
            (TaskCreateWait::Preload(_, _), Event::Promises(_)) => true,
            _ => false,
        }
    }

    pub fn resume(self, t: Ticket, e: Event) -> (out: Step)
        requires
            self.admits(e),
        ensures
            self.next(t, e, out),
    {
        match (self, e) {
            (TaskCreateWait::Timeout(r), _) => t.wait(Wait::TaskCreate(TaskCreateWait::Lock(r))),
            (TaskCreateWait::Lock(r), _) => {
                let texts = MapTexts::of(&r.action);
                t.wait(Wait::TaskCreate(TaskCreateWait::Store(r, texts)))
            },
            (TaskCreateWait::Store(r, _), Event::TaskCreated(res)) => if res.promise.state
                == PromiseState::Pending {
                decide_task(t, r, res)
            } else {
                t.wait(Wait::TaskCreate(TaskCreateWait::Callbacks(r, res)))
            },
            (TaskCreateWait::Callbacks(r, res), _) => decide_task(t, r, res),
            (TaskCreateWait::Acquire(r, promise, version), Event::TaskAcquired(a)) => if a.was_acquired {
                t.wait(
                    Wait::TaskCreate(
                        TaskCreateWait::Preload(
                            TaskRecord {
                                id: r.action.id,
                                state: TaskState::Acquired,
                                version: version + 1,
                                resumes: 0,
                                ttl: Some(r.ttl),
                                pid: Some(r.pid),
                            },
                            promise,
                        ),
                    ),
                )
            } else {
                match (a.task_state, a.task_version, a.promise) {
                    (Some(TaskState::Fulfilled), Some(version), Some(promise)) => task_reply(
                        t,
                        TaskRecord {
                            id: r.action.id,
                            state: TaskState::Fulfilled,
                            version,
                            resumes: 0,
                            ttl: None,
                            pid: None,
                        },
                        promise,
                    ),
                    _ => t.error(409, "Already exists"),
                }
            },
            (TaskCreateWait::Preload(task, promise), Event::Promises(preload)) => t.success(
                ResponseData::TaskCreate { task, promise, preload },
            ),
            _ => vstd::pervasive::unreached(),
        }
    }
}

/// Whether what the storage reports of a task is as it keeps it.
fn is_consistent(res: &TaskCreateResult) -> (ok: bool)
    ensures
        ok == consistent(*res),
{
    let state = match &res.task_state {
        Some(name) => TaskState::parse(name.as_str()),
        None => None,
    };
    let pending = res.promise.state == PromiseState::Pending;
    match state {
        Some(TaskState::Fulfilled) => !pending,
        Some(_) => !res.task_created || pending,
        None => !res.task_created,
    }
}

// task.acquire

/// Where `task.acquire` stands.
#[derive(Debug)]
pub enum TaskAcquireWait {
    Timeout(TaskAcquireData),
    Store(TaskAcquireData),
    /// The task is held: collect what its holder is likely to ask for.
    Preload(TaskRecord, PromiseRecord),
}

/// Take hold of a pending task at a version, for a time to live.
pub fn op_task_acquire(t: Ticket, r: TaskAcquireData) -> (out: Step)
    ensures
        out.waits(t, Wait::TaskAcquire(TaskAcquireWait::Timeout(r))),
{
    t.wait(Wait::TaskAcquire(TaskAcquireWait::Timeout(r)))
}

impl TaskAcquireWait {
    /// The call that is waited for.
    pub open spec fn calls(self, t: Ticket, a: Action) -> bool {
        match self {
            TaskAcquireWait::Timeout(r) => a.is_try_timeout(seq![r.id@], t.now),
            TaskAcquireWait::Store(r) => {
                &&& a matches Action::TaskAcquire(p)
                &&& p.task_id@ == r.id@
                &&& p.version == r.version
                &&& p.time == t.now
                &&& p.ttl == r.ttl
                &&& p.pid@ == r.pid@
            },
            TaskAcquireWait::Preload(task, _) => a matches Action::ComputePreload { id } && id@
                == task.id@,
        }
    }

    /// The answers to that call. After the attempt an existing task is not pending
    /// at the version asked for, and one that was acquired has the next version.
    pub open spec fn admits(self, e: Event) -> bool {
        match self {
            TaskAcquireWait::Timeout(_) => e is Done,
            TaskAcquireWait::Store(r) => {
                &&& e matches Event::TaskAcquired(a)
                &&& a.promise is Some ==> {
                    &&& a.task_state matches Some(state)
                    &&& a.task_version matches Some(version)
                    &&& state != TaskState::Pending || version != r.version
                    &&& a.was_acquired ==> version == r.version + 1
                }
            },
            TaskAcquireWait::Preload(_, _) => e is Promises,
        }
    }

    /// What follows from an answer.
    pub open spec fn next(self, t: Ticket, e: Event, out: Step) -> bool {
        match (self, e) {
            (TaskAcquireWait::Timeout(r), _) => out.waits(
                t,
                Wait::TaskAcquire(TaskAcquireWait::Store(r)),
            ),
            (TaskAcquireWait::Store(r), Event::TaskAcquired(a)) => match a.promise {
                None => out.is_error(t, 404, "Task not found"@),
                Some(promise) => if a.was_acquired {
                    out.waits(
                        t,
                        Wait::TaskAcquire(
                            TaskAcquireWait::Preload(
                                TaskRecord {
                                    id: r.id,
                                    state: TaskState::Acquired,
                                    version: a.task_version->Some_0,
                                    resumes: 0,
                                    ttl: Some(r.ttl),
                                    pid: Some(r.pid),
                                },
                                promise,
                            ),
                        ),
                    )
                } else if a.task_state != Some(TaskState::Pending) {
                    out.is_error(t, 409, "Task is not pending"@)
                } else {
                    out.is_error(t, 409, "Version mismatch"@)
                },
            },
            (TaskAcquireWait::Preload(task, promise), Event::Promises(preload)) => out.is_reply(
                t,
                200,
                ResponseData::TaskAcquire { task, promise, preload },
            ),
            _ => false,
        }
    }

    pub fn action<'a>(&'a self, t: &Ticket) -> (a: Action<'a>)
        ensures
            self.calls(*t, a),
    {
        match self {
            TaskAcquireWait::Timeout(r) => try_timeout(r.id.as_str(), t.now),
            TaskAcquireWait::Store(r) => Action::TaskAcquire(
                TaskAcquireParams {
                    task_id: r.id.as_str(),
                    version: r.version,
                    time: t.now,
                    ttl: r.ttl,
                    pid: r.pid.as_str(),
                },
            ),
            TaskAcquireWait::Preload(task, _) => Action::ComputePreload { id: task.id.as_str() },
        }
    }

    pub fn accepts(&self, e: &Event) -> (admitted: bool)
        ensures
            admitted == self.admits(*e),
    {
        match (self, e) {
            (TaskAcquireWait::Timeout(_), Event::Done) => true,
            (TaskAcquireWait::Store(r), Event::TaskAcquired(a)) => a.promise.is_none() || match (
                a.task_state,
                a.task_version,
            ) {
                (Some(state), Some(version)) => (state != TaskState::Pending || version
                    != r.version) && (!a.was_acquired || (r.version < i64::MAX && version
                    == r.version + 1)),
                _ => false,
            },
            (TaskAcquireWait::Preload(_, _), Event::Promises(_)) => true,
            _ => false,
        }
    }

    pub fn resume(self, t: Ticket, e: Event) -> (out: Step)
        requires
            self.admits(e),
        ensures
            self.next(t, e, out),
    {
        match (self, e) {
            (TaskAcquireWait::Timeout(r), _) => t.wait(Wait::TaskAcquire(TaskAcquireWait::Store(r))),
            (TaskAcquireWait::Store(r), Event::TaskAcquired(a)) => match a.promise {
                None => t.error(404, "Task not found"),
                Some(promise) => if a.was_acquired {
                    t.wait(
                        Wait::TaskAcquire(
                            TaskAcquireWait::Preload(
                                TaskRecord {
                                    id: r.id,
                                    state: TaskState::Acquired,
                                    version: r.version + 1,
                                    resumes: 0,
                                    ttl: Some(r.ttl),
                                    pid: Some(r.pid),
                                },
                                promise,
                            ),
                        ),
                    )
                } else {
                    match a.task_state {
                        Some(TaskState::Pending) => t.error(409, "Version mismatch"),
                        _ => t.error(409, "Task is not pending"),
                    }
                },
            },
            (TaskAcquireWait::Preload(task, promise), Event::Promises(preload)) => t.success(
                ResponseData::TaskAcquire { task, promise, preload },
            ),
            _ => vstd::pervasive::unreached(),
        }
    }
}

// task.release

/// Where `task.release` stands.
#[derive(Debug)]
pub enum TaskReleaseWait {
    Timeout(TaskReleaseData),
    Lock(TaskReleaseData),
    Store(TaskReleaseData),
}

/// Give up the hold on a task, so that it is pending again.
pub fn op_task_release(t: Ticket, r: TaskReleaseData) -> (out: Step)
    ensures
        out.waits(t, Wait::TaskRelease(TaskReleaseWait::Timeout(r))),
{
    t.wait(Wait::TaskRelease(TaskReleaseWait::Timeout(r)))
}

impl TaskReleaseWait {
    /// The call that is waited for.
    pub open spec fn calls(self, t: Ticket, a: Action) -> bool {
        match self {
            TaskReleaseWait::Timeout(r) => a.is_try_timeout(seq![r.id@], t.now),
            TaskReleaseWait::Lock(r) => a matches Action::LockForUpdate { id } && id@ == r.id@,
            TaskReleaseWait::Store(r) => {
                &&& a matches Action::TaskRelease { id, version, time, retry_timeout }
                &&& id@ == r.id@
                &&& version == r.version
                &&& time == t.now
                &&& retry_timeout == t.retry_timeout
            },
        }
    }

    /// The answers to that call.
    pub open spec fn admits(self, e: Event) -> bool {
        match self {
            TaskReleaseWait::Timeout(_) => e is Done,
            TaskReleaseWait::Lock(_) => e is Locked,
            TaskReleaseWait::Store(_) => e is TaskReleased,
        }
    }

    /// What follows from an answer.
    pub open spec fn next(self, t: Ticket, e: Event, out: Step) -> bool {
        match (self, e) {
            (TaskReleaseWait::Timeout(r), _) => out.waits(
                t,
                Wait::TaskRelease(TaskReleaseWait::Lock(r)),
            ),
            (TaskReleaseWait::Lock(r), Event::Locked { task_exists }) => if task_exists {
                out.waits(t, Wait::TaskRelease(TaskReleaseWait::Store(r)))
            } else {
                out.is_error(t, 404, "Task not found"@)
            },
            (TaskReleaseWait::Store(_), Event::TaskReleased(res)) => if res.task_released {
                out.is_reply(t, 200, ResponseData::Empty)
            } else if !res.task_exists {
                out.is_error(t, 404, "Task not found"@)
            } else {
                out.is_error(t, 409, "Task version mismatch or invalid state"@)
            },
            _ => false,
        }
    }

    pub fn action<'a>(&'a self, t: &Ticket) -> (a: Action<'a>)
        ensures
            self.calls(*t, a),
    {
        match self {
            TaskReleaseWait::Timeout(r) => try_timeout(r.id.as_str(), t.now),
            TaskReleaseWait::Lock(r) => Action::LockForUpdate { id: r.id.as_str() },
            TaskReleaseWait::Store(r) => Action::TaskRelease {
                id: r.id.as_str(),
                version: r.version,
                time: t.now,
                retry_timeout: t.retry_timeout,
            },
        }
    }

    pub fn accepts(&self, e: &Event) -> (admitted: bool)
        ensures
            admitted == self.admits(*e),
    {
        match (self, e) {
            (TaskReleaseWait::Timeout(_), Event::Done) => true,
            (TaskReleaseWait::Lock(_), Event::Locked { .. }) => true,
            (TaskReleaseWait::Store(_), Event::TaskReleased(_)) => true,
            _ => false,
        }
    }

    pub fn resume(self, t: Ticket, e: Event) -> (out: Step)
        requires
            self.admits(e),
        ensures
            self.next(t, e, out),
    {
        match (self, e) {
            (TaskReleaseWait::Timeout(r), _) => t.wait(Wait::TaskRelease(TaskReleaseWait::Lock(r))),
            (TaskReleaseWait::Lock(r), Event::Locked { task_exists }) => if task_exists {
                t.wait(Wait::TaskRelease(TaskReleaseWait::Store(r)))
            } else {
                t.error(404, "Task not found")
            },
            (TaskReleaseWait::Store(_), Event::TaskReleased(res)) => if res.task_released {
                t.success(ResponseData::Empty)
            } else if !res.task_exists {
                t.error(404, "Task not found")
            } else {
                t.error(409, "Task version mismatch or invalid state")
            },
            _ => vstd::pervasive::unreached(),
        }
    }
}

// task.fulfill

/// Where `task.fulfill` stands.
#[derive(Debug)]
pub enum TaskFulfillWait {
    Timeout(TaskFulfillData),
    Lock(TaskFulfillData),
    /// With the JSON text of the value's headers.
    Store(TaskFulfillData, Option<String>),
}

/// Settle the promise of a task that is held, which ends the task.
pub fn op_task_fulfill(t: Ticket, r: TaskFulfillData) -> (out: Step)
    ensures
        out.waits(t, Wait::TaskFulfill(TaskFulfillWait::Timeout(r))),
{
    t.wait(Wait::TaskFulfill(TaskFulfillWait::Timeout(r)))
}

impl TaskFulfillWait {
    /// The call that is waited for. What is settled is the promise with the id of
    /// the task.
    pub open spec fn calls(self, t: Ticket, a: Action) -> bool {
        match self {
            TaskFulfillWait::Timeout(r) => a.is_try_timeout(seq![r.action.id@], t.now),
            TaskFulfillWait::Lock(r) => a matches Action::LockForUpdate { id } && id@ == r.id@,
            TaskFulfillWait::Store(r, headers) => {
                &&& a matches Action::TaskFulfill(p)
                &&& p.task_id@ == r.id@
                &&& p.version == r.version
                &&& p.promise_id@ == r.id@
                &&& p.state@ == r.action.state.name()
                &&& optional_str(p.value_headers) == optional_text(headers)
                &&& optional_str(p.value_data) == optional_text(r.action.value.data)
                &&& p.settled_at == t.now
            },
        }
    }

    /// The answers to that call. A fulfilled task comes with its settled promise.
    pub open spec fn admits(self, e: Event) -> bool {
        match self {
            TaskFulfillWait::Timeout(_) => e is Done,
            TaskFulfillWait::Lock(_) => e is Locked,
            TaskFulfillWait::Store(_, _) => e matches Event::TaskFulfilled(res) && (res.task_exists
                && res.task_fulfilled ==> (res.promise matches Some(p) && p.state
                != PromiseState::Pending)),
        }
    }

    /// What follows from an answer.
    pub open spec fn next(self, t: Ticket, e: Event, out: Step) -> bool {
        match (self, e) {
            (TaskFulfillWait::Timeout(r), _) => out.waits(
                t,
                Wait::TaskFulfill(TaskFulfillWait::Lock(r)),
            ),
            (TaskFulfillWait::Lock(r), Event::Locked { task_exists }) => if task_exists {
                &&& out matches Step::Wait(p)
                &&& p.ticket == t
                &&& p.wait matches Wait::TaskFulfill(TaskFulfillWait::Store(s, headers))
                &&& s == r
                &&& optional_text(headers) == optional_map_json(r.action.value.headers)
            } else {
                out.is_error(t, 404, "Task not found"@)
            },
            (TaskFulfillWait::Store(_, _), Event::TaskFulfilled(res)) => if !res.task_exists {
                out.is_error(t, 404, "Task not found"@)
            } else if !res.task_fulfilled {
                out.is_error(t, 409, "Task version mismatch or invalid state"@)
            } else {
                out.is_reply(t, 200, ResponseData::TaskFulfill { promise: res.promise->Some_0 })
            },
            _ => false,
        }
    }

    pub fn action<'a>(&'a self, t: &Ticket) -> (a: Action<'a>)
        ensures
            self.calls(*t, a),
    {
        match self {
            TaskFulfillWait::Timeout(r) => try_timeout(r.action.id.as_str(), t.now),
            TaskFulfillWait::Lock(r) => Action::LockForUpdate { id: r.id.as_str() },
            TaskFulfillWait::Store(r, headers) => Action::TaskFulfill(
                TaskFulfillParams {
                    task_id: r.id.as_str(),
                    version: r.version,
                    promise_id: r.id.as_str(),
                    state: r.action.state.as_str(),
                    value_headers: borrowed(headers),
                    value_data: borrowed(&r.action.value.data),
                    settled_at: t.now,
                },
            ),
        }
    }

    pub fn accepts(&self, e: &Event) -> (admitted: bool)
        ensures
            admitted == self.admits(*e),
    {
        match (self, e) {
            (TaskFulfillWait::Timeout(_), Event::Done) => true,
            (TaskFulfillWait::Lock(_), Event::Locked { .. }) => true,
            (TaskFulfillWait::Store(_, _), Event::TaskFulfilled(res)) => !res.task_exists
                || !res.task_fulfilled || match &res.promise {
                Some(p) => p.state != PromiseState::Pending,
                None => false,
            },
            _ => false,
        }
    }

    pub fn resume(self, t: Ticket, e: Event) -> (out: Step)
        requires
            self.admits(e),
        ensures
            self.next(t, e, out),
    {
        match (self, e) {
            (TaskFulfillWait::Timeout(r), _) => t.wait(Wait::TaskFulfill(TaskFulfillWait::Lock(r))),
            (TaskFulfillWait::Lock(r), Event::Locked { task_exists }) => if task_exists {
                let headers = optional_json(&r.action.value.headers);
                t.wait(Wait::TaskFulfill(TaskFulfillWait::Store(r, headers)))
            } else {
                t.error(404, "Task not found")
            },
            (TaskFulfillWait::Store(_, _), Event::TaskFulfilled(res)) => if !res.task_exists {
                t.error(404, "Task not found")
            } else if !res.task_fulfilled {
                t.error(409, "Task version mismatch or invalid state")
            } else {
                match res.promise {
                    Some(promise) => t.success(ResponseData::TaskFulfill { promise }),
                    None => vstd::pervasive::unreached(),
                }
            },
            _ => vstd::pervasive::unreached(),
        }
    }
}

// task.suspend

/// Where `task.suspend` stands.
#[derive(Debug)]
pub enum TaskSuspendWait {
    /// The task is locked before anything times out, so that its own promise
    /// cannot end it in between.
    Lock(TaskSuspendData),
    /// With whether the task existed when it was locked.
    Timeout(TaskSuspendData, bool),
    Store(TaskSuspendData, bool),
    /// Nothing is left to wait for: collect what the holder of the task is likely
    /// to ask for.
    Preload(String),
}

/// The ids that a suspending task awaits, in the order of its actions.
pub open spec fn awaited_ids(r: TaskSuspendData) -> Seq<Seq<char>> {
    r.actions@.map_values(|a: PromiseRegisterCallbackData| a.awaited@)
}

/// The first occurrence of each of `ids`, in order.
pub open spec fn unique(ids: Seq<Seq<char>>) -> Seq<Seq<char>>
    decreases ids.len(),
{
    if ids.len() == 0 {
        Seq::empty()
    } else {
        let before = unique(ids.drop_last());
        if ids.drop_last().contains(ids.last()) {
            before
        } else {
            before.push(ids.last())
        }
    }
}

/// Deduplication keeps exactly the ids that occur, each once.
pub proof fn lemma_unique(ids: Seq<Seq<char>>)
    ensures
        unique(ids).no_duplicates(),
        forall|id: Seq<char>| #[trigger] unique(ids).contains(id) <==> ids.contains(id),
        unique(ids).len() <= ids.len(),
    decreases ids.len(),
{
    if ids.len() > 0 {
        let before = ids.drop_last();
        lemma_unique(before);
        assert(ids =~= before.push(ids.last()));
        if !before.contains(ids.last()) {
            assert(!unique(before).contains(ids.last()));
            assert forall|i: int, j: int| 0 <= i < j < unique(ids).len() implies unique(ids)[i]
                != unique(ids)[j] by {
                if j == unique(before).len() {
                    assert(unique(before).contains(unique(before)[i]));
                }
            }
        }
        assert forall|id: Seq<char>| #[trigger] unique(ids).contains(id) <==> ids.contains(id) by {
            assert(before.push(ids.last()).contains(id) <==> before.contains(id) || id
                == ids.last()) by {
                if before.contains(id) {
                    let i = choose|i: int| 0 <= i < before.len() && before[i] == id;
                    assert(before.push(ids.last())[i] == id);
                }
                if id == ids.last() {
                    assert(before.push(ids.last())[before.len() as int] == id);
                }
            }
            if !before.contains(ids.last()) {
                let u = unique(before);
                if u.contains(id) {
                    let i = choose|i: int| 0 <= i < u.len() && u[i] == id;
                    assert(u.push(ids.last())[i] == id);
                }
                if id == ids.last() {
                    assert(u.push(ids.last())[u.len() as int] == id);
                }
            }
        }
    }
}

/// The ids that a suspending task awaits, each once.
fn unique_awaited<'a>(r: &'a TaskSuspendData) -> (ids: Vec<&'a str>)
    ensures
        texts_of(ids@) == unique(awaited_ids(*r)),
{
    let mut ids: Vec<&'a str> = Vec::new();
    assert(texts_of(ids@) =~= Seq::<Seq<char>>::empty());
    let ghost all = awaited_ids(*r);
    let count: usize = r.actions.len();
    let mut i: usize = 0;
    assert(all.take(0) =~= Seq::<Seq<char>>::empty());
    while i < count
        invariant
            i <= count == r.actions@.len() == all.len(),
            all == awaited_ids(*r),
            texts_of(ids@) == unique(all.take(i as int)),
        decreases count - i,
    {
        let id = r.actions[i].awaited.as_str();
        let known = contains_text(&ids, id);
        proof {
            let before = all.take(i as int);
            let upto = all.take(i + 1);
            assert(upto.drop_last() =~= before);
            assert(upto.last() == id@);
            lemma_unique(before);
            assert(unique(before).contains(id@) <==> before.contains(id@));
        }
        let ghost held = ids@;
        if !known {
            ids.push(id);
            assert(texts_of(ids@) =~= texts_of(held).push(id@));
        }
        i = i + 1;
    }
    assert(all.take(count as int) =~= all);
    ids
}

/// Whether a text is among `texts`.
fn contains_text(texts: &Vec<&str>, text: &str) -> (found: bool)
    ensures
        found == texts_of(texts@).contains(text@),
{
    let count: usize = texts.len();
    let mut i: usize = 0;
    while i < count
        invariant
            i <= count == texts@.len(),
            forall|j: int| 0 <= j < i ==> texts_of(texts@)[j] != text@,
        decreases count - i,
    {
        if same_text(texts[i], text) {
            assert(texts_of(texts@)[i as int] == text@);
            return true;
        }
        i = i + 1;
    }
    false
}

/// Whether a suspending task stays within one origin: what each of its actions
/// awaits has the origin of the action's awaiter, and of the task itself.
pub open spec fn awaits_within_origin(r: TaskSuspendData) -> bool {
    forall|i: int|
        0 <= i < r.actions@.len() ==> same_origin(
            (#[trigger] r.actions@[i]).awaited@,
            r.actions@[i].awaiter@,
        ) && same_origin(r.id@, r.actions@[i].awaited@)
}

/// Whether a suspending task stays within one origin.
fn stays_within_origin(r: &TaskSuspendData) -> (ok: bool)
    ensures
        ok == awaits_within_origin(*r),
{
    let count: usize = r.actions.len();
    let mut i: usize = 0;
    while i < count
        invariant
            i <= count == r.actions@.len(),
            forall|j: int|
                0 <= j < i ==> same_origin(
                    (#[trigger] r.actions@[j]).awaited@,
                    r.actions@[j].awaiter@,
                ) && same_origin(r.id@, r.actions@[j].awaited@),
        decreases count - i,
    {
        let awaited = r.actions[i].awaited.as_str();
        if !share_origin(awaited, r.actions[i].awaiter.as_str()) || !share_origin(
            r.id.as_str(),
            awaited,
        ) {
            return false;
        }
        i = i + 1;
    }
    true
}

/// What follows from a valid request to suspend a task.
pub open spec fn suspend_begins(t: Ticket, r: TaskSuspendData, out: Step) -> bool {
    if awaits_within_origin(r) {
        out.waits(t, Wait::TaskSuspend(TaskSuspendWait::Lock(r)))
    } else {
        out.is_error(t, 400, "Awaiter and awaited promise must share one origin"@)
    }
}

/// Let go of a task until one of the promises that it awaits is settled. The task,
/// its awaiters and the awaited promises share one origin.
pub fn op_task_suspend(t: Ticket, r: TaskSuspendData) -> (out: Step)
    ensures
        suspend_begins(t, r, out),
{
    if stays_within_origin(&r) {
        t.wait(Wait::TaskSuspend(TaskSuspendWait::Lock(r)))
    } else {
        t.error(400, "Awaiter and awaited promise must share one origin")
    }
}

impl TaskSuspendWait {
    /// The call that is waited for.
    pub open spec fn calls(self, t: Ticket, a: Action) -> bool {
        match self {
            TaskSuspendWait::Lock(r) => a matches Action::LockForUpdate { id } && id@ == r.id@,
            TaskSuspendWait::Timeout(r, _) => a.is_try_timeout(
                seq![r.id@] + awaited_ids(r),
                t.now,
            ),
            TaskSuspendWait::Store(r, _) => {
                &&& a matches Action::TaskSuspend { id, version, awaited_ids: awaited }
                &&& id@ == r.id@
                &&& version == r.version
                &&& texts_of(awaited@) == unique(awaited_ids(r))
            },
            TaskSuspendWait::Preload(task_id) => a matches Action::ComputePreload { id } && id@
                == task_id@,
        }
    }

    /// The answers to that call.
    pub open spec fn admits(self, e: Event) -> bool {
        match self {
            TaskSuspendWait::Lock(_) => e is Locked,
            TaskSuspendWait::Timeout(_, _) => e is Done,
            TaskSuspendWait::Store(_, _) => e is TaskSuspended,
            TaskSuspendWait::Preload(_) => e is Promises,
        }
    }

    /// What follows from an answer.
    pub open spec fn next(self, t: Ticket, e: Event, out: Step) -> bool {
        match (self, e) {
            (TaskSuspendWait::Lock(r), Event::Locked { task_exists }) => out.waits(
                t,
                Wait::TaskSuspend(TaskSuspendWait::Timeout(r, task_exists)),
            ),
            (TaskSuspendWait::Timeout(r, existed), _) => out.waits(
                t,
                Wait::TaskSuspend(TaskSuspendWait::Store(r, existed)),
            ),
            (TaskSuspendWait::Store(r, existed), Event::TaskSuspended(res)) => if !res.task_matched {
                if existed {
                    out.is_error(t, 409, "Task is not acquired or version mismatch"@)
                } else {
                    out.is_error(t, 404, "Task not found"@)
                }
            } else if res.missing_count > 0 {
                out.is_error(t, 422, "Awaited promise not found"@)
            } else if res.was_suspended {
                out.is_reply(t, 200, ResponseData::Empty)
            } else {
                out.waits(t, Wait::TaskSuspend(TaskSuspendWait::Preload(r.id)))
            },
            (TaskSuspendWait::Preload(_), Event::Promises(preload)) => out.is_reply(
                t,
                300,
                ResponseData::TaskSuspend { preload },
            ),
            _ => false,
        }
    }

    pub fn action<'a>(&'a self, t: &Ticket) -> (a: Action<'a>)
        ensures
            self.calls(*t, a),
    {
        match self {
            TaskSuspendWait::Lock(r) => Action::LockForUpdate { id: r.id.as_str() },
            TaskSuspendWait::Timeout(r, _) => {
                let ids = timeout_ids(r);
                Action::TryTimeout { ids, time: t.now }
            },
            TaskSuspendWait::Store(r, _) => Action::TaskSuspend {
                id: r.id.as_str(),
                version: r.version,
                awaited_ids: unique_awaited(r),
            },
            TaskSuspendWait::Preload(task_id) => Action::ComputePreload { id: task_id.as_str() },
        }
    }

    pub fn accepts(&self, e: &Event) -> (admitted: bool)
        ensures
            admitted == self.admits(*e),
    {
        match (self, e) {
            (TaskSuspendWait::Lock(_), Event::Locked { .. }) => true,
            (TaskSuspendWait::Timeout(_, _), Event::Done) => true,
            (TaskSuspendWait::Store(_, _), Event::TaskSuspended(_)) => true,
            (TaskSuspendWait::Preload(_), Event::Promises(_)) => true,
            _ => false,
        }
    }

    pub fn resume(self, t: Ticket, e: Event) -> (out: Step)
        requires
            self.admits(e),
        ensures
            self.next(t, e, out),
    {
        match (self, e) {
            (TaskSuspendWait::Lock(r), Event::Locked { task_exists }) => t.wait(
                Wait::TaskSuspend(TaskSuspendWait::Timeout(r, task_exists)),
            ),
            (TaskSuspendWait::Timeout(r, existed), _) => t.wait(
                Wait::TaskSuspend(TaskSuspendWait::Store(r, existed)),
            ),
            (TaskSuspendWait::Store(r, existed), Event::TaskSuspended(res)) => if !res.task_matched {
                if existed {
                    t.error(409, "Task is not acquired or version mismatch")
                } else {
                    t.error(404, "Task not found")
                }
            } else if res.missing_count > 0 {
                t.error(422, "Awaited promise not found")
            } else if res.was_suspended {
                t.success(ResponseData::Empty)
            } else {
                t.wait(Wait::TaskSuspend(TaskSuspendWait::Preload(r.id)))
            },
            (TaskSuspendWait::Preload(_), Event::Promises(preload)) => t.reply(
                300,
                ResponseData::TaskSuspend { preload },
            ),
            _ => vstd::pervasive::unreached(),
        }
    }
}

/// The id of a suspending task, and those that it awaits.
fn timeout_ids<'a>(r: &'a TaskSuspendData) -> (ids: Vec<&'a str>)
    ensures
        texts_of(ids@) == seq![r.id@] + awaited_ids(*r),
{
    let mut ids: Vec<&'a str> = Vec::new();
    ids.push(r.id.as_str());
    let ghost all = awaited_ids(*r);
    let count: usize = r.actions.len();
    let mut i: usize = 0;
    assert(texts_of(ids@) =~= seq![r.id@] + all.take(0));
    while i < count
        invariant
            i <= count == r.actions@.len() == all.len(),
            all == awaited_ids(*r),
            texts_of(ids@) == seq![r.id@] + all.take(i as int),
        decreases count - i,
    {
        let ghost held = ids@;
        ids.push(r.actions[i].awaited.as_str());
        assert(texts_of(ids@) =~= texts_of(held).push(all[i as int]));
        assert(all.take(i + 1) =~= all.take(i as int).push(all[i as int]));
        i = i + 1;
    }
    assert(all.take(count as int) =~= all);
    ids
}

// task.heartbeat

/// Where `task.heartbeat` stands.
#[derive(Debug)]
pub enum TaskHeartbeatWait {
    Store(TaskHeartbeatData),
}

/// Extend the leases of the tasks that a worker holds.
pub fn op_task_heartbeat(t: Ticket, r: TaskHeartbeatData) -> (out: Step)
    ensures
        out.waits(t, Wait::TaskHeartbeat(TaskHeartbeatWait::Store(r))),
{
    t.wait(Wait::TaskHeartbeat(TaskHeartbeatWait::Store(r)))
}

/// Each task with its version, in order.
fn task_pairs<'a>(tasks: &'a Vec<TaskRef>) -> (pairs: Vec<(&'a str, i64)>)
    ensures
        pairs@.len() == tasks@.len(),
        forall|i: int|
            #![trigger pairs@[i]]
            0 <= i < pairs@.len() ==> pairs@[i].0@ == tasks@[i].id@ && pairs@[i].1
                == tasks@[i].version,
{
    let mut pairs: Vec<(&'a str, i64)> = Vec::new();
    let count: usize = tasks.len();
    let mut i: usize = 0;
    while i < count
        invariant
            i <= count == tasks@.len(),
            pairs@.len() == i,
            forall|j: int|
                #![trigger pairs@[j]]
                0 <= j < i ==> pairs@[j].0@ == tasks@[j].id@ && pairs@[j].1 == tasks@[j].version,
        decreases count - i,
    {
        pairs.push((tasks[i].id.as_str(), tasks[i].version));
        i = i + 1;
    }
    pairs
}

impl TaskHeartbeatWait {
    /// The call that is waited for.
    pub open spec fn calls(self, t: Ticket, a: Action) -> bool {
        match self {
            TaskHeartbeatWait::Store(r) => {
                &&& a matches Action::TaskHeartbeat { pid, tasks, time }
                &&& pid@ == r.pid@
                &&& tasks@.len() == r.tasks@.len()
                &&& forall|i: int|
                    #![trigger tasks@[i]]
                    0 <= i < tasks@.len() ==> tasks@[i].0@ == r.tasks@[i].id@ && tasks@[i].1
                        == r.tasks@[i].version
                &&& time == t.now
            },
        }
    }

    /// The answers to that call.
    pub open spec fn admits(self, e: Event) -> bool {
        e is Done
    }

    /// What follows from an answer.
    pub open spec fn next(self, t: Ticket, e: Event, out: Step) -> bool {
        out.is_reply(t, 200, ResponseData::Empty)
    }

    pub fn action<'a>(&'a self, t: &Ticket) -> (a: Action<'a>)
        ensures
            self.calls(*t, a),
    {
        match self {
            TaskHeartbeatWait::Store(r) => Action::TaskHeartbeat {
                pid: r.pid.as_str(),
                tasks: task_pairs(&r.tasks),
                time: t.now,
            },
        }
    }

    pub fn accepts(&self, e: &Event) -> (admitted: bool)
        ensures
            admitted == self.admits(*e),
    {
        match e {
            Event::Done => true,
            _ => false,
        }
    }

    pub fn resume(self, t: Ticket, e: Event) -> (out: Step)
        requires
            self.admits(e),
        ensures
            self.next(t, e, out),
    {
        t.success(ResponseData::Empty)
    }
}

// task.halt

/// Where `task.halt` stands.
#[derive(Debug)]
pub enum TaskHaltWait {
    Timeout(TaskHaltData),
    Store(TaskHaltData),
}

/// Halt a task, unless it is over.
pub fn op_task_halt(t: Ticket, r: TaskHaltData) -> (out: Step)
    ensures
        out.waits(t, Wait::TaskHalt(TaskHaltWait::Timeout(r))),
{
    t.wait(Wait::TaskHalt(TaskHaltWait::Timeout(r)))
}

impl TaskHaltWait {
    /// The call that is waited for.
    pub open spec fn calls(self, t: Ticket, a: Action) -> bool {
        match self {
            TaskHaltWait::Timeout(r) => a.is_try_timeout(seq![r.id@], t.now),
            TaskHaltWait::Store(r) => a matches Action::TaskHalt { id } && id@ == r.id@,
        }
    }

    /// The answers to that call.
    pub open spec fn admits(self, e: Event) -> bool {
        match self {
            TaskHaltWait::Timeout(_) => e is Done,
            TaskHaltWait::Store(_) => e is TaskHalted,
        }
    }

    /// What follows from an answer.
    pub open spec fn next(self, t: Ticket, e: Event, out: Step) -> bool {
        match (self, e) {
            (TaskHaltWait::Timeout(r), _) => out.waits(t, Wait::TaskHalt(TaskHaltWait::Store(r))),
            (TaskHaltWait::Store(_), Event::TaskHalted(res)) => if !res.task_exists {
                out.is_error(t, 404, "Task not found"@)
            } else if res.task_fulfilled {
                out.is_error(t, 409, "Task is fulfilled"@)
            } else {
                out.is_reply(t, 200, ResponseData::Empty)
            },
            _ => false,
        }
    }

    pub fn action<'a>(&'a self, t: &Ticket) -> (a: Action<'a>)
        ensures
            self.calls(*t, a),
    {
        match self {
            TaskHaltWait::Timeout(r) => try_timeout(r.id.as_str(), t.now),
            TaskHaltWait::Store(r) => Action::TaskHalt { id: r.id.as_str() },
        }
    }

    pub fn accepts(&self, e: &Event) -> (admitted: bool)
        ensures
            admitted == self.admits(*e),
    {
        match (self, e) {
            (TaskHaltWait::Timeout(_), Event::Done) => true,
            (TaskHaltWait::Store(_), Event::TaskHalted(_)) => true,
            _ => false,
        }
    }

    pub fn resume(self, t: Ticket, e: Event) -> (out: Step)
        requires
            self.admits(e),
        ensures
            self.next(t, e, out),
    {
        match (self, e) {
            (TaskHaltWait::Timeout(r), _) => t.wait(Wait::TaskHalt(TaskHaltWait::Store(r))),
            (TaskHaltWait::Store(_), Event::TaskHalted(res)) => if !res.task_exists {
                t.error(404, "Task not found")
            } else if res.task_fulfilled {
                t.error(409, "Task is fulfilled")
            } else {
                t.success(ResponseData::Empty)
            },
            _ => vstd::pervasive::unreached(),
        }
    }
}

// task.continue

/// Where `task.continue` stands.
#[derive(Debug)]
pub enum TaskContinueWait {
    Timeout(TaskContinueData),
    Store(TaskContinueData),
}

/// Let a halted task go on.
pub fn op_task_continue(t: Ticket, r: TaskContinueData) -> (out: Step)
    ensures
        out.waits(t, Wait::TaskContinue(TaskContinueWait::Timeout(r))),
{
    t.wait(Wait::TaskContinue(TaskContinueWait::Timeout(r)))
}

impl TaskContinueWait {
    /// The call that is waited for.
    pub open spec fn calls(self, t: Ticket, a: Action) -> bool {
        match self {
            TaskContinueWait::Timeout(r) => a.is_try_timeout(seq![r.id@], t.now),
            TaskContinueWait::Store(r) => a matches Action::TaskContinue { id, time } && id@
                == r.id@ && time == t.now,
        }
    }

    /// The answers to that call.
    pub open spec fn admits(self, e: Event) -> bool {
        match self {
            TaskContinueWait::Timeout(_) => e is Done,
            TaskContinueWait::Store(_) => e is TaskContinued,
        }
    }

    /// What follows from an answer.
    pub open spec fn next(self, t: Ticket, e: Event, out: Step) -> bool {
        match (self, e) {
            (TaskContinueWait::Timeout(r), _) => out.waits(
                t,
                Wait::TaskContinue(TaskContinueWait::Store(r)),
            ),
            (TaskContinueWait::Store(_), Event::TaskContinued(res)) => if !res.task_exists {
                out.is_error(t, 404, "Task not found"@)
            } else if res.continued {
                out.is_reply(t, 200, ResponseData::Empty)
            } else {
                out.is_error(t, 409, "Task is not halted"@)
            },
            _ => false,
        }
    }

    pub fn action<'a>(&'a self, t: &Ticket) -> (a: Action<'a>)
        ensures
            self.calls(*t, a),
    {
        match self {
            TaskContinueWait::Timeout(r) => try_timeout(r.id.as_str(), t.now),
            TaskContinueWait::Store(r) => Action::TaskContinue { id: r.id.as_str(), time: t.now },
        }
    }

    pub fn accepts(&self, e: &Event) -> (admitted: bool)
        ensures
            admitted == self.admits(*e),
    {
        match (self, e) {
            (TaskContinueWait::Timeout(_), Event::Done) => true,
            (TaskContinueWait::Store(_), Event::TaskContinued(_)) => true,
            _ => false,
        }
    }

    pub fn resume(self, t: Ticket, e: Event) -> (out: Step)
        requires
            self.admits(e),
        ensures
            self.next(t, e, out),
    {
        match (self, e) {
            (TaskContinueWait::Timeout(r), _) => t.wait(
                Wait::TaskContinue(TaskContinueWait::Store(r)),
            ),
            (TaskContinueWait::Store(_), Event::TaskContinued(res)) => if !res.task_exists {
                t.error(404, "Task not found")
            } else if res.continued {
                t.success(ResponseData::Empty)
            } else {
                t.error(409, "Task is not halted")
            },
            _ => vstd::pervasive::unreached(),
        }
    }
}

// task.search

/// Where `task.search` stands.
#[derive(Debug)]
pub enum TaskSearchWait {
    /// With how much is asked for.
    Search(TaskSearchData, PageLimit),
}

/// What follows from a valid request to search for tasks.
pub open spec fn task_search_begins(t: Ticket, r: TaskSearchData, out: Step) -> bool {
    match limit_of(r.limit, DEFAULT_LIMIT) {
        None => out.is_error(t, 400, "Invalid 'limit' — must be between 1 and 1000"@),
        Some(limit) => out.waits(t, Wait::TaskSearch(TaskSearchWait::Search(r, limit))),
    }
}

/// Search for tasks.
pub fn op_task_search(t: Ticket, r: TaskSearchData) -> (out: Step)
    ensures
        task_search_begins(t, r, out),
{
    match checked_limit(r.limit, DEFAULT_LIMIT) {
        None => t.error(400, "Invalid 'limit' — must be between 1 and 1000"),
        Some(limit) => t.wait(Wait::TaskSearch(TaskSearchWait::Search(r, limit))),
    }
}

impl TaskSearchWait {
    /// The call that is waited for: it asks for one task more than the page
    /// holds, to see whether there are more.
    pub open spec fn calls(self, t: Ticket, a: Action) -> bool {
        match self {
            TaskSearchWait::Search(r, n) => {
                &&& a matches Action::TaskSearch { state, cursor, limit }
                &&& optional_str(state) == match r.state {
                    Some(s) => Some(s.name()),
                    None => None,
                }
                &&& optional_str(cursor) == optional_text(r.cursor)
                &&& limit == n.probe
            },
        }
    }

    /// The answers to that call.
    pub open spec fn admits(self, e: Event) -> bool {
        e is Tasks
    }

    /// What follows from an answer: a page of the tasks found, and the id of the
    /// last one as the cursor where more were found than asked for.
    pub open spec fn next(self, t: Ticket, e: Event, out: Step) -> bool {
        match (self, e) {
            (TaskSearchWait::Search(_, n), Event::Tasks(found)) => {
                let items = page_of(found@, n.page);
                &&& out matches Step::Done(r)
                &&& r.is_headed(t.head.kind@, t.head.corr_id@, 200)
                &&& r.data matches ResponseData::Tasks { tasks, cursor }
                &&& tasks@ == items
                &&& cursor == if found@.len() > n.page && items.len() > 0 {
                    Some(items.last().id)
                } else {
                    None
                }
            },
            _ => false,
        }
    }

    pub fn action<'a>(&'a self, t: &Ticket) -> (a: Action<'a>)
        ensures
            self.calls(*t, a),
    {
        match self {
            TaskSearchWait::Search(r, n) => {
                let state = match &r.state {
                    Some(s) => Some(s.as_str()),
                    None => None,
                };
                Action::TaskSearch { state, cursor: borrowed(&r.cursor), limit: n.probe }
            },
        }
    }

    pub fn accepts(&self, e: &Event) -> (admitted: bool)
        ensures
            admitted == self.admits(*e),
    {
        match e {
            Event::Tasks(_) => true,
            _ => false,
        }
    }

    pub fn resume(self, t: Ticket, e: Event) -> (out: Step)
        requires
            self.admits(e),
        ensures
            self.next(t, e, out),
    {
        match (self, e) {
            (TaskSearchWait::Search(_, n), Event::Tasks(found)) => {
                let more = n.page < 0 || found.len() as u64 > n.page as u64;
                let tasks = page(found, n.page);
                let cursor = if more && tasks.len() > 0 {
                    Some(tasks[tasks.len() - 1].id.clone())
                } else {
                    None
                };
                t.success(ResponseData::Tasks { tasks, cursor })
            },
            _ => vstd::pervasive::unreached(),
        }
    }
}

// task.fence

/// Where `task.fence` stands.
#[derive(Debug)]
pub enum TaskFenceWait {
    Timeout(TaskFenceData),
    Lock(TaskFenceData),
    /// Decode the fenced action as a `promise.create`.
    DecodeCreate(TaskFenceData),
    /// Decode the fenced action as a `promise.settle`.
    DecodeSettle(TaskFenceData),
    Create(TaskFenceData, PromiseCreateData, MapTexts),
    /// With the JSON text of the value's headers.
    Settle(TaskFenceData, PromiseSettleData, Option<String>),
    /// The action is done; collect what the holder of the task is likely to ask
    /// for.
    Preload(String, ActionEnvelope),
}

/// The version of the protocol that fenced actions are answered in.
pub const PROTOCOL_VERSION: &'static str = "2026-04-01";

/// Perform an action on a promise only while the task is held at a version.
pub fn op_task_fence(t: Ticket, r: TaskFenceData) -> (out: Step)
    ensures
        out.waits(t, Wait::TaskFence(TaskFenceWait::Timeout(r))),
{
    t.wait(Wait::TaskFence(TaskFenceWait::Timeout(r)))
}

/// The id of the promise that a fenced action is on: empty where its data has
/// no text under `id`.
pub open spec fn fenced_id(data: JsonTree) -> Seq<char> {
    match data.field("id"@) {
        Some(JsonTree::Text(id)) => id,
        _ => ""@,
    }
}

/// The id of the promise that a fenced action is on.
fn fenced_promise(data: &Json) -> (id: &str)
    ensures
        id@ == fenced_id(data.tree()),
{
    match data.field("id") {
        Some(value) => match value.as_str() {
            Some(id) => id,
            None => "",
        },
        None => "",
    }
}

/// What follows from a valid fenced `promise.create`, given whether the target
/// of the promise is routable.
pub open spec fn fenced_create_begins(
    t: Ticket,
    r: TaskFenceData,
    c: PromiseCreateData,
    routable: bool,
    out: Step,
) -> bool {
    match create_fault(c, routable) {
        Some(why) => out.is_error(t, 400, why),
        None => {
            &&& out matches Step::Wait(p)
            &&& p.ticket == t
            &&& p.wait matches Wait::TaskFence(TaskFenceWait::Create(fence, create, texts))
            &&& fence == r
            &&& create == c
            &&& texts.encode(c)
        },
    }
}

/// Go on with a fenced `promise.create`, given whether the target of the promise
/// is routable.
pub fn begin_fenced_create(
    t: Ticket,
    r: TaskFenceData,
    c: PromiseCreateData,
    routable: bool,
) -> (out: Step)
    ensures
        fenced_create_begins(t, r, c, routable, out),
{
    match create_error(&c, routable) {
        Some(why) => t.error(400, why),
        None => {
            let texts = MapTexts::of(&c);
            t.wait(Wait::TaskFence(TaskFenceWait::Create(r, c, texts)))
        },
    }
}

/// Whether `a` is the response to the action fenced by `r`.
pub open spec fn answers_action(t: Ticket, r: TaskFenceData, status: int, a: ActionEnvelope) -> bool {
    &&& a.kind == r.action.kind
    &&& a.head.corr_id == t.head.corr_id
    &&& a.head.status == status
    &&& a.head.version@ == PROTOCOL_VERSION@
}

/// What follows from the storage's report on a fenced action: an error where the
/// task does not exist or is not held at the version, otherwise the response to
/// the action, which fails alone where there is no promise to report.
pub open spec fn fence_decided(t: Ticket, r: TaskFenceData, res: TaskFenceResult, out: Step) -> bool {
    if !res.task_exists {
        out.is_error(t, 404, "Task not found"@)
    } else if !res.fence_ok {
        out.is_error(t, 409, "Version mismatch"@)
    } else {
        &&& out matches Step::Wait(p)
        &&& p.ticket == t
        &&& p.wait matches Wait::TaskFence(TaskFenceWait::Preload(id, action))
        &&& id == r.id
        &&& match res.promise {
            Some(promise) => answers_action(t, r, 200, action) && action.data
                == ActionData::Promise(promise),
            None => answers_action(t, r, 404, action) && (action.data matches ActionData::Text(m)
                && m@ == "Promise not found"@),
        }
    }
}

/// Go on from the storage's report on a fenced action.
pub fn decide_fence(t: Ticket, r: TaskFenceData, res: TaskFenceResult) -> (out: Step)
    ensures
        fence_decided(t, r, res, out),
{
    if !res.task_exists {
        return t.error(404, "Task not found");
    }
    if !res.fence_ok {
        return t.error(409, "Version mismatch");
    }
    let status: i32 = if res.promise.is_some() {
        200
    } else {
        404
    };
    let data = match res.promise {
        Some(promise) => ActionData::Promise(promise),
        None => ActionData::Text("Promise not found".to_owned()),
    };
    let head = ActionHead {
        corr_id: t.head.corr_id.clone(),
        status,
        version: PROTOCOL_VERSION.to_owned(),
    };
    let action = ActionEnvelope { kind: r.action.kind, head, data };
    t.wait(Wait::TaskFence(TaskFenceWait::Preload(r.id, action)))
}

impl TaskFenceWait {
    /// The call that is waited for.
    pub open spec fn calls(self, t: Ticket, a: Action) -> bool {
        match self {
            TaskFenceWait::Timeout(r) => a.is_try_timeout(
                seq![r.id@, fenced_id(r.action.data.tree())],
                t.now,
            ),
            TaskFenceWait::Lock(r) => a matches Action::LockForUpdate { id } && id@ == r.id@,
            TaskFenceWait::DecodeCreate(r) => a matches Action::Decode { route, data } && route
                == Route::PromiseCreate && *data == r.action.data,
            TaskFenceWait::DecodeSettle(r) => a matches Action::Decode { route, data } && route
                == Route::PromiseSettle && *data == r.action.data,
            TaskFenceWait::Create(r, c, texts) => {
                let b = birth_of(c.tags@, c.timeout_at, t.now);
                &&& a matches Action::TaskFenceCreate(p)
                &&& p.task_id@ == r.id@
                &&& p.version == r.version
                &&& p.promise_id@ == c.id@
                &&& p.state@ == b.state.name()
                &&& optional_str(p.param_headers) == optional_text(texts.headers)
                &&& optional_str(p.param_data) == optional_text(c.param.data)
                &&& p.tags@ == texts.tags@
                &&& p.timeout_at == c.timeout_at
                &&& p.created_at == b.created_at
                &&& p.settled_at == b.settled_at
                &&& p.already_timedout == b.already_timedout
                &&& optional_str(p.address) == target_of(c.tags@)
            },
            TaskFenceWait::Settle(r, s, headers) => {
                &&& a matches Action::TaskFenceSettle(p)
                &&& p.task_id@ == r.id@
                &&& p.version == r.version
                &&& p.promise_id@ == s.id@
                &&& p.state@ == s.state.name()
                &&& optional_str(p.value_headers) == optional_text(headers)
                &&& optional_str(p.value_data) == optional_text(s.value.data)
                &&& p.settled_at == t.now
            },
            TaskFenceWait::Preload(task_id, _) => a matches Action::ComputePreload { id } && id@
                == task_id@,
        }
    }

    /// The answers to that call. A promise that was created is reported, and one
    /// that was settled is not pending.
    pub open spec fn admits(self, e: Event) -> bool {
        match self {
            TaskFenceWait::Timeout(_) => e is Done,
            TaskFenceWait::Lock(_) => e is Locked,
            TaskFenceWait::DecodeCreate(_) => e matches Event::Decoded(d) && (
            d matches Decoded::Valid(data) ==> data is PromiseCreate),
            TaskFenceWait::DecodeSettle(_) => e matches Event::Decoded(d) && (
            d matches Decoded::Valid(data) ==> data is PromiseSettle),
            TaskFenceWait::Create(_, _, _) => e matches Event::TaskFenced(res) && (res.task_exists
                && res.fence_ok ==> res.promise is Some),
            TaskFenceWait::Settle(_, _, _) => e matches Event::TaskFenced(res) && (res.task_exists
                && res.fence_ok ==> (res.promise matches Some(p) ==> p.state
                != PromiseState::Pending)),
            TaskFenceWait::Preload(_, _) => e is Promises,
        }
    }

    /// What follows from an answer.
    pub open spec fn next(self, t: Ticket, e: Event, out: Step) -> bool {
        match (self, e) {
            (TaskFenceWait::Timeout(r), _) => out.waits(t, Wait::TaskFence(TaskFenceWait::Lock(r))),
            (TaskFenceWait::Lock(r), _) => if r.action.kind@ == "promise.create"@ {
                out.waits(t, Wait::TaskFence(TaskFenceWait::DecodeCreate(r)))
            } else if r.action.kind@ == "promise.settle"@ {
                out.waits(t, Wait::TaskFence(TaskFenceWait::DecodeSettle(r)))
            } else {
                out.is_error(t, 400, "Invalid fence action kind"@)
            },
            (TaskFenceWait::DecodeCreate(r), Event::Decoded(d)) => match d {
                Decoded::Malformed(m) => out.is_error(t, 400, "Invalid action data: "@ + m@),
                Decoded::Invalid(m) => out.is_error(t, 400, m@),
                Decoded::Valid(data) => data matches RequestData::PromiseCreate(c)
                    && fenced_create_begins(t, r, c, target_routable(c.tags@), out),
            },
            (TaskFenceWait::DecodeSettle(r), Event::Decoded(d)) => match d {
                Decoded::Malformed(m) => out.is_error(t, 400, "Invalid action data: "@ + m@),
                Decoded::Invalid(m) => out.is_error(t, 400, m@),
                Decoded::Valid(data) => {
                    &&& data matches RequestData::PromiseSettle(s)
                    &&& out matches Step::Wait(p)
                    &&& p.ticket == t
                    &&& p.wait matches Wait::TaskFence(
                        TaskFenceWait::Settle(fence, settle, headers),
                    )
                    &&& fence == r
                    &&& settle == s
                    &&& optional_text(headers) == optional_map_json(s.value.headers)
                },
            },
            (TaskFenceWait::Create(r, _, _), Event::TaskFenced(res)) => fence_decided(t, r, res, out),
            (TaskFenceWait::Settle(r, _, _), Event::TaskFenced(res)) => fence_decided(t, r, res, out),
            (TaskFenceWait::Preload(_, action), Event::Promises(preload)) => out.is_reply(
                t,
                200,
                ResponseData::TaskFence { action, preload },
            ),
            _ => false,
        }
    }

    pub fn action<'a>(&'a self, t: &Ticket) -> (a: Action<'a>)
        ensures
            self.calls(*t, a),
    {
        match self {
            TaskFenceWait::Timeout(r) => {
                let mut ids: Vec<&'a str> = Vec::new();
                ids.push(r.id.as_str());
                ids.push(fenced_promise(&r.action.data));
                assert(texts_of(ids@) =~= seq![r.id@, fenced_id(r.action.data.tree())]);
                Action::TryTimeout { ids, time: t.now }
            },
            TaskFenceWait::Lock(r) => Action::LockForUpdate { id: r.id.as_str() },
            TaskFenceWait::DecodeCreate(r) => Action::Decode {
                route: Route::PromiseCreate,
                data: &r.action.data,
            },
            TaskFenceWait::DecodeSettle(r) => Action::Decode {
                route: Route::PromiseSettle,
                data: &r.action.data,
            },
            TaskFenceWait::Create(r, c, texts) => {
                let b = birth(&c.tags, c.timeout_at, t.now);
                Action::TaskFenceCreate(
                    TaskFenceCreateParams {
                        task_id: r.id.as_str(),
                        version: r.version,
                        promise_id: c.id.as_str(),
                        state: b.state.as_str(),
                        param_headers: borrowed(&texts.headers),
                        param_data: borrowed(&c.param.data),
                        tags: texts.tags.as_str(),
                        timeout_at: c.timeout_at,
                        created_at: b.created_at,
                        settled_at: b.settled_at,
                        already_timedout: b.already_timedout,
                        address: target(&c.tags),
                    },
                )
            },
            TaskFenceWait::Settle(r, s, headers) => Action::TaskFenceSettle(
                TaskFenceSettleParams {
                    task_id: r.id.as_str(),
                    version: r.version,
                    promise_id: s.id.as_str(),
                    state: s.state.as_str(),
                    value_headers: borrowed(headers),
                    value_data: borrowed(&s.value.data),
                    settled_at: t.now,
                },
            ),
            TaskFenceWait::Preload(task_id, _) => Action::ComputePreload { id: task_id.as_str() },
        }
    }

    pub fn accepts(&self, e: &Event) -> (admitted: bool)
        ensures
            admitted == self.admits(*e),
    {
        match (self, e) {
            (TaskFenceWait::Timeout(_), Event::Done) => true,
            (TaskFenceWait::Lock(_), Event::Locked { .. }) => true,
            (TaskFenceWait::DecodeCreate(_), Event::Decoded(d)) => match d {
                Decoded::Valid(RequestData::PromiseCreate(_)) => true,
                Decoded::Valid(_) => false,
                _ => true,
            },
            (TaskFenceWait::DecodeSettle(_), Event::Decoded(d)) => match d {
                Decoded::Valid(RequestData::PromiseSettle(_)) => true,
                Decoded::Valid(_) => false,
                _ => true,
            },
            (TaskFenceWait::Create(_, _, _), Event::TaskFenced(res)) => !res.task_exists
                || !res.fence_ok || res.promise.is_some(),
            (TaskFenceWait::Settle(_, _, _), Event::TaskFenced(res)) => !res.task_exists
                || !res.fence_ok || match &res.promise {
                Some(p) => p.state != PromiseState::Pending,
                None => true,
            },
            (TaskFenceWait::Preload(_, _), Event::Promises(_)) => true,
            _ => false,
        }
    }

    pub fn resume(self, t: Ticket, e: Event) -> (out: Step)
        requires
            self.admits(e),
        ensures
            self.next(t, e, out),
    {
        match (self, e) {
            (TaskFenceWait::Timeout(r), _) => t.wait(Wait::TaskFence(TaskFenceWait::Lock(r))),
            (TaskFenceWait::Lock(r), _) => if same_text(r.action.kind.as_str(), "promise.create") {
                t.wait(Wait::TaskFence(TaskFenceWait::DecodeCreate(r)))
            } else if same_text(r.action.kind.as_str(), "promise.settle") {
                t.wait(Wait::TaskFence(TaskFenceWait::DecodeSettle(r)))
            } else {
                t.error(400, "Invalid fence action kind")
            },
            (TaskFenceWait::DecodeCreate(r), Event::Decoded(d)) => match d {
                Decoded::Malformed(m) => {
                    let message = joined("Invalid action data: ", m.as_str());
                    t.error(400, message.as_str())
                },
                Decoded::Invalid(m) => t.error(400, m.as_str()),
                Decoded::Valid(RequestData::PromiseCreate(c)) => {
                    let routable = has_routable_target(&c.tags);
                    begin_fenced_create(t, r, c, routable)
                },
                _ => vstd::pervasive::unreached(),
            },
            (TaskFenceWait::DecodeSettle(r), Event::Decoded(d)) => match d {
                Decoded::Malformed(m) => {
                    let message = joined("Invalid action data: ", m.as_str());
                    t.error(400, message.as_str())
                },
                Decoded::Invalid(m) => t.error(400, m.as_str()),
                Decoded::Valid(RequestData::PromiseSettle(s)) => {
                    let headers = optional_json(&s.value.headers);
                    t.wait(Wait::TaskFence(TaskFenceWait::Settle(r, s, headers)))
                },
                _ => vstd::pervasive::unreached(),
            },
            (TaskFenceWait::Create(r, _, _), Event::TaskFenced(res)) => decide_fence(t, r, res),
            (TaskFenceWait::Settle(r, _, _), Event::TaskFenced(res)) => decide_fence(t, r, res),
            (TaskFenceWait::Preload(_, action), Event::Promises(preload)) => t.success(
                ResponseData::TaskFence { action, preload },
            ),
            _ => vstd::pervasive::unreached(),
        }
    }
}

} // verus!
