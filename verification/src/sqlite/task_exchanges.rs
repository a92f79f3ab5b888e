//! The operations on tasks over the whole of a request: what the storage is asked for,
//! in which order, and what is answered. The steps are named as in [`super::exchanges`].
use vstd::prelude::*;

use super::exchanges::{
    asks, begins, born, deliverable, first_of, follows, lemma_promise_create, lemma_settled_as,
    lemma_settles, lineal, passed, passed_map, passed_target, refuses, replies, responds,
    settled_as, settles, takes,
};
use super::persistence::{TaskAcquireResult, TaskCreateResult};
use super::steps::{Action, Decoded, Event, RequestData, Route, Step, Ticket};
use super::task_ops::{
    awaited_ids, fenced_id, lemma_unique, reported_state, task_decided, unique,
};
use super::types::{
    ActionData, PromiseCreateData, PromiseRecord, PromiseRegisterCallbackData,
    PromiseSettleData, PromiseState, ResponseData, TaskAcquireData, TaskContinueData,
    TaskCreateData, TaskFenceData, TaskFulfillData, TaskGetData, TaskHaltData, TaskHeartbeatData,
    TaskRecord, TaskReleaseData, TaskSearchData, TaskState, TaskSuspendData,
};
use crate::ids::origin;
use crate::json::JsonTree;
use crate::string_map::map_json;
use crate::text::texts_of;
use crate::types::lemma_task_state_round_trip;

verus! {

/// The word for the state of a task.
pub open spec fn task_word(state: TaskState) -> Seq<char> {
    match state {
        TaskState::Pending => "pending"@,
        TaskState::Acquired => "acquired"@,
        TaskState::Suspended => "suspended"@,
        TaskState::Halted => "halted"@,
        TaskState::Fulfilled => "fulfilled"@,
    }
}

/// Whether a task is reported in a state.
pub open spec fn reported(res: TaskCreateResult, state: TaskState) -> bool {
    res.task_state matches Some(word) && word@ == task_word(state)
}

/// Whether the response hands out a task with its promise and what is preloaded for it.
pub open spec fn hands_out(
    out: Step,
    t: Ticket,
    task: TaskRecord,
    promise: PromiseRecord,
    preload: Seq<PromiseRecord>,
) -> bool {
    &&& responds(out, t, 200)
    &&& out->Done_0.data matches ResponseData::TaskCreate { task: k, promise: p, preload: l }
    &&& k == task
    &&& p == promise
    &&& l@ == preload
}

/// The record of a task that the worker of a request has taken.
pub open spec fn taken(r: TaskCreateData, state: TaskState, version: int) -> TaskRecord {
    TaskRecord {
        id: r.action.id,
        state,
        version: version as i64,
        resumes: 0,
        ttl: Some(r.ttl),
        pid: Some(r.pid),
    }
}

/// The record of a task that is over, which nobody holds.
pub open spec fn over(r: TaskCreateData, version: int) -> TaskRecord {
    TaskRecord {
        id: r.action.id,
        state: TaskState::Fulfilled,
        version: version as i64,
        resumes: 0,
        ttl: None,
        pid: None,
    }
}

/// Reports of a task tell its states apart.
proof fn lemma_reported(res: TaskCreateResult)
    ensures
        reported(res, TaskState::Pending) <==> reported_state(res) == Some(
            TaskState::Pending,
        ),
        reported(res, TaskState::Acquired) <==> reported_state(res) == Some(
            TaskState::Acquired,
        ),
        reported(res, TaskState::Suspended) <==> reported_state(res) == Some(
            TaskState::Suspended,
        ),
        reported(res, TaskState::Halted) <==> reported_state(res) == Some(
            TaskState::Halted,
        ),
        reported(res, TaskState::Fulfilled) <==> reported_state(res) == Some(
            TaskState::Fulfilled,
        ),
{
    lemma_task_state_round_trip(TaskState::Pending);
    lemma_task_state_round_trip(TaskState::Acquired);
    lemma_task_state_round_trip(TaskState::Suspended);
    lemma_task_state_round_trip(TaskState::Halted);
    lemma_task_state_round_trip(TaskState::Fulfilled);
}

/// `task.get` settles the promise if it has timed out, reads the task, and answers with
/// it, or that there is none.
pub proof fn lemma_task_get(
    t: Ticket,
    r: TaskGetData,
    s0: Step,
    a0: Action,
    e0: Event,
    s1: Step,
    a1: Action,
    e1: Event,
    s2: Step,
)
    requires
        begins(t, RequestData::TaskGet(r), s0),
    ensures
        s0 is Wait,
        asks(s0, a0) ==> settles(a0, seq![r.id@], t.now),
        takes(s0, e0) <==> e0 is Done,
        follows(s0, e0, s1) ==> {
            &&& s1 is Wait
            &&& asks(s1, a1) ==> (a1 matches Action::TaskGet { id } && id@ == r.id@)
            &&& takes(s1, e1) <==> e1 is Task
            &&& follows(s1, e1, s2) ==> match e1->Task_0 {
                Some(k) => replies(s2, t, 200, ResponseData::Task(k)),
                None => refuses(s2, t, 404, "Task not found"@),
            }
        },
{
    if asks(s0, a0) {
        lemma_settles(a0, seq![r.id@], t.now);
    }
}

// task.create

/// Whether a report of a task and its promise is one that the storage keeps true: a
/// task is fulfilled exactly where its promise is settled.
pub open spec fn kept_true(res: TaskCreateResult) -> bool {
    if res.task_created {
        if res.promise.state == PromiseState::Pending {
            reported(res, TaskState::Pending) || reported(res, TaskState::Acquired) || reported(
                res,
                TaskState::Suspended,
            ) || reported(res, TaskState::Halted)
        } else {
            reported(res, TaskState::Fulfilled)
        }
    } else {
        res.promise.state == PromiseState::Pending ==> !reported(res, TaskState::Fulfilled)
    }
}

/// `task.create` refuses a promise that cannot be delivered or that lies outside the
/// lineage that it declares. Otherwise the promise is settled if it has timed out, it is
/// locked, and the storage is asked to create the very promise that was requested, with
/// its argument, tags and timeout, and a task for the worker that asks. Where the promise
/// turns out to be settled, its callbacks are fired before anything is decided.
pub proof fn lemma_task_create(
    t: Ticket,
    r: TaskCreateData,
    s0: Step,
    a0: Action,
    e0: Event,
    s1: Step,
    a1: Action,
    e1: Event,
    s2: Step,
    a2: Action,
    e2: Event,
    s3: Step,
    a3: Action,
    e3: Event,
    s4: Step,
)
    requires
        begins(t, RequestData::TaskCreate(r), s0),
    ensures
        s0 is Wait <==> deliverable(r.action.tags) && lineal(r.action.id@, r.action.tags),
        !deliverable(r.action.tags) ==> refuses(s0, t, 400, "Invalid resonate:target address"@),
        !lineal(r.action.id@, r.action.tags) ==> responds(s0, t, 400),
        asks(s0, a0) ==> settles(a0, seq![r.action.id@], t.now),
        takes(s0, e0) <==> s0 is Wait && e0 is Done,
        follows(s0, e0, s1) ==> {
            &&& s1 is Wait
            &&& asks(s1, a1) ==> (a1 matches Action::LockForUpdate { id } && id@ == r.action.id@)
            &&& takes(s1, e1) <==> e1 is Locked
            &&& follows(s1, e1, s2) ==> {
                &&& s2 is Wait
                &&& asks(s2, a2) ==> {
                    &&& a2 matches Action::TaskCreate(p)
                    &&& p.promise_id@ == r.action.id@
                    &&& passed_map(p.param_headers, r.action.param.headers)
                    &&& passed(p.param_data, r.action.param.data)
                    &&& p.tags@ == map_json(r.action.tags@)
                    &&& p.timeout_at == r.action.timeout_at
                    &&& born(
                        r.action.tags,
                        r.action.timeout_at,
                        t.now,
                        p.state@,
                        p.created_at,
                        p.settled_at,
                        p.already_timedout,
                    )
                    &&& p.ttl == r.ttl
                    &&& p.pid@ == r.pid@
                }
                &&& takes(s2, e2) <==> (e2 matches Event::TaskCreated(res) && (res.promise.state
                    == PromiseState::Pending ==> kept_true(res)))
                &&& follows(s2, e2, s3) ==> {
                    let res = e2->TaskCreated_0;
                    if res.promise.state == PromiseState::Pending {
                        task_decided(t, r, res, s3)
                    } else {
                        &&& s3 is Wait
                        &&& asks(s3, a3) ==> (a3 matches Action::ProcessCallbacks { id, time }
                            && id@ == r.action.id@ && time == t.now)
                        &&& takes(s3, e3) <==> e3 is Done && kept_true(res)
                        &&& follows(s3, e3, s4) ==> task_decided(t, r, res, s4)
                    }
                }
            }
        },
{
    if asks(s0, a0) {
        lemma_settles(a0, seq![r.action.id@], t.now);
    }
    if e2 is TaskCreated {
        lemma_reported(e2->TaskCreated_0);
    }
}

/// How `task.create` ends once the storage has reported the task `res`.
///
/// A task that was created is handed to the worker: at version 1, with what is preloaded
/// for it, where it is acquired; as over where its promise is settled. A task that was
/// there and is over is handed out as it is. One that is pending is acquired at its
/// version, and handed out at the next one; where somebody else was faster, the request
/// is refused, unless the task is over by then. A promise without a task and a task that
/// somebody holds are refused.
pub proof fn lemma_task_create_ends(
    t: Ticket,
    r: TaskCreateData,
    res: TaskCreateResult,
    s0: Step,
    a0: Action,
    e0: Event,
    s1: Step,
    a1: Action,
    e1: Event,
    s2: Step,
)
    requires
        task_decided(t, r, res, s0),
        kept_true(res),
    ensures
        res.task_created && reported(res, TaskState::Acquired) ==> {
            &&& s0 is Wait
            &&& asks(s0, a0) ==> (a0 matches Action::ComputePreload { id } && id@ == r.action.id@)
            &&& takes(s0, e0) <==> e0 is Promises
            &&& follows(s0, e0, s1) ==> hands_out(
                s1,
                t,
                taken(r, TaskState::Acquired, 1),
                res.promise,
                e0->Promises_0@,
            )
        },
        res.task_created && reported(res, TaskState::Fulfilled) ==> hands_out(
            s0,
            t,
            over(r, 0),
            res.promise,
            Seq::empty(),
        ),
        res.task_created && reported(res, TaskState::Pending) ==> hands_out(
            s0,
            t,
            taken(r, TaskState::Pending, 0),
            res.promise,
            Seq::empty(),
        ),
        res.task_created && reported(res, TaskState::Suspended) ==> hands_out(
            s0,
            t,
            taken(r, TaskState::Suspended, 0),
            res.promise,
            Seq::empty(),
        ),
        res.task_created && reported(res, TaskState::Halted) ==> hands_out(
            s0,
            t,
            taken(r, TaskState::Halted, 0),
            res.promise,
            Seq::empty(),
        ),
        !res.task_created && reported(res, TaskState::Fulfilled) ==> hands_out(
            s0,
            t,
            over(
                r,
                match res.task_version {
                    Some(v) => v as int,
                    None => 0,
                },
            ),
            res.promise,
            Seq::empty(),
        ),
        !res.task_created && reported(res, TaskState::Pending) && res.task_version is Some ==> {
            let version = res.task_version->Some_0;
            &&& s0 is Wait
            &&& asks(s0, a0) ==> {
                &&& a0 matches Action::TaskAcquire(p)
                &&& p.task_id@ == r.action.id@
                &&& p.version == version
                &&& p.time == t.now
                &&& p.ttl == r.ttl
                &&& p.pid@ == r.pid@
            }
            &&& takes(s0, e0) <==> (e0 matches Event::TaskAcquired(x) && acquires_or_not(
                x,
                res.promise,
                version,
            ))
            &&& follows(s0, e0, s1) ==> {
                let x = e0->TaskAcquired_0;
                if x.was_acquired {
                    &&& s1 is Wait
                    &&& asks(s1, a1) ==> (a1 matches Action::ComputePreload { id } && id@
                        == r.action.id@)
                    &&& takes(s1, e1) <==> e1 is Promises
                    &&& follows(s1, e1, s2) ==> hands_out(
                        s2,
                        t,
                        taken(r, TaskState::Acquired, version + 1),
                        res.promise,
                        e1->Promises_0@,
                    )
                } else if x.task_state == Some(TaskState::Fulfilled) {
                    hands_out(
                        s1,
                        t,
                        over(r, x.task_version->Some_0 as int),
                        x.promise->Some_0,
                        Seq::empty(),
                    )
                } else {
                    refuses(s1, t, 409, "Already exists"@)
                }
            }
        },
        !res.task_created && res.task_state is None ==> refuses(
            s0,
            t,
            422,
            "Promise exists without a target task"@,
        ),
        !res.task_created && res.task_state is Some && !reported(res, TaskState::Fulfilled) && !(
        reported(res, TaskState::Pending) && res.task_version is Some) ==> refuses(
            s0,
            t,
            409,
            "Already exists"@,
        ),
{
    lemma_reported(res);
}

/// Whether an attempt to acquire a task at a version ended as the storage keeps it: it
/// succeeds only while the promise is pending, and counts the version up by one; a task
/// that is over comes with its settled promise; otherwise the task was not pending at
/// that version.
pub open spec fn acquires_or_not(
    x: TaskAcquireResult,
    promise: PromiseRecord,
    version: i64,
) -> bool {
    if x.was_acquired {
        &&& promise.state == PromiseState::Pending
        &&& x.task_version is Some
        &&& x.task_version->Some_0 == version + 1
    } else if x.task_state == Some(TaskState::Fulfilled) {
        &&& x.promise is Some
        &&& x.promise->Some_0.state != PromiseState::Pending
        &&& x.task_version is Some
    } else {
        &&& x.task_state is Some
        &&& x.task_version is Some
        &&& !(x.task_state == Some(TaskState::Pending) && x.task_version == Some(version))
    }
}

/// `task.acquire` asks the storage for the task at the version, and for the worker, of
/// the request. The worker is handed the task at the next version, with its promise and
/// what is preloaded for it; a task that is missing, held or at another version is
/// refused.
pub proof fn lemma_task_acquire(
    t: Ticket,
    r: TaskAcquireData,
    s0: Step,
    a0: Action,
    e0: Event,
    s1: Step,
    a1: Action,
    e1: Event,
    s2: Step,
    a2: Action,
    e2: Event,
    s3: Step,
)
    requires
        begins(t, RequestData::TaskAcquire(r), s0),
    ensures
        s0 is Wait,
        asks(s0, a0) ==> settles(a0, seq![r.id@], t.now),
        takes(s0, e0) <==> e0 is Done,
        follows(s0, e0, s1) ==> {
            &&& s1 is Wait
            &&& asks(s1, a1) ==> {
                &&& a1 matches Action::TaskAcquire(p)
                &&& p.task_id@ == r.id@
                &&& p.version == r.version
                &&& p.time == t.now
                &&& p.ttl == r.ttl
                &&& p.pid@ == r.pid@
            }
            &&& takes(s1, e1) <==> (e1 matches Event::TaskAcquired(x) && (x.promise is Some ==> {
                &&& x.task_state is Some
                &&& x.task_version is Some
                &&& !(x.task_state == Some(TaskState::Pending) && x.task_version == Some(r.version))
                &&& x.was_acquired ==> x.task_version->Some_0 == r.version + 1
            }))
            &&& follows(s1, e1, s2) ==> {
                let x = e1->TaskAcquired_0;
                if x.promise is None {
                    refuses(s2, t, 404, "Task not found"@)
                } else if x.was_acquired {
                    &&& s2 is Wait
                    &&& asks(s2, a2) ==> (a2 matches Action::ComputePreload { id } && id@ == r.id@)
                    &&& takes(s2, e2) <==> e2 is Promises
                    &&& follows(s2, e2, s3) ==> {
                        &&& responds(s3, t, 200)
                        &&& s3->Done_0.data matches ResponseData::TaskAcquire {
                            task,
                            promise,
                            preload,
                        }
                        &&& task.id == r.id
                        &&& task.state == TaskState::Acquired
                        &&& task.version == r.version + 1
                        &&& task.resumes == 0
                        &&& task.ttl == Some(r.ttl)
                        &&& task.pid == Some(r.pid)
                        &&& promise == x.promise->Some_0
                        &&& preload == e2->Promises_0
                    }
                } else if x.task_state == Some(TaskState::Pending) {
                    refuses(s2, t, 409, "Version mismatch"@)
                } else {
                    refuses(s2, t, 409, "Task is not pending"@)
                }
            }
        },
{
    if asks(s0, a0) {
        lemma_settles(a0, seq![r.id@], t.now);
    }
}

/// `task.release` locks the task and asks the storage to give it back at the version of
/// the request; a task that is missing or not held at that version is refused.
pub proof fn lemma_task_release(
    t: Ticket,
    r: TaskReleaseData,
    s0: Step,
    a0: Action,
    e0: Event,
    s1: Step,
    a1: Action,
    e1: Event,
    s2: Step,
    a2: Action,
    e2: Event,
    s3: Step,
)
    requires
        begins(t, RequestData::TaskRelease(r), s0),
    ensures
        s0 is Wait,
        asks(s0, a0) ==> settles(a0, seq![r.id@], t.now),
        takes(s0, e0) <==> e0 is Done,
        follows(s0, e0, s1) ==> {
            &&& s1 is Wait
            &&& asks(s1, a1) ==> (a1 matches Action::LockForUpdate { id } && id@ == r.id@)
            &&& takes(s1, e1) <==> e1 is Locked
            &&& follows(s1, e1, s2) ==> {
                &&& s2 is Wait <==> e1->Locked_task_exists
                &&& s2 is Done ==> refuses(s2, t, 404, "Task not found"@)
                &&& asks(s2, a2) ==> {
                    &&& a2 matches Action::TaskRelease { id, version, time, retry_timeout }
                    &&& id@ == r.id@
                    &&& version == r.version
                    &&& time == t.now
                    &&& retry_timeout == t.retry_timeout
                }
                &&& takes(s2, e2) <==> s2 is Wait && e2 is TaskReleased
                &&& follows(s2, e2, s3) ==> {
                    let x = e2->TaskReleased_0;
                    if x.task_released {
                        replies(s3, t, 200, ResponseData::Empty)
                    } else if x.task_exists {
                        refuses(s3, t, 409, "Task version mismatch or invalid state"@)
                    } else {
                        refuses(s3, t, 404, "Task not found"@)
                    }
                }
            }
        },
{
    if asks(s0, a0) {
        lemma_settles(a0, seq![r.id@], t.now);
    }
}

/// `task.fulfill` locks the task and asks the storage to end it by settling its promise
/// in the state, and with the value, that was requested; the answer is the promise,
/// which is settled. A task that is missing or not held at the version is refused.
pub proof fn lemma_task_fulfill(
    t: Ticket,
    r: TaskFulfillData,
    s0: Step,
    a0: Action,
    e0: Event,
    s1: Step,
    a1: Action,
    e1: Event,
    s2: Step,
    a2: Action,
    e2: Event,
    s3: Step,
)
    requires
        begins(t, RequestData::TaskFulfill(r), s0),
    ensures
        s0 is Wait,
        asks(s0, a0) ==> settles(a0, seq![r.action.id@], t.now),
        takes(s0, e0) <==> e0 is Done,
        follows(s0, e0, s1) ==> {
            &&& s1 is Wait
            &&& asks(s1, a1) ==> (a1 matches Action::LockForUpdate { id } && id@ == r.id@)
            &&& takes(s1, e1) <==> e1 is Locked
            &&& follows(s1, e1, s2) ==> {
                &&& s2 is Wait <==> e1->Locked_task_exists
                &&& s2 is Done ==> refuses(s2, t, 404, "Task not found"@)
                &&& asks(s2, a2) ==> {
                    &&& a2 matches Action::TaskFulfill(p)
                    &&& p.task_id@ == r.id@
                    &&& p.promise_id@ == r.id@
                    &&& p.version == r.version
                    &&& settled_as(p.state@, r.action.state)
                    &&& passed_map(p.value_headers, r.action.value.headers)
                    &&& passed(p.value_data, r.action.value.data)
                    &&& p.settled_at == t.now
                }
                &&& takes(s2, e2) <==> s2 is Wait && (e2 matches Event::TaskFulfilled(x) && (
                x.task_exists && x.task_fulfilled ==> x.promise is Some && x.promise->Some_0.state
                    != PromiseState::Pending))
                &&& follows(s2, e2, s3) ==> {
                    let x = e2->TaskFulfilled_0;
                    if !x.task_exists {
                        refuses(s3, t, 404, "Task not found"@)
                    } else if !x.task_fulfilled {
                        refuses(s3, t, 409, "Task version mismatch or invalid state"@)
                    } else {
                        replies(
                            s3,
                            t,
                            200,
                            ResponseData::TaskFulfill { promise: x.promise->Some_0 },
                        )
                    }
                }
            }
        },
{
    lemma_settled_as(r.action.state);
    if asks(s0, a0) {
        lemma_settles(a0, seq![r.action.id@], t.now);
    }
}

/// `task.suspend` stays within one origin. The task is locked before anything times out;
/// then the storage is asked to suspend it, at the version of the request, on each of the
/// promises that it awaits, once and in the order in which they first occur. Where
/// nothing is left to wait for, the worker goes on with what is preloaded.
#[verifier::rlimit(40)]
pub proof fn lemma_task_suspend(
    t: Ticket,
    r: TaskSuspendData,
    s0: Step,
    a0: Action,
    e0: Event,
    s1: Step,
    a1: Action,
    e1: Event,
    s2: Step,
    a2: Action,
    e2: Event,
    s3: Step,
    a3: Action,
    e3: Event,
    s4: Step,
)
    requires
        begins(t, RequestData::TaskSuspend(r), s0),
    ensures
        s0 is Wait <==> forall|i: int|
            0 <= i < r.actions@.len() ==> origin((#[trigger] r.actions@[i]).awaited@) == origin(
                r.actions@[i].awaiter@,
            ) && origin(r.actions@[i].awaited@) == origin(r.id@),
        s0 is Done ==> refuses(s0, t, 400, "Awaiter and awaited promise must share one origin"@),
        asks(s0, a0) ==> (a0 matches Action::LockForUpdate { id } && id@ == r.id@),
        takes(s0, e0) <==> s0 is Wait && e0 is Locked,
        follows(s0, e0, s1) ==> {
            let existed = e0->Locked_task_exists;
            &&& s1 is Wait
            &&& asks(s1, a1) ==> settles(
                a1,
                seq![r.id@] + Seq::new(r.actions@.len(), |i: int| r.actions@[i].awaited@),
                t.now,
            )
            &&& takes(s1, e1) <==> e1 is Done
            &&& follows(s1, e1, s2) ==> {
                &&& s2 is Wait
                &&& asks(s2, a2) ==> {
                    &&& a2 matches Action::TaskSuspend { id, version, awaited_ids: ids }
                    &&& id@ == r.id@
                    &&& version == r.version
                    &&& awaits_each_once(ids@, r.actions@)
                }
                &&& takes(s2, e2) <==> e2 is TaskSuspended
                &&& follows(s2, e2, s3) ==> {
                    let x = e2->TaskSuspended_0;
                    if !x.task_matched && !existed {
                        refuses(s3, t, 404, "Task not found"@)
                    } else if !x.task_matched {
                        refuses(s3, t, 409, "Task is not acquired or version mismatch"@)
                    } else if x.missing_count > 0 {
                        refuses(s3, t, 422, "Awaited promise not found"@)
                    } else if x.was_suspended {
                        replies(s3, t, 200, ResponseData::Empty)
                    } else {
                        &&& s3 is Wait
                        &&& asks(s3, a3) ==> (a3 matches Action::ComputePreload { id } && id@
                            == r.id@)
                        &&& takes(s3, e3) <==> e3 is Promises
                        &&& follows(s3, e3, s4) ==> replies(
                            s4,
                            t,
                            300,
                            ResponseData::TaskSuspend { preload: e3->Promises_0 },
                        )
                    }
                }
            }
        },
{
    let all = Seq::new(r.actions@.len(), |i: int| r.actions@[i].awaited@);
    assert(all =~= awaited_ids(r));
    if follows(s0, e0, s1) && asks(s1, a1) {
        lemma_settles(a1, seq![r.id@] + all, t.now);
    }
    if follows(s0, e0, s1) && follows(s1, e1, s2) && asks(s2, a2) {
        lemma_each_once(a2->TaskSuspend_awaited_ids@, r);
    }
}

/// Whether `ids` are the ids that the actions await, each once, in the order in which
/// they first occur.
pub open spec fn awaits_each_once(
    ids: Seq<&str>,
    actions: Seq<PromiseRegisterCallbackData>,
) -> bool {
    &&& forall|i: int, j: int|
        0 <= i < j < ids.len() ==> (#[trigger] ids[i])@ != (#[trigger] ids[j])@
    &&& forall|k: int| 0 <= k < actions.len() ==> listed(ids, (#[trigger] actions[k]).awaited@)
    &&& forall|i: int| 0 <= i < ids.len() ==> awaited(actions, (#[trigger] ids[i])@)
    &&& forall|i: int, j: int, k: int, l: int|
        0 <= i < j < ids.len() && #[trigger] first_at(actions, k, ids[i]@) && #[trigger] first_at(
            actions,
            l,
            ids[j]@,
        ) ==> k < l
}

/// Whether `id` is one of `ids`.
pub open spec fn listed(ids: Seq<&str>, id: Seq<char>) -> bool {
    exists|i: int| 0 <= i < ids.len() && (#[trigger] ids[i])@ == id
}

/// Whether one of the actions awaits `id`.
pub open spec fn awaited(actions: Seq<PromiseRegisterCallbackData>, id: Seq<char>) -> bool {
    exists|k: int| #[trigger] first_at(actions, k, id)
}

/// Whether the action at `k` is the first that awaits `id`.
pub open spec fn first_at(
    actions: Seq<PromiseRegisterCallbackData>,
    k: int,
    id: Seq<char>,
) -> bool {
    &&& 0 <= k < actions.len()
    &&& actions[k].awaited@ == id
    &&& forall|m: int| 0 <= m < k ==> (#[trigger] actions[m]).awaited@ != id
}

/// Whether the text at `k` is the first occurrence of `id`.
spec fn first_text(texts: Seq<Seq<char>>, k: int, id: Seq<char>) -> bool {
    &&& 0 <= k < texts.len()
    &&& texts[k] == id
    &&& forall|m: int| 0 <= m < k ==> #[trigger] texts[m] != id
}

/// Whether `id` occurs among `texts`.
spec fn occurs(texts: Seq<Seq<char>>, id: Seq<char>) -> bool {
    exists|k: int| #[trigger] first_text(texts, k, id)
}

/// What is left by deduplication stands in the order of first occurrence.
proof fn lemma_unique_order(texts: Seq<Seq<char>>)
    ensures
        forall|i: int| 0 <= i < unique(texts).len() ==> occurs(texts, #[trigger] unique(texts)[i]),
        forall|i: int, j: int, k: int, l: int|
            0 <= i < j < unique(texts).len() && #[trigger] first_text(texts, k, unique(texts)[i])
                && #[trigger] first_text(texts, l, unique(texts)[j]) ==> k < l,
    decreases texts.len(),
{
    if texts.len() > 0 {
        let before = texts.drop_last();
        let last = texts.last();
        let u = unique(before);
        lemma_unique_order(before);
        lemma_unique(before);
        assert forall|id: Seq<char>, k: int| first_text(before, k, id) implies #[trigger] first_text(
            texts,
            k,
            id,
        ) by {
            assert forall|m: int| 0 <= m < k implies #[trigger] texts[m] != id by {
                assert(before[m] == texts[m]);
            }
        }
        assert forall|id: Seq<char>, k: int| #[trigger] first_text(texts, k, id) && before.contains(
            id,
        ) implies first_text(before, k, id) by {
            let m = choose|m: int| 0 <= m < before.len() && before[m] == id;
            assert(texts[m] == id);
            assert forall|n: int| 0 <= n < k implies #[trigger] before[n] != id by {
                assert(texts[n] == before[n]);
            }
        }
        assert forall|i: int| 0 <= i < unique(texts).len() implies occurs(
            texts,
            #[trigger] unique(texts)[i],
        ) by {
            if i < u.len() {
                assert(unique(texts)[i] == u[i]);
                assert(occurs(before, u[i]));
                let k = choose|k: int| first_text(before, k, u[i]);
                assert(first_text(texts, k, u[i]));
            } else {
                assert forall|m: int| 0 <= m < before.len() implies #[trigger] texts[m] != last by {
                    assert(before[m] == texts[m]);
                    assert(before.contains(before[m]));
                }
                assert(first_text(texts, before.len() as int, last));
            }
        }
        assert forall|i: int, j: int, k: int, l: int|
            0 <= i < j < unique(texts).len() && #[trigger] first_text(texts, k, unique(texts)[i])
                && #[trigger] first_text(texts, l, unique(texts)[j]) implies k < l by {
            assert(unique(texts)[i] == u[i]);
            assert(u.contains(u[i]));
            assert(before.contains(u[i]));
            assert(first_text(before, k, u[i]));
            if j < u.len() {
                assert(unique(texts)[j] == u[j]);
                assert(u.contains(u[j]));
                assert(before.contains(u[j]));
                assert(first_text(before, l, u[j]));
            } else {
                if l < before.len() {
                    assert(before[l] == last);
                    assert(before.contains(last));
                }
            }
        }
    }
}

/// Deduplication of what a task awaits keeps each id once, in order.
proof fn lemma_each_once(ids: Seq<&str>, r: TaskSuspendData)
    requires
        texts_of(ids) == unique(awaited_ids(r)),
    ensures
        awaits_each_once(ids, r.actions@),
{
    let all = awaited_ids(r);
    let actions = r.actions@;
    let u = unique(all);
    lemma_unique(all);
    lemma_unique_order(all);
    assert(u.len() == ids.len());
    assert forall|i: int| 0 <= i < ids.len() implies u[i] == (#[trigger] ids[i])@ by {
        assert(texts_of(ids)[i] == ids[i]@);
    }
    assert forall|i: int, j: int| 0 <= i < j < ids.len() implies (#[trigger] ids[i])@ != (
    #[trigger] ids[j])@ by {
        assert(u[i] != u[j]);
    }
    assert forall|k: int| 0 <= k < actions.len() implies listed(
        ids,
        (#[trigger] actions[k]).awaited@,
    ) by {
        assert(all[k] == actions[k].awaited@);
        assert(all.contains(all[k]));
        assert(u.contains(all[k]));
        let i = choose|i: int| 0 <= i < u.len() && u[i] == all[k];
        assert(ids[i]@ == actions[k].awaited@);
    }
    assert forall|k: int, id: Seq<char>| #[trigger] first_at(actions, k, id) implies first_text(
        all,
        k,
        id,
    ) by {
        assert(all[k] == actions[k].awaited@);
        assert forall|m: int| 0 <= m < k implies #[trigger] all[m] != id by {
            assert(actions[m].awaited@ != id);
        }
    }
    assert forall|k: int, id: Seq<char>| #[trigger] first_text(all, k, id) implies first_at(
        actions,
        k,
        id,
    ) by {
        assert(all[k] == actions[k].awaited@);
        assert forall|m: int| 0 <= m < k implies (#[trigger] actions[m]).awaited@ != id by {
            assert(all[m] != id);
        }
    }
    assert forall|i: int| 0 <= i < ids.len() implies awaited(actions, (#[trigger] ids[i])@) by {
        assert(occurs(all, u[i]));
        let k = choose|k: int| first_text(all, k, u[i]);
        assert(first_at(actions, k, ids[i]@));
    }
    assert forall|i: int, j: int, k: int, l: int|
        0 <= i < j < ids.len() && #[trigger] first_at(actions, k, ids[i]@) && #[trigger] first_at(
            actions,
            l,
            ids[j]@,
        ) implies k < l by {
        assert(first_text(all, k, u[i]));
        assert(first_text(all, l, u[j]));
    }
}

// task.fence

/// Whether the response to a fence carries the response to the fenced action.
pub open spec fn answers_fence(
    out: Step,
    t: Ticket,
    r: TaskFenceData,
    promise: Option<PromiseRecord>,
    preload: Seq<PromiseRecord>,
) -> bool {
    &&& responds(out, t, 200)
    &&& out->Done_0.data matches ResponseData::TaskFence { action, preload: l }
    &&& l@ == preload
    &&& action.kind@ == r.action.kind@
    &&& action.head.corr_id@ == t.head.corr_id@
    &&& action.head.version@ == "2026-04-01"@
    &&& match promise {
        Some(p) => action.head.status == 200 && action.data == ActionData::Promise(p),
        None => action.head.status == 404 && (action.data matches ActionData::Text(m) && m@
            == "Promise not found"@),
    }
}

/// `task.fence` settles what has timed out, locks the task, and has the action decoded as
/// the kind that it names; other kinds and bad data are refused.
pub proof fn lemma_task_fence(
    t: Ticket,
    r: TaskFenceData,
    s0: Step,
    a0: Action,
    e0: Event,
    s1: Step,
    a1: Action,
    e1: Event,
    s2: Step,
    a2: Action,
    e2: Event,
    s3: Step,
)
    requires
        begins(t, RequestData::TaskFence(r), s0),
    ensures
        s0 is Wait,
        asks(s0, a0) ==> settles(
            a0,
            seq![
                r.id@,
                match r.action.data.tree().field("id"@) {
                    Some(JsonTree::Text(id)) => id,
                    _ => Seq::empty(),
                },
            ],
            t.now,
        ),
        takes(s0, e0) <==> e0 is Done,
        follows(s0, e0, s1) ==> {
            &&& s1 is Wait
            &&& asks(s1, a1) ==> (a1 matches Action::LockForUpdate { id } && id@ == r.id@)
            &&& takes(s1, e1) <==> e1 is Locked
            &&& follows(s1, e1, s2) ==> {
                let creates = r.action.kind@ == "promise.create"@;
                let settling = r.action.kind@ == "promise.settle"@;
                &&& s2 is Wait <==> creates || settling
                &&& s2 is Done ==> refuses(s2, t, 400, "Invalid fence action kind"@)
                &&& asks(s2, a2) ==> {
                    &&& a2 matches Action::Decode { route, data }
                    &&& *data == r.action.data
                    &&& route == Route::PromiseCreate <==> creates
                    &&& route == Route::PromiseSettle <==> settling
                }
                &&& takes(s2, e2) <==> s2 is Wait && (e2 matches Event::Decoded(d) && (
                d matches Decoded::Valid(x) ==> if creates {
                    x is PromiseCreate
                } else {
                    x is PromiseSettle
                }))
                &&& follows(s2, e2, s3) ==> {
                    &&& e2 matches Event::Decoded(Decoded::Malformed(m)) ==> refuses(
                        s3,
                        t,
                        400,
                        "Invalid action data: "@ + m@,
                    )
                    &&& e2 matches Event::Decoded(Decoded::Invalid(m)) ==> refuses(s3, t, 400, m@)
                }
            }
        },
{
    reveal_strlit("");
    assert(""@ =~= Seq::<char>::empty());
    reveal_strlit("promise.create");
    reveal_strlit("promise.settle");
    assert("promise.create"@[8] == 'c' && "promise.settle"@[8] == 's');
    if asks(s0, a0) {
        lemma_settles(
            a0,
            seq![r.id@, fenced_id(r.action.data.tree())],
            t.now,
        );
    }
}

/// A fenced `promise.create` is refused where a plain one would be. Otherwise the storage
/// is asked to create the very promise of the action, provided that the task is held at
/// the version of the fence; the answer carries the promise that it reports. A task that
/// is missing or not held at the version is refused.
pub proof fn lemma_task_fence_creates(
    t: Ticket,
    r: TaskFenceData,
    s0: Step,
    e0: Event,
    s1: Step,
    e1: Event,
    s2: Step,
    c: PromiseCreateData,
    s3: Step,
    a3: Action,
    e3: Event,
    s4: Step,
    a4: Action,
    e4: Event,
    s5: Step,
)
    requires
        begins(t, RequestData::TaskFence(r), s0),
        follows(s0, e0, s1),
        follows(s1, e1, s2),
        r.action.kind@ == "promise.create"@,
        follows(s2, Event::Decoded(Decoded::Valid(RequestData::PromiseCreate(c))), s3),
    ensures
        s3 is Wait <==> deliverable(c.tags) && lineal(c.id@, c.tags),
        !deliverable(c.tags) ==> refuses(s3, t, 400, "Invalid resonate:target address"@),
        !lineal(c.id@, c.tags) ==> responds(s3, t, 400),
        asks(s3, a3) ==> {
            &&& a3 matches Action::TaskFenceCreate(p)
            &&& p.task_id@ == r.id@
            &&& p.version == r.version
            &&& p.promise_id@ == c.id@
            &&& passed_map(p.param_headers, c.param.headers)
            &&& passed(p.param_data, c.param.data)
            &&& p.tags@ == map_json(c.tags@)
            &&& p.timeout_at == c.timeout_at
            &&& born(
                c.tags,
                c.timeout_at,
                t.now,
                p.state@,
                p.created_at,
                p.settled_at,
                p.already_timedout,
            )
            &&& passed_target(p.address, c.tags)
        },
        takes(s3, e3) <==> s3 is Wait && (e3 matches Event::TaskFenced(x) && (x.task_exists
            && x.fence_ok ==> x.promise is Some)),
        follows(s3, e3, s4) ==> {
            let x = e3->TaskFenced_0;
            if !x.task_exists {
                refuses(s4, t, 404, "Task not found"@)
            } else if !x.fence_ok {
                refuses(s4, t, 409, "Version mismatch"@)
            } else {
                &&& s4 is Wait
                &&& asks(s4, a4) ==> (a4 matches Action::ComputePreload { id } && id@ == r.id@)
                &&& takes(s4, e4) <==> e4 is Promises
                &&& follows(s4, e4, s5) ==> answers_fence(s5, t, r, x.promise, e4->Promises_0@)
            }
        },
{
    reveal_strlit("promise.create");
    reveal_strlit("promise.settle");
    assert("promise.create"@[8] == 'c' && "promise.settle"@[8] == 's');
}

/// A fenced `promise.settle` asks the storage to settle the promise of the action in the
/// state, and with the value, that was requested, provided that the task is held at the
/// version of the fence. The answer carries the promise that it reports, or, where there
/// is none, that the action alone failed.
pub proof fn lemma_task_fence_settles(
    t: Ticket,
    r: TaskFenceData,
    s0: Step,
    e0: Event,
    s1: Step,
    e1: Event,
    s2: Step,
    c: PromiseSettleData,
    s3: Step,
    a3: Action,
    e3: Event,
    s4: Step,
    a4: Action,
    e4: Event,
    s5: Step,
)
    requires
        begins(t, RequestData::TaskFence(r), s0),
        follows(s0, e0, s1),
        follows(s1, e1, s2),
        r.action.kind@ == "promise.settle"@,
        follows(s2, Event::Decoded(Decoded::Valid(RequestData::PromiseSettle(c))), s3),
    ensures
        s3 is Wait,
        asks(s3, a3) ==> {
            &&& a3 matches Action::TaskFenceSettle(p)
            &&& p.task_id@ == r.id@
            &&& p.version == r.version
            &&& p.promise_id@ == c.id@
            &&& settled_as(p.state@, c.state)
            &&& passed_map(p.value_headers, c.value.headers)
            &&& passed(p.value_data, c.value.data)
            &&& p.settled_at == t.now
        },
        takes(s3, e3) <==> (e3 matches Event::TaskFenced(x) && (x.task_exists && x.fence_ok ==> (
        x.promise matches Some(p) ==> p.state != PromiseState::Pending))),
        follows(s3, e3, s4) ==> {
            let x = e3->TaskFenced_0;
            if !x.task_exists {
                refuses(s4, t, 404, "Task not found"@)
            } else if !x.fence_ok {
                refuses(s4, t, 409, "Version mismatch"@)
            } else {
                &&& s4 is Wait
                &&& asks(s4, a4) ==> (a4 matches Action::ComputePreload { id } && id@ == r.id@)
                &&& takes(s4, e4) <==> e4 is Promises
                &&& follows(s4, e4, s5) ==> answers_fence(s5, t, r, x.promise, e4->Promises_0@)
            }
        },
{
    lemma_settled_as(c.state);
    reveal_strlit("promise.create");
    reveal_strlit("promise.settle");
    assert("promise.create"@[8] == 'c' && "promise.settle"@[8] == 's');
}

/// A promise created through a fence is the one that a plain `promise.create` of the same
/// data at the same time creates.
pub proof fn lemma_fence_creates_the_same_promise(
    t: Ticket,
    r: TaskFenceData,
    s0: Step,
    e0: Event,
    s1: Step,
    e1: Event,
    s2: Step,
    c: PromiseCreateData,
    s3: Step,
    fenced: Action,
    u: Ticket,
    p0: Step,
    d0: Event,
    p1: Step,
    plain: Action,
)
    requires
        begins(t, RequestData::TaskFence(r), s0),
        follows(s0, e0, s1),
        follows(s1, e1, s2),
        r.action.kind@ == "promise.create"@,
        follows(s2, Event::Decoded(Decoded::Valid(RequestData::PromiseCreate(c))), s3),
        asks(s3, fenced),
        u.now == t.now,
        begins(u, RequestData::PromiseCreate(c), p0),
        follows(p0, d0, p1),
        asks(p1, plain),
    ensures
        fenced is TaskFenceCreate,
        plain is PromiseCreate,
        ({
            let f = fenced->TaskFenceCreate_0;
            let p = plain->PromiseCreate_0;
            &&& f.promise_id@ == p.id@
            &&& f.state@ == p.state@
            &&& f.param_headers is Some <==> p.param_headers is Some
            &&& f.param_headers is Some ==> f.param_headers->Some_0@ == p.param_headers->Some_0@
            &&& f.param_data is Some <==> p.param_data is Some
            &&& f.param_data is Some ==> f.param_data->Some_0@ == p.param_data->Some_0@
            &&& f.tags@ == p.tags@
            &&& f.timeout_at == p.timeout_at
            &&& f.created_at == p.created_at
            &&& f.settled_at == p.settled_at
            &&& f.already_timedout == p.already_timedout
            &&& f.address is Some <==> p.address is Some
            &&& f.address is Some ==> f.address->Some_0@ == p.address->Some_0@
            &&& f.state@ == "pending"@ ==> f.timeout_at > t.now
        }),
{
    lemma_task_fence_creates(t, r, s0, e0, s1, e1, s2, c, s3, fenced, e0, s3, fenced, e0, s3);
    lemma_promise_create(u, c, p0, plain, d0, p1, plain, d0, p1);
    reveal_strlit("pending");
    reveal_strlit("resolved");
    reveal_strlit("rejected_timedout");
    assert("pending"@[0] == 'p' && "resolved"@[0] == 'r' && "rejected_timedout"@[0] == 'r');
}

// The rest

/// `task.heartbeat` asks the storage to extend the leases of the very tasks that the
/// worker names, in order, and answers with nothing.
pub proof fn lemma_task_heartbeat(
    t: Ticket,
    r: TaskHeartbeatData,
    s0: Step,
    a0: Action,
    e0: Event,
    s1: Step,
)
    requires
        begins(t, RequestData::TaskHeartbeat(r), s0),
    ensures
        s0 is Wait,
        asks(s0, a0) ==> {
            &&& a0 matches Action::TaskHeartbeat { pid, tasks, time }
            &&& pid@ == r.pid@
            &&& time == t.now
            &&& tasks@.len() == r.tasks@.len()
            &&& forall|i: int|
                0 <= i < tasks@.len() ==> (#[trigger] tasks@[i]).0@ == r.tasks@[i].id@
                    && tasks@[i].1 == r.tasks@[i].version
        },
        takes(s0, e0) <==> e0 is Done,
        follows(s0, e0, s1) ==> replies(s1, t, 200, ResponseData::Empty),
{
}

/// `task.halt` asks the storage to halt the task; one that is missing or over is refused.
pub proof fn lemma_task_halt(
    t: Ticket,
    r: TaskHaltData,
    s0: Step,
    a0: Action,
    e0: Event,
    s1: Step,
    a1: Action,
    e1: Event,
    s2: Step,
)
    requires
        begins(t, RequestData::TaskHalt(r), s0),
    ensures
        s0 is Wait,
        asks(s0, a0) ==> settles(a0, seq![r.id@], t.now),
        takes(s0, e0) <==> e0 is Done,
        follows(s0, e0, s1) ==> {
            &&& s1 is Wait
            &&& asks(s1, a1) ==> (a1 matches Action::TaskHalt { id } && id@ == r.id@)
            &&& takes(s1, e1) <==> e1 is TaskHalted
            &&& follows(s1, e1, s2) ==> {
                let x = e1->TaskHalted_0;
                if !x.task_exists {
                    refuses(s2, t, 404, "Task not found"@)
                } else if x.task_fulfilled {
                    refuses(s2, t, 409, "Task is fulfilled"@)
                } else {
                    replies(s2, t, 200, ResponseData::Empty)
                }
            }
        },
{
    if asks(s0, a0) {
        lemma_settles(a0, seq![r.id@], t.now);
    }
}

/// `task.continue` asks the storage to let the task go on from now; one that is missing
/// or not halted is refused.
pub proof fn lemma_task_continue(
    t: Ticket,
    r: TaskContinueData,
    s0: Step,
    a0: Action,
    e0: Event,
    s1: Step,
    a1: Action,
    e1: Event,
    s2: Step,
)
    requires
        begins(t, RequestData::TaskContinue(r), s0),
    ensures
        s0 is Wait,
        asks(s0, a0) ==> settles(a0, seq![r.id@], t.now),
        takes(s0, e0) <==> e0 is Done,
        follows(s0, e0, s1) ==> {
            &&& s1 is Wait
            &&& asks(s1, a1) ==> (a1 matches Action::TaskContinue { id, time } && id@ == r.id@
                && time == t.now)
            &&& takes(s1, e1) <==> e1 is TaskContinued
            &&& follows(s1, e1, s2) ==> {
                let x = e1->TaskContinued_0;
                if !x.task_exists {
                    refuses(s2, t, 404, "Task not found"@)
                } else if x.continued {
                    replies(s2, t, 200, ResponseData::Empty)
                } else {
                    refuses(s2, t, 409, "Task is not halted"@)
                }
            }
        },
{
    if asks(s0, a0) {
        lemma_settles(a0, seq![r.id@], t.now);
    }
}

/// `task.search` pages through tasks as `promise.search` does through promises.
pub proof fn lemma_task_search(
    t: Ticket,
    r: TaskSearchData,
    s0: Step,
    a0: Action,
    e0: Event,
    s1: Step,
)
    requires
        begins(t, RequestData::TaskSearch(r), s0),
    ensures
        s0 is Wait <==> !(r.limit matches Some(n) && n > 1000),
        s0 is Done ==> refuses(s0, t, 400, "Invalid 'limit' — must be between 1 and 1000"@),
        ({
            let limit: int = match r.limit {
                Some(n) => n as int,
                None => 100,
            };
            &&& asks(s0, a0) ==> {
                &&& a0 matches Action::TaskSearch { state, cursor, limit: given }
                &&& match (state, r.state) {
                    (Some(word), Some(s)) => word@ == task_word(s),
                    (None, None) => true,
                    _ => false,
                }
                &&& passed(cursor, r.cursor)
                &&& given == limit + 1
            }
            &&& takes(s0, e0) <==> s0 is Wait && e0 is Tasks
            &&& follows(s0, e0, s1) ==> {
                let found = e0->Tasks_0@;
                &&& responds(s1, t, 200)
                &&& s1->Done_0.data matches ResponseData::Tasks { tasks, cursor }
                &&& first_of(tasks@, found, limit)
                &&& cursor is Some <==> found.len() > limit && tasks@.len() > 0
                &&& cursor matches Some(c) ==> c == tasks@[tasks@.len() - 1].id
            }
        }),
{
}

/// Two requests to create a task whose arguments differ lead to calls that differ in them:
/// where the storage is handed the same argument, the same one was sent.
pub proof fn lemma_arguments_are_told_apart(
    t: Ticket,
    r: TaskCreateData,
    s0: Step,
    e0: Event,
    s1: Step,
    e1: Event,
    s2: Step,
    a: Action,
    u: Ticket,
    q: TaskCreateData,
    z0: Step,
    d0: Event,
    z1: Step,
    d1: Event,
    z2: Step,
    b: Action,
)
    requires
        begins(t, RequestData::TaskCreate(r), s0),
        follows(s0, e0, s1),
        follows(s1, e1, s2),
        asks(s2, a),
        begins(u, RequestData::TaskCreate(q), z0),
        follows(z0, d0, z1),
        follows(z1, d1, z2),
        asks(z2, b),
    ensures
        a is TaskCreate,
        b is TaskCreate,
        a->TaskCreate_0.param_data is Some <==> r.action.param.data is Some,
        b->TaskCreate_0.param_data is Some <==> q.action.param.data is Some,
        r.action.param.data is Some && q.action.param.data is Some ==> (
        a->TaskCreate_0.param_data->Some_0@ == b->TaskCreate_0.param_data->Some_0@
            <==> r.action.param.data->Some_0@ == q.action.param.data->Some_0@),
        a->TaskCreate_0.timeout_at == b->TaskCreate_0.timeout_at <==> r.action.timeout_at
            == q.action.timeout_at,
{
    lemma_task_create(t, r, s0, a, e0, s1, a, e1, s2, a, e1, s2, a, e1, s2);
    lemma_task_create(u, q, z0, b, d0, z1, b, d1, z2, b, d1, z2, b, d1, z2);
}

} // verus!
