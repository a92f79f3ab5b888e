//! The server: which operation a request asks for, and how its steps follow from
//! each other.
use vstd::prelude::*;
use vstd::string::*;

use super::address::destination_of;
use super::persistence::StorageError;
use super::processing::{process_all_timeouts, TimeoutRun, TimeoutStage};
use super::promise_ops::{
    callback_begins, create_begins, listener_begins, op_promise_create, op_promise_get,
    op_promise_register_callback, op_promise_register_listener, op_promise_search,
    op_promise_settle, promise_search_begins, target_routable, PromiseGetWait, PromiseSettleWait,
};
use super::schedule_ops::{
    op_schedule_create, op_schedule_delete, op_schedule_get, op_schedule_search,
    schedule_search_begins, ScheduleCreateWait, ScheduleDeleteWait, ScheduleGetWait,
};
use super::steps::{
    Action, Decoded, Event, Head, Pending, RequestData, Route, Step, Ticket, Wait,
};
use super::task_ops::{
    op_task_acquire, op_task_continue, op_task_create, op_task_fence, op_task_fulfill,
    op_task_get, op_task_halt, op_task_heartbeat, op_task_release, op_task_search,
    op_task_suspend, suspend_begins, task_create_begins, task_search_begins, TaskAcquireWait, TaskContinueWait,
    TaskFenceWait, TaskFulfillWait, TaskGetWait, TaskHaltWait, TaskHeartbeatWait,
    TaskReleaseWait,
};
use super::types::{RequestEnvelope, ResponseData, ResponseEnvelope};
use crate::json::{Json, JsonTree};
use crate::text::{joined, same_text};

verus! {

// Configuration

/// The configuration of the server.
#[derive(Debug, Clone)]
pub struct Config {
    /// Enable debug operations (`debug.*` request kinds).
    pub debug: bool,
    pub tasks: TasksConfig,
    pub timeouts: TimeoutsConfig,
    pub messages: MessagesConfig,
    pub server: ServerConfig,
}

#[derive(Debug, Clone)]
pub struct TasksConfig {
    /// Default pending task retry timeout (ms).
    pub retry_timeout: i64,
}

#[derive(Debug, Clone)]
pub struct TimeoutsConfig {
    /// Background timeout scan interval (ms).
    pub poll_interval: u64,
}

#[derive(Debug, Clone)]
pub struct MessagesConfig {
    /// Background message delivery scan interval (ms).
    pub poll_interval: u64,
    /// Max messages to claim per delivery cycle.
    pub batch_size: i64,
}

#[derive(Debug, Clone)]
pub struct ServerConfig {
    /// External server URL included in outgoing `execute` message heads.
    pub url: Option<String>,
}

impl Config {
    /// Whether this is the default configuration.
    pub open spec fn is_default(self) -> bool {
        &&& !self.debug
        &&& self.tasks.retry_timeout == 30_000
        &&& self.timeouts.poll_interval == 1_000
        &&& self.messages.poll_interval == 100
        &&& self.messages.batch_size == 100
        &&& self.server.url is None
    }
}

impl Default for Config {
    fn default() -> (config: Config)
        ensures
            config.is_default(),
    {
        Config {
            debug: false,
            tasks: TasksConfig { retry_timeout: 30_000 },
            timeouts: TimeoutsConfig { poll_interval: 1_000 },
            messages: MessagesConfig { poll_interval: 100, batch_size: 100 },
            server: ServerConfig { url: None },
        }
    }
}

/// The running server: its configuration, its storage, and whether debug mode is
/// on, in which the background loops pause.
pub struct Server<S> {
    pub config: Config,
    pub storage: S,
    pub debug_mode: bool,
}

impl<S> Server<S> {
    pub fn new(config: Config, storage: S) -> (server: Server<S>)
        ensures
            server == (Server { config, storage, debug_mode: false }),
    {
        Server { config, storage, debug_mode: false }
    }
}

// Routing

impl Route {
    /// The request kind that asks for this operation.
    pub open spec fn name(self) -> Seq<char> {
        match self {
            Route::PromiseGet => "promise.get"@,
            Route::PromiseCreate => "promise.create"@,
            Route::PromiseSettle => "promise.settle"@,
            Route::PromiseRegisterCallback => "promise.register_callback"@,
            Route::PromiseRegisterListener => "promise.register_listener"@,
            Route::PromiseSearch => "promise.search"@,
            Route::TaskGet => "task.get"@,
            Route::TaskCreate => "task.create"@,
            Route::TaskAcquire => "task.acquire"@,
            Route::TaskRelease => "task.release"@,
            Route::TaskFulfill => "task.fulfill"@,
            Route::TaskSuspend => "task.suspend"@,
            Route::TaskFence => "task.fence"@,
            Route::TaskHeartbeat => "task.heartbeat"@,
            Route::TaskHalt => "task.halt"@,
            Route::TaskContinue => "task.continue"@,
            Route::TaskSearch => "task.search"@,
            Route::ScheduleGet => "schedule.get"@,
            Route::ScheduleCreate => "schedule.create"@,
            Route::ScheduleDelete => "schedule.delete"@,
            Route::ScheduleSearch => "schedule.search"@,
            Route::DebugStart => "debug.start"@,
            Route::DebugStop => "debug.stop"@,
            Route::DebugReset => "debug.reset"@,
            Route::DebugSnap => "debug.snap"@,
            Route::DebugTick => "debug.tick"@,
        }
    }

    /// Whether this operation is one of the debug operations.
    pub open spec fn is_debug(self) -> bool {
        self is DebugStart || self is DebugStop || self is DebugReset || self is DebugSnap
            || self is DebugTick
    }

    /// Whether this operation is one of the debug operations.
    pub fn debugs(self) -> (debug: bool)
        ensures
            debug == self.is_debug(),
    {
        match self {
            Route::DebugStart | Route::DebugStop | Route::DebugReset | Route::DebugSnap
            | Route::DebugTick => true,
            _ => false,
        }
    }
}

/// The operation that a request kind asks for.
pub open spec fn route_named(kind: Seq<char>) -> Option<Route> {
    if kind == "promise.get"@ {
        Some(Route::PromiseGet)
    } else if kind == "promise.create"@ {
        Some(Route::PromiseCreate)
    } else if kind == "promise.settle"@ {
        Some(Route::PromiseSettle)
    } else if kind == "promise.register_callback"@ {
        Some(Route::PromiseRegisterCallback)
    } else if kind == "promise.register_listener"@ {
        Some(Route::PromiseRegisterListener)
    } else if kind == "promise.search"@ {
        Some(Route::PromiseSearch)
    } else if kind == "task.get"@ {
        Some(Route::TaskGet)
    } else if kind == "task.create"@ {
        Some(Route::TaskCreate)
    } else if kind == "task.acquire"@ {
        Some(Route::TaskAcquire)
    } else if kind == "task.release"@ {
        Some(Route::TaskRelease)
    } else if kind == "task.fulfill"@ {
        Some(Route::TaskFulfill)
    } else if kind == "task.suspend"@ {
        Some(Route::TaskSuspend)
    } else if kind == "task.fence"@ {
        Some(Route::TaskFence)
    } else if kind == "task.heartbeat"@ {
        Some(Route::TaskHeartbeat)
    } else if kind == "task.halt"@ {
        Some(Route::TaskHalt)
    } else if kind == "task.continue"@ {
        Some(Route::TaskContinue)
    } else if kind == "task.search"@ {
        Some(Route::TaskSearch)
    } else if kind == "schedule.get"@ {
        Some(Route::ScheduleGet)
    } else if kind == "schedule.create"@ {
        Some(Route::ScheduleCreate)
    } else if kind == "schedule.delete"@ {
        Some(Route::ScheduleDelete)
    } else if kind == "schedule.search"@ {
        Some(Route::ScheduleSearch)
    } else if kind == "debug.start"@ {
        Some(Route::DebugStart)
    } else if kind == "debug.stop"@ {
        Some(Route::DebugStop)
    } else if kind == "debug.reset"@ {
        Some(Route::DebugReset)
    } else if kind == "debug.snap"@ {
        Some(Route::DebugSnap)
    } else if kind == "debug.tick"@ {
        Some(Route::DebugTick)
    } else {
        None
    }
}

/// The operation that a request kind asks for.
pub fn route_of(kind: &str) -> (route: Option<Route>)
    ensures
        route == route_named(kind@),
{
    if same_text(kind, "promise.get") {
        Some(Route::PromiseGet)
    } else if same_text(kind, "promise.create") {
        Some(Route::PromiseCreate)
    } else if same_text(kind, "promise.settle") {
        Some(Route::PromiseSettle)
    } else if same_text(kind, "promise.register_callback") {
        Some(Route::PromiseRegisterCallback)
    } else if same_text(kind, "promise.register_listener") {
        Some(Route::PromiseRegisterListener)
    } else if same_text(kind, "promise.search") {
        Some(Route::PromiseSearch)
    } else if same_text(kind, "task.get") {
        Some(Route::TaskGet)
    } else if same_text(kind, "task.create") {
        Some(Route::TaskCreate)
    } else if same_text(kind, "task.acquire") {
        Some(Route::TaskAcquire)
    } else if same_text(kind, "task.release") {
        Some(Route::TaskRelease)
    } else if same_text(kind, "task.fulfill") {
        Some(Route::TaskFulfill)
    } else if same_text(kind, "task.suspend") {
        Some(Route::TaskSuspend)
    } else if same_text(kind, "task.fence") {
        Some(Route::TaskFence)
    } else if same_text(kind, "task.heartbeat") {
        Some(Route::TaskHeartbeat)
    } else if same_text(kind, "task.halt") {
        Some(Route::TaskHalt)
    } else if same_text(kind, "task.continue") {
        Some(Route::TaskContinue)
    } else if same_text(kind, "task.search") {
        Some(Route::TaskSearch)
    } else if same_text(kind, "schedule.get") {
        Some(Route::ScheduleGet)
    } else if same_text(kind, "schedule.create") {
        Some(Route::ScheduleCreate)
    } else if same_text(kind, "schedule.delete") {
        Some(Route::ScheduleDelete)
    } else if same_text(kind, "schedule.search") {
        Some(Route::ScheduleSearch)
    } else if same_text(kind, "debug.start") {
        Some(Route::DebugStart)
    } else if same_text(kind, "debug.stop") {
        Some(Route::DebugStop)
    } else if same_text(kind, "debug.reset") {
        Some(Route::DebugReset)
    } else if same_text(kind, "debug.snap") {
        Some(Route::DebugSnap)
    } else if same_text(kind, "debug.tick") {
        Some(Route::DebugTick)
    } else {
        None
    }
}

/// What a request carries through its steps.
pub open spec fn ticket_of(
    req: RequestEnvelope,
    route: Route,
    now: i64,
    retry_timeout: i64,
) -> Ticket {
    Ticket {
        head: Head { kind: req.kind, corr_id: req.head.corr_id },
        route,
        now,
        retry_timeout,
    }
}

/// The first step of a request.
pub open spec fn dispatched(config: Config, req: RequestEnvelope, now: i64, out: Step) -> bool {
    match route_named(req.kind@) {
        None => {
            &&& out matches Step::Done(r)
            &&& r.is_headed(req.kind@, req.head.corr_id@, 400)
            &&& r.data matches ResponseData::Text(m)
            &&& m@ == "Unknown operation: "@ + req.kind@
        },
        Some(route) => {
            let t = ticket_of(req, route, now, config.tasks.retry_timeout);
            if route.is_debug() && !config.debug {
                out.is_error(t, 403, "Debug operations are disabled"@)
            } else {
                match route {
                    Route::DebugStart => out.is_reply(t, 200, ResponseData::Empty),
                    Route::DebugStop => out.is_reply(t, 200, ResponseData::Empty),
                    Route::DebugReset => out.waits(t, Wait::Reset),
                    Route::DebugSnap => out.waits(t, Wait::Snap),
                    Route::DebugTick => match req.data.tree().field("time"@) {
                        Some(JsonTree::Int(time)) => out.waits(
                            t,
                            Wait::Tick(
                                (TimeoutRun { time: time as i64, stage: TimeoutStage::Timeouts }),
                            ),
                        ),
                        _ => out.is_error(t, 400, "Missing or invalid 'time' field"@),
                    },
                    _ => {
                        &&& out matches Step::Wait(p)
                        &&& p.ticket == t
                        &&& p.wait matches Wait::Decode(data)
                        &&& data.tree() == req.data.tree()
                    },
                }
            }
        },
    }
}

/// Whether debug mode is on after a request.
pub open spec fn mode_after(mode: bool, config: Config, kind: Seq<char>) -> bool {
    if !config.debug {
        mode
    } else {
        match route_named(kind) {
            Some(Route::DebugStart) => true,
            Some(Route::DebugStop) => false,
            _ => mode,
        }
    }
}

/// Take a request in: answer it, or say what it waits for.
pub fn dispatch<S>(server: &mut Server<S>, req: &RequestEnvelope, now: i64) -> (out: Step)
    ensures
        dispatched(old(server).config, *req, now, out),
        final(server).debug_mode == mode_after(
            old(server).debug_mode,
            old(server).config,
            req.kind@,
        ),
        final(server).config == old(server).config,
        final(server).storage == old(server).storage,
{
    let route = match route_of(req.kind.as_str()) {
        Some(route) => route,
        None => {
            let message = joined("Unknown operation: ", req.kind.as_str());
            return Step::Done(
                ResponseEnvelope::error(
                    req.kind.clone(),
                    req.head.corr_id.clone(),
                    400,
                    message.as_str(),
                ),
            );
        },
    };
    let t = Ticket {
        head: Head { kind: req.kind.clone(), corr_id: req.head.corr_id.clone() },
        route,
        now,
        retry_timeout: server.config.tasks.retry_timeout,
    };
    if route.debugs() && !server.config.debug {
        return t.error(403, "Debug operations are disabled");
    }
    match route {
        Route::DebugStart => {
            server.debug_mode = true;
            t.success(ResponseData::Empty)
        },
        Route::DebugStop => {
            server.debug_mode = false;
            t.success(ResponseData::Empty)
        },
        Route::DebugReset => t.wait(Wait::Reset),
        Route::DebugSnap => t.wait(Wait::Snap),
        Route::DebugTick => op_debug_tick(t, &req.data),
        _ => t.wait(Wait::Decode(req.data.copy())),
    }
}

/// Process what has timed out at the time that the request names.
fn op_debug_tick(t: Ticket, data: &Json) -> (out: Step)
    ensures
        match data.tree().field("time"@) {
            Some(JsonTree::Int(time)) => out.waits(
                t,
                Wait::Tick((TimeoutRun { time: time as i64, stage: TimeoutStage::Timeouts })),
            ),
            _ => out.is_error(t, 400, "Missing or invalid 'time' field"@),
        },
{
    let time = match data.field("time") {
        Some(value) => value.as_i64(),
        None => None,
    };
    match time {
        Some(time) => t.wait(Wait::Tick(process_all_timeouts(time))),
        None => t.error(400, "Missing or invalid 'time' field"),
    }
}

// Steps

/// Whether a payload is one for the operation `route`.
pub open spec fn fits(route: Route, data: RequestData) -> bool {
    match data {
        RequestData::PromiseGet(_) => route is PromiseGet,
        RequestData::PromiseCreate(_) => route is PromiseCreate,
        RequestData::PromiseSettle(_) => route is PromiseSettle,
        RequestData::PromiseRegisterCallback(_) => route is PromiseRegisterCallback,
        RequestData::PromiseRegisterListener(_) => route is PromiseRegisterListener,
        RequestData::PromiseSearch(_) => route is PromiseSearch,
        RequestData::TaskGet(_) => route is TaskGet,
        RequestData::TaskCreate(_) => route is TaskCreate,
        RequestData::TaskAcquire(_) => route is TaskAcquire,
        RequestData::TaskRelease(_) => route is TaskRelease,
        RequestData::TaskFulfill(_) => route is TaskFulfill,
        RequestData::TaskSuspend(_) => route is TaskSuspend,
        RequestData::TaskFence(_) => route is TaskFence,
        RequestData::TaskHeartbeat(_) => route is TaskHeartbeat,
        RequestData::TaskHalt(_) => route is TaskHalt,
        RequestData::TaskContinue(_) => route is TaskContinue,
        RequestData::TaskSearch(_) => route is TaskSearch,
        RequestData::ScheduleGet(_) => route is ScheduleGet,
        RequestData::ScheduleCreate(_) => route is ScheduleCreate,
        RequestData::ScheduleDelete(_) => route is ScheduleDelete,
        RequestData::ScheduleSearch(_) => route is ScheduleSearch,
    }
}

/// Whether a payload is one for the operation `route`.
pub fn payload_fits(route: Route, data: &RequestData) -> (ok: bool)
    ensures
        ok == fits(route, *data),
{
    match (route, data) {
        (Route::PromiseGet, RequestData::PromiseGet(_)) => true,
        (Route::PromiseCreate, RequestData::PromiseCreate(_)) => true,
        (Route::PromiseSettle, RequestData::PromiseSettle(_)) => true,
        (Route::PromiseRegisterCallback, RequestData::PromiseRegisterCallback(_)) => true,
        (Route::PromiseRegisterListener, RequestData::PromiseRegisterListener(_)) => true,
        (Route::PromiseSearch, RequestData::PromiseSearch(_)) => true,
        (Route::TaskGet, RequestData::TaskGet(_)) => true,
        (Route::TaskCreate, RequestData::TaskCreate(_)) => true,
        (Route::TaskAcquire, RequestData::TaskAcquire(_)) => true,
        (Route::TaskRelease, RequestData::TaskRelease(_)) => true,
        (Route::TaskFulfill, RequestData::TaskFulfill(_)) => true,
        (Route::TaskSuspend, RequestData::TaskSuspend(_)) => true,
        (Route::TaskFence, RequestData::TaskFence(_)) => true,
        (Route::TaskHeartbeat, RequestData::TaskHeartbeat(_)) => true,
        (Route::TaskHalt, RequestData::TaskHalt(_)) => true,
        (Route::TaskContinue, RequestData::TaskContinue(_)) => true,
        (Route::TaskSearch, RequestData::TaskSearch(_)) => true,
        (Route::ScheduleGet, RequestData::ScheduleGet(_)) => true,
        (Route::ScheduleCreate, RequestData::ScheduleCreate(_)) => true,
        (Route::ScheduleDelete, RequestData::ScheduleDelete(_)) => true,
        (Route::ScheduleSearch, RequestData::ScheduleSearch(_)) => true,
        _ => false,
    }
}

/// What follows from a valid payload.
pub open spec fn starts(t: Ticket, data: RequestData, out: Step) -> bool {
    match data {
        RequestData::PromiseGet(r) => out.waits(t, Wait::PromiseGet(PromiseGetWait::Timeout(r))),
        RequestData::PromiseCreate(r) => create_begins(t, r, target_routable(r.tags@), out),
        RequestData::PromiseSettle(r) => out.waits(
            t,
            Wait::PromiseSettle(PromiseSettleWait::Timeout(r)),
        ),
        RequestData::PromiseRegisterCallback(r) => callback_begins(t, r, out),
        RequestData::PromiseRegisterListener(r) => listener_begins(t, r, destination_of(r.address@) is Some, out),
        RequestData::PromiseSearch(r) => promise_search_begins(t, r, out),
        RequestData::TaskGet(r) => out.waits(t, Wait::TaskGet(TaskGetWait::Timeout(r))),
        RequestData::TaskCreate(r) => task_create_begins(t, r, target_routable(r.action.tags@), out),
        RequestData::TaskAcquire(r) => out.waits(t, Wait::TaskAcquire(TaskAcquireWait::Timeout(r))),
        RequestData::TaskRelease(r) => out.waits(t, Wait::TaskRelease(TaskReleaseWait::Timeout(r))),
        RequestData::TaskFulfill(r) => out.waits(t, Wait::TaskFulfill(TaskFulfillWait::Timeout(r))),
        RequestData::TaskSuspend(r) => suspend_begins(t, r, out),
        RequestData::TaskFence(r) => out.waits(t, Wait::TaskFence(TaskFenceWait::Timeout(r))),
        RequestData::TaskHeartbeat(r) => out.waits(
            t,
            Wait::TaskHeartbeat(TaskHeartbeatWait::Store(r)),
        ),
        RequestData::TaskHalt(r) => out.waits(t, Wait::TaskHalt(TaskHaltWait::Timeout(r))),
        RequestData::TaskContinue(r) => out.waits(
            t,
            Wait::TaskContinue(TaskContinueWait::Timeout(r)),
        ),
        RequestData::TaskSearch(r) => task_search_begins(t, r, out),
        RequestData::ScheduleGet(r) => out.waits(t, Wait::ScheduleGet(ScheduleGetWait::Read(r))),
        RequestData::ScheduleCreate(r) => out.waits(
            t,
            Wait::ScheduleCreate(ScheduleCreateWait::Validate(r)),
        ),
        RequestData::ScheduleDelete(r) => out.waits(
            t,
            Wait::ScheduleDelete(ScheduleDeleteWait::Delete(r)),
        ),
        RequestData::ScheduleSearch(r) => schedule_search_begins(t, r, out),
    }
}

/// Start an operation on its payload.
pub fn start(t: Ticket, data: RequestData) -> (out: Step)
    ensures
        starts(t, data, out),
{
    match data {
        RequestData::PromiseGet(r) => op_promise_get(t, r),
        RequestData::PromiseCreate(r) => op_promise_create(t, r),
        RequestData::PromiseSettle(r) => op_promise_settle(t, r),
        RequestData::PromiseRegisterCallback(r) => op_promise_register_callback(t, r),
        RequestData::PromiseRegisterListener(r) => op_promise_register_listener(t, r),
        RequestData::PromiseSearch(r) => op_promise_search(t, r),
        RequestData::TaskGet(r) => op_task_get(t, r),
        RequestData::TaskCreate(r) => op_task_create(t, r),
        RequestData::TaskAcquire(r) => op_task_acquire(t, r),
        RequestData::TaskRelease(r) => op_task_release(t, r),
        RequestData::TaskFulfill(r) => op_task_fulfill(t, r),
        RequestData::TaskSuspend(r) => op_task_suspend(t, r),
        RequestData::TaskFence(r) => op_task_fence(t, r),
        RequestData::TaskHeartbeat(r) => op_task_heartbeat(t, r),
        RequestData::TaskHalt(r) => op_task_halt(t, r),
        RequestData::TaskContinue(r) => op_task_continue(t, r),
        RequestData::TaskSearch(r) => op_task_search(t, r),
        RequestData::ScheduleGet(r) => op_schedule_get(t, r),
        RequestData::ScheduleCreate(r) => op_schedule_create(t, r),
        RequestData::ScheduleDelete(r) => op_schedule_delete(t, r),
        RequestData::ScheduleSearch(r) => op_schedule_search(t, r),
    }
}

/// The status of the response to a request that the storage failed: a conflict may
/// be retried, for nothing was committed; an input that the storage does not take
/// is the fault of the request.
pub open spec fn failure_status(e: StorageError) -> int {
    match e {
        StorageError::Backend(_) => 500,
        StorageError::Serialization => 503,
        StorageError::InvalidInput(_) => 400,
    }
}

/// The message of the response to a request that the storage failed.
pub open spec fn failure_message(route: Route, e: StorageError) -> Seq<char> {
    match (route, e) {
        (Route::DebugReset, _) => "Reset failed: "@ + e.words(),
        (Route::DebugSnap, _) => "Snap failed: "@ + e.words(),
        (Route::DebugTick, _) => "Tick failed: "@ + e.words(),
        (_, StorageError::InvalidInput(m)) => "Invalid request: "@ + m@,
        _ => "Internal error: "@ + e.words(),
    }
}

/// Respond to a request that the storage failed.
pub fn storage_failure(t: Ticket, e: StorageError) -> (out: Step)
    ensures
        out.is_error(t, failure_status(e), failure_message(t.route, e)),
{
    let status: i32 = match &e {
        StorageError::Backend(_) => 500,
        StorageError::Serialization => 503,
        StorageError::InvalidInput(_) => 400,
    };
    let words = e.message();
    let message = match (t.route, &e) {
        (Route::DebugReset, _) => joined("Reset failed: ", words.as_str()),
        (Route::DebugSnap, _) => joined("Snap failed: ", words.as_str()),
        (Route::DebugTick, _) => joined("Tick failed: ", words.as_str()),
        (_, StorageError::InvalidInput(m)) => joined("Invalid request: ", m.as_str()),
        _ => joined("Internal error: ", words.as_str()),
    };
    t.error(status, message.as_str())
}

impl Pending {
    /// The call that is waited for.
    pub open spec fn calls(self, a: Action) -> bool {
        let t = self.ticket;
        match self.wait {
            Wait::Decode(payload) => a matches Action::Decode { route, data } && route == t.route
                && *data == payload,
            Wait::PromiseGet(w) => w.calls(t, a),
            Wait::PromiseCreate(w) => w.calls(t, a),
            Wait::PromiseSettle(w) => w.calls(t, a),
            Wait::PromiseRegisterCallback(w) => w.calls(t, a),
            Wait::PromiseRegisterListener(w) => w.calls(t, a),
            Wait::PromiseSearch(w) => w.calls(t, a),
            Wait::TaskGet(w) => w.calls(t, a),
            Wait::TaskCreate(w) => w.calls(t, a),
            Wait::TaskAcquire(w) => w.calls(t, a),
            Wait::TaskRelease(w) => w.calls(t, a),
            Wait::TaskFulfill(w) => w.calls(t, a),
            Wait::TaskSuspend(w) => w.calls(t, a),
            Wait::TaskFence(w) => w.calls(t, a),
            Wait::TaskHeartbeat(w) => w.calls(t, a),
            Wait::TaskHalt(w) => w.calls(t, a),
            Wait::TaskContinue(w) => w.calls(t, a),
            Wait::TaskSearch(w) => w.calls(t, a),
            Wait::ScheduleGet(w) => w.calls(t, a),
            Wait::ScheduleCreate(w) => w.calls(t, a),
            Wait::ScheduleDelete(w) => w.calls(t, a),
            Wait::ScheduleSearch(w) => w.calls(t, a),
            Wait::Reset => a is DebugReset,
            Wait::Snap => a is Snap,
            Wait::Tick(run) => run.calls(a),
        }
    }

    /// The answers to that call.
    pub open spec fn admits(self, e: Event) -> bool {
        match self.wait {
            Wait::Decode(_) => e matches Event::Decoded(d) && (d matches Decoded::Valid(data)
                ==> fits(self.ticket.route, data)),
            Wait::PromiseGet(w) => w.admits(e),
            Wait::PromiseCreate(w) => w.admits(e),
            Wait::PromiseSettle(w) => w.admits(e),
            Wait::PromiseRegisterCallback(w) => w.admits(e),
            Wait::PromiseRegisterListener(w) => w.admits(e),
            Wait::PromiseSearch(w) => w.admits(e),
            Wait::TaskGet(w) => w.admits(e),
            Wait::TaskCreate(w) => w.admits(e),
            Wait::TaskAcquire(w) => w.admits(e),
            Wait::TaskRelease(w) => w.admits(e),
            Wait::TaskFulfill(w) => w.admits(e),
            Wait::TaskSuspend(w) => w.admits(e),
            Wait::TaskFence(w) => w.admits(e),
            Wait::TaskHeartbeat(w) => w.admits(e),
            Wait::TaskHalt(w) => w.admits(e),
            Wait::TaskContinue(w) => w.admits(e),
            Wait::TaskSearch(w) => w.admits(e),
            Wait::ScheduleGet(w) => w.admits(e),
            Wait::ScheduleCreate(w) => w.admits(e),
            Wait::ScheduleDelete(w) => w.admits(e),
            Wait::ScheduleSearch(w) => w.admits(e),
            Wait::Reset => e is Done,
            Wait::Snap => e is Snapshot,
            Wait::Tick(run) => run.admits(e),
        }
    }

    /// What follows from an answer.
    pub open spec fn next(self, e: Event, out: Step) -> bool {
        let t = self.ticket;
        match self.wait {
            Wait::Decode(_) => match e->Decoded_0 {
                Decoded::Malformed(m) => out.is_error(t, 400, "Invalid request: "@ + m@),
                Decoded::Invalid(m) => out.is_error(t, 400, m@),
                Decoded::Valid(data) => starts(t, data, out),
            },
            Wait::PromiseGet(w) => w.next(t, e, out),
            Wait::PromiseCreate(w) => w.next(t, e, out),
            Wait::PromiseSettle(w) => w.next(t, e, out),
            Wait::PromiseRegisterCallback(w) => w.next(t, e, out),
            Wait::PromiseRegisterListener(w) => w.next(t, e, out),
            Wait::PromiseSearch(w) => w.next(t, e, out),
            Wait::TaskGet(w) => w.next(t, e, out),
            Wait::TaskCreate(w) => w.next(t, e, out),
            Wait::TaskAcquire(w) => w.next(t, e, out),
            Wait::TaskRelease(w) => w.next(t, e, out),
            Wait::TaskFulfill(w) => w.next(t, e, out),
            Wait::TaskSuspend(w) => w.next(t, e, out),
            Wait::TaskFence(w) => w.next(t, e, out),
            Wait::TaskHeartbeat(w) => w.next(t, e, out),
            Wait::TaskHalt(w) => w.next(t, e, out),
            Wait::TaskContinue(w) => w.next(t, e, out),
            Wait::TaskSearch(w) => w.next(t, e, out),
            Wait::ScheduleGet(w) => w.next(t, e, out),
            Wait::ScheduleCreate(w) => w.next(t, e, out),
            Wait::ScheduleDelete(w) => w.next(t, e, out),
            Wait::ScheduleSearch(w) => w.next(t, e, out),
            Wait::Reset => out.is_reply(t, 200, ResponseData::Empty),
            Wait::Snap => out.is_reply(t, 200, ResponseData::Snapshot(e->Snapshot_0)),
            Wait::Tick(run) => match out {
                Step::Wait(p) => p.ticket == t && (p.wait matches Wait::Tick(r) && run.next(
                    e,
                    Some(r),
                )),
                Step::Done(r) => {
                    &&& run.next(e, None)
                    &&& r.is_headed(t.head.kind@, t.head.corr_id@, 200)
                    &&& r.data is EmptyList
                },
            },
        }
    }

    /// The call that is waited for.
    pub fn action<'a>(&'a self) -> (a: Action<'a>)
        ensures
            self.calls(a),
    {
        let t = &self.ticket;
        match &self.wait {
            Wait::Decode(payload) => Action::Decode { route: t.route, data: payload },
            Wait::PromiseGet(w) => w.action(t),
            Wait::PromiseCreate(w) => w.action(t),
            Wait::PromiseSettle(w) => w.action(t),
            Wait::PromiseRegisterCallback(w) => w.action(t),
            Wait::PromiseRegisterListener(w) => w.action(t),
            Wait::PromiseSearch(w) => w.action(t),
            Wait::TaskGet(w) => w.action(t),
            Wait::TaskCreate(w) => w.action(t),
            Wait::TaskAcquire(w) => w.action(t),
            Wait::TaskRelease(w) => w.action(t),
            Wait::TaskFulfill(w) => w.action(t),
            Wait::TaskSuspend(w) => w.action(t),
            Wait::TaskFence(w) => w.action(t),
            Wait::TaskHeartbeat(w) => w.action(t),
            Wait::TaskHalt(w) => w.action(t),
            Wait::TaskContinue(w) => w.action(t),
            Wait::TaskSearch(w) => w.action(t),
            Wait::ScheduleGet(w) => w.action(t),
            Wait::ScheduleCreate(w) => w.action(t),
            Wait::ScheduleDelete(w) => w.action(t),
            Wait::ScheduleSearch(w) => w.action(t),
            Wait::Reset => Action::DebugReset,
            Wait::Snap => Action::Snap,
            Wait::Tick(run) => run.action(),
        }
    }

    /// Whether an event is an answer to the call that is waited for.
    pub fn accepts(&self, e: &Event) -> (admitted: bool)
        ensures
            admitted == self.admits(*e),
    {
        match &self.wait {
            Wait::Decode(_) => match e {
                Event::Decoded(Decoded::Valid(data)) => payload_fits(self.ticket.route, data),
                Event::Decoded(_) => true,
                _ => false,
            },
            Wait::PromiseGet(w) => w.accepts(e),
            Wait::PromiseCreate(w) => w.accepts(e),
            Wait::PromiseSettle(w) => w.accepts(e),
            Wait::PromiseRegisterCallback(w) => w.accepts(e),
            Wait::PromiseRegisterListener(w) => w.accepts(e),
            Wait::PromiseSearch(w) => w.accepts(e),
            Wait::TaskGet(w) => w.accepts(e),
            Wait::TaskCreate(w) => w.accepts(e),
            Wait::TaskAcquire(w) => w.accepts(e),
            Wait::TaskRelease(w) => w.accepts(e),
            Wait::TaskFulfill(w) => w.accepts(e),
            Wait::TaskSuspend(w) => w.accepts(e),
            Wait::TaskFence(w) => w.accepts(e),
            Wait::TaskHeartbeat(w) => w.accepts(e),
            Wait::TaskHalt(w) => w.accepts(e),
            Wait::TaskContinue(w) => w.accepts(e),
            Wait::TaskSearch(w) => w.accepts(e),
            Wait::ScheduleGet(w) => w.accepts(e),
            Wait::ScheduleCreate(w) => w.accepts(e),
            Wait::ScheduleDelete(w) => w.accepts(e),
            Wait::ScheduleSearch(w) => w.accepts(e),
            Wait::Reset => match e {
                Event::Done => true,
                _ => false,
            },
            Wait::Snap => match e {
                Event::Snapshot(_) => true,
                _ => false,
            },
            Wait::Tick(run) => run.accepts(e),
        }
    }

    /// Go on with the answer to the call, or fail with the storage.
    pub fn resume(self, answer: Result<Event, StorageError>) -> (out: Step)
        requires
            answer matches Ok(e) ==> self.admits(e),
        ensures
            match answer {
                Ok(e) => self.next(e, out),
                Err(e) => out.is_error(
                    self.ticket,
                    failure_status(e),
                    failure_message(self.ticket.route, e),
                ),
            },
    {
        let t = self.ticket;
        let e = match answer {
            Ok(e) => e,
            Err(e) => {
                return storage_failure(t, e);
            },
        };
        match self.wait {
            Wait::Decode(_) => match e {
                Event::Decoded(Decoded::Malformed(m)) => {
                    let message = joined("Invalid request: ", m.as_str());
                    t.error(400, message.as_str())
                },
                Event::Decoded(Decoded::Invalid(m)) => t.error(400, m.as_str()),
                Event::Decoded(Decoded::Valid(data)) => start(t, data),
                _ => vstd::pervasive::unreached(),
            },
            Wait::PromiseGet(w) => w.resume(t, e),
            Wait::PromiseCreate(w) => w.resume(t, e),
            Wait::PromiseSettle(w) => w.resume(t, e),
            Wait::PromiseRegisterCallback(w) => w.resume(t, e),
            Wait::PromiseRegisterListener(w) => w.resume(t, e),
            Wait::PromiseSearch(w) => w.resume(t, e),
            Wait::TaskGet(w) => w.resume(t, e),
            Wait::TaskCreate(w) => w.resume(t, e),
            Wait::TaskAcquire(w) => w.resume(t, e),
            Wait::TaskRelease(w) => w.resume(t, e),
            Wait::TaskFulfill(w) => w.resume(t, e),
            Wait::TaskSuspend(w) => w.resume(t, e),
            Wait::TaskFence(w) => w.resume(t, e),
            Wait::TaskHeartbeat(w) => w.resume(t, e),
            Wait::TaskHalt(w) => w.resume(t, e),
            Wait::TaskContinue(w) => w.resume(t, e),
            Wait::TaskSearch(w) => w.resume(t, e),
            Wait::ScheduleGet(w) => w.resume(t, e),
            Wait::ScheduleCreate(w) => w.resume(t, e),
            Wait::ScheduleDelete(w) => w.resume(t, e),
            Wait::ScheduleSearch(w) => w.resume(t, e),
            Wait::Reset => t.success(ResponseData::Empty),
            Wait::Snap => match e {
                Event::Snapshot(picture) => t.success(ResponseData::Snapshot(picture)),
                _ => vstd::pervasive::unreached(),
            },
            Wait::Tick(run) => match run.resume(e) {
                Some(r) => t.wait(Wait::Tick(r)),
                None => t.success(ResponseData::EmptyList),
            },
        }
    }
}

} // verus!
