//! From the envelope of a request to its operation, and the operations on the server
//! itself. The steps are named as in [`super::exchanges`].
use vstd::prelude::*;

use super::exchanges::{asks, begins, follows, takes};
use super::laws::{lemma_route_round_trip, lemma_scheduled_tags};
use super::persistence::StorageError;
use super::processing::{process_all_timeouts, scheduled_id, TimeoutRun};
use super::server::{dispatch, dispatched, mode_after, route_named, Config, Server};
use super::steps::{Action, Decoded, Event, Pending, RequestData, Route, Step};
use super::types::{RequestEnvelope, ResponseData};
use crate::json::JsonTree;

verus! {

/// The request kind that a payload belongs to.
pub open spec fn kind_of(data: RequestData) -> Seq<char> {
    match data {
        RequestData::PromiseGet(_) => "promise.get"@,
        RequestData::PromiseCreate(_) => "promise.create"@,
        RequestData::PromiseSettle(_) => "promise.settle"@,
        RequestData::PromiseRegisterCallback(_) => "promise.register_callback"@,
        RequestData::PromiseRegisterListener(_) => "promise.register_listener"@,
        RequestData::PromiseSearch(_) => "promise.search"@,
        RequestData::TaskGet(_) => "task.get"@,
        RequestData::TaskCreate(_) => "task.create"@,
        RequestData::TaskAcquire(_) => "task.acquire"@,
        RequestData::TaskRelease(_) => "task.release"@,
        RequestData::TaskFulfill(_) => "task.fulfill"@,
        RequestData::TaskSuspend(_) => "task.suspend"@,
        RequestData::TaskFence(_) => "task.fence"@,
        RequestData::TaskHeartbeat(_) => "task.heartbeat"@,
        RequestData::TaskHalt(_) => "task.halt"@,
        RequestData::TaskContinue(_) => "task.continue"@,
        RequestData::TaskSearch(_) => "task.search"@,
        RequestData::ScheduleGet(_) => "schedule.get"@,
        RequestData::ScheduleCreate(_) => "schedule.create"@,
        RequestData::ScheduleDelete(_) => "schedule.delete"@,
        RequestData::ScheduleSearch(_) => "schedule.search"@,
    }
}

/// Whether a request kind is one of the kinds on the server itself.
pub open spec fn on_server(kind: Seq<char>) -> bool {
    kind == "debug.start"@ || kind == "debug.stop"@ || kind == "debug.reset"@ || kind
        == "debug.snap"@ || kind == "debug.tick"@
}

/// Every operation has the request kind that is written here.
pub proof fn lemma_kinds()
    ensures
        route_named("promise.get"@) == Some(Route::PromiseGet),
        route_named("promise.create"@) == Some(Route::PromiseCreate),
        route_named("promise.settle"@) == Some(Route::PromiseSettle),
        route_named("promise.register_callback"@) == Some(Route::PromiseRegisterCallback),
        route_named("promise.register_listener"@) == Some(Route::PromiseRegisterListener),
        route_named("promise.search"@) == Some(Route::PromiseSearch),
        route_named("task.get"@) == Some(Route::TaskGet),
        route_named("task.create"@) == Some(Route::TaskCreate),
        route_named("task.acquire"@) == Some(Route::TaskAcquire),
        route_named("task.release"@) == Some(Route::TaskRelease),
        route_named("task.fulfill"@) == Some(Route::TaskFulfill),
        route_named("task.suspend"@) == Some(Route::TaskSuspend),
        route_named("task.fence"@) == Some(Route::TaskFence),
        route_named("task.heartbeat"@) == Some(Route::TaskHeartbeat),
        route_named("task.halt"@) == Some(Route::TaskHalt),
        route_named("task.continue"@) == Some(Route::TaskContinue),
        route_named("task.search"@) == Some(Route::TaskSearch),
        route_named("schedule.get"@) == Some(Route::ScheduleGet),
        route_named("schedule.create"@) == Some(Route::ScheduleCreate),
        route_named("schedule.delete"@) == Some(Route::ScheduleDelete),
        route_named("schedule.search"@) == Some(Route::ScheduleSearch),
        route_named("debug.start"@) == Some(Route::DebugStart),
        route_named("debug.stop"@) == Some(Route::DebugStop),
        route_named("debug.reset"@) == Some(Route::DebugReset),
        route_named("debug.snap"@) == Some(Route::DebugSnap),
        route_named("debug.tick"@) == Some(Route::DebugTick),
{
    lemma_route_round_trip(Route::PromiseGet);
    lemma_route_round_trip(Route::PromiseCreate);
    lemma_route_round_trip(Route::PromiseSettle);
    lemma_route_round_trip(Route::PromiseRegisterCallback);
    lemma_route_round_trip(Route::PromiseRegisterListener);
    lemma_route_round_trip(Route::PromiseSearch);
    lemma_route_round_trip(Route::TaskGet);
    lemma_route_round_trip(Route::TaskCreate);
    lemma_route_round_trip(Route::TaskAcquire);
    lemma_route_round_trip(Route::TaskRelease);
    lemma_route_round_trip(Route::TaskFulfill);
    lemma_route_round_trip(Route::TaskSuspend);
    lemma_route_round_trip(Route::TaskFence);
    lemma_route_round_trip(Route::TaskHeartbeat);
    lemma_route_round_trip(Route::TaskHalt);
    lemma_route_round_trip(Route::TaskContinue);
    lemma_route_round_trip(Route::TaskSearch);
    lemma_route_round_trip(Route::ScheduleGet);
    lemma_route_round_trip(Route::ScheduleCreate);
    lemma_route_round_trip(Route::ScheduleDelete);
    lemma_route_round_trip(Route::ScheduleSearch);
    lemma_route_round_trip(Route::DebugStart);
    lemma_route_round_trip(Route::DebugStop);
    lemma_route_round_trip(Route::DebugReset);
    lemma_route_round_trip(Route::DebugSnap);
    lemma_route_round_trip(Route::DebugTick);
}

/// Whether a request kind is one of those that have a payload.
pub open spec fn has_payload(kind: Seq<char>) -> bool {
    kind == "promise.get"@
        || kind == "promise.create"@
        || kind == "promise.settle"@
        || kind == "promise.register_callback"@
        || kind == "promise.register_listener"@
        || kind == "promise.search"@
        || kind == "task.get"@
        || kind == "task.create"@
        || kind == "task.acquire"@
        || kind == "task.release"@
        || kind == "task.fulfill"@
        || kind == "task.suspend"@
        || kind == "task.fence"@
        || kind == "task.heartbeat"@
        || kind == "task.halt"@
        || kind == "task.continue"@
        || kind == "task.search"@
        || kind == "schedule.get"@
        || kind == "schedule.create"@
        || kind == "schedule.delete"@
        || kind == "schedule.search"@
}

/// No other request kind has an operation.
pub proof fn lemma_no_other_kinds(kind: Seq<char>)
    ensures
        route_named(kind) is Some <==> on_server(kind) || has_payload(kind),
{
}

/// Whether the response to `req` has this status.
pub open spec fn responded(out: Step, req: RequestEnvelope, status: int) -> bool {
    &&& out matches Step::Done(x)
    &&& x.kind@ == req.kind@
    &&& x.head.corr_id@ == req.head.corr_id@
    &&& x.head.status == status
}

/// Whether the response to `req` refuses it with a message.
pub open spec fn refused(out: Step, req: RequestEnvelope, status: int, message: Seq<char>) -> bool {
    &&& responded(out, req, status)
    &&& out->Done_0.data matches ResponseData::Text(m)
    &&& m@ == message
}

/// A request is refused at once where its kind is unknown, or where it is on the server
/// itself and those are not enabled.
pub proof fn lemma_refused_at_once(config: Config, req: RequestEnvelope, now: i64, s0: Step)
    requires
        dispatched(config, req, now, s0),
    ensures
        !on_server(req.kind@) && !has_payload(req.kind@) ==> refused(
            s0,
            req,
            400,
            "Unknown operation: "@ + req.kind@,
        ),
        on_server(req.kind@) && !config.debug ==> refused(
            s0,
            req,
            403,
            "Debug operations are disabled"@,
        ),
{
    lemma_kinds();
    lemma_no_other_kinds(req.kind@);
}

/// A request with a payload has its payload decoded as the one of its kind, and goes on
/// with what came of it; its time, kind and correlation id, and the retry timeout that is
/// configured, go with it.
pub proof fn lemma_payload_is_decoded(
    config: Config,
    req: RequestEnvelope,
    now: i64,
    s0: Step,
    a0: Action,
    e0: Event,
    s1: Step,
)
    requires
        dispatched(config, req, now, s0),
        has_payload(req.kind@),
    ensures
        s0 is Wait,
        s0->Wait_0.ticket.now == now,
        s0->Wait_0.ticket.retry_timeout == config.tasks.retry_timeout,
        s0->Wait_0.ticket.head.kind@ == req.kind@,
        s0->Wait_0.ticket.head.corr_id@ == req.head.corr_id@,
        asks(s0, a0) ==> {
            &&& a0 matches Action::Decode { route, data }
            &&& data.tree() == req.data.tree()
            &&& route_named(req.kind@) == Some(route)
        },
        takes(s0, e0) <==> (e0 matches Event::Decoded(d) && (d matches Decoded::Valid(x) ==> kind_of(
            x,
        ) == req.kind@)),
        follows(s0, e0, s1) ==> match e0->Decoded_0 {
            Decoded::Malformed(m) => refused(s1, req, 400, "Invalid request: "@ + m@),
            Decoded::Invalid(m) => refused(s1, req, 400, m@),
            Decoded::Valid(data) => begins(s0->Wait_0.ticket, data, s1),
        },
{
    lemma_kinds();
}

/// The operations on the server itself: starting and stopping debug mode are answered at
/// once; resetting, taking a picture and ticking ask the storage for just that, the last
/// one for the time that the request names.
pub proof fn lemma_operations_on_the_server(
    config: Config,
    req: RequestEnvelope,
    now: i64,
    s0: Step,
    a0: Action,
    e0: Event,
    s1: Step,
)
    requires
        dispatched(config, req, now, s0),
        config.debug,
    ensures
        req.kind@ == "debug.start"@ || req.kind@ == "debug.stop"@ ==> responded(s0, req, 200)
            && s0->Done_0.data is Empty,
        req.kind@ == "debug.reset"@ ==> {
            &&& s0 is Wait
            &&& asks(s0, a0) ==> a0 is DebugReset
            &&& takes(s0, e0) <==> e0 is Done
            &&& follows(s0, e0, s1) ==> responded(s1, req, 200) && s1->Done_0.data is Empty
        },
        req.kind@ == "debug.snap"@ ==> {
            &&& s0 is Wait
            &&& asks(s0, a0) ==> a0 is Snap
            &&& takes(s0, e0) <==> e0 is Snapshot
            &&& follows(s0, e0, s1) ==> responded(s1, req, 200) && s1->Done_0.data
                == ResponseData::Snapshot(e0->Snapshot_0)
        },
        req.kind@ == "debug.tick"@ ==> match req.data.tree().field("time"@) {
            Some(JsonTree::Int(time)) => i64::MIN <= time <= i64::MAX ==> {
                &&& s0 is Wait
                &&& asks(s0, a0) ==> (a0 matches Action::ProcessTimeouts { time: at } && at == time)
                &&& takes(s0, e0) <==> e0 is Done
                &&& follows(s0, e0, s1) ==> s1 is Wait
            },
            _ => refused(s0, req, 400, "Missing or invalid 'time' field"@),
        },
{
    lemma_kinds();
}

/// Debug mode is on after `debug.start`, off after `debug.stop`, and as before after any
/// other request, or where debug operations are not enabled.
pub proof fn lemma_mode(mode: bool, config: Config, kind: Seq<char>)
    ensures
        mode_after(mode, config, kind) == if config.debug && kind == "debug.start"@ {
            true
        } else if config.debug && kind == "debug.stop"@ {
            false
        } else {
            mode
        },
{
    lemma_kinds();
}

/// A failure of the storage, in words.
pub open spec fn in_words(e: StorageError) -> Seq<char> {
    match e {
        StorageError::Backend(m) => "Storage error: "@ + m@,
        StorageError::Serialization => "Serialization conflict"@,
        StorageError::InvalidInput(m) => "Invalid input: "@ + m@,
    }
}

/// A request whose call failed is answered at once: with 500 for a fault of the storage,
/// 503 for a conflict, and 400 for an input that the storage does not take; and with the
/// fault in words.
pub proof fn lemma_failed_call(p: Pending, e: StorageError, out: Step)
    requires
        call_ensures(Pending::resume, (p, Err::<Event, StorageError>(e)), out),
    ensures
        out is Done,
        out->Done_0.kind@ == p.ticket.head.kind@,
        out->Done_0.head.corr_id@ == p.ticket.head.corr_id@,
        out->Done_0.head.status == match e {
            StorageError::Backend(_) => 500int,
            StorageError::Serialization => 503,
            StorageError::InvalidInput(_) => 400,
        },
        out->Done_0.data matches ResponseData::Text(m) && m@ == match p.ticket.route {
            Route::DebugReset => "Reset failed: "@ + in_words(e),
            Route::DebugSnap => "Snap failed: "@ + in_words(e),
            Route::DebugTick => "Tick failed: "@ + in_words(e),
            _ => if e is InvalidInput {
                "Invalid request: "@ + e->InvalidInput_0@
            } else {
                "Internal error: "@ + in_words(e)
            },
        },
{
}

/// The words of a failure of the storage.
pub proof fn lemma_words(e: StorageError, text: String)
    requires
        call_ensures(StorageError::message, (&e,), text),
    ensures
        text@ == in_words(e),
{
}

// Timeouts

/// Whether a run makes the call `a`.
pub open spec fn run_asks(run: TimeoutRun, a: Action) -> bool {
    run.calls(a)
}

/// Whether a run comes to `next` by the answer `e`; `None` is its end.
pub open spec fn run_follows(run: TimeoutRun, e: Event, next: Option<TimeoutRun>) -> bool {
    run.admits(e) && run.next(e, next)
}

/// A run over what has timed out at a time starts with the timeouts of promises and
/// tasks, and then asks for the schedules that are due, all at that time.
pub proof fn lemma_run_starts(
    time: i64,
    run: TimeoutRun,
    a0: Action,
    e0: Event,
    next: Option<TimeoutRun>,
    a1: Action,
    e1: Event,
)
    requires
        call_ensures(process_all_timeouts, (time,), run),
    ensures
        run_asks(run, a0) ==> (a0 matches Action::ProcessTimeouts { time: at } && at == time),
        run.admits(e0) <==> e0 is Done,
        run_follows(run, e0, next) ==> {
            &&& next is Some
            &&& next->Some_0.time == time
            &&& run_asks(next->Some_0, a1) ==> (a1 matches Action::GetExpiredScheduleTimeouts {
                time: at,
            } && at == time)
            &&& next->Some_0.admits(e1) <==> e1 is ExpiredSchedules
        },
{
}

/// A schedule that is due is read; it fires next at the first time after it was due that
/// its cron expression names; and its promise has the tags of the schedule, but belongs to
/// the schedule and is the root of its own lineage.
pub proof fn lemma_schedule_fires(
    run: TimeoutRun,
    a0: Action,
    e0: Event,
    n0: Option<TimeoutRun>,
    a1: Action,
    e1: Event,
    n1: Option<TimeoutRun>,
    a2: Action,
    e2: Event,
    key: Seq<char>,
)
    requires
        run.stage is Read,
    ensures
        ({
            let due = run.stage->Read_0;
            &&& run_asks(run, a0) ==> (a0 matches Action::ScheduleGet { id } && id@
                == due.schedule_id@)
            &&& run.admits(e0) <==> e0 is Schedule
            &&& run_follows(run, e0, n0) && e0->Schedule_0 is Some ==> {
                let schedule = e0->Schedule_0->Some_0;
                &&& n0 is Some
                &&& run_asks(n0->Some_0, a1) ==> (a1 matches Action::NextCron { cron, after }
                    && cron@ == schedule.cron@ && after == due.fired_at)
                &&& n0->Some_0.admits(e1) <==> e1 is NextCron
                &&& run_follows(n0->Some_0, e1, n1) ==> {
                    &&& n1 is Some
                    &&& n1->Some_0.admits(e2) <==> e2 is ScheduleFired
                    &&& run_asks(n1->Some_0, a2) ==> {
                        let promise_id = scheduled_id(
                            schedule.promise_id@,
                            due.schedule_id@,
                            due.fired_at,
                        );
                        &&& a2 matches Action::ProcessScheduleTimeout {
                            schedule_id,
                            fired_at,
                            next_run_at,
                            time,
                            promise_tags,
                        }
                        &&& schedule_id@ == due.schedule_id@
                        &&& fired_at == due.fired_at
                        &&& next_run_at == e1->NextCron_0
                        &&& time == run.time
                        &&& promise_tags@.contains_pair("resonate:schedule"@, due.schedule_id@)
                        &&& promise_tags@.contains_pair("resonate:origin"@, promise_id)
                        &&& promise_tags@.contains_pair("resonate:branch"@, promise_id)
                        &&& promise_tags@.contains_pair("resonate:parent"@, promise_id)
                        &&& promise_tags@.contains_pair("resonate:prefix"@, promise_id)
                        &&& key != "resonate:schedule"@ && key != "resonate:origin"@ && key
                            != "resonate:branch"@ && key != "resonate:parent"@ && key
                            != "resonate:prefix"@ ==> {
                            &&& promise_tags@.contains_key(key)
                                <==> schedule.promise_tags@.contains_key(key)
                            &&& promise_tags@.contains_key(key) ==> promise_tags@[key]
                                == schedule.promise_tags@[key]
                        }
                    }
                }
            }
        }),
{
    if run_follows(run, e0, n0) && e0->Schedule_0 is Some && run_follows(n0->Some_0, e1, n1) {
        let due = run.stage->Read_0;
        let schedule = e0->Schedule_0->Some_0;
        lemma_scheduled_tags(
            schedule.promise_tags@,
            due.schedule_id@,
            scheduled_id(schedule.promise_id@, due.schedule_id@, due.fired_at),
            key,
        );
    }
}

/// A `debug.tick` goes through its run call by call, and is answered with an empty list
/// when the run ends.
pub proof fn lemma_tick_goes_through_its_run(p: Pending, a: Action, e: Event, out: Step)
    requires
        p.wait is Tick,
    ensures
        asks(Step::Wait(p), a) ==> run_asks(p.wait->Tick_0, a),
        takes(Step::Wait(p), e) <==> p.wait->Tick_0.admits(e),
        follows(Step::Wait(p), e, out) ==> match out {
            Step::Wait(q) => {
                &&& q.ticket == p.ticket
                &&& q.wait is Tick
                &&& run_follows(p.wait->Tick_0, e, Some(q.wait->Tick_0))
            },
            Step::Done(x) => {
                &&& run_follows(p.wait->Tick_0, e, None)
                &&& x.kind@ == p.ticket.head.kind@
                &&& x.head.corr_id@ == p.ticket.head.corr_id@
                &&& x.head.status == 200
                &&& x.data is EmptyList
            },
        },
{
}

/// Taking a request in decides its first step and the debug mode, and changes nothing else
/// of the server.
pub proof fn lemma_taken_in<S>(server: &mut Server<S>, req: &RequestEnvelope, now: i64, out: Step)
    requires
        call_ensures(dispatch::<S>, (server, req, now), out),
    ensures
        dispatched(old(server).config, *req, now, out),
        final(server).debug_mode == if old(server).config.debug && req.kind@ == "debug.start"@ {
            true
        } else if old(server).config.debug && req.kind@ == "debug.stop"@ {
            false
        } else {
            old(server).debug_mode
        },
        final(server).config == old(server).config,
        final(server).storage == old(server).storage,
{
    lemma_mode(old(server).debug_mode, old(server).config, req.kind@);
}

} // verus!
