//! What holds of every request, whatever the storage answers.
use vstd::prelude::*;

use super::address::destination_of;
use super::persistence::{PromiseCreateResult, StorageError, TaskAcquireResult};
use super::processing::{scheduled_tags, TimeoutRun, TimeoutStage};
use super::promise_ops::{
    birth_of, declared, lineage_fault, page_of, target_routable, PromiseCreateWait, PromiseGetWait,
    PromiseRegisterCallbackWait, PromiseRegisterListenerWait, PromiseSettleWait, MAX_LIMIT,
};
use super::schedule_ops::ScheduleCreateWait;
use super::server::{
    dispatched, failure_message, failure_status, mode_after, route_named, starts, Config,
};
use super::steps::{Action, Decoded, Event, Pending, RequestData, Route, Step, Ticket, Wait};
use super::task_ops::{
    awaited_ids, awaits_within_origin, fenced_id, lemma_unique, unique, TaskAcquireWait, TaskContinueWait, TaskCreateWait, TaskFenceWait, TaskFulfillWait,
    TaskGetWait, TaskHaltWait, TaskReleaseWait, TaskSuspendWait,
};
use super::types::{
    PromiseState, RequestEnvelope, ResponseData, SettleState, TaskAcquireData, TaskState,
};
use crate::ids::{
    lemma_declared_origin, lemma_extension_keeps_origin, origin, same_origin,
};
use crate::text::texts_of;

verus! {

impl TimeoutRun {
    /// How much of a run is still to come, at most.
    pub open spec fn rank(self) -> (nat, nat) {
        match self.stage {
            TimeoutStage::Timeouts => (2, 0),
            TimeoutStage::Expired => (1, 0),
            TimeoutStage::Read(due) => (0, 3 * due.rest@.len() + 2),
            TimeoutStage::NextRun(due, _) => (0, 3 * due.rest@.len() + 1),
            TimeoutStage::Fire(due, _, _) => (0, 3 * due.rest@.len()),
        }
    }
}

impl Wait {
    /// How many calls are still to come, at most. The second number counts only
    /// in a run over timeouts.
    pub open spec fn rank(self) -> (nat, nat) {
        match self {
            Wait::Decode(_) => (6, 0),
            Wait::PromiseGet(w) => match w {
                PromiseGetWait::Timeout(_) => (1, 0),
                PromiseGetWait::Read(_) => (0, 0),
            },
            Wait::PromiseCreate(w) => match w {
                PromiseCreateWait::Timeout(_) => (1, 0),
                PromiseCreateWait::Store(_, _) => (0, 0),
            },
            Wait::PromiseSettle(w) => match w {
                PromiseSettleWait::Timeout(_) => (1, 0),
                PromiseSettleWait::Store(_, _) => (0, 0),
            },
            Wait::PromiseRegisterCallback(w) => match w {
                PromiseRegisterCallbackWait::Timeout(_) => (1, 0),
                PromiseRegisterCallbackWait::Store(_) => (0, 0),
            },
            Wait::PromiseRegisterListener(w) => match w {
                PromiseRegisterListenerWait::Timeout(_) => (1, 0),
                PromiseRegisterListenerWait::Store(_) => (0, 0),
            },
            Wait::TaskGet(w) => match w {
                TaskGetWait::Timeout(_) => (1, 0),
                TaskGetWait::Read(_) => (0, 0),
            },
            Wait::TaskCreate(w) => match w {
                TaskCreateWait::Timeout(_) => (5, 0),
                TaskCreateWait::Lock(_) => (4, 0),
                TaskCreateWait::Store(_, _) => (3, 0),
                TaskCreateWait::Callbacks(_, _) => (2, 0),
                TaskCreateWait::Acquire(_, _, _) => (1, 0),
                TaskCreateWait::Preload(_, _) => (0, 0),
            },
            Wait::TaskAcquire(w) => match w {
                TaskAcquireWait::Timeout(_) => (2, 0),
                TaskAcquireWait::Store(_) => (1, 0),
                TaskAcquireWait::Preload(_, _) => (0, 0),
            },
            Wait::TaskRelease(w) => match w {
                TaskReleaseWait::Timeout(_) => (2, 0),
                TaskReleaseWait::Lock(_) => (1, 0),
                TaskReleaseWait::Store(_) => (0, 0),
            },
            Wait::TaskFulfill(w) => match w {
                TaskFulfillWait::Timeout(_) => (2, 0),
                TaskFulfillWait::Lock(_) => (1, 0),
                TaskFulfillWait::Store(_, _) => (0, 0),
            },
            Wait::TaskSuspend(w) => match w {
                TaskSuspendWait::Lock(_) => (3, 0),
                TaskSuspendWait::Timeout(_, _) => (2, 0),
                TaskSuspendWait::Store(_, _) => (1, 0),
                TaskSuspendWait::Preload(_) => (0, 0),
            },
            Wait::TaskFence(w) => match w {
                TaskFenceWait::Timeout(_) => (4, 0),
                TaskFenceWait::Lock(_) => (3, 0),
                TaskFenceWait::DecodeCreate(_) => (2, 0),
                TaskFenceWait::DecodeSettle(_) => (2, 0),
                TaskFenceWait::Create(_, _, _) => (1, 0),
                TaskFenceWait::Settle(_, _, _) => (1, 0),
                TaskFenceWait::Preload(_, _) => (0, 0),
            },
            Wait::TaskHalt(w) => match w {
                TaskHaltWait::Timeout(_) => (1, 0),
                TaskHaltWait::Store(_) => (0, 0),
            },
            Wait::TaskContinue(w) => match w {
                TaskContinueWait::Timeout(_) => (1, 0),
                TaskContinueWait::Store(_) => (0, 0),
            },
            Wait::ScheduleCreate(w) => match w {
                ScheduleCreateWait::Validate(_) => (2, 0),
                ScheduleCreateWait::NextRun(_) => (1, 0),
                ScheduleCreateWait::Store(_, _) => (0, 0),
            },
            Wait::Tick(run) => run.rank(),
            _ => (0, 0),
        }
    }
}

/// Whether one rank is below another.
pub open spec fn below(a: (nat, nat), b: (nat, nat)) -> bool {
    a.0 < b.0 || (a.0 == b.0 && a.1 < b.1)
}

/// Every step brings a request closer to its response, so that every request is
/// answered after finitely many calls. The ticket stays the same throughout, and
/// the response carries the kind and the correlation id of the request.
pub proof fn lemma_progress(p: Pending, e: Event, out: Step)
    requires
        p.admits(e),
        p.next(e, out),
    ensures
        match out {
            Step::Wait(q) => q.ticket == p.ticket && below(q.wait.rank(), p.wait.rank()) && (
            q.wait is Tick <==> p.wait is Tick),
            Step::Done(r) => r.kind@ == p.ticket.head.kind@ && r.head.corr_id@
                == p.ticket.head.corr_id@,
        },
{
}

/// Whether a request gets from `p` to `out` by the answers `events`.
pub open spec fn reaches(p: Pending, events: Seq<Event>, out: Step) -> bool
    decreases events.len(),
{
    if events.len() == 0 {
        out == Step::Wait(p)
    } else {
        exists|step: Step|
            {
                &&& p.admits(events[0])
                &&& #[trigger] p.next(events[0], step)
                &&& match step {
                    Step::Wait(q) => reaches(q, events.skip(1), out),
                    Step::Done(_) => events.len() == 1 && out == step,
                }
            }
    }
}

/// Every request but `debug.tick` is answered after at most seven calls, whatever
/// the storage answers; and the response carries the kind and the correlation id of
/// the request.
pub proof fn lemma_answered_soon(p: Pending, events: Seq<Event>, out: Step)
    requires
        reaches(p, events, out),
        !(p.wait is Tick),
    ensures
        events.len() <= 7,
        events.len() == 7 ==> out is Done,
        match out {
            Step::Wait(q) => q.ticket == p.ticket,
            Step::Done(r) => r.kind@ == p.ticket.head.kind@ && r.head.corr_id@
                == p.ticket.head.corr_id@,
        },
{
    lemma_calls_are_bounded(p, events, out);
}

/// A request makes no more calls than its rank counts.
proof fn lemma_calls_are_bounded(p: Pending, events: Seq<Event>, out: Step)
    requires
        reaches(p, events, out),
        !(p.wait is Tick),
    ensures
        events.len() <= p.wait.rank().0 + 1,
        events.len() == p.wait.rank().0 + 1 ==> out is Done,
        p.wait.rank().0 <= 6,
        match out {
            Step::Wait(q) => q.ticket == p.ticket,
            Step::Done(r) => r.kind@ == p.ticket.head.kind@ && r.head.corr_id@
                == p.ticket.head.corr_id@,
        },
    decreases events.len(),
{
    if events.len() > 0 {
        let step = choose|step: Step|
            {
                &&& p.admits(events[0])
                &&& #[trigger] p.next(events[0], step)
                &&& match step {
                    Step::Wait(q) => reaches(q, events.skip(1), out),
                    Step::Done(_) => events.len() == 1 && out == step,
                }
            };
        lemma_progress(p, events[0], step);
        if let Step::Wait(q) = step {
            lemma_calls_are_bounded(q, events.skip(1), out);
        }
    }
}

/// A failure of the storage is answered with the kind and the correlation id of the
/// request too, and tells the three faults apart: only a fault of the storage itself
/// is answered with 500, a conflict is answered with 503 so that the request may be
/// sent again, and an input that is not taken with 400.
pub proof fn lemma_failure_is_told(t: Ticket, e: StorageError, out: Step)
    requires
        out.is_error(t, failure_status(e), failure_message(t.route, e)),
    ensures
        out matches Step::Done(r) && r.kind@ == t.head.kind@ && r.head.corr_id@ == t.head.corr_id@
            && (r.head.status == 503 <==> e is Serialization) && (r.head.status == 400
            <==> e is InvalidInput) && (r.head.status == 500 <==> e is Backend),
{
}

/// No way to settle a promise leaves it pending.
pub proof fn lemma_settle_states(state: SettleState)
    ensures
        state.name() != PromiseState::Pending.name(),
{
    reveal_strlit("pending");
    reveal_strlit("resolved");
    reveal_strlit("rejected");
    reveal_strlit("rejected_canceled");
    assert("pending"@[0] == 'p');
    assert("resolved"@[0] == 'r');
    assert("rejected"@[0] == 'r');
    assert("rejected_canceled"@[0] == 'r');
}

/// The first step of a request keeps its kind and correlation id, and remembers
/// nothing that does not agree or lies outside the lineage.
pub proof fn lemma_dispatch_keeps_head(config: Config, req: RequestEnvelope, now: i64, out: Step)
    requires
        dispatched(config, req, now, out),
    ensures
        match out {
            Step::Wait(p) => p.ticket.head.kind@ == req.kind@ && p.ticket.head.corr_id@
                == req.head.corr_id@ && p.ticket.now == now && agrees(p.wait) && within_lineage(p.wait),
            Step::Done(r) => r.kind@ == req.kind@ && r.head.corr_id@ == req.head.corr_id@,
        },
{
}

/// A request whose payload is malformed or invalid is refused before the storage
/// is called: the first call of a request that has a payload is to decode it, and
/// the response follows at once.
pub proof fn lemma_bad_payload_is_refused(p: Pending, a: Action, d: Decoded, out: Step)
    requires
        p.wait is Decode,
        p.calls(a),
        p.next(Event::Decoded(d), out),
        !(d is Valid),
    ensures
        a is Decode,
        out matches Step::Done(r) && r.head.status == 400 && r.data is Text,
{
}

/// A promise with a target that nothing can be delivered to, or outside the lineage
/// that it declares, is not created; a listener with such an address and a callback
/// across origins are not registered; a task does not suspend across origins; and a
/// search beyond the limit is not made: the storage is not called.
pub proof fn lemma_bad_request_is_refused(t: Ticket, data: RequestData, out: Step)
    requires
        starts(t, data, out),
        match data {
            RequestData::PromiseCreate(r) => !target_routable(r.tags@) || lineage_fault(
                r.id@,
                r.tags@,
            ) is Some,
            RequestData::TaskCreate(r) => !target_routable(r.action.tags@) || lineage_fault(
                r.action.id@,
                r.action.tags@,
            ) is Some,
            RequestData::PromiseRegisterCallback(r) => !same_origin(r.awaited@, r.awaiter@),
            RequestData::TaskSuspend(r) => !awaits_within_origin(r),
            RequestData::PromiseRegisterListener(r) => destination_of(r.address@) is None,
            RequestData::PromiseSearch(r) => r.limit matches Some(n) && n > MAX_LIMIT,
            RequestData::TaskSearch(r) => r.limit matches Some(n) && n > MAX_LIMIT,
            RequestData::ScheduleSearch(r) => r.limit matches Some(n) && n > MAX_LIMIT,
            _ => false,
        },
    ensures
        out matches Step::Done(r) && r.head.status == 400,
{
}

/// Whether what a request works on is within the lineage: what awaits and what is
/// awaited share one origin, and a promise to be created extends what it declares.
pub open spec fn within_lineage(wait: Wait) -> bool {
    match wait {
        Wait::PromiseCreate(w) => match w {
            PromiseCreateWait::Timeout(r) => lineage_fault(r.id@, r.tags@) is None,
            PromiseCreateWait::Store(r, _) => lineage_fault(r.id@, r.tags@) is None,
        },
        Wait::PromiseRegisterCallback(w) => match w {
            PromiseRegisterCallbackWait::Timeout(r) => same_origin(r.awaited@, r.awaiter@),
            PromiseRegisterCallbackWait::Store(r) => same_origin(r.awaited@, r.awaiter@),
        },
        Wait::TaskCreate(w) => match w {
            TaskCreateWait::Timeout(r) => lineage_fault(r.action.id@, r.action.tags@) is None,
            TaskCreateWait::Lock(r) => lineage_fault(r.action.id@, r.action.tags@) is None,
            TaskCreateWait::Store(r, _) => lineage_fault(r.action.id@, r.action.tags@) is None,
            _ => true,
        },
        Wait::TaskSuspend(w) => match w {
            TaskSuspendWait::Lock(r) => awaits_within_origin(r),
            TaskSuspendWait::Timeout(r, _) => awaits_within_origin(r),
            TaskSuspendWait::Store(r, _) => awaits_within_origin(r),
            TaskSuspendWait::Preload(_) => true,
        },
        Wait::TaskFence(TaskFenceWait::Create(_, c, _)) => lineage_fault(c.id@, c.tags@) is None,
        _ => true,
    }
}

/// No step leads outside the lineage, so that whatever the storage is asked to
/// create, register or suspend is within it. It holds of every request from its
/// first step on.
pub proof fn lemma_lineage_is_kept(p: Pending, e: Event, out: Step)
    requires
        within_lineage(p.wait),
        p.admits(e),
        p.next(e, out),
    ensures
        out matches Step::Wait(q) ==> within_lineage(q.wait),
{
}

/// The storage is never asked to register a callback across origins, nor to suspend
/// a task on a promise of another origin.
pub proof fn lemma_callbacks_share_an_origin(p: Pending, a: Action)
    requires
        within_lineage(p.wait),
        p.calls(a),
    ensures
        a matches Action::PromiseRegisterCallback { awaited, awaiter, .. } ==> same_origin(
            awaited@,
            awaiter@,
        ),
        a matches Action::TaskSuspend { id, awaited_ids, .. } ==> forall|i: int|
            0 <= i < awaited_ids@.len() ==> same_origin(id@, (#[trigger] awaited_ids@[i])@),
{
    if let (Wait::TaskSuspend(TaskSuspendWait::Store(r, _)), Action::TaskSuspend {
        id,
        awaited_ids: given,
        ..
    }) = (p.wait, a) {
        let all = awaited_ids(r);
        lemma_unique(all);
        assert forall|i: int| 0 <= i < given@.len() implies same_origin(
            id@,
            (#[trigger] given@[i])@,
        ) by {
            assert(texts_of(given@)[i] == given@[i]@);
            assert(unique(all).contains(given@[i]@));
            let k = choose|k: int| 0 <= k < all.len() && all[k] == given@[i]@;
            assert(r.actions@[k].awaited@ == given@[i]@);
        }
    }
}

/// A promise that is created with a declared origin has that origin.
pub proof fn lemma_declared_origin_is_kept(id: Seq<char>, tags: Map<Seq<char>, Seq<char>>)
    requires
        lineage_fault(id, tags) is None,
    ensures
        declared(tags, "resonate:origin"@) matches Some(o) ==> origin(id) == o,
        declared(tags, "resonate:branch"@) matches Some(b) ==> same_origin(id, b),
        declared(tags, "resonate:parent"@) matches Some(p) ==> same_origin(id, p),
{
    if let Some(o) = declared(tags, "resonate:origin"@) {
        lemma_declared_origin(id, o);
    }
    if let Some(b) = declared(tags, "resonate:branch"@) {
        lemma_extension_keeps_origin(id, b);
    }
    if let Some(p) = declared(tags, "resonate:parent"@) {
        lemma_extension_keeps_origin(id, p);
    }
}

/// What an operation answers is as of the time of the request: each operation that
/// names promises or tasks begins by settling those of them that have timed out.
/// The exceptions are `task.suspend`, which first locks its task, and
/// `task.heartbeat`, which settles nothing.
pub proof fn lemma_timeouts_come_first(t: Ticket, data: RequestData, p: Pending, a: Action)
    requires
        starts(t, data, Step::Wait(p)),
        p.calls(a),
    ensures
        match data {
            RequestData::PromiseGet(r) => a.is_try_timeout(seq![r.id@], t.now),
            RequestData::PromiseCreate(r) => a.is_try_timeout(seq![r.id@], t.now),
            RequestData::PromiseSettle(r) => a.is_try_timeout(seq![r.id@], t.now),
            RequestData::PromiseRegisterCallback(r) => a.is_try_timeout(
                seq![r.awaited@, r.awaiter@],
                t.now,
            ),
            RequestData::PromiseRegisterListener(r) => a.is_try_timeout(seq![r.awaited@], t.now),
            RequestData::TaskGet(r) => a.is_try_timeout(seq![r.id@], t.now),
            RequestData::TaskCreate(r) => a.is_try_timeout(seq![r.action.id@], t.now),
            RequestData::TaskAcquire(r) => a.is_try_timeout(seq![r.id@], t.now),
            RequestData::TaskRelease(r) => a.is_try_timeout(seq![r.id@], t.now),
            RequestData::TaskFulfill(r) => a.is_try_timeout(seq![r.action.id@], t.now),
            RequestData::TaskSuspend(r) => a matches Action::LockForUpdate { id } && id@ == r.id@,
            RequestData::TaskFence(r) => a.is_try_timeout(
                seq![r.id@, fenced_id(r.action.data.tree())],
                t.now,
            ),
            RequestData::TaskHalt(r) => a.is_try_timeout(seq![r.id@], t.now),
            RequestData::TaskContinue(r) => a.is_try_timeout(seq![r.id@], t.now),
            _ => true,
        },
{
}

/// Creating a promise is idempotent: the response is the same whether the promise
/// was created or existed.
pub proof fn lemma_create_is_idempotent(
    w: PromiseCreateWait,
    t: Ticket,
    first: PromiseCreateResult,
    second: PromiseCreateResult,
    out_first: Step,
    out_second: Step,
)
    requires
        w is Store,
        first.promise == second.promise,
        w.next(t, Event::PromiseCreated(first), out_first),
        w.next(t, Event::PromiseCreated(second), out_second),
    ensures
        out_first.is_reply(t, 200, ResponseData::Promise(first.promise)),
        out_second.is_reply(t, 200, ResponseData::Promise(first.promise)),
{
}

/// A request to settle a promise, by itself or through its task, succeeds only
/// with a promise that is settled.
pub proof fn lemma_settle_settles(p: Pending, e: Event, out: Step)
    requires
        p.admits(e),
        p.next(e, out),
        p.wait is PromiseSettle || p.wait is TaskFulfill,
    ensures
        out matches Step::Done(r) ==> (r.head.status == 200 ==> match r.data {
            ResponseData::Promise(promise) => promise.state != PromiseState::Pending,
            ResponseData::TaskFulfill { promise } => promise.state != PromiseState::Pending,
            _ => false,
        }),
{
}

/// Acquiring a task gives it the version that follows the one asked for, and hands
/// it to the worker that asked.
pub proof fn lemma_acquire_counts_version(
    t: Ticket,
    r: TaskAcquireData,
    a: TaskAcquireResult,
    out: Step,
)
    requires
        TaskAcquireWait::Store(r).admits(Event::TaskAcquired(a)),
        TaskAcquireWait::Store(r).next(t, Event::TaskAcquired(a), out),
    ensures
        out matches Step::Wait(p) ==> {
            &&& a.was_acquired
            &&& p.wait matches Wait::TaskAcquire(TaskAcquireWait::Preload(task, _))
            &&& task.id == r.id
            &&& task.state == TaskState::Acquired
            &&& task.version == r.version + 1
            &&& task.ttl == Some(r.ttl)
            &&& task.pid == Some(r.pid)
        },
{
}

/// Whether what a request remembers of a task agrees with what it remembers of the
/// task's promise: a held task has a pending promise.
pub open spec fn agrees(wait: Wait) -> bool {
    wait matches Wait::TaskCreate(TaskCreateWait::Preload(task, promise)) ==> task.state
        != TaskState::Fulfilled && promise.state == PromiseState::Pending
}

/// Where a task is created or found, it is answered as fulfilled exactly where its
/// promise is settled. The agreement holds from the first step on.
pub proof fn lemma_task_agrees_with_promise(p: Pending, e: Event, out: Step)
    requires
        agrees(p.wait),
        p.admits(e),
        p.next(e, out),
    ensures
        match out {
            Step::Wait(q) => agrees(q.wait),
            Step::Done(r) => r.data matches ResponseData::TaskCreate { task, promise, .. } ==> (
            task.state == TaskState::Fulfilled <==> promise.state != PromiseState::Pending),
        },
{
}

/// A promise is born settled exactly where its timeout has passed, and then as of
/// its timeout. It is never created in the future.
pub proof fn lemma_birth(tags: Map<Seq<char>, Seq<char>>, timeout_at: i64, now: i64)
    ensures
        ({
            let b = birth_of(tags, timeout_at, now);
            &&& b.already_timedout <==> timeout_at <= now
            &&& b.state == PromiseState::Pending <==> !b.already_timedout
            &&& b.settled_at is Some <==> b.already_timedout
            &&& b.settled_at matches Some(s) ==> s == timeout_at && b.created_at == s
            &&& b.created_at <= now
            &&& b.created_at <= timeout_at
            &&& b.state == PromiseState::Resolved ==> tags.contains_pair("resonate:timer"@, "true"@)
        }),
{
}

/// A page is a prefix of what was found, no longer than the limit, and all of it
/// where it fits.
pub proof fn lemma_page<T>(found: Seq<T>, limit: i64)
    requires
        0 <= limit,
    ensures
        page_of(found, limit).is_prefix_of(found),
        page_of(found, limit).len() <= limit,
        found.len() <= limit ==> page_of(found, limit) == found,
        found.len() > limit ==> page_of(found, limit).len() == limit,
{
}

/// Each operation has its own request kind.
pub proof fn lemma_route_names(a: Route, b: Route)
    requires
        a.name() == b.name(),
    ensures
        a == b,
{
    lemma_route_round_trip(a);
    lemma_route_round_trip(b);
}

/// Debug mode changes only where debug operations are enabled, and then exactly on
/// `debug.start` and `debug.stop`.
pub proof fn lemma_debug_mode(mode: bool, config: Config, kind: Seq<char>)
    ensures
        !config.debug ==> mode_after(mode, config, kind) == mode,
        config.debug ==> mode_after(mode, config, "debug.start"@),
        config.debug ==> !mode_after(mode, config, "debug.stop"@),
        mode_after(mode, config, kind) != mode ==> kind == "debug.start"@ || kind == "debug.stop"@,
{
    lemma_route_round_trip(Route::DebugStart);
    lemma_route_round_trip(Route::DebugStop);
}

/// Each operation is the one that its request kind asks for.
pub proof fn lemma_route_round_trip(route: Route)
    ensures
        route_named(route.name()) == Some(route),
{
    reveal_strlit("promise.get");
    reveal_strlit("promise.create");
    reveal_strlit("promise.settle");
    reveal_strlit("promise.register_callback");
    reveal_strlit("promise.register_listener");
    reveal_strlit("promise.search");
    reveal_strlit("task.get");
    reveal_strlit("task.create");
    reveal_strlit("task.acquire");
    reveal_strlit("task.release");
    reveal_strlit("task.fulfill");
    reveal_strlit("task.suspend");
    reveal_strlit("task.fence");
    reveal_strlit("task.heartbeat");
    reveal_strlit("task.halt");
    reveal_strlit("task.continue");
    reveal_strlit("task.search");
    reveal_strlit("schedule.get");
    reveal_strlit("schedule.create");
    reveal_strlit("schedule.delete");
    reveal_strlit("schedule.search");
    reveal_strlit("debug.start");
    reveal_strlit("debug.stop");
    reveal_strlit("debug.reset");
    reveal_strlit("debug.snap");
    reveal_strlit("debug.tick");
    assert("promise.get"@.len() == 11);
    assert("promise.create"@.len() == 14);
    assert("promise.settle"@.len() == 14);
    assert("promise.register_callback"@.len() == 25);
    assert("promise.register_listener"@.len() == 25);
    assert("promise.search"@.len() == 14);
    assert("task.get"@.len() == 8);
    assert("task.create"@.len() == 11);
    assert("task.acquire"@.len() == 12);
    assert("task.release"@.len() == 12);
    assert("task.fulfill"@.len() == 12);
    assert("task.suspend"@.len() == 12);
    assert("task.fence"@.len() == 10);
    assert("task.heartbeat"@.len() == 14);
    assert("task.halt"@.len() == 9);
    assert("task.continue"@.len() == 13);
    assert("task.search"@.len() == 11);
    assert("schedule.get"@.len() == 12);
    assert("schedule.create"@.len() == 15);
    assert("schedule.delete"@.len() == 15);
    assert("schedule.search"@.len() == 15);
    assert("debug.start"@.len() == 11);
    assert("debug.stop"@.len() == 10);
    assert("debug.reset"@.len() == 11);
    assert("debug.snap"@.len() == 10);
    assert("debug.tick"@.len() == 10);
    assert("promise.get"@[0] != "task.create"@[0]);
    assert("promise.get"@[0] != "task.search"@[0]);
    assert("promise.get"@[0] != "debug.start"@[0]);
    assert("promise.get"@[0] != "debug.reset"@[0]);
    assert("promise.create"@[8] != "promise.settle"@[8]);
    assert("promise.create"@[8] != "promise.search"@[8]);
    assert("promise.create"@[0] != "task.heartbeat"@[0]);
    assert("promise.settle"@[10] != "promise.search"@[10]);
    assert("promise.settle"@[0] != "task.heartbeat"@[0]);
    assert("promise.register_callback"@[17] != "promise.register_listener"@[17]);
    assert("promise.search"@[0] != "task.heartbeat"@[0]);
    assert("task.create"@[5] != "task.search"@[5]);
    assert("task.create"@[0] != "debug.start"@[0]);
    assert("task.create"@[0] != "debug.reset"@[0]);
    assert("task.acquire"@[5] != "task.release"@[5]);
    assert("task.acquire"@[5] != "task.fulfill"@[5]);
    assert("task.acquire"@[5] != "task.suspend"@[5]);
    assert("task.acquire"@[0] != "schedule.get"@[0]);
    assert("task.release"@[5] != "task.fulfill"@[5]);
    assert("task.release"@[5] != "task.suspend"@[5]);
    assert("task.release"@[0] != "schedule.get"@[0]);
    assert("task.fulfill"@[5] != "task.suspend"@[5]);
    assert("task.fulfill"@[0] != "schedule.get"@[0]);
    assert("task.suspend"@[0] != "schedule.get"@[0]);
    assert("task.fence"@[0] != "debug.stop"@[0]);
    assert("task.fence"@[0] != "debug.snap"@[0]);
    assert("task.fence"@[0] != "debug.tick"@[0]);
    assert("task.search"@[0] != "debug.start"@[0]);
    assert("task.search"@[0] != "debug.reset"@[0]);
    assert("schedule.create"@[9] != "schedule.delete"@[9]);
    assert("schedule.create"@[9] != "schedule.search"@[9]);
    assert("schedule.delete"@[9] != "schedule.search"@[9]);
    assert("debug.start"@[6] != "debug.reset"@[6]);
    assert("debug.stop"@[7] != "debug.snap"@[7]);
    assert("debug.stop"@[6] != "debug.tick"@[6]);
    assert("debug.snap"@[6] != "debug.tick"@[6]);
}

/// The promise of a schedule has the tags that the schedule gives, except for those
/// that place it: it belongs to the schedule, and is the root of its own lineage.
pub proof fn lemma_scheduled_tags(
    tags: Map<Seq<char>, Seq<char>>,
    schedule_id: Seq<char>,
    promise_id: Seq<char>,
    key: Seq<char>,
)
    ensures
        ({
            let all = scheduled_tags(tags, schedule_id, promise_id);
            &&& all.contains_pair("resonate:schedule"@, schedule_id)
            &&& all.contains_pair("resonate:origin"@, promise_id)
            &&& all.contains_pair("resonate:branch"@, promise_id)
            &&& all.contains_pair("resonate:parent"@, promise_id)
            &&& all.contains_pair("resonate:prefix"@, promise_id)
            &&& key != "resonate:schedule"@ && key != "resonate:origin"@ && key
                != "resonate:branch"@ && key != "resonate:parent"@ && key != "resonate:prefix"@ ==> {
                &&& all.contains_key(key) <==> tags.contains_key(key)
                &&& tags.contains_key(key) ==> all[key] == tags[key]
            }
        }),
{
    reveal_strlit("resonate:schedule");
    reveal_strlit("resonate:origin");
    reveal_strlit("resonate:branch");
    reveal_strlit("resonate:parent");
    reveal_strlit("resonate:prefix");
    assert("resonate:schedule"@.len() == 17);
    assert("resonate:origin"@[9] == 'o');
    assert("resonate:branch"@[9] == 'b');
    assert("resonate:parent"@[9] == 'p' && "resonate:parent"@[10] == 'a');
    assert("resonate:prefix"@[9] == 'p' && "resonate:prefix"@[10] == 'r');
}

} // verus!
