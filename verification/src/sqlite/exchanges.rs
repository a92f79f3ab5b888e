//! The operations on promises and schedules over the whole of a request: what the
//! storage is asked for, in which order, and what is answered.
//!
//! Each law follows a request from its payload to its response: `s0` is the step that
//! it comes to first, `a0` the call that it then makes, `e0` the answer to that call,
//! `s1` the step that follows, and so on.
use vstd::prelude::*;

use super::address::destination_of;
use super::persistence::StorageError;
use super::server::starts;
use super::steps::{Action, Event, Pending, RequestData, Step, Ticket};
use super::types::{
    PromiseCreateData, PromiseGetData, PromiseRegisterCallbackData, PromiseRegisterListenerData,
    PromiseSearchData, PromiseSettleData, PromiseState, ResponseData, ScheduleCreateData,
    ScheduleDeleteData, ScheduleGetData, ScheduleSearchData, SettleState,
};
use crate::ids::{extends, origin};
use crate::string_map::{map_json, StringMap};
use crate::text::texts_of;

verus! {

// Steps

/// Whether a request with the payload `data` comes to `step` first.
pub open spec fn begins(t: Ticket, data: RequestData, step: Step) -> bool {
    starts(t, data, step)
}

/// Whether a request that has come to `step` makes the call `a`.
pub open spec fn asks(step: Step, a: Action) -> bool {
    step matches Step::Wait(p) && call_ensures(Pending::action, (&p,), a)
}

/// Whether a request that has come to `step` takes the answer `e`.
pub open spec fn takes(step: Step, e: Event) -> bool {
    step matches Step::Wait(p) && p.admits(e)
}

/// Whether a request that has come to `step` comes to `next` by the answer `e`.
pub open spec fn follows(step: Step, e: Event, next: Step) -> bool {
    &&& takes(step, e)
    &&& call_ensures(Pending::resume, (step->Wait_0, Ok::<Event, StorageError>(e)), next)
}

// Calls and responses

/// Whether the call settles those of the promises `ids` that have timed out.
pub open spec fn settles(a: Action, ids: Seq<Seq<char>>, now: i64) -> bool {
    &&& a matches Action::TryTimeout { ids: given, time }
    &&& time == now
    &&& given@.len() == ids.len()
    &&& forall|i: int| 0 <= i < ids.len() ==> (#[trigger] given@[i])@ == ids[i]
}

/// Whether an optional text is handed over as it is.
pub open spec fn passed(given: Option<&str>, kept: Option<String>) -> bool {
    match (given, kept) {
        (Some(g), Some(k)) => g@ == k@,
        (None, None) => true,
        _ => false,
    }
}

/// Whether an optional map is handed over as JSON.
pub open spec fn passed_map(given: Option<&str>, kept: Option<StringMap>) -> bool {
    match (given, kept) {
        (Some(g), Some(k)) => g@ == map_json(k@),
        (None, None) => true,
        _ => false,
    }
}

/// Whether the address handed over is the target that the tags name.
pub open spec fn passed_target(given: Option<&str>, tags: StringMap) -> bool {
    if tags@.contains_key("resonate:target"@) {
        given matches Some(g) && g@ == tags@["resonate:target"@]
    } else {
        given is None
    }
}

/// Whether a response has the kind and the correlation id of the request, and this
/// status.
pub open spec fn responds(out: Step, t: Ticket, status: int) -> bool {
    &&& out matches Step::Done(x)
    &&& x.kind@ == t.head.kind@
    &&& x.head.corr_id@ == t.head.corr_id@
    &&& x.head.status == status
}

/// Whether the response hands out `data`.
pub open spec fn replies(out: Step, t: Ticket, status: int, data: ResponseData) -> bool {
    responds(out, t, status) && out->Done_0.data == data
}

/// Whether the response refuses the request with a message.
pub open spec fn refuses(out: Step, t: Ticket, status: int, message: Seq<char>) -> bool {
    &&& responds(out, t, status)
    &&& out->Done_0.data matches ResponseData::Text(m)
    &&& m@ == message
}

/// The word for the state of a promise.
pub open spec fn promise_word(state: PromiseState) -> Seq<char> {
    match state {
        PromiseState::Pending => "pending"@,
        PromiseState::Resolved => "resolved"@,
        PromiseState::Rejected => "rejected"@,
        PromiseState::RejectedCanceled => "rejected_canceled"@,
        PromiseState::RejectedTimedout => "rejected_timedout"@,
    }
}

/// Whether `word` is the state that a promise is asked to be settled in, and that of
/// no other way to settle it.
pub open spec fn settled_as(word: Seq<char>, state: SettleState) -> bool {
    &&& word == "resolved"@ <==> state == SettleState::Resolved
    &&& word == "rejected"@ <==> state == SettleState::Rejected
    &&& word == "rejected_canceled"@ <==> state == SettleState::RejectedCanceled
}

/// Whether these are the state and the times of a promise with the given timeout and
/// tags that is created now: it is pending until its timeout; past its timeout it is
/// settled as of then, as resolved where it is a timer and as timed out otherwise.
pub open spec fn born(
    tags: StringMap,
    timeout_at: i64,
    now: i64,
    state: Seq<char>,
    created_at: i64,
    settled_at: Option<i64>,
    already_timedout: bool,
) -> bool {
    if now < timeout_at {
        &&& state == "pending"@
        &&& created_at == now
        &&& settled_at is None
        &&& !already_timedout
    } else {
        &&& state == if tags@.contains_pair("resonate:timer"@, "true"@) {
            "resolved"@
        } else {
            "rejected_timedout"@
        }
        &&& created_at == timeout_at
        &&& settled_at == Some(timeout_at)
        &&& already_timedout
    }
}

/// Whether a promise with these tags names no target, or one that can be delivered to.
pub open spec fn deliverable(tags: StringMap) -> bool {
    tags@.contains_key("resonate:target"@) ==> destination_of(tags@["resonate:target"@]) is Some
}

/// Whether a promise with this id lies below each ancestor that its tags declare, and
/// declares an origin that could be one.
pub open spec fn lineal(id: Seq<char>, tags: StringMap) -> bool {
    &&& tags@.contains_key("resonate:origin"@) ==> {
        &&& extends(id, tags@["resonate:origin"@])
        &&& !tags@["resonate:origin"@].contains('.')
        &&& !tags@["resonate:origin"@].contains(':')
    }
    &&& tags@.contains_key("resonate:branch"@) ==> extends(id, tags@["resonate:branch"@])
    &&& tags@.contains_key("resonate:parent"@) ==> extends(id, tags@["resonate:parent"@])
}

/// The timeout call settles each of the ids that it is stated for.
pub proof fn lemma_settles(a: Action, ids: Seq<Seq<char>>, now: i64)
    requires
        a.is_try_timeout(ids, now),
    ensures
        settles(a, ids, now),
{
    let given = a->TryTimeout_ids@;
    assert(texts_of(given).len() == ids.len());
    assert forall|i: int| 0 <= i < ids.len() implies (#[trigger] given[i])@ == ids[i] by {
        assert(texts_of(given)[i] == given[i]@);
    }
}

/// The words for the ways to settle a promise tell them apart.
pub proof fn lemma_settled_as(state: SettleState)
    ensures
        settled_as(state.name(), state),
{
    reveal_strlit("resolved");
    reveal_strlit("rejected");
    reveal_strlit("rejected_canceled");
    assert("resolved"@[2] == 's' && "rejected"@[2] == 'j');
    assert("rejected"@.len() == 8 && "rejected_canceled"@.len() == 17 && "resolved"@.len() == 8);
}

// Promises

/// `promise.get` settles the promise if it has timed out, reads it, and answers with
/// it, or that there is none.
pub proof fn lemma_promise_get(
    t: Ticket,
    r: PromiseGetData,
    s0: Step,
    a0: Action,
    e0: Event,
    s1: Step,
    a1: Action,
    e1: Event,
    s2: Step,
)
    requires
        begins(t, RequestData::PromiseGet(r), s0),
    ensures
        s0 is Wait,
        asks(s0, a0) ==> settles(a0, seq![r.id@], t.now),
        takes(s0, e0) <==> e0 is Done,
        follows(s0, e0, s1) ==> {
            &&& s1 is Wait
            &&& asks(s1, a1) ==> (a1 matches Action::PromiseGet { id } && id@ == r.id@)
            &&& takes(s1, e1) <==> e1 is Promise
            &&& follows(s1, e1, s2) ==> match e1->Promise_0 {
                Some(p) => replies(s2, t, 200, ResponseData::Promise(p)),
                None => refuses(s2, t, 404, "Promise not found"@),
            }
        },
{
    if asks(s0, a0) {
        lemma_settles(a0, seq![r.id@], t.now);
    }
}

/// `promise.create` refuses a promise that cannot be delivered or that lies outside
/// the lineage that it declares. Otherwise the storage is asked to create the very
/// promise that was requested, with its argument, tags and timeout, and the answer is
/// the promise that it reports, created or not.
pub proof fn lemma_promise_create(
    t: Ticket,
    r: PromiseCreateData,
    s0: Step,
    a0: Action,
    e0: Event,
    s1: Step,
    a1: Action,
    e1: Event,
    s2: Step,
)
    requires
        begins(t, RequestData::PromiseCreate(r), s0),
    ensures
        s0 is Wait <==> deliverable(r.tags) && lineal(r.id@, r.tags),
        !deliverable(r.tags) ==> refuses(s0, t, 400, "Invalid resonate:target address"@),
        !lineal(r.id@, r.tags) ==> responds(s0, t, 400),
        asks(s0, a0) ==> settles(a0, seq![r.id@], t.now),
        takes(s0, e0) <==> s0 is Wait && e0 is Done,
        follows(s0, e0, s1) ==> {
            &&& s1 is Wait
            &&& asks(s1, a1) ==> {
                &&& a1 matches Action::PromiseCreate(p)
                &&& p.id@ == r.id@
                &&& passed_map(p.param_headers, r.param.headers)
                &&& passed(p.param_data, r.param.data)
                &&& p.tags@ == map_json(r.tags@)
                &&& p.timeout_at == r.timeout_at
                &&& born(
                    r.tags,
                    r.timeout_at,
                    t.now,
                    p.state@,
                    p.created_at,
                    p.settled_at,
                    p.already_timedout,
                )
                &&& passed_target(p.address, r.tags)
            }
            &&& takes(s1, e1) <==> e1 is PromiseCreated
            &&& follows(s1, e1, s2) ==> replies(
                s2,
                t,
                200,
                ResponseData::Promise(e1->PromiseCreated_0.promise),
            )
        },
{
    if asks(s0, a0) {
        lemma_settles(a0, seq![r.id@], t.now);
    }
}

/// A promise that the storage is asked to create as pending has its timeout still
/// ahead, and one that it is asked to create as settled is settled at its timeout,
/// which has passed.
pub proof fn lemma_pending_is_ahead(
    t: Ticket,
    r: PromiseCreateData,
    s0: Step,
    e0: Event,
    s1: Step,
    a1: Action,
)
    requires
        begins(t, RequestData::PromiseCreate(r), s0),
        follows(s0, e0, s1),
        asks(s1, a1),
    ensures
        a1 matches Action::PromiseCreate(p) && (p.state@ == "pending"@ <==> p.timeout_at > t.now)
            && (p.settled_at matches Some(at) ==> at == p.timeout_at && at <= t.now) && (
        p.state@ == "pending"@ <==> p.settled_at is None),
{
    lemma_promise_create(t, r, s0, a1, e0, s1, a1, e0, s1);
    reveal_strlit("pending");
    reveal_strlit("resolved");
    reveal_strlit("rejected_timedout");
    assert("pending"@[0] == 'p' && "resolved"@[0] == 'r' && "rejected_timedout"@[0] == 'r');
}

/// `promise.settle` asks the storage to settle the promise in the state, and with the
/// value, that was requested, and answers with the promise that it reports, which is
/// settled.
pub proof fn lemma_promise_settle(
    t: Ticket,
    r: PromiseSettleData,
    s0: Step,
    a0: Action,
    e0: Event,
    s1: Step,
    a1: Action,
    e1: Event,
    s2: Step,
)
    requires
        begins(t, RequestData::PromiseSettle(r), s0),
    ensures
        s0 is Wait,
        asks(s0, a0) ==> settles(a0, seq![r.id@], t.now),
        takes(s0, e0) <==> e0 is Done,
        follows(s0, e0, s1) ==> {
            &&& s1 is Wait
            &&& asks(s1, a1) ==> {
                &&& a1 matches Action::PromiseSettle(p)
                &&& p.id@ == r.id@
                &&& settled_as(p.state@, r.state)
                &&& passed_map(p.value_headers, r.value.headers)
                &&& passed(p.value_data, r.value.data)
                &&& p.settled_at == t.now
            }
            &&& takes(s1, e1) <==> (e1 matches Event::PromiseSettled(x) && (
            x.promise matches Some(p) ==> p.state != PromiseState::Pending))
            &&& follows(s1, e1, s2) ==> match e1->PromiseSettled_0.promise {
                Some(p) => replies(s2, t, 200, ResponseData::Promise(p)),
                None => refuses(s2, t, 404, "Promise not found"@),
            }
        },
{
    lemma_settled_as(r.state);
    if asks(s0, a0) {
        lemma_settles(a0, seq![r.id@], t.now);
    }
}

/// `promise.register_callback` stays within one origin. The storage is asked to resume
/// the awaiter when the awaited promise settles; the answer is the awaited promise,
/// provided that both exist and that the awaiter has a target.
pub proof fn lemma_promise_register_callback(
    t: Ticket,
    r: PromiseRegisterCallbackData,
    s0: Step,
    a0: Action,
    e0: Event,
    s1: Step,
    a1: Action,
    e1: Event,
    s2: Step,
)
    requires
        begins(t, RequestData::PromiseRegisterCallback(r), s0),
    ensures
        s0 is Wait <==> origin(r.awaited@) == origin(r.awaiter@),
        s0 is Done ==> refuses(s0, t, 400, "Awaiter and awaited promise must share one origin"@),
        asks(s0, a0) ==> settles(a0, seq![r.awaited@, r.awaiter@], t.now),
        takes(s0, e0) <==> s0 is Wait && e0 is Done,
        follows(s0, e0, s1) ==> {
            &&& s1 is Wait
            &&& asks(s1, a1) ==> (a1 matches Action::PromiseRegisterCallback {
                awaited,
                awaiter,
                time,
            } && awaited@ == r.awaited@ && awaiter@ == r.awaiter@ && time == t.now)
            &&& takes(s1, e1) <==> e1 is CallbackRegistered
            &&& follows(s1, e1, s2) ==> {
                let x = e1->CallbackRegistered_0;
                if x.awaited is None {
                    refuses(s2, t, 404, "Awaited promise not found"@)
                } else if x.awaiter is None {
                    refuses(s2, t, 422, "Awaiter promise not found"@)
                } else if !x.awaiter->Some_0.tags@.contains_key("resonate:target"@) {
                    refuses(s2, t, 422, "Awaiter promise has no resonate:target tag"@)
                } else {
                    replies(s2, t, 200, ResponseData::Promise(x.awaited->Some_0))
                }
            }
        },
{
    if asks(s0, a0) {
        lemma_settles(a0, seq![r.awaited@, r.awaiter@], t.now);
    }
}

/// `promise.register_listener` refuses an address that cannot be delivered to.
/// Otherwise the storage is asked to tell the address when the awaited promise
/// settles, and the answer is that promise, or that there is none.
pub proof fn lemma_promise_register_listener(
    t: Ticket,
    r: PromiseRegisterListenerData,
    s0: Step,
    a0: Action,
    e0: Event,
    s1: Step,
    a1: Action,
    e1: Event,
    s2: Step,
)
    requires
        begins(t, RequestData::PromiseRegisterListener(r), s0),
    ensures
        s0 is Wait <==> destination_of(r.address@) is Some,
        s0 is Done ==> refuses(s0, t, 400, "Invalid listener address"@),
        asks(s0, a0) ==> settles(a0, seq![r.awaited@], t.now),
        takes(s0, e0) <==> s0 is Wait && e0 is Done,
        follows(s0, e0, s1) ==> {
            &&& s1 is Wait
            &&& asks(s1, a1) ==> (a1 matches Action::PromiseRegisterListener { awaited, address }
                && awaited@ == r.awaited@ && address@ == r.address@)
            &&& takes(s1, e1) <==> e1 is Promise
            &&& follows(s1, e1, s2) ==> match e1->Promise_0 {
                Some(p) => replies(s2, t, 200, ResponseData::Promise(p)),
                None => refuses(s2, t, 404, "Awaited promise not found"@),
            }
        },
{
    if asks(s0, a0) {
        lemma_settles(a0, seq![r.awaited@], t.now);
    }
}

// Searches

/// Whether `items` are the first `limit` of those found, or all where there are no
/// more or the limit is negative.
pub open spec fn first_of<T>(items: Seq<T>, found: Seq<T>, limit: int) -> bool {
    &&& items.len() == if 0 <= limit < found.len() {
        limit
    } else {
        found.len() as int
    }
    &&& forall|i: int| 0 <= i < items.len() ==> #[trigger] items[i] == found[i]
}

/// `promise.search` asks for at most a thousand promises, and for a hundred where it
/// does not say. The storage is asked for one more, to see whether there is a next
/// page; the answer holds the first of those found, in order, and names the last of
/// them as the cursor exactly where more were found.
pub proof fn lemma_promise_search(
    t: Ticket,
    r: PromiseSearchData,
    s0: Step,
    a0: Action,
    e0: Event,
    s1: Step,
)
    requires
        begins(t, RequestData::PromiseSearch(r), s0),
    ensures
        s0 is Wait <==> !(r.limit matches Some(n) && n > 1000),
        s0 is Done ==> refuses(s0, t, 400, "Invalid 'limit' — must be between 1 and 1000"@),
        ({
            let limit: int = match r.limit {
                Some(n) => n as int,
                None => 100,
            };
            &&& asks(s0, a0) ==> {
                &&& a0 matches Action::PromiseSearch { state, tags, cursor, limit: given }
                &&& match (state, r.state) {
                    (Some(word), Some(s)) => word@ == promise_word(s),
                    (None, None) => true,
                    _ => false,
                }
                &&& passed_map(tags, r.tags)
                &&& passed(cursor, r.cursor)
                &&& given == limit + 1
            }
            &&& takes(s0, e0) <==> s0 is Wait && e0 is Promises
            &&& follows(s0, e0, s1) ==> {
                let found = e0->Promises_0@;
                &&& responds(s1, t, 200)
                &&& s1->Done_0.data matches ResponseData::Promises { promises, cursor }
                &&& first_of(promises@, found, limit)
                &&& cursor is Some <==> found.len() > limit && promises@.len() > 0
                &&& cursor matches Some(c) ==> c == promises@[promises@.len() - 1].id
            }
        }),
{
}

// Schedules

/// `schedule.get` reads the schedule and answers with it, or that there is none.
pub proof fn lemma_schedule_get(
    t: Ticket,
    r: ScheduleGetData,
    s0: Step,
    a0: Action,
    e0: Event,
    s1: Step,
)
    requires
        begins(t, RequestData::ScheduleGet(r), s0),
    ensures
        s0 is Wait,
        asks(s0, a0) ==> (a0 matches Action::ScheduleGet { id } && id@ == r.id@),
        takes(s0, e0) <==> e0 is Schedule,
        follows(s0, e0, s1) ==> match e0->Schedule_0 {
            Some(s) => replies(s1, t, 200, ResponseData::Schedule(s)),
            None => refuses(s1, t, 404, "Schedule not found"@),
        },
{
}

/// `schedule.create` refuses an invalid cron expression. Otherwise the storage is asked
/// to keep the very schedule that was requested, with the argument, tags and timeout of
/// its promises, to run next at the first time after now that the expression names; the
/// answer is the schedule that it reports.
pub proof fn lemma_schedule_create(
    t: Ticket,
    r: ScheduleCreateData,
    s0: Step,
    a0: Action,
    e0: Event,
    s1: Step,
    a1: Action,
    e1: Event,
    s2: Step,
    a2: Action,
    e2: Event,
    s3: Step,
)
    requires
        begins(t, RequestData::ScheduleCreate(r), s0),
    ensures
        s0 is Wait,
        asks(s0, a0) ==> (a0 matches Action::IsValidCron { cron } && cron@ == r.cron@),
        takes(s0, e0) <==> e0 is CronValid,
        follows(s0, e0, s1) ==> {
            &&& s1 is Wait <==> e0 == Event::CronValid(true)
            &&& s1 is Done ==> refuses(s1, t, 400, "Invalid cron expression"@)
            &&& asks(s1, a1) ==> (a1 matches Action::NextCron { cron, after } && cron@ == r.cron@
                && after == t.now)
            &&& takes(s1, e1) <==> s1 is Wait && e1 is NextCron
            &&& follows(s1, e1, s2) ==> {
                &&& s2 is Wait
                &&& asks(s2, a2) ==> {
                    &&& a2 matches Action::ScheduleCreate(p)
                    &&& p.id@ == r.id@
                    &&& p.cron@ == r.cron@
                    &&& p.promise_id@ == r.promise_id@
                    &&& p.promise_timeout == r.promise_timeout
                    &&& passed_map(p.promise_param_headers, r.promise_param.headers)
                    &&& passed(p.promise_param_data, r.promise_param.data)
                    &&& p.promise_tags@ == map_json(r.promise_tags@)
                    &&& p.created_at == t.now
                    &&& p.next_run_at == e1->NextCron_0
                }
                &&& takes(s2, e2) <==> e2 is ScheduleCreated
                &&& follows(s2, e2, s3) ==> replies(
                    s3,
                    t,
                    200,
                    ResponseData::Schedule(e2->ScheduleCreated_0),
                )
            }
        },
{
}

/// `schedule.delete` deletes the schedule, and answers whether there was one.
pub proof fn lemma_schedule_delete(
    t: Ticket,
    r: ScheduleDeleteData,
    s0: Step,
    a0: Action,
    e0: Event,
    s1: Step,
)
    requires
        begins(t, RequestData::ScheduleDelete(r), s0),
    ensures
        s0 is Wait,
        asks(s0, a0) ==> (a0 matches Action::ScheduleDelete { id } && id@ == r.id@),
        takes(s0, e0) <==> e0 is ScheduleDeleted,
        follows(s0, e0, s1) ==> if e0->ScheduleDeleted_0 {
            replies(s1, t, 200, ResponseData::Empty)
        } else {
            refuses(s1, t, 404, "Schedule not found"@)
        },
{
}

/// `schedule.search` asks for at most a thousand schedules, and for ten where it does
/// not say; otherwise it pages as a search for promises does, but for a negative limit,
/// which has no next page.
pub proof fn lemma_schedule_search(
    t: Ticket,
    r: ScheduleSearchData,
    s0: Step,
    a0: Action,
    e0: Event,
    s1: Step,
)
    requires
        begins(t, RequestData::ScheduleSearch(r), s0),
    ensures
        s0 is Wait <==> !(r.limit matches Some(n) && n > 1000),
        s0 is Done ==> refuses(s0, t, 400, "Invalid 'limit' — must be between 1 and 1000"@),
        ({
            let limit: int = match r.limit {
                Some(n) => n as int,
                None => 10,
            };
            &&& asks(s0, a0) ==> {
                &&& a0 matches Action::ScheduleSearch { tags, cursor, limit: given }
                &&& passed_map(tags, r.tags)
                &&& passed(cursor, r.cursor)
                &&& given == limit + 1
            }
            &&& takes(s0, e0) <==> s0 is Wait && e0 is Schedules
            &&& follows(s0, e0, s1) ==> {
                let found = e0->Schedules_0@;
                &&& responds(s1, t, 200)
                &&& s1->Done_0.data matches ResponseData::Schedules { schedules, cursor }
                &&& first_of(schedules@, found, limit)
                &&& cursor is Some <==> 0 < limit < found.len()
                &&& cursor matches Some(c) ==> c == schedules@[schedules@.len() - 1].id
            }
        }),
{
}

/// An answer is accepted exactly where a request takes it.
pub proof fn lemma_accepted(p: Pending, e: Event, accepted: bool)
    requires
        call_ensures(Pending::accepts, (&p, &e), accepted),
    ensures
        accepted <==> takes(Step::Wait(p), e),
{
}

/// Two requests to create a schedule whose arguments differ lead to calls that differ in
/// them: where the storage is handed the same argument, the same one was sent.
pub proof fn lemma_schedules_are_told_apart(
    t: Ticket,
    r: ScheduleCreateData,
    s0: Step,
    e0: Event,
    s1: Step,
    e1: Event,
    s2: Step,
    a: Action,
    u: Ticket,
    q: ScheduleCreateData,
    z0: Step,
    d0: Event,
    z1: Step,
    d1: Event,
    z2: Step,
    b: Action,
)
    requires
        begins(t, RequestData::ScheduleCreate(r), s0),
        follows(s0, e0, s1),
        follows(s1, e1, s2),
        asks(s2, a),
        begins(u, RequestData::ScheduleCreate(q), z0),
        follows(z0, d0, z1),
        follows(z1, d1, z2),
        asks(z2, b),
    ensures
        a is ScheduleCreate,
        b is ScheduleCreate,
        a->ScheduleCreate_0.promise_param_data is Some <==> r.promise_param.data is Some,
        b->ScheduleCreate_0.promise_param_data is Some <==> q.promise_param.data is Some,
        r.promise_param.data is Some && q.promise_param.data is Some ==> (
        a->ScheduleCreate_0.promise_param_data->Some_0@
            == b->ScheduleCreate_0.promise_param_data->Some_0@ <==> r.promise_param.data->Some_0@
            == q.promise_param.data->Some_0@),
        a->ScheduleCreate_0.cron@ == b->ScheduleCreate_0.cron@ <==> r.cron@ == q.cron@,
{
    lemma_schedule_create(t, r, s0, a, e0, s1, a, e1, s2, a, e1, s2);
    lemma_schedule_create(u, q, z0, b, d0, z1, b, d1, z2, b, d1, z2);
}

} // verus!
