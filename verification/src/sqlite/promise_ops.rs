//! The operations on promises.
use vstd::prelude::*;
use vstd::string::*;

use super::address::{destination_of, is_valid_address};
use super::persistence::{PromiseCreateParams, PromiseSettleParams};
use super::steps::{Action, Event, Step, Ticket, Wait};
use super::types::{
    PromiseCreateData, PromiseGetData, PromiseRegisterCallbackData, PromiseRegisterListenerData,
    PromiseSearchData, PromiseSettleData, PromiseState, ResponseData,
};
use crate::ids::{
    extends, extends_id, has_separator, holds_separator, same_origin, share_origin,
};
use crate::string_map::{map_json, optional_json, optional_map_json, StringMap};
use crate::text::{borrowed, optional_str, optional_text, same_text, texts_of};

verus! {

// promise.get

/// Where `promise.get` stands.
#[derive(Debug)]
pub enum PromiseGetWait {
    Timeout(PromiseGetData),
    Read(PromiseGetData),
}

/// Answer with a promise: settle it first if it has timed out.
pub fn op_promise_get(t: Ticket, r: PromiseGetData) -> (out: Step)
    ensures
        out.waits(t, Wait::PromiseGet(PromiseGetWait::Timeout(r))),
{
    t.wait(Wait::PromiseGet(PromiseGetWait::Timeout(r)))
}

impl PromiseGetWait {
    /// The call that is waited for.
    pub open spec fn calls(self, t: Ticket, a: Action) -> bool {
        match self {
            PromiseGetWait::Timeout(r) => a.is_try_timeout(seq![r.id@], t.now),
            PromiseGetWait::Read(r) => a matches Action::PromiseGet { id } && id@ == r.id@,
        }
    }

    /// The answers to that call.
    pub open spec fn admits(self, e: Event) -> bool {
        match self {
            PromiseGetWait::Timeout(_) => e is Done,
            PromiseGetWait::Read(_) => e is Promise,
        }
    }

    /// What follows from an answer.
    pub open spec fn next(self, t: Ticket, e: Event, out: Step) -> bool {
        match (self, e) {
            (PromiseGetWait::Timeout(r), _) => out.waits(
                t,
                Wait::PromiseGet(PromiseGetWait::Read(r)),
            ),
            (_, Event::Promise(Some(p))) => out.is_reply(t, 200, ResponseData::Promise(p)),
            _ => out.is_error(t, 404, "Promise not found"@),
        }
    }

    pub fn action<'a>(&'a self, t: &Ticket) -> (a: Action<'a>)
        ensures
            self.calls(*t, a),
    {
        match self {
            PromiseGetWait::Timeout(r) => try_timeout(r.id.as_str(), t.now),
            PromiseGetWait::Read(r) => Action::PromiseGet { id: r.id.as_str() },
        }
    }

    pub fn accepts(&self, e: &Event) -> (admitted: bool)
        ensures
            admitted == self.admits(*e),
    {
        match (self, e) {
            (PromiseGetWait::Timeout(_), Event::Done) => true,
            (PromiseGetWait::Read(_), Event::Promise(_)) => true,
            _ => false,
        }
    }

    pub fn resume(self, t: Ticket, e: Event) -> (out: Step)
        requires
            self.admits(e),
        ensures
            self.next(t, e, out),
    {
        match (self, e) {
            (PromiseGetWait::Timeout(r), _) => t.wait(Wait::PromiseGet(PromiseGetWait::Read(r))),
            (_, Event::Promise(Some(p))) => t.success(ResponseData::Promise(p)),
            _ => t.error(404, "Promise not found"),
        }
    }
}

/// The call that settles one promise if it has timed out.
pub fn try_timeout<'a>(id: &'a str, time: i64) -> (a: Action<'a>)
    ensures
        a.is_try_timeout(seq![id@], time),
{
    let mut ids: Vec<&'a str> = Vec::new();
    ids.push(id);
    assert(texts_of(ids@) =~= seq![id@]);
    Action::TryTimeout { ids, time }
}

// promise.create

/// How a promise comes into being.
#[derive(Debug)]
pub struct Birth {
    pub state: PromiseState,
    pub created_at: i64,
    pub settled_at: Option<i64>,
    pub already_timedout: bool,
}

/// How a promise with these tags and this timeout comes into being at the time
/// `now`: pending, unless its timeout has passed. A promise that is born timed
/// out is settled as of its timeout: resolved where it is a timer, rejected
/// otherwise.
pub open spec fn birth_of(tags: Map<Seq<char>, Seq<char>>, timeout_at: i64, now: i64) -> Birth {
    if now >= timeout_at {
        Birth {
            state: if tags.contains_key("resonate:timer"@) && tags["resonate:timer"@] == "true"@ {
                PromiseState::Resolved
            } else {
                PromiseState::RejectedTimedout
            },
            created_at: timeout_at,
            settled_at: Some(timeout_at),
            already_timedout: true,
        }
    } else {
        Birth {
            state: PromiseState::Pending,
            created_at: now,
            settled_at: None,
            already_timedout: false,
        }
    }
}

/// How a promise with these tags and this timeout comes into being.
pub fn birth(tags: &StringMap, timeout_at: i64, now: i64) -> (b: Birth)
    ensures
        b == birth_of(tags@, timeout_at, now),
{
    if now >= timeout_at {
        let timer = match tags.get("resonate:timer") {
            Some(v) => same_text(v, "true"),
            None => false,
        };
        let state = if timer {
            PromiseState::Resolved
        } else {
            PromiseState::RejectedTimedout
        };
        Birth {
            state,
            created_at: timeout_at,
            settled_at: Some(timeout_at),
            already_timedout: true,
        }
    } else {
        Birth {
            state: PromiseState::Pending,
            created_at: now,
            settled_at: None,
            already_timedout: false,
        }
    }
}

/// The address that tags name as the target, if they name one.
pub open spec fn target_of(tags: Map<Seq<char>, Seq<char>>) -> Option<Seq<char>> {
    declared(tags, "resonate:target"@)
}

/// Whether tags name no target, or one that messages can be delivered to.
pub open spec fn target_routable(tags: Map<Seq<char>, Seq<char>>) -> bool {
    match target_of(tags) {
        Some(address) => destination_of(address) is Some,
        None => true,
    }
}

/// The address that tags name as the target, if they name one.
pub fn target(tags: &StringMap) -> (address: Option<&str>)
    ensures
        optional_str(address) == target_of(tags@),
{
    tags.get("resonate:target")
}

/// Whether tags name no target, or one that messages can be delivered to.
pub fn has_routable_target(tags: &StringMap) -> (ok: bool)
    ensures
        ok == target_routable(tags@),
{
    match target(tags) {
        Some(address) => is_valid_address(address),
        None => true,
    }
}

/// The JSON texts of the maps in a promise to be created.
#[derive(Debug)]
pub struct MapTexts {
    pub tags: String,
    pub headers: Option<String>,
}

impl MapTexts {
    /// Whether these are the texts of the tags and the parameter headers of `r`.
    pub open spec fn encode(self, r: PromiseCreateData) -> bool {
        &&& self.tags@ == map_json(r.tags@)
        &&& optional_text(self.headers) == optional_map_json(r.param.headers)
    }

    /// The texts of the tags and the parameter headers of `r`.
    pub fn of(r: &PromiseCreateData) -> (texts: MapTexts)
        ensures
            texts.encode(*r),
    {
        MapTexts { tags: r.tags.to_json(), headers: optional_json(&r.param.headers) }
    }
}

/// Where `promise.create` stands.
#[derive(Debug)]
pub enum PromiseCreateWait {
    Timeout(PromiseCreateData),
    Store(PromiseCreateData, MapTexts),
}

/// What a tag declares, if it is there.
pub open spec fn declared(tags: Map<Seq<char>, Seq<char>>, key: Seq<char>) -> Option<Seq<char>> {
    if tags.contains_key(key) {
        Some(tags[key])
    } else {
        None
    }
}

/// Whether an id extends what a tag declares, if it declares anything.
pub open spec fn extends_declared(
    id: Seq<char>,
    tags: Map<Seq<char>, Seq<char>>,
    key: Seq<char>,
) -> bool {
    declared(tags, key) matches Some(ancestor) ==> extends(id, ancestor)
}

/// Why a promise with this id cannot have these tags, if it cannot: a declared
/// origin is free of separators, and the id extends the origin, the branch and the
/// parent that are declared.
pub open spec fn lineage_fault(id: Seq<char>, tags: Map<Seq<char>, Seq<char>>) -> Option<
    Seq<char>,
> {
    if declared(tags, "resonate:origin"@) matches Some(o) && has_separator(o) {
        Some("Invalid resonate:origin: it must not contain a lineage separator"@)
    } else if !extends_declared(id, tags, "resonate:origin"@) {
        Some("Promise id does not extend its resonate:origin"@)
    } else if !extends_declared(id, tags, "resonate:branch"@) {
        Some("Promise id does not extend its resonate:branch"@)
    } else if !extends_declared(id, tags, "resonate:parent"@) {
        Some("Promise id does not extend its resonate:parent"@)
    } else {
        None
    }
}

/// Whether `id` extends what a tag declares, if it declares anything.
fn id_extends_declared(id: &str, tags: &StringMap, key: &str) -> (ok: bool)
    ensures
        ok == extends_declared(id@, tags@, key@),
{
    match tags.get(key) {
        Some(ancestor) => extends_id(id, ancestor),
        None => true,
    }
}

/// Why a promise with this id cannot have these tags, if it cannot.
pub fn lineage_error(id: &str, tags: &StringMap) -> (fault: Option<&'static str>)
    ensures
        optional_str(fault) == lineage_fault(id@, tags@),
{
    let separated = match tags.get("resonate:origin") {
        Some(o) => holds_separator(o),
        None => false,
    };
    if separated {
        Some("Invalid resonate:origin: it must not contain a lineage separator")
    } else if !id_extends_declared(id, tags, "resonate:origin") {
        Some("Promise id does not extend its resonate:origin")
    } else if !id_extends_declared(id, tags, "resonate:branch") {
        Some("Promise id does not extend its resonate:branch")
    } else if !id_extends_declared(id, tags, "resonate:parent") {
        Some("Promise id does not extend its resonate:parent")
    } else {
        None
    }
}

/// Why a request to create a promise is refused, if it is, given whether the target
/// of the promise is routable.
pub open spec fn create_fault(r: PromiseCreateData, routable: bool) -> Option<Seq<char>> {
    if routable {
        lineage_fault(r.id@, r.tags@)
    } else {
        Some("Invalid resonate:target address"@)
    }
}

/// Why a request to create a promise is refused, if it is, given whether the target
/// of the promise is routable.
pub fn create_error(r: &PromiseCreateData, routable: bool) -> (fault: Option<&'static str>)
    ensures
        optional_str(fault) == create_fault(*r, routable),
{
    if routable {
        lineage_error(r.id.as_str(), &r.tags)
    } else {
        Some("Invalid resonate:target address")
    }
}

/// What follows from a valid request to create a promise, given whether its
/// target is routable.
pub open spec fn create_begins(
    t: Ticket,
    r: PromiseCreateData,
    routable: bool,
    out: Step,
) -> bool {
    match create_fault(r, routable) {
        Some(why) => out.is_error(t, 400, why),
        None => out.waits(t, Wait::PromiseCreate(PromiseCreateWait::Timeout(r))),
    }
}

/// Create a promise, unless it names a target that is not routable or lies outside
/// the lineage that it declares. Creating a promise that exists answers with the
/// existing one.
pub fn op_promise_create(t: Ticket, r: PromiseCreateData) -> (out: Step)
    ensures
        create_begins(t, r, target_routable(r.tags@), out),
{
    let routable = has_routable_target(&r.tags);
    begin_promise_create(t, r, routable)
}

/// Create a promise, given whether its target is routable.
pub fn begin_promise_create(t: Ticket, r: PromiseCreateData, routable: bool) -> (out: Step)
    ensures
        create_begins(t, r, routable, out),
{
    match create_error(&r, routable) {
        Some(why) => t.error(400, why),
        None => t.wait(Wait::PromiseCreate(PromiseCreateWait::Timeout(r))),
    }
}

impl PromiseCreateWait {
    /// The call that is waited for.
    pub open spec fn calls(self, t: Ticket, a: Action) -> bool {
        match self {
            PromiseCreateWait::Timeout(r) => a.is_try_timeout(seq![r.id@], t.now),
            PromiseCreateWait::Store(r, texts) => {
                let b = birth_of(r.tags@, r.timeout_at, t.now);
                &&& a matches Action::PromiseCreate(p)
                &&& p.id@ == r.id@
                &&& p.state@ == b.state.name()
                &&& optional_str(p.param_headers) == optional_text(texts.headers)
                &&& optional_str(p.param_data) == optional_text(r.param.data)
                &&& p.tags@ == texts.tags@
                &&& p.timeout_at == r.timeout_at
                &&& p.created_at == b.created_at
                &&& p.settled_at == b.settled_at
                &&& p.already_timedout == b.already_timedout
                &&& optional_str(p.address) == target_of(r.tags@)
            },
        }
    }

    /// The answers to that call.
    pub open spec fn admits(self, e: Event) -> bool {
        match self {
            PromiseCreateWait::Timeout(_) => e is Done,
            PromiseCreateWait::Store(_, _) => e is PromiseCreated,
        }
    }

    /// What follows from an answer.
    pub open spec fn next(self, t: Ticket, e: Event, out: Step) -> bool {
        match (self, e) {
            (PromiseCreateWait::Timeout(r), _) => {
                &&& out matches Step::Wait(p)
                &&& p.ticket == t
                &&& p.wait matches Wait::PromiseCreate(PromiseCreateWait::Store(s, texts))
                &&& s == r
                &&& texts.encode(r)
            },
            (_, Event::PromiseCreated(result)) => out.is_reply(
                t,
                200,
                ResponseData::Promise(result.promise),
            ),
            _ => false,
        }
    }

    pub fn action<'a>(&'a self, t: &Ticket) -> (a: Action<'a>)
        ensures
            self.calls(*t, a),
    {
        match self {
            PromiseCreateWait::Timeout(r) => try_timeout(r.id.as_str(), t.now),
            PromiseCreateWait::Store(r, texts) => {
                let b = birth(&r.tags, r.timeout_at, t.now);
                Action::PromiseCreate(
                    PromiseCreateParams {
                        id: r.id.as_str(),
                        state: b.state.as_str(),
                        param_headers: borrowed(&texts.headers),
                        param_data: borrowed(&r.param.data),
                        tags: texts.tags.as_str(),
                        timeout_at: r.timeout_at,
                        created_at: b.created_at,
                        settled_at: b.settled_at,
                        already_timedout: b.already_timedout,
                        address: target(&r.tags),
                    },
                )
            },
        }
    }

    pub fn accepts(&self, e: &Event) -> (admitted: bool)
        ensures
            admitted == self.admits(*e),
    {
        match (self, e) {
            (PromiseCreateWait::Timeout(_), Event::Done) => true,
            (PromiseCreateWait::Store(_, _), Event::PromiseCreated(_)) => true,
            _ => false,
        }
    }

    pub fn resume(self, t: Ticket, e: Event) -> (out: Step)
        requires
            self.admits(e),
        ensures
            self.next(t, e, out),
    {
        match (self, e) {
            (PromiseCreateWait::Timeout(r), _) => {
                let texts = MapTexts::of(&r);
                t.wait(Wait::PromiseCreate(PromiseCreateWait::Store(r, texts)))
            },
            (_, Event::PromiseCreated(result)) => t.success(ResponseData::Promise(result.promise)),
            _ => vstd::pervasive::unreached(),
        }
    }
}

// promise.settle

/// Where `promise.settle` stands.
#[derive(Debug)]
pub enum PromiseSettleWait {
    Timeout(PromiseSettleData),
    /// With the JSON text of the value headers.
    Store(PromiseSettleData, Option<String>),
}

/// Settle a promise. Settling a promise that is settled answers with it as it
/// is.
pub fn op_promise_settle(t: Ticket, r: PromiseSettleData) -> (out: Step)
    ensures
        out.waits(t, Wait::PromiseSettle(PromiseSettleWait::Timeout(r))),
{
    t.wait(Wait::PromiseSettle(PromiseSettleWait::Timeout(r)))
}

impl PromiseSettleWait {
    /// The call that is waited for.
    pub open spec fn calls(self, t: Ticket, a: Action) -> bool {
        match self {
            PromiseSettleWait::Timeout(r) => a.is_try_timeout(seq![r.id@], t.now),
            PromiseSettleWait::Store(r, headers) => {
                &&& a matches Action::PromiseSettle(p)
                &&& p.id@ == r.id@
                &&& p.state@ == r.state.name()
                &&& optional_str(p.value_headers) == optional_text(headers)
                &&& optional_str(p.value_data) == optional_text(r.value.data)
                &&& p.settled_at == t.now
            },
        }
    }

    /// The answers to that call. A promise that was asked to be settled is
    /// never still pending.
    pub open spec fn admits(self, e: Event) -> bool {
        match self {
            PromiseSettleWait::Timeout(_) => e is Done,
            PromiseSettleWait::Store(_, _) => e matches Event::PromiseSettled(result) && (
            result.promise matches Some(p) ==> p.state != PromiseState::Pending),
        }
    }

    /// What follows from an answer.
    pub open spec fn next(self, t: Ticket, e: Event, out: Step) -> bool {
        match (self, e) {
            (PromiseSettleWait::Timeout(r), _) => {
                &&& out matches Step::Wait(p)
                &&& p.ticket == t
                &&& p.wait matches Wait::PromiseSettle(PromiseSettleWait::Store(s, headers))
                &&& s == r
                &&& optional_text(headers) == optional_map_json(r.value.headers)
            },
            (_, Event::PromiseSettled(result)) => match result.promise {
                Some(p) => out.is_reply(t, 200, ResponseData::Promise(p)),
                None => out.is_error(t, 404, "Promise not found"@),
            },
            _ => false,
        }
    }

    pub fn action<'a>(&'a self, t: &Ticket) -> (a: Action<'a>)
        ensures
            self.calls(*t, a),
    {
        match self {
            PromiseSettleWait::Timeout(r) => try_timeout(r.id.as_str(), t.now),
            PromiseSettleWait::Store(r, headers) => Action::PromiseSettle(
                PromiseSettleParams {
                    id: r.id.as_str(),
                    state: r.state.as_str(),
                    value_headers: borrowed(headers),
                    value_data: borrowed(&r.value.data),
                    settled_at: t.now,
                },
            ),
        }
    }

    pub fn accepts(&self, e: &Event) -> (admitted: bool)
        ensures
            admitted == self.admits(*e),
    {
        match (self, e) {
            (PromiseSettleWait::Timeout(_), Event::Done) => true,
            (PromiseSettleWait::Store(_, _), Event::PromiseSettled(result)) => match &result.promise {
                Some(p) => p.state != PromiseState::Pending,
                None => true,
            },
            _ => false,
        }
    }

    pub fn resume(self, t: Ticket, e: Event) -> (out: Step)
        requires
            self.admits(e),
        ensures
            self.next(t, e, out),
    {
        match (self, e) {
            (PromiseSettleWait::Timeout(r), _) => {
                let headers = optional_json(&r.value.headers);
                t.wait(Wait::PromiseSettle(PromiseSettleWait::Store(r, headers)))
            },
            (_, Event::PromiseSettled(result)) => match result.promise {
                Some(p) => t.success(ResponseData::Promise(p)),
                None => t.error(404, "Promise not found"),
            },
            _ => vstd::pervasive::unreached(),
        }
    }
}

// promise.register_callback

/// Where `promise.register_callback` stands.
#[derive(Debug)]
pub enum PromiseRegisterCallbackWait {
    Timeout(PromiseRegisterCallbackData),
    Store(PromiseRegisterCallbackData),
}

/// What follows from a valid request to register a callback.
pub open spec fn callback_begins(t: Ticket, r: PromiseRegisterCallbackData, out: Step) -> bool {
    if same_origin(r.awaited@, r.awaiter@) {
        out.waits(t, Wait::PromiseRegisterCallback(PromiseRegisterCallbackWait::Timeout(r)))
    } else {
        out.is_error(t, 400, "Awaiter and awaited promise must share one origin"@)
    }
}

/// Have the task of one promise resumed when another promise of the same origin
/// settles.
pub fn op_promise_register_callback(t: Ticket, r: PromiseRegisterCallbackData) -> (out: Step)
    ensures
        callback_begins(t, r, out),
{
    if share_origin(r.awaited.as_str(), r.awaiter.as_str()) {
        t.wait(Wait::PromiseRegisterCallback(PromiseRegisterCallbackWait::Timeout(r)))
    } else {
        t.error(400, "Awaiter and awaited promise must share one origin")
    }
}

impl PromiseRegisterCallbackWait {
    /// The call that is waited for.
    pub open spec fn calls(self, t: Ticket, a: Action) -> bool {
        match self {
            PromiseRegisterCallbackWait::Timeout(r) => a.is_try_timeout(
                seq![r.awaited@, r.awaiter@],
                t.now,
            ),
            PromiseRegisterCallbackWait::Store(r) => {
                &&& a matches Action::PromiseRegisterCallback { awaited, awaiter, time }
                &&& awaited@ == r.awaited@
                &&& awaiter@ == r.awaiter@
                &&& time == t.now
            },
        }
    }

    /// The answers to that call.
    pub open spec fn admits(self, e: Event) -> bool {
        match self {
            PromiseRegisterCallbackWait::Timeout(_) => e is Done,
            PromiseRegisterCallbackWait::Store(_) => e is CallbackRegistered,
        }
    }

    /// What follows from an answer.
    pub open spec fn next(self, t: Ticket, e: Event, out: Step) -> bool {
        match (self, e) {
            (PromiseRegisterCallbackWait::Timeout(r), _) => out.waits(
                t,
                Wait::PromiseRegisterCallback(PromiseRegisterCallbackWait::Store(r)),
            ),
            (_, Event::CallbackRegistered(result)) => match (result.awaited, result.awaiter) {
                (None, _) => out.is_error(t, 404, "Awaited promise not found"@),
                (Some(_), None) => out.is_error(t, 422, "Awaiter promise not found"@),
                (Some(awaited), Some(awaiter)) => if target_of(awaiter.tags@) is Some {
                    out.is_reply(t, 200, ResponseData::Promise(awaited))
                } else {
                    out.is_error(t, 422, "Awaiter promise has no resonate:target tag"@)
                },
            },
            _ => false,
        }
    }

    pub fn action<'a>(&'a self, t: &Ticket) -> (a: Action<'a>)
        ensures
            self.calls(*t, a),
    {
        match self {
            PromiseRegisterCallbackWait::Timeout(r) => {
                let mut ids: Vec<&'a str> = Vec::new();
                ids.push(r.awaited.as_str());
                ids.push(r.awaiter.as_str());
                assert(texts_of(ids@) =~= seq![r.awaited@, r.awaiter@]);
                Action::TryTimeout { ids, time: t.now }
            },
            PromiseRegisterCallbackWait::Store(r) => Action::PromiseRegisterCallback {
                awaited: r.awaited.as_str(),
                awaiter: r.awaiter.as_str(),
                time: t.now,
            },
        }
    }

    pub fn accepts(&self, e: &Event) -> (admitted: bool)
        ensures
            admitted == self.admits(*e),
    {
        match (self, e) {
            (PromiseRegisterCallbackWait::Timeout(_), Event::Done) => true,
            (PromiseRegisterCallbackWait::Store(_), Event::CallbackRegistered(_)) => true,
            _ => false,
        }
    }

    pub fn resume(self, t: Ticket, e: Event) -> (out: Step)
        requires
            self.admits(e),
        ensures
            self.next(t, e, out),
    {
        match (self, e) {
            (PromiseRegisterCallbackWait::Timeout(r), _) => t.wait(
                Wait::PromiseRegisterCallback(PromiseRegisterCallbackWait::Store(r)),
            ),
            (_, Event::CallbackRegistered(result)) => match (result.awaited, result.awaiter) {
                (None, _) => t.error(404, "Awaited promise not found"),
                (Some(_), None) => t.error(422, "Awaiter promise not found"),
                (Some(awaited), Some(awaiter)) => if awaiter.tags.contains_key("resonate:target") {
                    t.success(ResponseData::Promise(awaited))
                } else {
                    t.error(422, "Awaiter promise has no resonate:target tag")
                },
            },
            _ => vstd::pervasive::unreached(),
        }
    }
}

// promise.register_listener

/// Where `promise.register_listener` stands.
#[derive(Debug)]
pub enum PromiseRegisterListenerWait {
    Timeout(PromiseRegisterListenerData),
    Store(PromiseRegisterListenerData),
}

/// What follows from a valid request to register a listener, given whether its
/// address is routable.
pub open spec fn listener_begins(
    t: Ticket,
    r: PromiseRegisterListenerData,
    routable: bool,
    out: Step,
) -> bool {
    if routable {
        out.waits(t, Wait::PromiseRegisterListener(PromiseRegisterListenerWait::Timeout(r)))
    } else {
        out.is_error(t, 400, "Invalid listener address"@)
    }
}

/// Have an address told when a promise settles.
pub fn op_promise_register_listener(t: Ticket, r: PromiseRegisterListenerData) -> (out: Step)
    ensures
        listener_begins(t, r, destination_of(r.address@) is Some, out),
{
    let routable = is_valid_address(r.address.as_str());
    begin_register_listener(t, r, routable)
}

/// Register a listener, given whether its address is routable.
pub fn begin_register_listener(
    t: Ticket,
    r: PromiseRegisterListenerData,
    routable: bool,
) -> (out: Step)
    ensures
        listener_begins(t, r, routable, out),
{
    if routable {
        t.wait(Wait::PromiseRegisterListener(PromiseRegisterListenerWait::Timeout(r)))
    } else {
        t.error(400, "Invalid listener address")
    }
}

impl PromiseRegisterListenerWait {
    /// The call that is waited for.
    pub open spec fn calls(self, t: Ticket, a: Action) -> bool {
        match self {
            PromiseRegisterListenerWait::Timeout(r) => a.is_try_timeout(seq![r.awaited@], t.now),
            PromiseRegisterListenerWait::Store(r) => {
                &&& a matches Action::PromiseRegisterListener { awaited, address }
                &&& awaited@ == r.awaited@
                &&& address@ == r.address@
            },
        }
    }

    /// The answers to that call.
    pub open spec fn admits(self, e: Event) -> bool {
        match self {
            PromiseRegisterListenerWait::Timeout(_) => e is Done,
            PromiseRegisterListenerWait::Store(_) => e is Promise,
        }
    }

    /// What follows from an answer.
    pub open spec fn next(self, t: Ticket, e: Event, out: Step) -> bool {
        match (self, e) {
            (PromiseRegisterListenerWait::Timeout(r), _) => out.waits(
                t,
                Wait::PromiseRegisterListener(PromiseRegisterListenerWait::Store(r)),
            ),
            (_, Event::Promise(Some(p))) => out.is_reply(t, 200, ResponseData::Promise(p)),
            _ => out.is_error(t, 404, "Awaited promise not found"@),
        }
    }

    pub fn action<'a>(&'a self, t: &Ticket) -> (a: Action<'a>)
        ensures
            self.calls(*t, a),
    {
        match self {
            PromiseRegisterListenerWait::Timeout(r) => try_timeout(r.awaited.as_str(), t.now),
            PromiseRegisterListenerWait::Store(r) => Action::PromiseRegisterListener {
                awaited: r.awaited.as_str(),
                address: r.address.as_str(),
            },
        }
    }

    pub fn accepts(&self, e: &Event) -> (admitted: bool)
        ensures
            admitted == self.admits(*e),
    {
        match (self, e) {
            (PromiseRegisterListenerWait::Timeout(_), Event::Done) => true,
            (PromiseRegisterListenerWait::Store(_), Event::Promise(_)) => true,
            _ => false,
        }
    }

    pub fn resume(self, t: Ticket, e: Event) -> (out: Step)
        requires
            self.admits(e),
        ensures
            self.next(t, e, out),
    {
        match (self, e) {
            (PromiseRegisterListenerWait::Timeout(r), _) => t.wait(
                Wait::PromiseRegisterListener(PromiseRegisterListenerWait::Store(r)),
            ),
            (_, Event::Promise(Some(p))) => t.success(ResponseData::Promise(p)),
            _ => t.error(404, "Awaited promise not found"),
        }
    }
}

// promise.search

/// Where `promise.search` stands.
#[derive(Debug)]
pub enum PromiseSearchWait {
    /// With the JSON text of the tags, and how much is asked for.
    Search(PromiseSearchData, Option<String>, PageLimit),
}

/// The most that a search may ask for.
pub const MAX_LIMIT: i64 = 1000;

/// How many promises or tasks a search yields where it does not say.
pub const DEFAULT_LIMIT: i64 = 100;

/// How much a search asks for.
#[derive(Debug, Clone, Copy)]
pub struct PageLimit {
    /// The number of items on a page.
    pub page: i64,
    /// One item more, to see whether there is a next page.
    pub probe: i64,
}

/// How much a search asks for, or `None` where it asks for too much.
pub open spec fn limit_of(limit: Option<i64>, default: i64) -> Option<PageLimit> {
    match limit {
        Some(n) => if n > MAX_LIMIT {
            None
        } else {
            Some(PageLimit { page: n, probe: (n + 1) as i64 })
        },
        None => Some(PageLimit { page: default, probe: (default + 1) as i64 }),
    }
}

/// How much a search asks for, or `None` where it asks for too much.
pub fn checked_limit(limit: Option<i64>, default: i64) -> (n: Option<PageLimit>)
    requires
        default <= MAX_LIMIT,
    ensures
        n == limit_of(limit, default),
        n matches Some(l) ==> l.probe == l.page + 1,
{
    match limit {
        Some(n) => if n > MAX_LIMIT {
            None
        } else {
            Some(PageLimit { page: n, probe: n + 1 })
        },
        None => Some(PageLimit { page: default, probe: default + 1 }),
    }
}

/// The items of a page: at most `limit` of those found. A negative limit is no
/// limit.
pub open spec fn page_of<T>(found: Seq<T>, limit: i64) -> Seq<T> {
    if 0 <= limit < found.len() {
        found.take(limit as int)
    } else {
        found
    }
}

/// Cut what was found down to a page.
pub fn page<T>(found: Vec<T>, limit: i64) -> (items: Vec<T>)
    ensures
        items@ == page_of(found@, limit),
{
    let mut items = found;
    if 0 <= limit && (limit as u64) < items.len() as u64 {
        items.truncate(limit as usize);
    }
    items
}

/// What follows from a valid request to search for promises.
pub open spec fn promise_search_begins(t: Ticket, r: PromiseSearchData, out: Step) -> bool {
    match limit_of(r.limit, DEFAULT_LIMIT) {
        None => out.is_error(t, 400, "Invalid 'limit' — must be between 1 and 1000"@),
        Some(limit) => {
            &&& out matches Step::Wait(p)
            &&& p.ticket == t
            &&& p.wait matches Wait::PromiseSearch(PromiseSearchWait::Search(s, tags, n))
            &&& s == r
            &&& optional_text(tags) == optional_map_json(r.tags)
            &&& n == limit
        },
    }
}

/// Search for promises.
pub fn op_promise_search(t: Ticket, r: PromiseSearchData) -> (out: Step)
    ensures
        promise_search_begins(t, r, out),
{
    match checked_limit(r.limit, DEFAULT_LIMIT) {
        None => t.error(400, "Invalid 'limit' — must be between 1 and 1000"),
        Some(limit) => {
            let tags = optional_json(&r.tags);
            t.wait(Wait::PromiseSearch(PromiseSearchWait::Search(r, tags, limit)))
        },
    }
}

impl PromiseSearchWait {
    /// The call that is waited for: it asks for one promise more than the page
    /// holds, to see whether there are more.
    pub open spec fn calls(self, t: Ticket, a: Action) -> bool {
        match self {
            PromiseSearchWait::Search(r, tags, n) => {
                &&& a matches Action::PromiseSearch { state, tags: given, cursor, limit }
                &&& optional_str(state) == match r.state {
                    Some(s) => Some(s.name()),
                    None => None,
                }
                &&& optional_str(given) == optional_text(tags)
                &&& optional_str(cursor) == optional_text(r.cursor)
                &&& limit == n.probe
            },
        }
    }

    /// The answers to that call.
    pub open spec fn admits(self, e: Event) -> bool {
        e is Promises
    }

    /// What follows from an answer: a page of the promises found, and the id of
    /// the last one as the cursor where more were found than asked for.
    pub open spec fn next(self, t: Ticket, e: Event, out: Step) -> bool {
        match (self, e) {
            (PromiseSearchWait::Search(_, _, n), Event::Promises(found)) => {
                let items = page_of(found@, n.page);
                &&& out matches Step::Done(r)
                &&& r.is_headed(t.head.kind@, t.head.corr_id@, 200)
                &&& r.data matches ResponseData::Promises { promises, cursor }
                &&& promises@ == items
                &&& cursor == if found@.len() > n.page && items.len() > 0 {
                    Some(items.last().id)
                } else {
                    None
                }
            },
            _ => false,
        }
    }

    pub fn action<'a>(&'a self, t: &Ticket) -> (a: Action<'a>)
        ensures
            self.calls(*t, a),
    {
        match self {
            PromiseSearchWait::Search(r, tags, n) => {
                let state = match &r.state {
                    Some(s) => Some(s.as_str()),
                    None => None,
                };
                Action::PromiseSearch {
                    state,
                    tags: borrowed(tags),
                    cursor: borrowed(&r.cursor),
                    limit: n.probe,
                }
            },
        }
    }

    pub fn accepts(&self, e: &Event) -> (admitted: bool)
        ensures
            admitted == self.admits(*e),
    {
        match e {
            Event::Promises(_) => true,
            _ => false,
        }
    }

    pub fn resume(self, t: Ticket, e: Event) -> (out: Step)
        requires
            self.admits(e),
        ensures
            self.next(t, e, out),
    {
        match (self, e) {
            (PromiseSearchWait::Search(_, _, n), Event::Promises(found)) => {
                let more = n.page < 0 || found.len() as u64 > n.page as u64;
                let promises = page(found, n.page);
                let cursor = if more && promises.len() > 0 {
                    Some(promises[promises.len() - 1].id.clone())
                } else {
                    None
                };
                t.success(ResponseData::Promises { promises, cursor })
            },
            _ => vstd::pervasive::unreached(),
        }
    }
}

} // verus!
