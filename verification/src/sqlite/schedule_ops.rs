//! The operations on schedules.
use vstd::prelude::*;
use vstd::string::*;

use super::persistence::ScheduleCreateParams;
use super::promise_ops::{checked_limit, limit_of, page, page_of, PageLimit};
use super::steps::{Action, Event, Step, Ticket, Wait};
use super::types::{
    ResponseData, ScheduleCreateData, ScheduleDeleteData, ScheduleGetData, ScheduleSearchData,
};
use crate::string_map::{map_json, optional_json, optional_map_json};
use crate::text::{borrowed, optional_str, optional_text};

verus! {

// schedule.get

/// Where `schedule.get` stands.
#[derive(Debug)]
pub enum ScheduleGetWait {
    Read(ScheduleGetData),
}

/// Answer with a schedule.
pub fn op_schedule_get(t: Ticket, r: ScheduleGetData) -> (out: Step)
    ensures
        out.waits(t, Wait::ScheduleGet(ScheduleGetWait::Read(r))),
{
    t.wait(Wait::ScheduleGet(ScheduleGetWait::Read(r)))
}

impl ScheduleGetWait {
    /// The call that is waited for.
    pub open spec fn calls(self, t: Ticket, a: Action) -> bool {
        match self {
            ScheduleGetWait::Read(r) => a matches Action::ScheduleGet { id } && id@ == r.id@,
        }
    }

    /// The answers to that call.
    pub open spec fn admits(self, e: Event) -> bool {
        e is Schedule
    }

    /// What follows from an answer.
    pub open spec fn next(self, t: Ticket, e: Event, out: Step) -> bool {
        match e {
            Event::Schedule(Some(s)) => out.is_reply(t, 200, ResponseData::Schedule(s)),
            _ => out.is_error(t, 404, "Schedule not found"@),
        }
    }

    pub fn action<'a>(&'a self, t: &Ticket) -> (a: Action<'a>)
        ensures
            self.calls(*t, a),
    {
        match self {
            ScheduleGetWait::Read(r) => Action::ScheduleGet { id: r.id.as_str() },
        }
    }

    pub fn accepts(&self, e: &Event) -> (admitted: bool)
        ensures
            admitted == self.admits(*e),
    {
        match e {
            Event::Schedule(_) => true,
            _ => false,
        }
    }

    pub fn resume(self, t: Ticket, e: Event) -> (out: Step)
        requires
            self.admits(e),
        ensures
            self.next(t, e, out),
    {
        match e {
            Event::Schedule(Some(s)) => t.success(ResponseData::Schedule(s)),
            _ => t.error(404, "Schedule not found"),
        }
    }
}

// schedule.create

/// Where `schedule.create` stands.
#[derive(Debug)]
pub enum ScheduleCreateWait {
    Validate(ScheduleCreateData),
    NextRun(ScheduleCreateData),
    Store(ScheduleCreateData, ScheduleTexts),
}

/// What a schedule to be created is stored with: the JSON texts of its maps, and
/// the time of its first run.
#[derive(Debug)]
pub struct ScheduleTexts {
    pub tags: String,
    pub headers: Option<String>,
    pub next_run_at: i64,
}

/// Create a schedule, unless its cron expression is invalid.
pub fn op_schedule_create(t: Ticket, r: ScheduleCreateData) -> (out: Step)
    ensures
        out.waits(t, Wait::ScheduleCreate(ScheduleCreateWait::Validate(r))),
{
    t.wait(Wait::ScheduleCreate(ScheduleCreateWait::Validate(r)))
}

impl ScheduleCreateWait {
    /// The call that is waited for.
    pub open spec fn calls(self, t: Ticket, a: Action) -> bool {
        match self {
            ScheduleCreateWait::Validate(r) => a matches Action::IsValidCron { cron } && cron@
                == r.cron@,
            ScheduleCreateWait::NextRun(r) => a matches Action::NextCron { cron, after } && cron@
                == r.cron@ && after == t.now,
            ScheduleCreateWait::Store(r, texts) => {
                &&& a matches Action::ScheduleCreate(p)
                &&& p.id@ == r.id@
                &&& p.cron@ == r.cron@
                &&& p.promise_id@ == r.promise_id@
                &&& p.promise_timeout == r.promise_timeout
                &&& optional_str(p.promise_param_headers) == optional_text(texts.headers)
                &&& optional_str(p.promise_param_data) == optional_text(r.promise_param.data)
                &&& p.promise_tags@ == texts.tags@
                &&& p.created_at == t.now
                &&& p.next_run_at == texts.next_run_at
            },
        }
    }

    /// The answers to that call.
    pub open spec fn admits(self, e: Event) -> bool {
        match self {
            ScheduleCreateWait::Validate(_) => e is CronValid,
            ScheduleCreateWait::NextRun(_) => e is NextCron,
            ScheduleCreateWait::Store(_, _) => e is ScheduleCreated,
        }
    }

    /// What follows from an answer.
    pub open spec fn next(self, t: Ticket, e: Event, out: Step) -> bool {
        match (self, e) {
            (ScheduleCreateWait::Validate(r), Event::CronValid(valid)) => if valid {
                out.waits(t, Wait::ScheduleCreate(ScheduleCreateWait::NextRun(r)))
            } else {
                out.is_error(t, 400, "Invalid cron expression"@)
            },
            (ScheduleCreateWait::NextRun(r), Event::NextCron(next_run_at)) => {
                &&& out matches Step::Wait(p)
                &&& p.ticket == t
                &&& p.wait matches Wait::ScheduleCreate(ScheduleCreateWait::Store(s, texts))
                &&& s == r
                &&& texts.tags@ == map_json(r.promise_tags@)
                &&& optional_text(texts.headers) == optional_map_json(r.promise_param.headers)
                &&& texts.next_run_at == next_run_at
            },
            (ScheduleCreateWait::Store(_, _), Event::ScheduleCreated(s)) => out.is_reply(
                t,
                200,
                ResponseData::Schedule(s),
            ),
            _ => false,
        }
    }

    pub fn action<'a>(&'a self, t: &Ticket) -> (a: Action<'a>)
        ensures
            self.calls(*t, a),
    {
        match self {
            ScheduleCreateWait::Validate(r) => Action::IsValidCron { cron: r.cron.as_str() },
            ScheduleCreateWait::NextRun(r) => Action::NextCron {
                cron: r.cron.as_str(),
                after: t.now,
            },
            ScheduleCreateWait::Store(r, texts) => Action::ScheduleCreate(
                ScheduleCreateParams {
                    id: r.id.as_str(),
                    cron: r.cron.as_str(),
                    promise_id: r.promise_id.as_str(),
                    promise_timeout: r.promise_timeout,
                    promise_param_headers: borrowed(&texts.headers),
                    promise_param_data: borrowed(&r.promise_param.data),
                    promise_tags: texts.tags.as_str(),
                    created_at: t.now,
                    next_run_at: texts.next_run_at,
                },
            ),
        }
    }

    pub fn accepts(&self, e: &Event) -> (admitted: bool)
        ensures
            admitted == self.admits(*e),
    {
        match (self, e) {
            (ScheduleCreateWait::Validate(_), Event::CronValid(_)) => true,
            (ScheduleCreateWait::NextRun(_), Event::NextCron(_)) => true,
            (ScheduleCreateWait::Store(_, _), Event::ScheduleCreated(_)) => true,
            _ => false,
        }
    }

    pub fn resume(self, t: Ticket, e: Event) -> (out: Step)
        requires
            self.admits(e),
        ensures
            self.next(t, e, out),
    {
        match (self, e) {
            (ScheduleCreateWait::Validate(r), Event::CronValid(valid)) => if valid {
                t.wait(Wait::ScheduleCreate(ScheduleCreateWait::NextRun(r)))
            } else {
                t.error(400, "Invalid cron expression")
            },
            (ScheduleCreateWait::NextRun(r), Event::NextCron(next_run_at)) => {
                let texts = ScheduleTexts {
                    tags: r.promise_tags.to_json(),
                    headers: optional_json(&r.promise_param.headers),
                    next_run_at,
                };
                t.wait(Wait::ScheduleCreate(ScheduleCreateWait::Store(r, texts)))
            },
            (ScheduleCreateWait::Store(_, _), Event::ScheduleCreated(s)) => t.success(
                ResponseData::Schedule(s),
            ),
            _ => vstd::pervasive::unreached(),
        }
    }
}

// schedule.delete

/// Where `schedule.delete` stands.
#[derive(Debug)]
pub enum ScheduleDeleteWait {
    Delete(ScheduleDeleteData),
}

/// Delete a schedule.
pub fn op_schedule_delete(t: Ticket, r: ScheduleDeleteData) -> (out: Step)
    ensures
        out.waits(t, Wait::ScheduleDelete(ScheduleDeleteWait::Delete(r))),
{
    t.wait(Wait::ScheduleDelete(ScheduleDeleteWait::Delete(r)))
}

impl ScheduleDeleteWait {
    /// The call that is waited for.
    pub open spec fn calls(self, t: Ticket, a: Action) -> bool {
        match self {
            ScheduleDeleteWait::Delete(r) => a matches Action::ScheduleDelete { id } && id@ == r.id@,
        }
    }

    /// The answers to that call.
    pub open spec fn admits(self, e: Event) -> bool {
        e is ScheduleDeleted
    }

    /// What follows from an answer.
    pub open spec fn next(self, t: Ticket, e: Event, out: Step) -> bool {
        match e {
            Event::ScheduleDeleted(true) => out.is_reply(t, 200, ResponseData::Empty),
            _ => out.is_error(t, 404, "Schedule not found"@),
        }
    }

    pub fn action<'a>(&'a self, t: &Ticket) -> (a: Action<'a>)
        ensures
            self.calls(*t, a),
    {
        match self {
            ScheduleDeleteWait::Delete(r) => Action::ScheduleDelete { id: r.id.as_str() },
        }
    }

    pub fn accepts(&self, e: &Event) -> (admitted: bool)
        ensures
            admitted == self.admits(*e),
    {
        match e {
            Event::ScheduleDeleted(_) => true,
            _ => false,
        }
    }

    pub fn resume(self, t: Ticket, e: Event) -> (out: Step)
        requires
            self.admits(e),
        ensures
            self.next(t, e, out),
    {
        match e {
            Event::ScheduleDeleted(true) => t.success(ResponseData::Empty),
            _ => t.error(404, "Schedule not found"),
        }
    }
}

// schedule.search

/// Where `schedule.search` stands.
#[derive(Debug)]
pub enum ScheduleSearchWait {
    /// With the JSON text of the tags, and how much is asked for.
    Search(ScheduleSearchData, Option<String>, PageLimit),
}

/// How many schedules a search yields where it does not say.
pub const DEFAULT_SCHEDULE_LIMIT: i64 = 10;

/// What follows from a valid request to search for schedules.
pub open spec fn schedule_search_begins(t: Ticket, r: ScheduleSearchData, out: Step) -> bool {
    match limit_of(r.limit, DEFAULT_SCHEDULE_LIMIT) {
        None => out.is_error(t, 400, "Invalid 'limit' — must be between 1 and 1000"@),
        Some(limit) => {
            &&& out matches Step::Wait(p)
            &&& p.ticket == t
            &&& p.wait matches Wait::ScheduleSearch(ScheduleSearchWait::Search(s, tags, n))
            &&& s == r
            &&& optional_text(tags) == optional_map_json(r.tags)
            &&& n == limit
        },
    }
}

/// Search for schedules.
pub fn op_schedule_search(t: Ticket, r: ScheduleSearchData) -> (out: Step)
    ensures
        schedule_search_begins(t, r, out),
{
    match checked_limit(r.limit, DEFAULT_SCHEDULE_LIMIT) {
        None => t.error(400, "Invalid 'limit' — must be between 1 and 1000"),
        Some(limit) => {
            let tags = optional_json(&r.tags);
            t.wait(Wait::ScheduleSearch(ScheduleSearchWait::Search(r, tags, limit)))
        },
    }
}

impl ScheduleSearchWait {
    /// The call that is waited for: it asks for one schedule more than the page
    /// holds, to see whether there are more.
    pub open spec fn calls(self, t: Ticket, a: Action) -> bool {
        match self {
            ScheduleSearchWait::Search(r, tags, n) => {
                &&& a matches Action::ScheduleSearch { tags: given, cursor, limit }
                &&& optional_str(given) == optional_text(tags)
                &&& optional_str(cursor) == optional_text(r.cursor)
                &&& limit == n.probe
            },
        }
    }

    /// The answers to that call.
    pub open spec fn admits(self, e: Event) -> bool {
        e is Schedules
    }

    /// What follows from an answer: a page of the schedules found, and the id of
    /// the last one as the cursor where more were found than asked for. Where the
    /// limit is negative, there are no more.
    pub open spec fn next(self, t: Ticket, e: Event, out: Step) -> bool {
        match (self, e) {
            (ScheduleSearchWait::Search(_, _, n), Event::Schedules(found)) => {
                let items = page_of(found@, n.page);
                &&& out matches Step::Done(r)
                &&& r.is_headed(t.head.kind@, t.head.corr_id@, 200)
                &&& r.data matches ResponseData::Schedules { schedules, cursor }
                &&& schedules@ == items
                &&& cursor == if 0 <= n.page < found@.len() && items.len() > 0 {
                    Some(items.last().id)
                } else {
                    None
                }
            },
            _ => false,
        }
    }

    pub fn action<'a>(&'a self, t: &Ticket) -> (a: Action<'a>)
        ensures
            self.calls(*t, a),
    {
        match self {
            ScheduleSearchWait::Search(r, tags, n) => Action::ScheduleSearch {
                tags: borrowed(tags),
                cursor: borrowed(&r.cursor),
                limit: n.probe,
            },
        }
    }

    pub fn accepts(&self, e: &Event) -> (admitted: bool)
        ensures
            admitted == self.admits(*e),
    {
        match e {
            Event::Schedules(_) => true,
            _ => false,
        }
    }

    pub fn resume(self, t: Ticket, e: Event) -> (out: Step)
        requires
            self.admits(e),
        ensures
            self.next(t, e, out),
    {
        match (self, e) {
            (ScheduleSearchWait::Search(_, _, n), Event::Schedules(found)) => {
                let more = 0 <= n.page && found.len() as u64 > n.page as u64;
                let schedules = page(found, n.page);
                let cursor = if more && schedules.len() > 0 {
                    Some(schedules[schedules.len() - 1].id.clone())
                } else {
                    None
                };
                t.success(ResponseData::Schedules { schedules, cursor })
            },
            _ => vstd::pervasive::unreached(),
        }
    }
}

} // verus!
