//! The processing of timeouts: expired promises and tasks, and schedules that are
//! due.
use vstd::prelude::*;
use vstd::string::*;

use super::steps::{Action, Event};
use super::types::ScheduleRecord;
use crate::string_map::StringMap;
use crate::text::{
    decimal, decimal_text, lemma_decimal_injective, lemma_lead_is_kept, lemma_nothing_replaced,
    lemma_pattern_is_replaced, lemma_replaced_at_end, replace_text, replaced,
};

verus! {

/// A run over everything that has timed out at a time.
#[derive(Debug)]
pub struct TimeoutRun {
    pub time: i64,
    pub stage: TimeoutStage,
}

/// How far a run has come.
#[derive(Debug)]
pub enum TimeoutStage {
    Timeouts,
    Expired,
    /// Read a schedule that is due.
    Read(Due),
    /// Compute when the schedule is due next.
    NextRun(Due, ScheduleRecord),
    /// Fire the schedule, with the time at which it is due next and the tags of
    /// the promise to be created.
    Fire(Due, i64, StringMap),
}

/// A schedule that is due, with those that are still to come.
#[derive(Debug)]
pub struct Due {
    pub schedule_id: String,
    pub fired_at: i64,
    pub rest: Vec<(String, i64)>,
}

/// The id of the promise of a schedule that was due at a time: the schedule's
/// template with its placeholders filled in.
pub open spec fn scheduled_id(template: Seq<char>, schedule_id: Seq<char>, fired_at: i64) -> Seq<
    char,
> {
    replaced(
        replaced(template, "{{.id}}"@, schedule_id),
        "{{.timestamp}}"@,
        decimal(fired_at as int),
    )
}

/// The tags of the promise of a schedule: those that the schedule gives, and those
/// that tie the promise to the schedule and make it the root of its own lineage.
pub open spec fn scheduled_tags(
    tags: Map<Seq<char>, Seq<char>>,
    schedule_id: Seq<char>,
    promise_id: Seq<char>,
) -> Map<Seq<char>, Seq<char>> {
    tags.insert("resonate:schedule"@, schedule_id).insert("resonate:origin"@, promise_id).insert(
        "resonate:branch"@,
        promise_id,
    ).insert("resonate:parent"@, promise_id).insert("resonate:prefix"@, promise_id)
}

/// The id of the promise of a schedule that was due at a time.
pub fn scheduled_promise_id(template: &str, schedule_id: &str, fired_at: i64) -> (id: String)
    ensures
        id@ == scheduled_id(template@, schedule_id@, fired_at),
{
    proof {
        reveal_strlit("{{.id}}");
        reveal_strlit("{{.timestamp}}");
    }
    let named = replace_text(template, "{{.id}}", schedule_id);
    let timestamp = decimal_text(fired_at);
    replace_text(named.as_str(), "{{.timestamp}}", timestamp.as_str())
}

/// The tags of the promise of a schedule.
pub fn scheduled_promise_tags(tags: &StringMap, schedule_id: &str, promise_id: &str) -> (all:
    StringMap)
    ensures
        all@ == scheduled_tags(tags@, schedule_id@, promise_id@),
{
    let mut all = tags.copy();
    all.insert("resonate:schedule".to_owned(), schedule_id.to_owned());
    all.insert("resonate:origin".to_owned(), promise_id.to_owned());
    all.insert("resonate:branch".to_owned(), promise_id.to_owned());
    all.insert("resonate:parent".to_owned(), promise_id.to_owned());
    all.insert("resonate:prefix".to_owned(), promise_id.to_owned());
    all
}

/// Process all that has timed out at the given time: first the timeouts of
/// promises and tasks, then the schedules that are due.
pub fn process_all_timeouts(time: i64) -> (run: TimeoutRun)
    ensures
        run == (TimeoutRun { time, stage: TimeoutStage::Timeouts }),
{
    TimeoutRun { time, stage: TimeoutStage::Timeouts }
}

/// Process the schedules that are due at the given time.
pub fn process_schedule_timeouts(time: i64) -> (run: TimeoutRun)
    ensures
        run == (TimeoutRun { time, stage: TimeoutStage::Expired }),
{
    TimeoutRun { time, stage: TimeoutStage::Expired }
}

/// Whether a run goes on with the first of the schedules `due`, or ends where
/// there is none.
pub open spec fn goes_on_with(
    due: Seq<(String, i64)>,
    time: i64,
    out: Option<TimeoutRun>,
) -> bool {
    if due.len() == 0 {
        out is None
    } else {
        &&& out matches Some(run)
        &&& run.time == time
        &&& run.stage matches TimeoutStage::Read(d)
        &&& d.schedule_id == due[0].0
        &&& d.fired_at == due[0].1
        &&& d.rest@ == due.skip(1)
    }
}

/// Go on with the first of the schedules that are due.
fn go_on_with(due: Vec<(String, i64)>, time: i64) -> (out: Option<TimeoutRun>)
    ensures
        goes_on_with(due@, time, out),
{
    if due.len() == 0 {
        return None;
    }
    let mut rest = due;
    let (schedule_id, fired_at) = rest.remove(0);
    assert(rest@ =~= due@.skip(1));
    Some(TimeoutRun { time, stage: TimeoutStage::Read(Due { schedule_id, fired_at, rest }) })
}

impl TimeoutRun {
    /// The call that is waited for.
    pub open spec fn calls(self, a: Action) -> bool {
        match self.stage {
            TimeoutStage::Timeouts => a matches Action::ProcessTimeouts { time } && time
                == self.time,
            TimeoutStage::Expired => a matches Action::GetExpiredScheduleTimeouts { time } && time
                == self.time,
            TimeoutStage::Read(due) => a matches Action::ScheduleGet { id } && id@
                == due.schedule_id@,
            TimeoutStage::NextRun(due, schedule) => a matches Action::NextCron { cron, after }
                && cron@ == schedule.cron@ && after == due.fired_at,
            TimeoutStage::Fire(due, next, tags) => {
                &&& a matches Action::ProcessScheduleTimeout {
                    schedule_id,
                    fired_at,
                    next_run_at,
                    time,
                    promise_tags,
                }
                &&& schedule_id@ == due.schedule_id@
                &&& fired_at == due.fired_at
                &&& next_run_at == next
                &&& time == self.time
                &&& promise_tags@ == tags@
            },
        }
    }

    /// The answers to that call.
    pub open spec fn admits(self, e: Event) -> bool {
        match self.stage {
            TimeoutStage::Timeouts => e is Done,
            TimeoutStage::Expired => e is ExpiredSchedules,
            TimeoutStage::Read(_) => e is Schedule,
            TimeoutStage::NextRun(_, _) => e is NextCron,
            TimeoutStage::Fire(_, _, _) => e is ScheduleFired,
        }
    }

    /// What follows from an answer; `None` is the end of the run. A schedule that
    /// is gone is passed over, and one that has fired before stops nothing.
    pub open spec fn next(self, e: Event, out: Option<TimeoutRun>) -> bool {
        match (self.stage, e) {
            (TimeoutStage::Timeouts, _) => out == Some(
                (TimeoutRun { time: self.time, stage: TimeoutStage::Expired }),
            ),
            (TimeoutStage::Expired, Event::ExpiredSchedules(due)) => goes_on_with(
                due@,
                self.time,
                out,
            ),
            (TimeoutStage::Read(due), Event::Schedule(Some(schedule))) => out == Some(
                (TimeoutRun { time: self.time, stage: TimeoutStage::NextRun(due, schedule) }),
            ),
            (TimeoutStage::Read(due), _) => goes_on_with(due.rest@, self.time, out),
            (TimeoutStage::NextRun(due, schedule), Event::NextCron(next_run_at)) => {
                &&& out matches Some(run)
                &&& run.time == self.time
                &&& run.stage matches TimeoutStage::Fire(d, next, tags)
                &&& d == due
                &&& next == next_run_at
                &&& tags@ == scheduled_tags(
                    schedule.promise_tags@,
                    due.schedule_id@,
                    scheduled_id(schedule.promise_id@, due.schedule_id@, due.fired_at),
                )
            },
            (TimeoutStage::Fire(due, _, _), _) => goes_on_with(due.rest@, self.time, out),
            _ => false,
        }
    }

    pub fn action<'a>(&'a self) -> (a: Action<'a>)
        ensures
            self.calls(a),
    {
        match &self.stage {
            TimeoutStage::Timeouts => Action::ProcessTimeouts { time: self.time },
            TimeoutStage::Expired => Action::GetExpiredScheduleTimeouts { time: self.time },
            TimeoutStage::Read(due) => Action::ScheduleGet { id: due.schedule_id.as_str() },
            TimeoutStage::NextRun(due, schedule) => Action::NextCron {
                cron: schedule.cron.as_str(),
                after: due.fired_at,
            },
            TimeoutStage::Fire(due, next, tags) => Action::ProcessScheduleTimeout {
                schedule_id: due.schedule_id.as_str(),
                fired_at: due.fired_at,
                next_run_at: *next,
                time: self.time,
                promise_tags: tags,
            },
        }
    }

    pub fn accepts(&self, e: &Event) -> (admitted: bool)
        ensures
            admitted == self.admits(*e),
    {
        match (&self.stage, e) {
            (TimeoutStage::Timeouts, Event::Done) => true,
            (TimeoutStage::Expired, Event::ExpiredSchedules(_)) => true,
            (TimeoutStage::Read(_), Event::Schedule(_)) => true,
            (TimeoutStage::NextRun(_, _), Event::NextCron(_)) => true,
            (TimeoutStage::Fire(_, _, _), Event::ScheduleFired(_)) => true,
            _ => false,
        }
    }

    pub fn resume(self, e: Event) -> (out: Option<TimeoutRun>)
        requires
            self.admits(e),
        ensures
            self.next(e, out),
    {
        let time: i64 = self.time;
        match (self.stage, e) {
            (TimeoutStage::Timeouts, _) => Some(process_schedule_timeouts(time)),
            (TimeoutStage::Expired, Event::ExpiredSchedules(due)) => go_on_with(due, time),
            (TimeoutStage::Read(due), Event::Schedule(Some(schedule))) => Some(
                TimeoutRun { time, stage: TimeoutStage::NextRun(due, schedule) },
            ),
            (TimeoutStage::Read(due), _) => go_on_with(due.rest, time),
            (TimeoutStage::NextRun(due, schedule), Event::NextCron(next_run_at)) => {
                let promise_id = scheduled_promise_id(
                    schedule.promise_id.as_str(),
                    due.schedule_id.as_str(),
                    due.fired_at,
                );
                let tags = scheduled_promise_tags(
                    &schedule.promise_tags,
                    due.schedule_id.as_str(),
                    promise_id.as_str(),
                );
                Some(TimeoutRun { time, stage: TimeoutStage::Fire(due, next_run_at, tags) })
            },
            (TimeoutStage::Fire(due, _, _), _) => go_on_with(due.rest, time),
            _ => vstd::pervasive::unreached(),
        }
    }
}

// Laws

impl TimeoutRun {
    /// The schedules that are still to be visited, the current one first.
    pub open spec fn to_visit(self) -> Seq<(String, i64)> {
        match self.stage {
            TimeoutStage::Read(due) => seq![(due.schedule_id, due.fired_at)] + due.rest@,
            TimeoutStage::NextRun(due, _) => seq![(due.schedule_id, due.fired_at)] + due.rest@,
            TimeoutStage::Fire(due, _, _) => seq![(due.schedule_id, due.fired_at)] + due.rest@,
            _ => Seq::empty(),
        }
    }
}

/// A run visits every schedule that is due, each once and in order, and ends after
/// the last: it takes up the list that it is given, stays with a schedule until it
/// has fired or turns out to be gone, and then goes on to the next. The time of the
/// run stays the same.
pub proof fn lemma_run_visits_all(run: TimeoutRun, e: Event, out: Option<TimeoutRun>)
    requires
        run.admits(e),
        run.next(e, out),
    ensures
        out matches Some(r) ==> r.time == run.time,
        run.stage is Timeouts ==> (out matches Some(r) && r.stage is Expired),
        run.stage is Expired ==> (e matches Event::ExpiredSchedules(due) && match out {
            Some(r) => r.stage is Read && r.to_visit() == due@,
            None => due@.len() == 0,
        }),
        run.stage is NextRun || (run.stage is Read && e->Schedule_0 is Some) ==> (out matches Some(r)
            && r.to_visit() == run.to_visit()),
        run.stage is Fire || (run.stage is Read && e->Schedule_0 is None) ==> match out {
            Some(r) => r.stage is Read && r.to_visit() == run.to_visit().skip(1),
            None => run.to_visit().len() == 1,
        },
{
    match (run.stage, e) {
        (TimeoutStage::Expired, Event::ExpiredSchedules(due)) => {
            if due@.len() > 0 {
                assert(seq![due@[0]] + due@.skip(1) =~= due@);
            }
        },
        (TimeoutStage::Read(due), Event::Schedule(None)) => {
            lemma_rest(due);
        },
        (TimeoutStage::Fire(due, _, _), _) => {
            lemma_rest(due);
        },
        _ => {},
    }
}

/// What is left to visit after the current schedule is the rest.
proof fn lemma_rest(due: Due)
    ensures
        (seq![(due.schedule_id, due.fired_at)] + due.rest@).skip(1) == due.rest@,
        due.rest@.len() > 0 ==> seq![due.rest@[0]] + due.rest@.skip(1) == due.rest@,
{
    assert((seq![(due.schedule_id, due.fired_at)] + due.rest@).skip(1) =~= due.rest@);
    if due.rest@.len() > 0 {
        assert(seq![due.rest@[0]] + due.rest@.skip(1) =~= due.rest@);
    }
}

/// Where the template of a schedule is a plain text with the timestamp behind it,
/// every run of the schedule has a promise of its own: the text with the time of
/// the run behind it.
pub proof fn lemma_runs_have_their_own_promises(
    lead: Seq<char>,
    schedule_id: Seq<char>,
    a: i64,
    b: i64,
)
    requires
        !lead.contains('{'),
    ensures
        scheduled_id(lead + "{{.timestamp}}"@, schedule_id, a) == lead + decimal(a as int),
        a != b ==> scheduled_id(lead + "{{.timestamp}}"@, schedule_id, a) != scheduled_id(
            lead + "{{.timestamp}}"@,
            schedule_id,
            b,
        ),
{
    lemma_timestamp_template(lead, schedule_id, a);
    lemma_timestamp_template(lead, schedule_id, b);
    if lead + decimal(a as int) == lead + decimal(b as int) {
        assert((lead + decimal(a as int)).skip(lead.len() as int) =~= decimal(a as int));
        assert((lead + decimal(b as int)).skip(lead.len() as int) =~= decimal(b as int));
        lemma_decimal_injective(a as int, b as int);
    }
}

/// The timestamp alone is filled in where it alone is a placeholder.
proof fn lemma_timestamp_template(lead: Seq<char>, schedule_id: Seq<char>, fired_at: i64)
    requires
        !lead.contains('{'),
    ensures
        scheduled_id(lead + "{{.timestamp}}"@, schedule_id, fired_at) == lead + decimal(
            fired_at as int,
        ),
{
    reveal_strlit("{{.id}}");
    reveal_strlit("{{.timestamp}}");
    let id = "{{.id}}"@;
    let stamp = "{{.timestamp}}"@;
    let text = lead + stamp;
    assert forall|i: int| 0 <= i <= text.len() - id.len() implies #[trigger] text.subrange(
        i,
        i + id.len(),
    ) != id by {
        let part = text.subrange(i, i + id.len());
        assert(part[0] == text[i] && part[1] == text[i + 1] && part[3] == text[i + 3]);
        assert(id[0] == '{' && id[1] == '{' && id[3] == 'i');
        if i < lead.len() {
            assert(lead.contains(lead[i]));
        } else {
            let k = i - lead.len();
            assert(text[i] == stamp[k] && text[i + 1] == stamp[k + 1] && text[i + 3] == stamp[k + 3]);
            assert(k == 0 || k == 1 || k == 2 || k == 3 || k == 4 || k == 5 || k == 6 || k == 7);
        }
    }
    lemma_nothing_replaced(text, id, schedule_id);
    lemma_replaced_at_end(lead, stamp, decimal(fired_at as int));
}

/// The placeholders of a template are filled in where they stand: the id of the schedule,
/// and the time at which it was due. All else is kept.
pub proof fn lemma_placeholders_are_filled_in(
    lead: Seq<char>,
    middle: Seq<char>,
    tail: Seq<char>,
    schedule_id: Seq<char>,
    fired_at: i64,
)
    requires
        !lead.contains('{'),
        !middle.contains('{'),
        !tail.contains('{'),
        !schedule_id.contains('{'),
    ensures
        scheduled_id(
            lead + "{{.id}}"@ + middle + "{{.timestamp}}"@ + tail,
            schedule_id,
            fired_at,
        ) == lead + schedule_id + middle + decimal(fired_at as int) + tail,
{
    reveal_strlit("{{.id}}");
    reveal_strlit("{{.timestamp}}");
    let id = "{{.id}}"@;
    let stamp = "{{.timestamp}}"@;
    let time = decimal(fired_at as int);
    assert(id[0] == '{' && stamp[0] == '{');
    let rest = middle + stamp + tail;
    assert(lead + id + middle + stamp + tail =~= lead + (id + rest));
    lemma_lead_is_kept(lead, id + rest, id, schedule_id);
    lemma_pattern_is_replaced(rest, id, schedule_id);
    lemma_stamp_holds_no_id(middle, tail);
    lemma_nothing_replaced(rest, id, schedule_id);
    let named = lead + schedule_id + middle;
    assert(lead + (schedule_id + rest) =~= named + (stamp + tail));
    assert(!named.contains('{')) by {
        if named.contains('{') {
            let i = choose|i: int| 0 <= i < named.len() && named[i] == '{';
            if i < lead.len() {
                assert(lead[i] == '{');
            } else if i < lead.len() + schedule_id.len() {
                assert(schedule_id[i - lead.len()] == '{');
            } else {
                assert(middle[i - lead.len() - schedule_id.len()] == '{');
            }
        }
    }
    lemma_lead_is_kept(named, stamp + tail, stamp, time);
    lemma_pattern_is_replaced(tail, stamp, time);
    lemma_nothing_without_its_first(tail, stamp, time);
    assert(named + (time + tail) =~= lead + schedule_id + middle + time + tail);
}

/// The placeholder of the id does not stand where only that of the timestamp does.
proof fn lemma_stamp_holds_no_id(middle: Seq<char>, tail: Seq<char>)
    requires
        !middle.contains('{'),
        !tail.contains('{'),
    ensures
        ({
            let id = "{{.id}}"@;
            let rest = middle + "{{.timestamp}}"@ + tail;
            forall|i: int|
                0 <= i <= rest.len() - id.len() ==> #[trigger] rest.subrange(i, i + id.len()) != id
        }),
{
    reveal_strlit("{{.id}}");
    reveal_strlit("{{.timestamp}}");
    let id = "{{.id}}"@;
    let stamp = "{{.timestamp}}"@;
    let rest = middle + stamp + tail;
    assert forall|i: int| 0 <= i <= rest.len() - id.len() implies #[trigger] rest.subrange(
        i,
        i + id.len(),
    ) != id by {
        let part = rest.subrange(i, i + id.len());
        assert(part[0] == rest[i] && part[1] == rest[i + 1] && part[3] == rest[i + 3]);
        assert(id[0] == '{' && id[1] == '{' && id[3] == 'i');
        let k = i - middle.len();
        if k < 0 {
            assert(rest[i] == middle[i]);
            assert(middle.contains(middle[i]));
        } else if k >= stamp.len() {
            assert(rest[i] == tail[k - stamp.len()]);
            assert(tail.contains(tail[k - stamp.len()]));
        } else if k == 0 {
            assert(rest[i + 3] == stamp[3]);
        } else if k == 1 {
            assert(rest[i + 1] == stamp[2]);
        } else {
            assert(rest[i] == stamp[k]);
            assert(stamp[k] != '{');
        }
    }
}

/// A pattern does not stand where its first character does not.
proof fn lemma_nothing_without_its_first(text: Seq<char>, pattern: Seq<char>, with: Seq<char>)
    requires
        pattern.len() > 0,
        !text.contains(pattern[0]),
    ensures
        replaced(text, pattern, with) == text,
{
    assert forall|i: int| 0 <= i <= text.len() - pattern.len() implies #[trigger] text.subrange(
        i,
        i + pattern.len(),
    ) != pattern by {
        assert(text.subrange(i, i + pattern.len())[0] == text[i]);
        assert(text.contains(text[i]));
    }
    lemma_nothing_replaced(text, pattern, with);
}

} // verus!
