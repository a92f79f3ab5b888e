use resonate::json::Json;
use resonate::sqlite::network::{route_outgoing, Message, SqliteNetwork};
use resonate::sqlite::persistence::{
    OutgoingExecute, PromiseCreateResult, PromiseSettleResult, RegisterCallbackResult, StorageError,
    TaskAcquireResult, TaskContinueResult, TaskCreateResult, TaskFenceResult, TaskFulfillResult,
    TaskHaltResult, TaskReleaseResult, TaskSuspendResult,
};
use resonate::sqlite::processing::{process_schedule_timeouts, TimeoutStage};
use resonate::sqlite::server::{dispatch, route_of, Config, Server};
use resonate::sqlite::steps::{Action, Decoded, Event, RequestData, Route, Step};
use resonate::sqlite::types::{
    ActionData, FenceAction, PromiseCreateData, PromiseGetData, PromiseRecord,
    PromiseRegisterCallbackData, PromiseRegisterListenerData, PromiseSearchData, PromiseSettleData,
    PromiseState, RequestEnvelope, RequestHead, ResponseData, ResponseEnvelope, ScheduleCreateData,
    ScheduleDeleteData, ScheduleGetData, ScheduleRecord, ScheduleSearchData, SettleState,
    TaskAcquireData, TaskContinueData, TaskCreateData, TaskFenceData, TaskFulfillData, TaskGetData,
    TaskHaltData, TaskHeartbeatData, TaskRecord, TaskRef, TaskReleaseData, TaskSearchData,
    TaskState, TaskSuspendData, Value,
};
use resonate::string_map::StringMap;

const NOW: i64 = 1_000;

fn text(s: &str) -> String {
    s.to_string()
}

fn tags(pairs: &[(&str, &str)]) -> StringMap {
    StringMap::from_pairs(pairs.iter().map(|(k, v)| (text(k), text(v))).collect())
}

fn nothing() -> Value {
    Value { headers: None, data: None }
}

fn promise(id: &str, state: PromiseState) -> PromiseRecord {
    PromiseRecord {
        id: text(id),
        state,
        param: nothing(),
        value: nothing(),
        tags: StringMap::new(),
        timeout_at: 5_000,
        created_at: 1,
        settled_at: None,
    }
}

fn task(id: &str) -> TaskRecord {
    TaskRecord { id: text(id), state: TaskState::Pending, version: 3, resumes: 0, ttl: None, pid: None }
}

fn schedule(id: &str) -> ScheduleRecord {
    ScheduleRecord {
        id: text(id),
        cron: text("* * * * *"),
        promise_id: text("{{.id}}-{{.timestamp}}"),
        promise_timeout: 100,
        promise_param: nothing(),
        promise_tags: tags(&[("k", "v"), ("resonate:origin", "x")]),
        created_at: 1,
        next_run_at: 2,
        last_run_at: None,
    }
}

fn create_data(id: &str, timeout_at: i64, pairs: &[(&str, &str)]) -> PromiseCreateData {
    PromiseCreateData {
        id: text(id),
        timeout_at,
        param: Value { headers: Some(tags(&[("h", "1")])), data: Some(text("x")) },
        tags: tags(pairs),
    }
}

/// A call in words.
fn words(a: &Action) -> String {
    match a {
        Action::Decode { route, .. } => format!("decode {:?}", route),
        Action::IsValidCron { cron } => format!("valid {}", cron),
        Action::NextCron { cron, after } => format!("next {} {}", cron, after),
        Action::TryTimeout { ids, time } => format!("timeout {} {}", ids.join(","), time),
        Action::LockForUpdate { id } => format!("lock {}", id),
        Action::PromiseGet { id } => format!("promise_get {}", id),
        Action::PromiseCreate(p) => format!(
            "promise_create {} {} {:?} {:?} {} {} {} {:?} {} {:?}",
            p.id,
            p.state,
            p.param_headers,
            p.param_data,
            p.tags,
            p.timeout_at,
            p.created_at,
            p.settled_at,
            p.already_timedout,
            p.address
        ),
        Action::PromiseSettle(p) => format!(
            "promise_settle {} {} {:?} {:?} {}",
            p.id, p.state, p.value_headers, p.value_data, p.settled_at
        ),
        Action::PromiseRegisterCallback { awaited, awaiter, time } => {
            format!("callback {} {} {}", awaited, awaiter, time)
        }
        Action::PromiseRegisterListener { awaited, address } => {
            format!("listener {} {}", awaited, address)
        }
        Action::PromiseSearch { state, tags, cursor, limit } => {
            format!("promise_search {:?} {:?} {:?} {}", state, tags, cursor, limit)
        }
        Action::TaskGet { id } => format!("task_get {}", id),
        Action::TaskCreate(p) => format!(
            "task_create {} {} {} {} {}",
            p.promise_id, p.state, p.already_timedout, p.ttl, p.pid
        ),
        Action::ProcessCallbacks { id, time } => format!("callbacks {} {}", id, time),
        Action::ComputePreload { id } => format!("preload {}", id),
        Action::TaskAcquire(p) => format!(
            "task_acquire {} {} {} {} {}",
            p.task_id, p.version, p.time, p.ttl, p.pid
        ),
        Action::TaskRelease { id, version, time, retry_timeout } => {
            format!("task_release {} {} {} {}", id, version, time, retry_timeout)
        }
        Action::TaskFulfill(p) => format!(
            "task_fulfill {} {} {} {} {:?} {}",
            p.task_id, p.version, p.promise_id, p.state, p.value_data, p.settled_at
        ),
        Action::TaskSuspend { id, version, awaited_ids } => {
            format!("task_suspend {} {} {}", id, version, awaited_ids.join(","))
        }
        Action::TaskFenceCreate(p) => format!(
            "fence_create {} {} {} {} {:?}",
            p.task_id, p.version, p.promise_id, p.state, p.address
        ),
        Action::TaskFenceSettle(p) => format!(
            "fence_settle {} {} {} {} {}",
            p.task_id, p.version, p.promise_id, p.state, p.settled_at
        ),
        Action::TaskHeartbeat { pid, tasks, time } => {
            format!("heartbeat {} {:?} {}", pid, tasks, time)
        }
        Action::TaskHalt { id } => format!("task_halt {}", id),
        Action::TaskContinue { id, time } => format!("task_continue {} {}", id, time),
        Action::TaskSearch { state, cursor, limit } => {
            format!("task_search {:?} {:?} {}", state, cursor, limit)
        }
        Action::ScheduleGet { id } => format!("schedule_get {}", id),
        Action::ScheduleCreate(p) => format!(
            "schedule_create {} {} {} {} {} {} {}",
            p.id, p.cron, p.promise_id, p.promise_timeout, p.promise_tags, p.created_at, p.next_run_at
        ),
        Action::ScheduleDelete { id } => format!("schedule_delete {}", id),
        Action::ScheduleSearch { tags, cursor, limit } => {
            format!("schedule_search {:?} {:?} {}", tags, cursor, limit)
        }
        Action::DebugReset => text("reset"),
        Action::Snap => text("snap"),
        Action::ProcessTimeouts { time } => format!("process_timeouts {}", time),
        Action::GetExpiredScheduleTimeouts { time } => format!("expired {}", time),
        Action::ProcessScheduleTimeout { schedule_id, fired_at, next_run_at, time, promise_tags } => {
            format!(
                "fire {} {} {} {} {}",
                schedule_id,
                fired_at,
                next_run_at,
                time,
                promise_tags.to_json()
            )
        }
    }
}

fn server(debug: bool) -> Server<u8> {
    let mut config = Config::default();
    config.debug = debug;
    Server::new(config, 0)
}

/// Drive a request through its steps with the answers to its calls.
fn drive(
    s: &mut Server<u8>,
    kind: &str,
    data: Json,
    answers: Vec<Result<Event, StorageError>>,
) -> (Vec<String>, ResponseEnvelope) {
    let req = RequestEnvelope { kind: text(kind), head: RequestHead { corr_id: text("c1") }, data };
    let mut calls = Vec::new();
    let mut step = dispatch(s, &req, NOW);
    for answer in answers {
        step = match step {
            Step::Wait(pending) => {
                calls.push(words(&pending.action()));
                if let Ok(e) = &answer {
                    assert!(pending.accepts(e), "{:?} does not accept {:?}", pending, e);
                }
                pending.resume(answer)
            }
            Step::Done(r) => panic!("done before {:?}: {:?}", answer, r),
        };
    }
    match step {
        Step::Done(r) => {
            assert_eq!(r.kind, kind);
            assert_eq!(r.head.corr_id, "c1");
            assert!(kind == "debug.tick" || calls.len() <= 7);
            (calls, r)
        }
        Step::Wait(p) => panic!("not done: {:?}", p),
    }
}

/// Drive a request with a valid payload; what comes back leaves the decoding out.
fn run(kind: &str, data: RequestData, answers: Vec<Event>) -> (Vec<String>, ResponseEnvelope) {
    let mut all = vec![Ok(Event::Decoded(Decoded::Valid(data)))];
    all.extend(answers.into_iter().map(Ok));
    let (mut calls, r) = drive(&mut server(false), kind, Json::Null, all);
    assert!(calls[0].starts_with("decode"));
    calls.remove(0);
    (calls, r)
}

fn message(r: &ResponseEnvelope) -> (i32, &str) {
    match &r.data {
        ResponseData::Text(m) => (r.head.status, m.as_str()),
        other => panic!("expected a message, got {:?}", other),
    }
}

// Dispatch

#[test]
fn request_kinds_name_their_operations() {
    assert_eq!(route_of("promise.get"), Some(Route::PromiseGet));
    assert_eq!(route_of("promise.register_listener"), Some(Route::PromiseRegisterListener));
    assert_eq!(route_of("task.continue"), Some(Route::TaskContinue));
    assert_eq!(route_of("schedule.search"), Some(Route::ScheduleSearch));
    assert_eq!(route_of("debug.tick"), Some(Route::DebugTick));
    assert_eq!(route_of("promise.Get"), None);
    assert_eq!(route_of(""), None);
}

#[test]
fn every_operation_has_its_own_kind() {
    let kinds = [
        "promise.get",
        "promise.create",
        "promise.settle",
        "promise.register_callback",
        "promise.register_listener",
        "promise.search",
        "task.get",
        "task.create",
        "task.acquire",
        "task.release",
        "task.fulfill",
        "task.suspend",
        "task.fence",
        "task.heartbeat",
        "task.halt",
        "task.continue",
        "task.search",
        "schedule.get",
        "schedule.create",
        "schedule.delete",
        "schedule.search",
        "debug.start",
        "debug.stop",
        "debug.reset",
        "debug.snap",
        "debug.tick",
    ];
    let routes: Vec<Route> = kinds.iter().map(|kind| route_of(kind).unwrap()).collect();
    for (i, a) in routes.iter().enumerate() {
        for b in &routes[i + 1..] {
            assert_ne!(a, b);
        }
    }
}

#[test]
fn unknown_operations_are_refused() {
    let (calls, r) = drive(&mut server(true), "promise.delete", Json::Null, Vec::new());
    assert!(calls.is_empty());
    assert_eq!(message(&r), (400, "Unknown operation: promise.delete"));
}

#[test]
fn payloads_are_decoded_and_validated_first() {
    let malformed = vec![Ok(Event::Decoded(Decoded::Malformed(text("missing field `id`"))))];
    let (calls, r) = drive(&mut server(false), "promise.get", Json::Null, malformed);
    assert_eq!(calls, ["decode PromiseGet"]);
    assert_eq!(message(&r), (400, "Invalid request: missing field `id`"));

    let invalid = vec![Ok(Event::Decoded(Decoded::Invalid(text("id: too short"))))];
    let (calls, r) = drive(&mut server(false), "task.halt", Json::Null, invalid);
    assert_eq!(calls, ["decode TaskHalt"]);
    assert_eq!(message(&r), (400, "id: too short"));
}

#[test]
fn debug_operations_need_debug_enabled() {
    for kind in ["debug.start", "debug.stop", "debug.reset", "debug.snap", "debug.tick"] {
        let mut s = server(false);
        let (_, r) = drive(&mut s, kind, Json::Null, Vec::new());
        assert_eq!(message(&r), (403, "Debug operations are disabled"));
        assert!(!s.debug_mode);
    }
}

#[test]
fn debug_mode_starts_and_stops() {
    let mut s = server(true);
    let (_, r) = drive(&mut s, "debug.start", Json::Null, Vec::new());
    assert_eq!(r.head.status, 200);
    assert!(matches!(r.data, ResponseData::Empty));
    assert!(s.debug_mode);
    let (_, r) = drive(&mut s, "debug.reset", Json::Null, vec![Ok(Event::Done)]);
    assert!(matches!(r.data, ResponseData::Empty));
    assert!(s.debug_mode);
    drive(&mut s, "debug.stop", Json::Null, Vec::new());
    assert!(!s.debug_mode);
}

#[test]
fn debug_snap_answers_with_a_picture() {
    let picture = Json::Array(vec![Json::Int(1)]);
    let (calls, r) = drive(&mut server(true), "debug.snap", Json::Null, vec![Ok(Event::Snapshot(picture))]);
    assert_eq!(calls, ["snap"]);
    assert!(matches!(r.data, ResponseData::Snapshot(Json::Array(items)) if items.len() == 1));
}

#[test]
fn debug_tick_needs_a_time() {
    for data in [
        Json::Null,
        Json::Object(vec![(text("time"), Json::Text(text("7")))]),
        Json::Object(vec![(text("time"), Json::Number(text("7.5")))]),
    ] {
        let (_, r) = drive(&mut server(true), "debug.tick", data, Vec::new());
        assert_eq!(message(&r), (400, "Missing or invalid 'time' field"));
    }
}

#[test]
fn debug_tick_processes_what_has_timed_out() {
    let data = Json::Object(vec![(text("time"), Json::Int(70))]);
    let answers = vec![
        Ok(Event::Done),
        Ok(Event::ExpiredSchedules(vec![(text("s1"), 60), (text("gone"), 61), (text("s2"), -5)])),
        Ok(Event::Schedule(Some(schedule("s1")))),
        Ok(Event::NextCron(120)),
        Ok(Event::ScheduleFired(true)),
        Ok(Event::Schedule(None)),
        Ok(Event::Schedule(Some(schedule("s2")))),
        Ok(Event::NextCron(55)),
        Ok(Event::ScheduleFired(false)),
    ];
    let (calls, r) = drive(&mut server(true), "debug.tick", data, answers);
    assert_eq!(
        calls,
        [
            "process_timeouts 70",
            "expired 70",
            "schedule_get s1",
            "next * * * * * 60",
            "fire s1 60 120 70 {\"k\":\"v\",\"resonate:branch\":\"s1-60\",\"resonate:origin\":\"s1-60\",\
             \"resonate:parent\":\"s1-60\",\"resonate:prefix\":\"s1-60\",\"resonate:schedule\":\"s1\"}",
            "schedule_get gone",
            "schedule_get s2",
            "next * * * * * -5",
            "fire s2 -5 55 70 {\"k\":\"v\",\"resonate:branch\":\"s2--5\",\"resonate:origin\":\"s2--5\",\
             \"resonate:parent\":\"s2--5\",\"resonate:prefix\":\"s2--5\",\"resonate:schedule\":\"s2\"}",
        ]
    );
    assert_eq!(r.head.status, 200);
    assert!(matches!(r.data, ResponseData::EmptyList));
}

#[test]
fn no_schedule_due_ends_the_run() {
    let run = process_schedule_timeouts(5);
    assert!(matches!(run.stage, TimeoutStage::Expired));
    assert!(run.resume(Event::ExpiredSchedules(Vec::new())).is_none());
}

#[test]
fn storage_failures_are_reported_by_operation() {
    let backend = || StorageError::Backend(text("disk"));
    let get = RequestData::PromiseGet(PromiseGetData { id: text("p") });
    let answers = vec![Ok(Event::Decoded(Decoded::Valid(get))), Err(backend())];
    let (_, r) = drive(&mut server(false), "promise.get", Json::Null, answers);
    assert_eq!(message(&r), (500, "Internal error: Storage error: disk"));

    let create = || RequestData::PromiseCreate(create_data("p", 9, &[]));
    let answers = vec![
        Ok(Event::Decoded(Decoded::Valid(create()))),
        Err(StorageError::InvalidInput(text("id too long"))),
    ];
    let (_, r) = drive(&mut server(false), "promise.create", Json::Null, answers);
    assert_eq!(message(&r), (400, "Invalid request: id too long"));

    let answers = vec![
        Ok(Event::Decoded(Decoded::Valid(create()))),
        Err(StorageError::Serialization),
    ];
    let (_, r) = drive(&mut server(false), "promise.create", Json::Null, answers);
    assert_eq!(message(&r), (503, "Internal error: Serialization conflict"));

    let halt = RequestData::TaskHalt(TaskHaltData { id: text("t") });
    let answers = vec![
        Ok(Event::Decoded(Decoded::Valid(halt))),
        Err(StorageError::InvalidInput(text("x"))),
    ];
    let (_, r) = drive(&mut server(false), "task.halt", Json::Null, answers);
    assert_eq!(message(&r), (400, "Invalid request: x"));

    let (_, r) = drive(&mut server(true), "debug.reset", Json::Null, vec![Err(backend())]);
    assert_eq!(message(&r), (500, "Reset failed: Storage error: disk"));
    let (_, r) = drive(&mut server(true), "debug.snap", Json::Null, vec![Err(backend())]);
    assert_eq!(message(&r), (500, "Snap failed: Storage error: disk"));
    let data = Json::Object(vec![(text("time"), Json::Int(70))]);
    let (_, r) = drive(&mut server(true), "debug.tick", data, vec![Err(backend())]);
    assert_eq!(message(&r), (500, "Tick failed: Storage error: disk"));
}

// Promises

#[test]
fn promise_get_settles_and_reads() {
    let get = || RequestData::PromiseGet(PromiseGetData { id: text("p1") });
    let found = vec![Event::Done, Event::Promise(Some(promise("p1", PromiseState::Pending)))];
    let (calls, r) = run("promise.get", get(), found);
    assert_eq!(calls, ["timeout p1 1000", "promise_get p1"]);
    assert_eq!(r.head.status, 200);
    assert!(matches!(r.data, ResponseData::Promise(p) if p.id == "p1"));

    let (_, r) = run("promise.get", get(), vec![Event::Done, Event::Promise(None)]);
    assert_eq!(message(&r), (404, "Promise not found"));
}

#[test]
fn creates_and_gets_promise() {
    let data = PromiseCreateData {
        id: text("p1"),
        timeout_at: i64::MAX,
        param: Value { headers: None, data: Some(text("test")) },
        tags: tags(&[("resonate:scope", "global")]),
    };
    let created = PromiseCreateResult {
        was_created: true,
        promise: promise("p1", PromiseState::Pending),
    };
    let (calls, r) = run(
        "promise.create",
        RequestData::PromiseCreate(data),
        vec![Event::Done, Event::PromiseCreated(created)],
    );
    assert_eq!(
        calls,
        [
            "timeout p1 1000".to_string(),
            format!(
                "promise_create p1 pending None Some(\"test\") {{\"resonate:scope\":\"global\"}} {} 1000 None false None",
                i64::MAX
            ),
        ]
    );
    assert_eq!(r.head.status, 200);
    match r.data {
        ResponseData::Promise(p) => {
            assert_eq!(p.id, "p1");
            assert_eq!(p.state, PromiseState::Pending);
        }
        other => panic!("{:?}", other),
    }
}

#[test]
fn idempotent_promise_create() {
    for was_created in [true, false] {
        let created = PromiseCreateResult {
            was_created,
            promise: promise("p1", PromiseState::Pending),
        };
        let (_, r) = run(
            "promise.create",
            RequestData::PromiseCreate(create_data("p1", i64::MAX, &[])),
            vec![Event::Done, Event::PromiseCreated(created)],
        );
        assert_eq!(r.head.status, 200);
        assert!(matches!(r.data, ResponseData::Promise(p) if p.id == "p1"));
    }
}

#[test]
fn a_promise_past_its_timeout_is_born_settled() {
    let result = || {
        Event::PromiseCreated(PromiseCreateResult {
            was_created: true,
            promise: promise("p", PromiseState::RejectedTimedout),
        })
    };
    let (calls, _) = run(
        "promise.create",
        RequestData::PromiseCreate(create_data("p", NOW, &[])),
        vec![Event::Done, result()],
    );
    assert_eq!(
        calls[1],
        "promise_create p rejected_timedout Some(\"{\\\"h\\\":\\\"1\\\"}\") Some(\"x\") {} 1000 1000 Some(1000) true None"
    );
    let (calls, _) = run(
        "promise.create",
        RequestData::PromiseCreate(create_data("p", 7, &[("resonate:timer", "true")])),
        vec![Event::Done, result()],
    );
    assert!(calls[1].starts_with("promise_create p resolved"));
    assert!(calls[1].ends_with("7 7 Some(7) true None"));
    let (calls, _) = run(
        "promise.create",
        RequestData::PromiseCreate(create_data("p", 7, &[("resonate:timer", "yes")])),
        vec![Event::Done, result()],
    );
    assert!(calls[1].starts_with("promise_create p rejected_timedout"));
}

#[test]
fn an_unroutable_target_is_refused() {
    let bad = &[("resonate:target", "nowhere")];
    let (calls, r) =
        run("promise.create", RequestData::PromiseCreate(create_data("p", 9, bad)), Vec::new());
    assert!(calls.is_empty());
    assert_eq!(message(&r), (400, "Invalid resonate:target address"));

    let create = TaskCreateData { pid: text("w"), ttl: 5, action: create_data("p", 9, bad) };
    let (calls, r) = run("task.create", RequestData::TaskCreate(create), Vec::new());
    assert!(calls.is_empty());
    assert_eq!(message(&r), (400, "Invalid resonate:target address"));

    let good = &[("resonate:target", "poll://any@default")];
    let created = PromiseCreateResult {
        was_created: true,
        promise: promise("p", PromiseState::Pending),
    };
    let (calls, _) = run(
        "promise.create",
        RequestData::PromiseCreate(create_data("p", 9_000, good)),
        vec![Event::Done, Event::PromiseCreated(created)],
    );
    assert!(calls[1].ends_with("Some(\"poll://any@default\")"));
}

#[test]
fn a_promise_stays_within_the_lineage_that_it_declares() {
    let separator = "Invalid resonate:origin: it must not contain a lineage separator";
    let cases: [(&str, &[(&str, &str)], &str); 6] = [
        ("b:1", &[("resonate:origin", "a")], "Promise id does not extend its resonate:origin"),
        ("a.b:1", &[("resonate:origin", "a.b")], separator),
        ("a:b", &[("resonate:origin", "a:b")], separator),
        (
            "a:1.2",
            &[("resonate:origin", "a"), ("resonate:branch", "a:2")],
            "Promise id does not extend its resonate:branch",
        ),
        ("a:1", &[("resonate:parent", "a:1.1")], "Promise id does not extend its resonate:parent"),
        ("a:12", &[("resonate:parent", "a:1")], "Promise id does not extend its resonate:parent"),
    ];
    for (id, pairs, why) in cases {
        let (calls, r) =
            run("promise.create", RequestData::PromiseCreate(create_data(id, 9, pairs)), Vec::new());
        assert!(calls.is_empty());
        assert_eq!(message(&r), (400, why));

        let create = TaskCreateData { pid: text("w"), ttl: 5, action: create_data(id, 9, pairs) };
        let (calls, r) = run("task.create", RequestData::TaskCreate(create), Vec::new());
        assert!(calls.is_empty());
        assert_eq!(message(&r), (400, why));

        let decoded =
            Event::Decoded(Decoded::Valid(RequestData::PromiseCreate(create_data(id, 9, pairs))));
        let answers = vec![Event::Done, locked(), decoded];
        let (_, r) = run("task.fence", fence("promise.create", fenced_data()), answers);
        assert_eq!(message(&r), (400, why));
    }

    let pairs =
        &[("resonate:origin", "a"), ("resonate:branch", "a:1.2"), ("resonate:parent", "a:1")];
    let created = PromiseCreateResult {
        was_created: true,
        promise: promise("a:1.2", PromiseState::Pending),
    };
    let (calls, r) = run(
        "promise.create",
        RequestData::PromiseCreate(create_data("a:1.2", 9_000, pairs)),
        vec![Event::Done, Event::PromiseCreated(created)],
    );
    assert_eq!(calls.len(), 2);
    assert_eq!(r.head.status, 200);
}

#[test]
fn promise_settle_settles() {
    let settle = || {
        RequestData::PromiseSettle(PromiseSettleData {
            id: text("p"),
            state: SettleState::RejectedCanceled,
            value: Value { headers: Some(tags(&[("a", "b")])), data: Some(text("1")) },
        })
    };
    let settled = PromiseSettleResult {
        was_settled: true,
        promise: Some(promise("p", PromiseState::RejectedCanceled)),
    };
    let (calls, r) = run("promise.settle", settle(), vec![Event::Done, Event::PromiseSettled(settled)]);
    assert_eq!(
        calls,
        [
            "timeout p 1000",
            "promise_settle p rejected_canceled Some(\"{\\\"a\\\":\\\"b\\\"}\") Some(\"1\") 1000",
        ]
    );
    assert!(matches!(r.data, ResponseData::Promise(p) if p.state == PromiseState::RejectedCanceled));

    let missing = PromiseSettleResult { was_settled: false, promise: None };
    let (_, r) = run("promise.settle", settle(), vec![Event::Done, Event::PromiseSettled(missing)]);
    assert_eq!(message(&r), (404, "Promise not found"));
}

#[test]
fn a_settled_promise_is_never_pending() {
    let mut s = server(false);
    let req = RequestEnvelope {
        kind: text("promise.settle"),
        head: RequestHead { corr_id: text("c") },
        data: Json::Null,
    };
    let settle = RequestData::PromiseSettle(PromiseSettleData {
        id: text("p"),
        state: SettleState::Resolved,
        value: nothing(),
    });
    let step = dispatch(&mut s, &req, NOW);
    let pending = match step {
        Step::Wait(p) => match p.resume(Ok(Event::Decoded(Decoded::Valid(settle)))) {
            Step::Wait(p) => match p.resume(Ok(Event::Done)) {
                Step::Wait(p) => p,
                other => panic!("{:?}", other),
            },
            other => panic!("{:?}", other),
        },
        other => panic!("{:?}", other),
    };
    let still_pending = Event::PromiseSettled(PromiseSettleResult {
        was_settled: false,
        promise: Some(promise("p", PromiseState::Pending)),
    });
    assert!(!pending.accepts(&still_pending));
    assert!(!pending.accepts(&Event::Done));
}

#[test]
fn callbacks_need_both_promises() {
    let register = || {
        RequestData::PromiseRegisterCallback(PromiseRegisterCallbackData {
            awaited: text("r:a"),
            awaiter: text("r"),
        })
    };
    let result = |awaited: Option<PromiseRecord>, awaiter: Option<PromiseRecord>| {
        vec![Event::Done, Event::CallbackRegistered(RegisterCallbackResult { awaited, awaiter })]
    };
    let with_target = || {
        let mut p = promise("r", PromiseState::Pending);
        p.tags = tags(&[("resonate:target", "poll://any@default")]);
        p
    };
    let pending = || promise("r:a", PromiseState::Pending);
    let (calls, r) =
        run("promise.register_callback", register(), result(Some(pending()), Some(with_target())));
    assert_eq!(calls, ["timeout r:a,r 1000", "callback r:a r 1000"]);
    assert!(matches!(r.data, ResponseData::Promise(p) if p.id == "r:a"));
    assert_eq!(r.head.status, 200);

    let (_, r) = run("promise.register_callback", register(), result(None, Some(with_target())));
    assert_eq!(message(&r), (404, "Awaited promise not found"));
    let (_, r) = run("promise.register_callback", register(), result(Some(pending()), None));
    assert_eq!(message(&r), (422, "Awaiter promise not found"));
    let untargeted = result(Some(pending()), Some(promise("r", PromiseState::Pending)));
    let (_, r) = run("promise.register_callback", register(), untargeted);
    assert_eq!(message(&r), (422, "Awaiter promise has no resonate:target tag"));
}

#[test]
fn callbacks_stay_within_one_origin() {
    for (awaited, awaiter) in [("a", "b"), ("a:1", "b:1"), ("r.1", "r"), ("", "r")] {
        let register = RequestData::PromiseRegisterCallback(PromiseRegisterCallbackData {
            awaited: text(awaited),
            awaiter: text(awaiter),
        });
        let (calls, r) = run("promise.register_callback", register, Vec::new());
        assert!(calls.is_empty());
        assert_eq!(message(&r), (400, "Awaiter and awaited promise must share one origin"));
    }
}

#[test]
fn listeners_need_an_address_and_a_promise() {
    let register = |address: &str| {
        RequestData::PromiseRegisterListener(PromiseRegisterListenerData {
            awaited: text("a"),
            address: text(address),
        })
    };
    let (calls, r) = run("promise.register_listener", register("nowhere"), Vec::new());
    assert!(calls.is_empty());
    assert_eq!(message(&r), (400, "Invalid listener address"));

    let found = vec![Event::Done, Event::Promise(Some(promise("a", PromiseState::Pending)))];
    let (calls, r) = run("promise.register_listener", register("poll://uni@g/p"), found);
    assert_eq!(calls, ["timeout a 1000", "listener a poll://uni@g/p"]);
    assert!(matches!(r.data, ResponseData::Promise(p) if p.id == "a"));

    let missing = vec![Event::Done, Event::Promise(None)];
    let (_, r) = run("promise.register_listener", register("poll://uni@g/p"), missing);
    assert_eq!(message(&r), (404, "Awaited promise not found"));
}

#[test]
fn searches_yield_pages() {
    let search = |limit: Option<i64>| {
        RequestData::PromiseSearch(PromiseSearchData {
            state: Some(PromiseState::Resolved),
            tags: Some(tags(&[("k", "v")])),
            cursor: Some(text("p0")),
            limit,
        })
    };
    let found = || {
        Event::Promises(vec![
            promise("p1", PromiseState::Resolved),
            promise("p2", PromiseState::Resolved),
            promise("p3", PromiseState::Resolved),
        ])
    };
    let (calls, r) = run("promise.search", search(Some(2)), vec![found()]);
    assert_eq!(
        calls,
        ["promise_search Some(\"resolved\") Some(\"{\\\"k\\\":\\\"v\\\"}\") Some(\"p0\") 3"]
    );
    match r.data {
        ResponseData::Promises { promises, cursor } => {
            assert_eq!(promises.len(), 2);
            assert_eq!(promises[1].id, "p2");
            assert_eq!(cursor.as_deref(), Some("p2"));
        }
        other => panic!("{:?}", other),
    }
    let (calls, r) = run("promise.search", search(None), vec![found()]);
    assert!(calls[0].ends_with(" 101"));
    assert!(matches!(r.data, ResponseData::Promises { promises, cursor: None } if promises.len() == 3));

    let (calls, r) = run("promise.search", search(Some(1001)), Vec::new());
    assert!(calls.is_empty());
    assert_eq!(message(&r), (400, "Invalid 'limit' — must be between 1 and 1000"));
    let (calls, _) = run("promise.search", search(Some(1000)), vec![found()]);
    assert!(calls[0].ends_with(" 1001"));
}

// Tasks

#[test]
fn task_get_settles_and_reads() {
    let get = || RequestData::TaskGet(TaskGetData { id: text("t") });
    let (calls, r) = run("task.get", get(), vec![Event::Done, Event::Task(Some(task("t")))]);
    assert_eq!(calls, ["timeout t 1000", "task_get t"]);
    assert!(matches!(r.data, ResponseData::Task(t) if t.id == "t"));
    let (_, r) = run("task.get", get(), vec![Event::Done, Event::Task(None)]);
    assert_eq!(message(&r), (404, "Task not found"));
}

fn task_create() -> RequestData {
    RequestData::TaskCreate(TaskCreateData {
        pid: text("w"),
        ttl: 60,
        action: create_data("p", 9_000, &[("resonate:target", "poll://any@default")]),
    })
}

fn created(
    state: PromiseState,
    task_created: bool,
    task_state: Option<&str>,
    task_version: Option<i64>,
) -> Event {
    Event::TaskCreated(TaskCreateResult {
        promise: promise("p", state),
        task_created,
        task_state: task_state.map(text),
        task_version,
    })
}

fn locked() -> Event {
    Event::Locked { task_exists: true }
}

#[test]
fn task_create_acquires_the_new_task() {
    let answers = vec![
        Event::Done,
        locked(),
        created(PromiseState::Pending, true, Some("acquired"), Some(1)),
        Event::Promises(vec![promise("q", PromiseState::Resolved)]),
    ];
    let (calls, r) = run("task.create", task_create(), answers);
    assert_eq!(
        calls,
        ["timeout p 1000", "lock p", "task_create p pending false 60 w", "preload p"]
    );
    assert_eq!(r.head.status, 200);
    match r.data {
        ResponseData::TaskCreate { task, promise, preload } => {
            assert_eq!(task.id, "p");
            assert_eq!(task.state, TaskState::Acquired);
            assert_eq!(task.version, 1);
            assert_eq!(task.resumes, 0);
            assert_eq!(task.ttl, Some(60));
            assert_eq!(task.pid.as_deref(), Some("w"));
            assert_eq!(promise.id, "p");
            assert_eq!(preload.len(), 1);
        }
        other => panic!("{:?}", other),
    }
}

#[test]
fn task_create_of_a_settled_promise_fires_its_callbacks() {
    let answers = vec![
        Event::Done,
        locked(),
        created(PromiseState::RejectedTimedout, true, Some("fulfilled"), Some(0)),
        Event::Done,
    ];
    let (calls, r) = run("task.create", task_create(), answers);
    assert_eq!(calls[3], "callbacks p 1000");
    match r.data {
        ResponseData::TaskCreate { task, preload, .. } => {
            assert_eq!(task.state, TaskState::Fulfilled);
            assert_eq!((task.version, task.ttl, task.pid), (0, None, None));
            assert!(preload.is_empty());
        }
        other => panic!("{:?}", other),
    }
    let answers = vec![
        Event::Done,
        locked(),
        created(PromiseState::Resolved, false, Some("fulfilled"), Some(4)),
        Event::Done,
    ];
    let (_, r) = run("task.create", task_create(), answers);
    assert!(matches!(
        r.data,
        ResponseData::TaskCreate { task, .. } if task.state == TaskState::Fulfilled && task.version == 4
    ));
}

#[test]
fn task_create_of_an_existing_task_acquires_or_refuses() {
    let acquired = |was: bool, state: TaskState, version: i64, p: Option<PromiseRecord>| {
        Event::TaskAcquired(TaskAcquireResult {
            promise: p,
            was_acquired: was,
            task_state: Some(state),
            task_version: Some(version),
        })
    };
    let start = || {
        vec![
            Event::Done,
            locked(),
            created(PromiseState::Pending, false, Some("pending"), Some(3)),
        ]
    };
    let mut answers = start();
    answers.push(acquired(true, TaskState::Acquired, 4, None));
    answers.push(Event::Promises(Vec::new()));
    let (calls, r) = run("task.create", task_create(), answers);
    assert_eq!(calls[3], "task_acquire p 3 1000 60 w");
    assert!(matches!(
        r.data,
        ResponseData::TaskCreate { task, .. } if task.version == 4 && task.state == TaskState::Acquired
    ));

    let mut answers = start();
    answers.push(acquired(false, TaskState::Fulfilled, 6, Some(promise("p", PromiseState::Rejected))));
    let (_, r) = run("task.create", task_create(), answers);
    match r.data {
        ResponseData::TaskCreate { task, promise, .. } => {
            assert_eq!((task.state, task.version), (TaskState::Fulfilled, 6));
            assert_eq!(promise.state, PromiseState::Rejected);
        }
        other => panic!("{:?}", other),
    }

    let mut answers = start();
    answers.push(acquired(false, TaskState::Pending, 4, None));
    let (_, r) = run("task.create", task_create(), answers);
    assert_eq!(message(&r), (409, "Already exists"));

    for (state, version) in [("acquired", Some(1)), ("pending", None), ("unheard of", Some(1))] {
        let answers =
            vec![Event::Done, locked(), created(PromiseState::Pending, false, Some(state), version)];
        let (_, r) = run("task.create", task_create(), answers);
        assert_eq!(message(&r), (409, "Already exists"));
    }
    let answers = vec![Event::Done, locked(), created(PromiseState::Pending, false, None, None)];
    let (_, r) = run("task.create", task_create(), answers);
    assert_eq!(message(&r), (422, "Promise exists without a target task"));
}

#[test]
fn task_acquire_counts_the_version() {
    let acquire = || {
        RequestData::TaskAcquire(TaskAcquireData {
            id: text("t"),
            version: 2,
            pid: text("w"),
            ttl: 30,
        })
    };
    let result = |p: Option<PromiseRecord>, was: bool, state: TaskState, version: i64| {
        Event::TaskAcquired(TaskAcquireResult {
            promise: p,
            was_acquired: was,
            task_state: Some(state),
            task_version: Some(version),
        })
    };
    let p = || Some(promise("t", PromiseState::Pending));
    let answers = vec![
        Event::Done,
        result(p(), true, TaskState::Acquired, 3),
        Event::Promises(Vec::new()),
    ];
    let (calls, r) = run("task.acquire", acquire(), answers);
    assert_eq!(calls, ["timeout t 1000", "task_acquire t 2 1000 30 w", "preload t"]);
    match r.data {
        ResponseData::TaskAcquire { task, promise, .. } => {
            assert_eq!((task.version, task.state), (3, TaskState::Acquired));
            assert_eq!((task.ttl, task.pid.as_deref()), (Some(30), Some("w")));
            assert_eq!(promise.id, "t");
        }
        other => panic!("{:?}", other),
    }
    let answers = vec![Event::Done, result(None, false, TaskState::Pending, 2)];
    let (_, r) = run("task.acquire", acquire(), answers);
    assert_eq!(message(&r), (404, "Task not found"));
    let answers = vec![Event::Done, result(p(), false, TaskState::Acquired, 2)];
    let (_, r) = run("task.acquire", acquire(), answers);
    assert_eq!(message(&r), (409, "Task is not pending"));
    let answers = vec![Event::Done, result(p(), false, TaskState::Pending, 5)];
    let (_, r) = run("task.acquire", acquire(), answers);
    assert_eq!(message(&r), (409, "Version mismatch"));
}

#[test]
fn task_release_gives_the_task_back() {
    let release = || RequestData::TaskRelease(TaskReleaseData { id: text("rpc-1"), version: 1 });
    let released = |task_released: bool, task_exists: bool| {
        Event::TaskReleased(TaskReleaseResult { task_released, task_exists })
    };
    let (calls, r) = run("task.release", release(), vec![Event::Done, locked(), released(true, true)]);
    assert_eq!(calls, ["timeout rpc-1 1000", "lock rpc-1", "task_release rpc-1 1 1000 30000"]);
    assert_eq!(r.head.status, 200);
    assert!(matches!(r.data, ResponseData::Empty));

    let gone = vec![Event::Done, Event::Locked { task_exists: false }];
    let (_, r) = run("task.release", release(), gone);
    assert_eq!(message(&r), (404, "Task not found"));
    let (_, r) = run("task.release", release(), vec![Event::Done, locked(), released(false, false)]);
    assert_eq!(message(&r), (404, "Task not found"));
    let (_, r) = run("task.release", release(), vec![Event::Done, locked(), released(false, true)]);
    assert_eq!(message(&r), (409, "Task version mismatch or invalid state"));
}

#[test]
fn task_create_dispatches_execute_to_subscriber() {
    let opened: Result<u8, StorageError> = Ok(0);
    let (mut s, net) = match SqliteNetwork::with_backend(
        opened,
        Some(text("test-pid")),
        Some(text("default")),
        Config::default(),
        text("generated"),
    ) {
        Ok(pair) => pair,
        Err(e) => panic!("{:?}", e),
    };
    let create = TaskCreateData {
        pid: text("test-pid"),
        ttl: 60000,
        action: PromiseCreateData {
            id: text("rpc-1"),
            timeout_at: i64::MAX,
            param: Value { headers: None, data: Some(text("x")) },
            tags: tags(&[("resonate:target", "poll://any@default")]),
        },
    };
    let mut rpc = promise("rpc-1", PromiseState::Pending);
    rpc.tags = tags(&[("resonate:target", "poll://any@default")]);
    let result = TaskCreateResult {
        promise: rpc,
        task_created: true,
        task_state: Some(text("acquired")),
        task_version: Some(1),
    };
    let answers = vec![
        Ok(Event::Decoded(Decoded::Valid(RequestData::TaskCreate(create)))),
        Ok(Event::Done),
        Ok(locked()),
        Ok(Event::TaskCreated(result)),
        Ok(Event::Promises(Vec::new())),
    ];
    let (_, r) = drive(&mut s.server, "task.create", Json::Null, answers);
    assert_eq!(r.head.status, 200);
    assert!(matches!(
        r.data,
        ResponseData::TaskCreate { task, .. } if task.state == TaskState::Acquired
    ));

    // Releasing the task puts it back to pending, which has an execute sent for it.
    let release = TaskReleaseData { id: text("rpc-1"), version: 1 };
    let released = TaskReleaseResult { task_released: true, task_exists: true };
    let answers = vec![
        Ok(Event::Decoded(Decoded::Valid(RequestData::TaskRelease(release)))),
        Ok(Event::Done),
        Ok(locked()),
        Ok(Event::TaskReleased(released)),
    ];
    let (_, r) = drive(&mut s.server, "task.release", Json::Null, answers);
    assert_eq!(r.head.status, 200);

    let execute =
        OutgoingExecute { id: text("rpc-1"), version: 1, address: text("poll://any@default") };
    let deliveries = route_outgoing(
        s.registry.connections(),
        &s.server.config,
        vec![execute],
        Vec::new(),
    );
    assert_eq!(deliveries.len(), 1);
    assert!(matches!(&deliveries[0].message, Message::Execute { id, .. } if id == "rpc-1"));
    assert!(
        deliveries[0].keys.contains(&net.connection.key),
        "expected the execute message to reach the subscriber"
    );
}

#[test]
fn task_fulfill_settles_the_promise_of_the_task() {
    let fulfill = || {
        RequestData::TaskFulfill(TaskFulfillData {
            id: text("t"),
            version: 2,
            action: PromiseSettleData {
                id: text("t"),
                state: SettleState::Resolved,
                value: Value { headers: None, data: Some(text("42")) },
            },
        })
    };
    let result = |task_exists: bool, task_fulfilled: bool, p: Option<PromiseRecord>| {
        Event::TaskFulfilled(TaskFulfillResult { task_exists, task_fulfilled, promise: p })
    };
    let done = Some(promise("t", PromiseState::Resolved));
    let (calls, r) = run("task.fulfill", fulfill(), vec![Event::Done, locked(), result(true, true, done)]);
    assert_eq!(
        calls,
        ["timeout t 1000", "lock t", "task_fulfill t 2 t resolved Some(\"42\") 1000"]
    );
    assert!(matches!(
        r.data,
        ResponseData::TaskFulfill { promise } if promise.state == PromiseState::Resolved
    ));
    let gone = vec![Event::Done, Event::Locked { task_exists: false }];
    let (_, r) = run("task.fulfill", fulfill(), gone);
    assert_eq!(message(&r), (404, "Task not found"));
    let (_, r) = run("task.fulfill", fulfill(), vec![Event::Done, locked(), result(false, false, None)]);
    assert_eq!(message(&r), (404, "Task not found"));
    let (_, r) = run("task.fulfill", fulfill(), vec![Event::Done, locked(), result(true, false, None)]);
    assert_eq!(message(&r), (409, "Task version mismatch or invalid state"));
}

#[test]
fn task_suspend_awaits_each_promise_once() {
    let suspend = || {
        let action = |awaited: &str| PromiseRegisterCallbackData {
            awaited: text(awaited),
            awaiter: text("t"),
        };
        RequestData::TaskSuspend(TaskSuspendData {
            id: text("t"),
            version: 2,
            actions: vec![action("t:b"), action("t:a"), action("t:b"), action("t:c"), action("t:a")],
        })
    };
    let result = |task_matched: bool, was_suspended: bool, missing_count: i32| {
        Event::TaskSuspended(TaskSuspendResult { task_matched, was_suspended, missing_count })
    };
    let (calls, r) = run("task.suspend", suspend(), vec![locked(), Event::Done, result(true, true, 0)]);
    assert_eq!(calls, ["lock t", "timeout t,t:b,t:a,t:b,t:c,t:a 1000", "task_suspend t 2 t:b,t:a,t:c"]);
    assert_eq!(r.head.status, 200);
    assert!(matches!(r.data, ResponseData::Empty));

    let answers = vec![
        locked(),
        Event::Done,
        result(true, false, 0),
        Event::Promises(vec![promise("t:a", PromiseState::Resolved)]),
    ];
    let (calls, r) = run("task.suspend", suspend(), answers);
    assert_eq!(calls[3], "preload t");
    assert_eq!(r.head.status, 300);
    assert!(matches!(r.data, ResponseData::TaskSuspend { preload } if preload.len() == 1));

    let (_, r) = run("task.suspend", suspend(), vec![locked(), Event::Done, result(true, true, 1)]);
    assert_eq!(message(&r), (422, "Awaited promise not found"));
    let (_, r) = run("task.suspend", suspend(), vec![locked(), Event::Done, result(false, false, 0)]);
    assert_eq!(message(&r), (409, "Task is not acquired or version mismatch"));
    let gone = vec![Event::Locked { task_exists: false }, Event::Done, result(false, false, 0)];
    let (_, r) = run("task.suspend", suspend(), gone);
    assert_eq!(message(&r), (404, "Task not found"));
}

#[test]
fn tasks_suspend_within_one_origin() {
    let action = |awaited: &str, awaiter: &str| PromiseRegisterCallbackData {
        awaited: text(awaited),
        awaiter: text(awaiter),
    };
    for actions in [
        vec![action("a", "b")],
        vec![action("t:1", "t"), action("u:1", "t")],
        // The task itself is of another origin than its actions.
        vec![action("u:1", "u")],
        vec![action("t:1", "t"), action("u:1", "u")],
    ] {
        let suspend = RequestData::TaskSuspend(TaskSuspendData { id: text("t"), version: 2, actions });
        let (calls, r) = run("task.suspend", suspend, Vec::new());
        assert!(calls.is_empty());
        assert_eq!(message(&r), (400, "Awaiter and awaited promise must share one origin"));
    }
}

fn fence(kind: &str, data: Json) -> RequestData {
    RequestData::TaskFence(TaskFenceData {
        id: text("t"),
        version: 2,
        action: FenceAction { kind: text(kind), data },
    })
}

fn fenced_data() -> Json {
    Json::Object(vec![(text("id"), Json::Text(text("p")))])
}

fn fenced(task_exists: bool, fence_ok: bool, p: Option<PromiseRecord>) -> Event {
    Event::TaskFenced(TaskFenceResult { task_exists, fence_ok, promise: p })
}

#[test]
fn task_fence_creates_a_promise() {
    let decoded = |pairs: &[(&str, &str)]| {
        Event::Decoded(Decoded::Valid(RequestData::PromiseCreate(create_data("p", 9_000, pairs))))
    };
    let answers = vec![
        Event::Done,
        locked(),
        decoded(&[("resonate:target", "bash://")]),
        fenced(true, true, Some(promise("p", PromiseState::Pending))),
        Event::Promises(vec![promise("q", PromiseState::Pending)]),
    ];
    let (calls, r) = run("task.fence", fence("promise.create", fenced_data()), answers);
    assert_eq!(
        calls,
        [
            "timeout t,p 1000",
            "lock t",
            "decode PromiseCreate",
            "fence_create t 2 p pending Some(\"bash://\")",
            "preload t",
        ]
    );
    assert_eq!(r.head.status, 200);
    match r.data {
        ResponseData::TaskFence { action, preload } => {
            assert_eq!(action.kind, "promise.create");
            assert_eq!(action.head.corr_id, "c1");
            assert_eq!(action.head.status, 200);
            assert_eq!(action.head.version, "2026-04-01");
            assert!(matches!(action.data, ActionData::Promise(p) if p.id == "p"));
            assert_eq!(preload.len(), 1);
        }
        other => panic!("{:?}", other),
    }

    let refused = vec![Event::Done, locked(), decoded(&[("resonate:target", "nowhere")])];
    let (_, r) = run("task.fence", fence("promise.create", fenced_data()), refused);
    assert_eq!(message(&r), (400, "Invalid resonate:target address"));
    let refused = vec![Event::Done, locked(), decoded(&[]), fenced(false, false, None)];
    let (_, r) = run("task.fence", fence("promise.create", fenced_data()), refused);
    assert_eq!(message(&r), (404, "Task not found"));
    let refused = vec![Event::Done, locked(), decoded(&[]), fenced(true, false, None)];
    let (_, r) = run("task.fence", fence("promise.create", fenced_data()), refused);
    assert_eq!(message(&r), (409, "Version mismatch"));
}

#[test]
fn task_fence_settles_a_promise() {
    let decoded = || {
        Event::Decoded(Decoded::Valid(RequestData::PromiseSettle(PromiseSettleData {
            id: text("p"),
            state: SettleState::Rejected,
            value: nothing(),
        })))
    };
    let answers = vec![
        Event::Done,
        locked(),
        decoded(),
        fenced(true, true, Some(promise("p", PromiseState::Rejected))),
        Event::Promises(Vec::new()),
    ];
    let (calls, r) = run("task.fence", fence("promise.settle", fenced_data()), answers);
    assert_eq!(calls[3], "fence_settle t 2 p rejected 1000");
    assert!(matches!(
        r.data,
        ResponseData::TaskFence { action, .. } if action.head.status == 200
            && matches!(&action.data, ActionData::Promise(p) if p.state == PromiseState::Rejected)
    ));

    // A promise that does not exist fails the action alone.
    let answers = vec![
        Event::Done,
        locked(),
        decoded(),
        fenced(true, true, None),
        Event::Promises(Vec::new()),
    ];
    let (_, r) = run("task.fence", fence("promise.settle", fenced_data()), answers);
    assert_eq!(r.head.status, 200);
    assert!(matches!(
        r.data,
        ResponseData::TaskFence { action, .. } if action.head.status == 404
            && matches!(&action.data, ActionData::Text(m) if m == "Promise not found")
    ));
}

#[test]
fn task_fence_refuses_other_actions() {
    let (calls, r) = run("task.fence", fence("promise.get", Json::Null), vec![Event::Done, locked()]);
    assert_eq!(calls[0], "timeout t, 1000");
    assert_eq!(message(&r), (400, "Invalid fence action kind"));
    let malformed = Event::Decoded(Decoded::Malformed(text("missing field `timeoutAt`")));
    let (_, r) = run(
        "task.fence",
        fence("promise.create", fenced_data()),
        vec![Event::Done, locked(), malformed],
    );
    assert_eq!(message(&r), (400, "Invalid action data: missing field `timeoutAt`"));
    let invalid = Event::Decoded(Decoded::Invalid(text("id: required")));
    let (_, r) =
        run("task.fence", fence("promise.settle", fenced_data()), vec![Event::Done, locked(), invalid]);
    assert_eq!(message(&r), (400, "id: required"));
}

#[test]
fn task_heartbeat_names_the_tasks() {
    let data = RequestData::TaskHeartbeat(TaskHeartbeatData {
        pid: text("w"),
        tasks: vec![TaskRef { id: text("a"), version: 1 }, TaskRef { id: text("b"), version: 7 }],
    });
    let (calls, r) = run("task.heartbeat", data, vec![Event::Done]);
    assert_eq!(calls, ["heartbeat w [(\"a\", 1), (\"b\", 7)] 1000"]);
    assert!(matches!(r.data, ResponseData::Empty));
}

#[test]
fn task_halt_and_continue() {
    let halt = || RequestData::TaskHalt(TaskHaltData { id: text("t") });
    let halted = |task_exists: bool, task_fulfilled: bool| {
        vec![Event::Done, Event::TaskHalted(TaskHaltResult { task_exists, task_fulfilled })]
    };
    let (calls, r) = run("task.halt", halt(), halted(true, false));
    assert_eq!(calls, ["timeout t 1000", "task_halt t"]);
    assert!(matches!(r.data, ResponseData::Empty));
    let (_, r) = run("task.halt", halt(), halted(false, false));
    assert_eq!(message(&r), (404, "Task not found"));
    let (_, r) = run("task.halt", halt(), halted(true, true));
    assert_eq!(message(&r), (409, "Task is fulfilled"));

    let go_on = || RequestData::TaskContinue(TaskContinueData { id: text("t") });
    let continued = |task_exists: bool, continued: bool| {
        vec![Event::Done, Event::TaskContinued(TaskContinueResult { task_exists, continued })]
    };
    let (calls, r) = run("task.continue", go_on(), continued(true, true));
    assert_eq!(calls, ["timeout t 1000", "task_continue t 1000"]);
    assert!(matches!(r.data, ResponseData::Empty));
    let (_, r) = run("task.continue", go_on(), continued(false, false));
    assert_eq!(message(&r), (404, "Task not found"));
    let (_, r) = run("task.continue", go_on(), continued(true, false));
    assert_eq!(message(&r), (409, "Task is not halted"));
}

#[test]
fn task_search_yields_pages() {
    let search = |limit: Option<i64>| {
        RequestData::TaskSearch(TaskSearchData { state: None, cursor: None, limit })
    };
    let found = || Event::Tasks(vec![task("a"), task("b")]);
    let (calls, r) = run("task.search", search(Some(1)), vec![found()]);
    assert_eq!(calls, ["task_search None None 2"]);
    match r.data {
        ResponseData::Tasks { tasks, cursor } => {
            assert_eq!(tasks.len(), 1);
            assert_eq!(cursor.as_deref(), Some("a"));
        }
        other => panic!("{:?}", other),
    }
    let (_, r) = run("task.search", search(Some(0)), vec![found()]);
    assert!(matches!(r.data, ResponseData::Tasks { tasks, cursor: None } if tasks.is_empty()));
    // A negative limit cuts nothing off, and names the last as the cursor.
    let (calls, r) = run("task.search", search(Some(-1)), vec![found()]);
    assert_eq!(calls, ["task_search None None 0"]);
    assert!(matches!(
        r.data,
        ResponseData::Tasks { tasks, cursor: Some(c) } if tasks.len() == 2 && c == "b"
    ));
    let (_, r) = run("task.search", search(Some(1001)), Vec::new());
    assert_eq!(r.head.status, 400);
}

// Schedules

#[test]
fn schedule_get_reads() {
    let get = || RequestData::ScheduleGet(ScheduleGetData { id: text("s") });
    let (calls, r) = run("schedule.get", get(), vec![Event::Schedule(Some(schedule("s")))]);
    assert_eq!(calls, ["schedule_get s"]);
    assert!(matches!(r.data, ResponseData::Schedule(s) if s.id == "s"));
    let (_, r) = run("schedule.get", get(), vec![Event::Schedule(None)]);
    assert_eq!(message(&r), (404, "Schedule not found"));
}

#[test]
fn schedule_create_needs_a_valid_cron() {
    let create = || {
        RequestData::ScheduleCreate(ScheduleCreateData {
            id: text("s"),
            cron: text("* * * * *"),
            promise_id: text("p-{{.timestamp}}"),
            promise_timeout: 100,
            promise_param: nothing(),
            promise_tags: tags(&[("k", "v")]),
        })
    };
    let answers =
        vec![Event::CronValid(true), Event::NextCron(60_000), Event::ScheduleCreated(schedule("s"))];
    let (calls, r) = run("schedule.create", create(), answers);
    assert_eq!(
        calls,
        [
            "valid * * * * *",
            "next * * * * * 1000",
            "schedule_create s * * * * * p-{{.timestamp}} 100 {\"k\":\"v\"} 1000 60000",
        ]
    );
    assert!(matches!(r.data, ResponseData::Schedule(s) if s.id == "s"));
    let (_, r) = run("schedule.create", create(), vec![Event::CronValid(false)]);
    assert_eq!(message(&r), (400, "Invalid cron expression"));
}

#[test]
fn schedule_delete_deletes() {
    let delete = || RequestData::ScheduleDelete(ScheduleDeleteData { id: text("s") });
    let (calls, r) = run("schedule.delete", delete(), vec![Event::ScheduleDeleted(true)]);
    assert_eq!(calls, ["schedule_delete s"]);
    assert!(matches!(r.data, ResponseData::Empty));
    let (_, r) = run("schedule.delete", delete(), vec![Event::ScheduleDeleted(false)]);
    assert_eq!(message(&r), (404, "Schedule not found"));
}

#[test]
fn schedule_search_yields_pages() {
    let search = |limit: Option<i64>| {
        RequestData::ScheduleSearch(ScheduleSearchData { tags: None, cursor: Some(text("r")), limit })
    };
    let found = || Event::Schedules(vec![schedule("s"), schedule("t")]);
    let (calls, r) = run("schedule.search", search(None), vec![found()]);
    assert_eq!(calls, ["schedule_search None Some(\"r\") 11"]);
    assert!(matches!(
        r.data,
        ResponseData::Schedules { schedules, cursor: None } if schedules.len() == 2
    ));
    let (_, r) = run("schedule.search", search(Some(1)), vec![found()]);
    assert!(matches!(
        r.data,
        ResponseData::Schedules { schedules, cursor: Some(c) } if schedules.len() == 1 && c == "s"
    ));
    // A negative limit cuts nothing off, and there is no next page.
    let (_, r) = run("schedule.search", search(Some(-1)), vec![found()]);
    assert!(matches!(
        r.data,
        ResponseData::Schedules { schedules, cursor: None } if schedules.len() == 2
    ));
    let (_, r) = run("schedule.search", search(Some(1001)), Vec::new());
    assert_eq!(message(&r), (400, "Invalid 'limit' — must be between 1 and 1000"));
}
