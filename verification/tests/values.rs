use std::collections::HashMap;

use resonate::error::Error;
use resonate::json::Json;
use resonate::string_map::{optional_json, StringMap};
use resonate::types::{
    DurableKind, Outcome, PromiseCreateReq, PromiseRecord, PromiseRegisterCallbackData,
    PromiseSettleReq, PromiseState, ScheduleRecord, SettleState, Status, TaskData, TaskRecord,
    TaskState, Value,
};

/// The library's value for a JSON value.
fn json_of(v: &serde_json::Value) -> Json {
    match v {
        serde_json::Value::Null => Json::Null,
        serde_json::Value::Bool(b) => Json::Bool(*b),
        serde_json::Value::Number(n) => match n.as_i64() {
            Some(i) => Json::Int(i),
            None => Json::Number(n.to_string()),
        },
        serde_json::Value::String(s) => Json::Text(s.clone()),
        serde_json::Value::Array(items) => Json::Array(items.iter().map(json_of).collect()),
        serde_json::Value::Object(map) => {
            Json::Object(map.iter().map(|(k, v)| (k.clone(), json_of(v))).collect())
        }
    }
}

/// The library's value for a JSON text.
fn json(text: &str) -> Json {
    json_of(&serde_json::from_str(text).unwrap())
}

/// The value that a JSON text on the wire stands for.
fn from_wire(text: &str) -> Value {
    Value::from_json(json(text))
}

fn map_of(pairs: &[(&str, &str)]) -> StringMap {
    StringMap::from_pairs(pairs.iter().map(|(k, v)| (k.to_string(), v.to_string())).collect())
}

/// The text of a JSON value, the fields of objects in their order.
fn written(json: &Json) -> String {
    match json {
        Json::Null => "null".to_string(),
        Json::Bool(b) => b.to_string(),
        Json::Int(n) => n.to_string(),
        Json::Number(text) => text.clone(),
        Json::Text(text) => serde_json::to_string(text).unwrap(),
        Json::Array(items) => {
            let items: Vec<String> = items.iter().map(written).collect();
            format!("[{}]", items.join(","))
        }
        Json::Object(fields) => {
            let fields: Vec<String> = fields
                .iter()
                .map(|(k, v)| format!("{}:{}", serde_json::to_string(k).unwrap(), written(v)))
                .collect();
            format!("{{{}}}", fields.join(","))
        }
    }
}

// Writing values

#[test]
fn encode_empty_value_is_empty_object() {
    assert_eq!(written(&Value::default().to_json()), "{}");
}

#[test]
fn encode_headers_only() {
    let v = Value { headers: Some(map_of(&[("a", "b")])), data: None };
    assert_eq!(written(&v.to_json()), r#"{"headers":{"a":"b"}}"#);
}

#[test]
fn encode_data_only() {
    let v = Value { headers: None, data: Some(Json::Int(42)) };
    assert_eq!(written(&v.to_json()), r#"{"data":42}"#);
}

#[test]
fn encode_both_fields_in_field_order() {
    let v = Value { headers: Some(map_of(&[("a", "b")])), data: Some(Json::Int(42)) };
    assert_eq!(written(&v.to_json()), r#"{"headers":{"a":"b"},"data":42}"#);
}

#[test]
fn what_was_written_is_read_back() {
    for text in ["{}", r#"{"headers":{"a":"b"}}"#, r#"{"data":null}"#, r#"{"headers":{},"data":[1]}"#] {
        let v = from_wire(text);
        let back = Value::from_json(v.to_json());
        assert_eq!(v.headers.is_some(), back.headers.is_some());
        assert!(v.headers_or_empty() == back.headers_or_empty());
        assert_eq!(v.data, back.data);
        assert_eq!(written(&v.to_json()), text);
    }
}

// Writing records

#[test]
fn promise_record_encode_camel_and_field_order() {
    let r = PromiseRecord {
        id: "p1".to_string(),
        state: PromiseState::Pending,
        param: Value { headers: None, data: Some(Json::Int(1)) },
        value: Value::default(),
        tags: map_of(&[("k", "v")]),
        timeout_at: 10,
        created_at: 5,
        settled_at: None,
    };
    assert_eq!(
        written(&r.to_json()),
        [
            r#"{"id":"p1","state":"pending","param":{"data":1},"value":{},"#,
            r#""tags":{"k":"v"},"timeoutAt":10,"createdAt":5,"settledAt":null}"#,
        ]
        .concat()
    );
}

#[test]
fn task_record_encode() {
    let r = TaskRecord {
        id: "t1".to_string(),
        state: TaskState::Acquired,
        version: 2,
        resumes: json(r#"["a"]"#),
        ttl: Some(30),
        pid: Some("x".to_string()),
    };
    assert_eq!(
        written(&r.to_json()),
        r#"{"id":"t1","state":"acquired","version":2,"resumes":["a"],"ttl":30,"pid":"x"}"#
    );
}

#[test]
fn task_record_encode_defaults_emit_null() {
    let r = TaskRecord {
        id: "t1".to_string(),
        state: TaskState::Pending,
        version: 1,
        resumes: Json::Null,
        ttl: None,
        pid: None,
    };
    assert_eq!(
        written(&r.to_json()),
        r#"{"id":"t1","state":"pending","version":1,"resumes":null,"ttl":null,"pid":null}"#
    );
}

#[test]
fn schedule_record_encode() {
    let r = ScheduleRecord {
        id: "s1".to_string(),
        cron: "c".to_string(),
        promise_id: "p1".to_string(),
        promise_timeout: 100,
        promise_param: Value::default(),
        promise_tags: StringMap::new(),
        created_at: 1,
        next_run_at: 2,
        last_run_at: None,
    };
    assert_eq!(
        written(&r.to_json()),
        [
            r#"{"id":"s1","cron":"c","promiseId":"p1","promiseTimeout":100,"#,
            r#""promiseParam":{},"promiseTags":{},"createdAt":1,"nextRunAt":2,"lastRunAt":null}"#,
        ]
        .concat()
    );
}

#[test]
fn promise_create_req_encode_camel_and_field_order() {
    let r = PromiseCreateReq {
        id: "p1".to_string(),
        timeout_at: 10,
        param: Value { headers: None, data: Some(Json::Int(1)) },
        tags: map_of(&[("k", "v")]),
    };
    assert_eq!(
        written(&r.to_json()),
        r#"{"id":"p1","timeoutAt":10,"param":{"data":1},"tags":{"k":"v"}}"#
    );
}

#[test]
fn promise_settle_req_encode() {
    let r = PromiseSettleReq {
        id: "p1".to_string(),
        state: SettleState::Resolved,
        value: Value { headers: None, data: Some(Json::Int(1)) },
    };
    assert_eq!(
        written(&r.to_json()),
        r#"{"id":"p1","state":"resolved","value":{"data":1}}"#
    );
}

#[test]
fn promise_register_callback_data_encode() {
    let d = PromiseRegisterCallbackData { awaited: "a".to_string(), awaiter: "b".to_string() };
    assert_eq!(written(&d.to_json()), r#"{"awaited":"a","awaiter":"b"}"#);
}

#[test]
fn task_data_encode() {
    let d = TaskData { func: "f".to_string(), args: json(r#"{"x": 1}"#) };
    assert_eq!(written(&d.to_json()), r#"{"func":"f","args":{"x":1}}"#);
}

#[test]
fn task_data_encode_default_args_emit_null() {
    let d = TaskData { func: "f".to_string(), args: Json::Null };
    assert_eq!(written(&d.to_json()), r#"{"func":"f","args":null}"#);
}

// Accessors

#[test]
fn data_or_null_defaults_to_null() {
    assert_eq!(Value::default().data_or_null(), Json::Null);
    assert_eq!(*Value::default().data_as_ref(), Json::Null);
    assert_eq!(Value::default().into_data_or_null(), Json::Null);
}

#[test]
fn data_or_null_returns_data() {
    let v = Value { headers: None, data: Some(Json::Int(42)) };
    assert_eq!(v.data_or_null(), Json::Int(42));
    assert_eq!(*v.data_as_ref(), Json::Int(42));
    assert_eq!(v.into_data_or_null(), Json::Int(42));
}

#[test]
fn headers_or_empty_defaults_to_empty() {
    assert!(Value::default().headers_or_empty() == StringMap::new());
    assert!(Value::default().headers_or_empty().is_empty());
}

#[test]
fn headers_or_empty_returns_headers() {
    let v = Value { headers: Some(map_of(&[("a", "b")])), data: None };
    assert!(v.headers_or_empty() == map_of(&[("a", "b")]));
}

// Serialization

#[test]
fn from_serializable_wraps_data() {
    let point: HashMap<&str, i64> = HashMap::from([("x", 1), ("y", 2)]);
    let encoded = serde_json::to_value(point).map(|v| json_of(&v));
    let v = Value::from_serializable(encoded).unwrap();
    assert!(v.headers.is_none());
    assert_eq!(v.data_or_null(), json(r#"{"x": 1, "y": 2}"#));
    assert_eq!(written(&v.to_json()), r#"{"data":{"x":1,"y":2}}"#);
}

#[test]
fn from_serializable_unserializable_errors() {
    // A map key that is not a string cannot be written as JSON.
    let map: HashMap<(i64, i64), i64> = HashMap::from([((1, 2), 3)]);
    let err = Value::from_serializable(serde_json::to_value(map).map(|v| json_of(&v))).unwrap_err();
    assert!(matches!(err, Error::SerializationError(_)));
}

#[test]
fn decode_roundtrip() {
    let point: HashMap<String, i64> = HashMap::from([("x".to_string(), 1), ("y".to_string(), 2)]);
    let encoded = serde_json::to_value(point.clone()).map(|v| json_of(&v));
    let v = Value::from_serializable(encoded).unwrap();
    let data: serde_json::Value = serde_json::from_str(&written(v.data_as_ref())).unwrap();
    let read = serde_json::from_value::<HashMap<String, i64>>(data);
    assert_eq!(Value::decode(read).unwrap(), point);
}

#[test]
fn decode_null_into_required_type_errors() {
    let read = serde_json::from_value::<i64>(serde_json::Value::Null);
    assert_eq!(*Value::default().data_as_ref(), Json::Null);
    let err = Value::decode(read).unwrap_err();
    assert!(matches!(err, Error::SerializationError(_)));
}

// The wire

#[test]
fn from_wire_null_is_empty_value() {
    let v = from_wire("null");
    assert!(v.headers.is_none());
    assert!(v.data.is_none());
}

#[test]
fn from_wire_object_splits_headers_and_data() {
    let v = from_wire(r#"{"headers":{"a":"b"},"data":[1,2,3]}"#);
    assert!(v.headers_or_empty() == map_of(&[("a", "b")]));
    assert_eq!(v.data_or_null(), json("[1, 2, 3]"));
}

#[test]
fn from_wire_invalid_headers_are_dropped() {
    // Headers that are not a map of strings are dropped.
    let v = from_wire(r#"{"headers":[1,2],"data":1}"#);
    assert!(v.headers.is_none());
    assert_eq!(v.data_or_null(), Json::Int(1));
    let v = from_wire(r#"{"headers":{"a":1}}"#);
    assert!(v.headers.is_none());
}

#[test]
fn from_wire_bare_value_is_treated_as_data() {
    let v = from_wire("42");
    assert_eq!(v.data_or_null(), Json::Int(42));
    let v = from_wire(r#""hello""#);
    assert_eq!(v.data_or_null(), Json::Text("hello".to_string()));
    let v = from_wire("[1,2,3]");
    assert_eq!(v.data_or_null(), json("[1, 2, 3]"));
}

#[test]
fn from_wire_object_without_data_field() {
    let v = from_wire("{}");
    assert!(v.headers.is_none());
    assert_eq!(v.data_or_null(), Json::Null);

    let v = from_wire(r#"{"headers":{"a":"b"}}"#);
    assert!(v.headers_or_empty() == map_of(&[("a", "b")]));
    assert_eq!(v.data_or_null(), Json::Null);
}

#[test]
fn json_is_read_by_field_and_type() {
    let v = json(r#"{"id":"p","n":-3,"f":1.5,"deep":{"a":[null,true]}}"#);
    assert_eq!(v.field("id").and_then(|j| j.as_str()), Some("p"));
    assert_eq!(v.field("n").and_then(|j| j.as_i64()), Some(-3));
    assert_eq!(v.field("f").and_then(|j| j.as_i64()), None);
    assert!(v.field("missing").is_none());
    assert!(Json::Int(1).field("id").is_none());
    assert_eq!(v.copy(), v);
    assert!(json(r#"{"a":"1","b":"2"}"#).to_string_map().unwrap() == map_of(&[("b", "2"), ("a", "1")]));
    assert!(json(r#"{"a":"1","b":2}"#).to_string_map().is_none());
}

// Requests

#[test]
fn promise_create_req_default_with_id() {
    let r = PromiseCreateReq::default_with_id("p1");
    assert_eq!(r.id, "p1");
    assert_eq!(r.timeout_at, 0);
    assert!(r.param.headers.is_none());
    assert!(r.param.data.is_none());
    assert!(r.tags.is_empty());
}

#[test]
fn task_data_into_value_wraps_func_and_args() {
    let v = TaskData::into_value("f", Ok(json("[1, 2]"))).unwrap();
    assert!(v.headers.is_none());
    let data = v.data_or_null();
    assert_eq!(data.field("func"), Some(&Json::Text("f".to_string())));
    assert_eq!(data.field("args"), Some(&json("[1, 2]")));
    match data {
        Json::Object(fields) => assert_eq!(fields.len(), 2),
        other => panic!("expected an object, got {:?}", other),
    }
}

#[test]
fn task_data_into_value_unserializable_errors() {
    // A map key that is not a string cannot be written as JSON.
    let map: HashMap<(i64, i64), i64> = HashMap::from([((1, 2), 3)]);
    let err = TaskData::into_value("f", serde_json::to_value(map).map(|v| json_of(&v))).unwrap_err();
    assert!(matches!(err, Error::SerializationError(_)));
}

// Internal types

#[test]
fn durable_kind_variants_distinct() {
    assert_ne!(DurableKind::Function, DurableKind::Workflow);
    let copied = DurableKind::Function;
    assert_eq!(copied, DurableKind::Function);
}

#[test]
fn status_variants_distinct() {
    assert_ne!(Status::Done, Status::Suspended);
    let s = Status::Done;
    assert_eq!(s, Status::Done);
}

#[test]
fn outcome_done_holds_ok_result() {
    let o: Outcome<i64> = Outcome::Done(Ok(42));
    match o {
        Outcome::Done(Ok(v)) => assert_eq!(v, 42),
        _ => panic!("expected Done(Ok)"),
    }
}

#[test]
fn outcome_done_holds_err_result() {
    let o: Outcome<i64> = Outcome::Done(Err(Error::Application {
        message: "boom".to_string(),
    }));
    match o {
        Outcome::Done(Err(Error::Application { message })) => {
            assert_eq!(message, "boom")
        }
        _ => panic!("expected Done(Err(Application))"),
    }
}

#[test]
fn outcome_suspended_holds_remote_todos() {
    let o: Outcome<()> = Outcome::Suspended {
        remote_todos: vec!["a".to_string(), "b".to_string()],
    };
    match o {
        Outcome::Suspended { remote_todos } => {
            assert_eq!(remote_todos, vec!["a".to_string(), "b".to_string()])
        }
        _ => panic!("expected Suspended"),
    }
}

// State names

#[test]
fn states_have_their_names_on_the_wire() {
    assert_eq!(PromiseState::Pending.as_str(), "pending");
    assert_eq!(PromiseState::Resolved.as_str(), "resolved");
    assert_eq!(PromiseState::Rejected.as_str(), "rejected");
    assert_eq!(PromiseState::RejectedCanceled.as_str(), "rejected_canceled");
    assert_eq!(PromiseState::RejectedTimedout.as_str(), "rejected_timedout");
    assert_eq!(SettleState::Resolved.as_str(), "resolved");
    assert_eq!(SettleState::Rejected.as_str(), "rejected");
    assert_eq!(SettleState::RejectedCanceled.as_str(), "rejected_canceled");
    for state in [
        TaskState::Pending,
        TaskState::Acquired,
        TaskState::Suspended,
        TaskState::Halted,
        TaskState::Fulfilled,
    ] {
        assert_eq!(TaskState::parse(state.as_str()), Some(state));
    }
    assert_eq!(TaskState::parse("Pending"), None);
    assert_eq!(TaskState::parse(""), None);
}

// Maps

#[test]
fn maps_keep_the_last_value_of_a_key() {
    let mut map = map_of(&[("a", "1"), ("b", "2"), ("a", "3")]);
    assert_eq!(map.len(), 2);
    assert_eq!(map.get("a"), Some("3"));
    map.insert("b".to_string(), "4".to_string());
    assert_eq!(map.get("b"), Some("4"));
    assert_eq!(map.len(), 2);
    assert!(!map.contains_key("c"));
    assert_eq!(map.get("c"), None);
    assert!(map.copy() == map);
    assert!(map != map_of(&[("a", "3")]));
}

#[test]
fn maps_are_written_as_json_objects() {
    assert_eq!(map_of(&[]).to_json(), "{}");
    assert_eq!(map_of(&[("k", "v")]).to_json(), r#"{"k":"v"}"#);
    // The text does not depend on the order in which the entries came.
    assert_eq!(map_of(&[("b", "2"), ("a", "1")]).to_json(), r#"{"a":"1","b":"2"}"#);
    assert_eq!(map_of(&[("q\"", "l\n")]).to_json(), "{\"q\\\"\":\"l\\n\"}");
    assert_eq!(optional_json(&None), None);
    assert_eq!(optional_json(&Some(map_of(&[("k", "v")]))), Some(r#"{"k":"v"}"#.to_string()));
}
