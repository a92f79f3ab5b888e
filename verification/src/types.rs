//! The values and records that cross the durability boundary, as the SDK sees
//! them.
use serde_json::Error as JsonError;
use vstd::prelude::*;
use vstd::string::*;

use crate::error::Error;
use crate::json::{find_entry, lemma_find_entry, Json, JsonTree};
use crate::string_map::StringMap;
use crate::text::same_text;

verus! {

// Shared types

/// The wire format for data crossing the durability boundary.
///
/// On the wire, `data` is a base64-encoded JSON string (or undefined).
/// Internally after decoding, `data` holds the decoded value.
#[derive(Debug)]
pub struct Value {
    pub headers: Option<StringMap>,
    pub data: Option<Json>,
}

impl Default for Value {
    fn default() -> (value: Value)
        ensures
            value.headers is None,
            value.data is None,
    {
        Value { headers: None, data: None }
    }
}

impl Value {
    /// What the data field says; an absent field says `null`.
    pub open spec fn data_tree(self) -> JsonTree {
        match self.data {
            Some(d) => d.tree(),
            None => JsonTree::Null,
        }
    }

    /// The headers as a map; absent headers are the empty map.
    pub open spec fn header_map(self) -> Map<Seq<char>, Seq<char>> {
        match self.headers {
            Some(h) => h@,
            None => Map::empty(),
        }
    }

    /// Get a reference to the data field, defaulting to `null` if absent.
    pub fn data_as_ref(&self) -> (data: &Json)
        ensures
            data.tree() == self.data_tree(),
            self.data matches Some(d) ==> *data == d,
    {
        match &self.data {
            Some(d) => d,
            None => &Json::Null,
        }
    }

    /// Get a copy of the data field, defaulting to `null` if absent.
    pub fn data_or_null(&self) -> (data: Json)
        ensures
            data.tree() == self.data_tree(),
    {
        match &self.data {
            Some(d) => d.copy(),
            None => Json::Null,
        }
    }

    /// Consume self and return the data field, defaulting to `null` if absent.
    pub fn into_data_or_null(self) -> (data: Json)
        ensures
            data.tree() == self.data_tree(),
            self.data matches Some(d) ==> data == d,
    {
        match self.data {
            Some(d) => d,
            None => Json::Null,
        }
    }

    /// Get headers, defaulting to the empty map if absent.
    pub fn headers_or_empty(&self) -> (headers: StringMap)
        ensures
            headers@ == self.header_map(),
    {
        match &self.headers {
            Some(h) => h.copy(),
            None => StringMap::new(),
        }
    }

    /// Wrap what came of turning a value into JSON.
    pub fn from_serializable(encoded: Result<Json, JsonError>) -> (value: Result<Value, Error>)
        ensures
            match encoded {
                Ok(json) => value == Ok::<Value, Error>(
                    (Value { headers: None, data: Some(json) }),
                ),
                Err(e) => value == Err::<Value, Error>(Error::SerializationError(e)),
            },
    {
        match encoded {
            Ok(json) => Ok(Value { headers: None, data: Some(json) }),
            Err(e) => Err(Error::from(e)),
        }
    }

    /// Report what came of reading the data field as a `T`.
    pub fn decode<T>(read: Result<T, JsonError>) -> (value: Result<T, Error>)
        ensures
            match read {
                Ok(t) => value == Ok::<T, Error>(t),
                Err(e) => value == Err::<T, Error>(Error::SerializationError(e)),
            },
    {
        match read {
            Ok(t) => Ok(t),
            Err(e) => Err(Error::from(e)),
        }
    }

    /// Whether this is the value that `json` is on the wire.
    pub open spec fn is_read_from(self, json: Json) -> bool {
        match json.tree() {
            JsonTree::Null => self.headers is None && self.data is None,
            JsonTree::Object(_) => {
                &&& match json.tree().field("headers"@) {
                    Some(h) => match h.string_map() {
                        Some(m) => self.headers matches Some(v) && v@ == m,
                        None => self.headers is None,
                    },
                    None => self.headers is None,
                }
                &&& match json.tree().field("data"@) {
                    Some(d) => self.data matches Some(v) && v.tree() == d,
                    None => self.data is None,
                }
            },
            _ => self.headers is None && self.data == Some(json),
        }
    }

    /// Whether `tree` is this value on the wire: an object of those of the two
    /// fields that are there.
    pub open spec fn is_written(self, tree: JsonTree) -> bool {
        &&& tree matches JsonTree::Object(fields)
        &&& match (self.headers, self.data) {
            (None, None) => fields.len() == 0,
            (Some(h), None) => {
                &&& fields.len() == 1
                &&& fields[0].0 == "headers"@
                &&& fields[0].1.string_map() == Some(h@)
            },
            (None, Some(d)) => {
                &&& fields.len() == 1
                &&& fields[0] == ("data"@, d.tree())
            },
            (Some(h), Some(d)) => {
                &&& fields.len() == 2
                &&& fields[0].0 == "headers"@
                &&& fields[0].1.string_map() == Some(h@)
                &&& fields[1] == ("data"@, d.tree())
            },
        }
    }

    /// Put a value on the wire.
    pub fn to_json(&self) -> (json: Json)
        ensures
            self.is_written(json.tree()),
    {
        let mut fields: Vec<(String, Json)> = Vec::new();
        if let Some(h) = &self.headers {
            fields.push(("headers".to_owned(), h.to_object()));
        }
        if let Some(d) = &self.data {
            fields.push(("data".to_owned(), d.copy()));
        }
        Json::object(fields)
    }

    /// Read a value off the wire: `null` is the empty value, an object is split
    /// into headers and data, and anything else is the data.
    ///
    /// Headers that are not a map of strings are dropped.
    pub fn from_json(json: Json) -> (value: Value)
        ensures
            value.is_read_from(json),
    {
        match &json {
            Json::Null => Value::default(),
            Json::Object(_) => {
                let headers = match json.field("headers") {
                    Some(h) => h.to_string_map(),
                    None => None,
                };
                let data = match json.field("data") {
                    Some(d) => Some(d.copy()),
                    None => None,
                };
                Value { headers, data }
            },
            _ => Value { headers: None, data: Some(json) },
        }
    }
}

/// What was put on the wire is read back: the same headers and the same data, and
/// none where there were none.
pub proof fn lemma_value_round_trip(value: Value, json: Json, back: Value)
    requires
        value.is_written(json.tree()),
        back.is_read_from(json),
    ensures
        value.headers is Some <==> back.headers is Some,
        back.header_map() == value.header_map(),
        value.data is Some <==> back.data is Some,
        back.data_tree() == value.data_tree(),
{
    reveal_strlit("headers");
    reveal_strlit("data");
    assert("headers"@.len() == 7 && "data"@.len() == 4);
    let fields = json.tree()->Object_0;
    reveal_with_fuel(find_entry, 4);
    if fields.len() == 2 {
        assert(fields.skip(1)[0] == fields[1]);
    }
}

// Records

/// The state of a durable promise.
#[derive(Debug, Clone, Copy, PartialEq, Eq, Structural)]
pub enum PromiseState {
    Pending,
    Resolved,
    Rejected,
    RejectedCanceled,
    RejectedTimedout,
}

impl PromiseState {
    /// The name of the state on the wire.
    pub open spec fn name(self) -> Seq<char> {
        match self {
            PromiseState::Pending => "pending"@,
            PromiseState::Resolved => "resolved"@,
            PromiseState::Rejected => "rejected"@,
            PromiseState::RejectedCanceled => "rejected_canceled"@,
            PromiseState::RejectedTimedout => "rejected_timedout"@,
        }
    }

    /// The name of the state on the wire.
    pub fn as_str(&self) -> (name: &'static str)
        ensures
            name@ == self.name(),
    {
        match self {
            PromiseState::Pending => "pending",
            PromiseState::Resolved => "resolved",
            PromiseState::Rejected => "rejected",
            PromiseState::RejectedCanceled => "rejected_canceled",
            PromiseState::RejectedTimedout => "rejected_timedout",
        }
    }
}

/// A number on the wire, `null` where there is none.
pub open spec fn optional_int_tree(n: Option<i64>) -> JsonTree {
    match n {
        Some(n) => JsonTree::Int(n as int),
        None => JsonTree::Null,
    }
}

/// A string on the wire, `null` where there is none.
pub open spec fn optional_text_tree(text: Option<String>) -> JsonTree {
    match text {
        Some(t) => JsonTree::Text(t@),
        None => JsonTree::Null,
    }
}

/// A string on the wire, `null` where there is none.
fn optional_text_json(text: &Option<String>) -> (json: Json)
    ensures
        json.tree() == optional_text_tree(*text),
{
    match text {
        Some(t) => Json::text(t.as_str()),
        None => Json::Null,
    }
}

/// A durable promise record.
#[derive(Debug)]
pub struct PromiseRecord {
    pub id: String,
    pub state: PromiseState,
    pub param: Value,
    pub value: Value,
    pub tags: StringMap,
    pub timeout_at: i64,
    pub created_at: i64,
    pub settled_at: Option<i64>,
}

impl PromiseRecord {
    /// Whether `tree` is this record on the wire.
    pub open spec fn is_written(self, tree: JsonTree) -> bool {
        &&& tree matches JsonTree::Object(fields)
        &&& fields.len() == 8
        &&& fields[0] == ("id"@, JsonTree::Text(self.id@))
        &&& fields[1] == ("state"@, JsonTree::Text(self.state.name()))
        &&& fields[2].0 == "param"@
        &&& self.param.is_written(fields[2].1)
        &&& fields[3].0 == "value"@
        &&& self.value.is_written(fields[3].1)
        &&& fields[4].0 == "tags"@
        &&& fields[4].1.string_map() == Some(self.tags@)
        &&& fields[5] == ("timeoutAt"@, JsonTree::Int(self.timeout_at as int))
        &&& fields[6] == ("createdAt"@, JsonTree::Int(self.created_at as int))
        &&& fields[7] == ("settledAt"@, optional_int_tree(self.settled_at))
    }

    /// Put a record on the wire.
    pub fn to_json(&self) -> (json: Json)
        ensures
            self.is_written(json.tree()),
    {
        let mut fields: Vec<(String, Json)> = Vec::new();
        fields.push(("id".to_owned(), Json::text(self.id.as_str())));
        fields.push(("state".to_owned(), Json::text(self.state.as_str())));
        fields.push(("param".to_owned(), self.param.to_json()));
        fields.push(("value".to_owned(), self.value.to_json()));
        fields.push(("tags".to_owned(), self.tags.to_object()));
        fields.push(("timeoutAt".to_owned(), Json::Int(self.timeout_at)));
        fields.push(("createdAt".to_owned(), Json::Int(self.created_at)));
        fields.push(("settledAt".to_owned(), Json::optional_int(self.settled_at)));
        Json::object(fields)
    }
}

/// The state of a task.
#[derive(Debug, Clone, Copy, PartialEq, Eq, Structural)]
pub enum TaskState {
    Pending,
    Acquired,
    Suspended,
    Halted,
    Fulfilled,
}

impl TaskState {
    /// The name of the state on the wire.
    pub open spec fn name(self) -> Seq<char> {
        match self {
            TaskState::Pending => "pending"@,
            TaskState::Acquired => "acquired"@,
            TaskState::Suspended => "suspended"@,
            TaskState::Halted => "halted"@,
            TaskState::Fulfilled => "fulfilled"@,
        }
    }

    /// The state that a name on the wire stands for.
    pub open spec fn named(name: Seq<char>) -> Option<TaskState> {
        if name == TaskState::Pending.name() {
            Some(TaskState::Pending)
        } else if name == TaskState::Acquired.name() {
            Some(TaskState::Acquired)
        } else if name == TaskState::Suspended.name() {
            Some(TaskState::Suspended)
        } else if name == TaskState::Halted.name() {
            Some(TaskState::Halted)
        } else if name == TaskState::Fulfilled.name() {
            Some(TaskState::Fulfilled)
        } else {
            None
        }
    }

    /// The name of the state on the wire.
    pub fn as_str(&self) -> (name: &'static str)
        ensures
            name@ == self.name(),
    {
        match self {
            TaskState::Pending => "pending",
            TaskState::Acquired => "acquired",
            TaskState::Suspended => "suspended",
            TaskState::Halted => "halted",
            TaskState::Fulfilled => "fulfilled",
        }
    }

    /// The state with the name `name`, if there is one.
    pub fn parse(name: &str) -> (state: Option<TaskState>)
        ensures
            state == TaskState::named(name@),
    {
        if same_text(name, "pending") {
            Some(TaskState::Pending)
        } else if same_text(name, "acquired") {
            Some(TaskState::Acquired)
        } else if same_text(name, "suspended") {
            Some(TaskState::Suspended)
        } else if same_text(name, "halted") {
            Some(TaskState::Halted)
        } else if same_text(name, "fulfilled") {
            Some(TaskState::Fulfilled)
        } else {
            None
        }
    }
}

/// Reading the name of a task state gives that state back.
pub proof fn lemma_task_state_round_trip(state: TaskState)
    ensures
        TaskState::named(state.name()) == Some(state),
{
    reveal_strlit("pending");
    reveal_strlit("acquired");
    reveal_strlit("suspended");
    reveal_strlit("halted");
    reveal_strlit("fulfilled");
    assert("pending"@[0] == 'p');
    assert("acquired"@[0] == 'a');
    assert("suspended"@[0] == 's');
    assert("halted"@[0] == 'h');
    assert("fulfilled"@[0] == 'f');
}

/// A task record.
#[derive(Debug)]
pub struct TaskRecord {
    pub id: String,
    pub state: TaskState,
    pub version: i64,
    /// Resumes can be an array of strings, a number, or a boolean.
    pub resumes: Json,
    pub ttl: Option<i64>,
    pub pid: Option<String>,
}

impl TaskRecord {
    /// Whether `tree` is this record on the wire.
    pub open spec fn is_written(self, tree: JsonTree) -> bool {
        &&& tree matches JsonTree::Object(fields)
        &&& fields.len() == 6
        &&& fields[0] == ("id"@, JsonTree::Text(self.id@))
        &&& fields[1] == ("state"@, JsonTree::Text(self.state.name()))
        &&& fields[2] == ("version"@, JsonTree::Int(self.version as int))
        &&& fields[3] == ("resumes"@, self.resumes.tree())
        &&& fields[4] == ("ttl"@, optional_int_tree(self.ttl))
        &&& fields[5] == ("pid"@, optional_text_tree(self.pid))
    }

    /// Put a record on the wire.
    pub fn to_json(&self) -> (json: Json)
        ensures
            self.is_written(json.tree()),
    {
        let mut fields: Vec<(String, Json)> = Vec::new();
        fields.push(("id".to_owned(), Json::text(self.id.as_str())));
        fields.push(("state".to_owned(), Json::text(self.state.as_str())));
        fields.push(("version".to_owned(), Json::Int(self.version)));
        fields.push(("resumes".to_owned(), self.resumes.copy()));
        fields.push(("ttl".to_owned(), Json::optional_int(self.ttl)));
        fields.push(("pid".to_owned(), optional_text_json(&self.pid)));
        Json::object(fields)
    }
}

/// A schedule record.
#[derive(Debug)]
pub struct ScheduleRecord {
    pub id: String,
    pub cron: String,
    pub promise_id: String,
    pub promise_timeout: i64,
    pub promise_param: Value,
    pub promise_tags: StringMap,
    pub created_at: i64,
    pub next_run_at: i64,
    pub last_run_at: Option<i64>,
}

impl ScheduleRecord {
    /// Whether `tree` is this record on the wire.
    pub open spec fn is_written(self, tree: JsonTree) -> bool {
        &&& tree matches JsonTree::Object(fields)
        &&& fields.len() == 9
        &&& fields[0] == ("id"@, JsonTree::Text(self.id@))
        &&& fields[1] == ("cron"@, JsonTree::Text(self.cron@))
        &&& fields[2] == ("promiseId"@, JsonTree::Text(self.promise_id@))
        &&& fields[3] == ("promiseTimeout"@, JsonTree::Int(self.promise_timeout as int))
        &&& fields[4].0 == "promiseParam"@
        &&& self.promise_param.is_written(fields[4].1)
        &&& fields[5].0 == "promiseTags"@
        &&& fields[5].1.string_map() == Some(self.promise_tags@)
        &&& fields[6] == ("createdAt"@, JsonTree::Int(self.created_at as int))
        &&& fields[7] == ("nextRunAt"@, JsonTree::Int(self.next_run_at as int))
        &&& fields[8] == ("lastRunAt"@, optional_int_tree(self.last_run_at))
    }

    /// Put a record on the wire.
    pub fn to_json(&self) -> (json: Json)
        ensures
            self.is_written(json.tree()),
    {
        let mut fields: Vec<(String, Json)> = Vec::new();
        fields.push(("id".to_owned(), Json::text(self.id.as_str())));
        fields.push(("cron".to_owned(), Json::text(self.cron.as_str())));
        fields.push(("promiseId".to_owned(), Json::text(self.promise_id.as_str())));
        fields.push(("promiseTimeout".to_owned(), Json::Int(self.promise_timeout)));
        fields.push(("promiseParam".to_owned(), self.promise_param.to_json()));
        fields.push(("promiseTags".to_owned(), self.promise_tags.to_object()));
        fields.push(("createdAt".to_owned(), Json::Int(self.created_at)));
        fields.push(("nextRunAt".to_owned(), Json::Int(self.next_run_at)));
        fields.push(("lastRunAt".to_owned(), Json::optional_int(self.last_run_at)));
        Json::object(fields)
    }
}

// Requests

/// How to settle a durable promise.
#[derive(Debug, Clone, Copy, PartialEq, Eq, Structural)]
pub enum SettleState {
    Resolved,
    Rejected,
    RejectedCanceled,
}

impl SettleState {
    /// The name of the state on the wire.
    pub open spec fn name(self) -> Seq<char> {
        match self {
            SettleState::Resolved => PromiseState::Resolved.name(),
            SettleState::Rejected => PromiseState::Rejected.name(),
            SettleState::RejectedCanceled => PromiseState::RejectedCanceled.name(),
        }
    }

    /// The name of the state on the wire.
    pub fn as_str(&self) -> (name: &'static str)
        ensures
            name@ == self.name(),
    {
        match self {
            SettleState::Resolved => "resolved",
            SettleState::Rejected => "rejected",
            SettleState::RejectedCanceled => "rejected_canceled",
        }
    }
}

/// Request to create a durable promise (`promise.create` data payload).
#[derive(Debug)]
pub struct PromiseCreateReq {
    pub id: String,
    pub timeout_at: i64,
    pub param: Value,
    pub tags: StringMap,
}

impl PromiseCreateReq {
    /// Create a minimal placeholder request (used when serialization fails at
    /// construction time).
    pub fn default_with_id(id: &str) -> (req: PromiseCreateReq)
        ensures
            req.id@ == id@,
            req.timeout_at == 0,
            req.param.headers is None,
            req.param.data is None,
            req.tags@ == Map::<Seq<char>, Seq<char>>::empty(),
    {
        PromiseCreateReq {
            id: id.to_owned(),
            timeout_at: 0,
            param: Value { headers: None, data: None },
            tags: StringMap::new(),
        }
    }
}

impl PromiseCreateReq {
    /// Whether `tree` is this record on the wire.
    pub open spec fn is_written(self, tree: JsonTree) -> bool {
        &&& tree matches JsonTree::Object(fields)
        &&& fields.len() == 4
        &&& fields[0] == ("id"@, JsonTree::Text(self.id@))
        &&& fields[1] == ("timeoutAt"@, JsonTree::Int(self.timeout_at as int))
        &&& fields[2].0 == "param"@
        &&& self.param.is_written(fields[2].1)
        &&& fields[3].0 == "tags"@
        &&& fields[3].1.string_map() == Some(self.tags@)
    }

    /// Put a record on the wire.
    pub fn to_json(&self) -> (json: Json)
        ensures
            self.is_written(json.tree()),
    {
        let mut fields: Vec<(String, Json)> = Vec::new();
        fields.push(("id".to_owned(), Json::text(self.id.as_str())));
        fields.push(("timeoutAt".to_owned(), Json::Int(self.timeout_at)));
        fields.push(("param".to_owned(), self.param.to_json()));
        fields.push(("tags".to_owned(), self.tags.to_object()));
        Json::object(fields)
    }
}

/// Request to settle a durable promise (`promise.settle` data payload).
#[derive(Debug)]
pub struct PromiseSettleReq {
    pub id: String,
    pub state: SettleState,
    pub value: Value,
}

impl PromiseSettleReq {
    /// Whether `tree` is this record on the wire.
    pub open spec fn is_written(self, tree: JsonTree) -> bool {
        &&& tree matches JsonTree::Object(fields)
        &&& fields.len() == 3
        &&& fields[0] == ("id"@, JsonTree::Text(self.id@))
        &&& fields[1] == ("state"@, JsonTree::Text(self.state.name()))
        &&& fields[2].0 == "value"@
        &&& self.value.is_written(fields[2].1)
    }

    /// Put a record on the wire.
    pub fn to_json(&self) -> (json: Json)
        ensures
            self.is_written(json.tree()),
    {
        let mut fields: Vec<(String, Json)> = Vec::new();
        fields.push(("id".to_owned(), Json::text(self.id.as_str())));
        fields.push(("state".to_owned(), Json::text(self.state.as_str())));
        fields.push(("value".to_owned(), self.value.to_json()));
        Json::object(fields)
    }
}

/// A promise register callback request (`promise.register_callback` data
/// payload).
///
/// Used inside `task.suspend` actions.
#[derive(Debug)]
pub struct PromiseRegisterCallbackData {
    pub awaited: String,
    pub awaiter: String,
}

impl PromiseRegisterCallbackData {
    /// Whether `tree` is this record on the wire.
    pub open spec fn is_written(self, tree: JsonTree) -> bool {
        &&& tree matches JsonTree::Object(fields)
        &&& fields.len() == 2
        &&& fields[0] == ("awaited"@, JsonTree::Text(self.awaited@))
        &&& fields[1] == ("awaiter"@, JsonTree::Text(self.awaiter@))
    }

    /// Put a record on the wire.
    pub fn to_json(&self) -> (json: Json)
        ensures
            self.is_written(json.tree()),
    {
        let mut fields: Vec<(String, Json)> = Vec::new();
        fields.push(("awaited".to_owned(), Json::text(self.awaited.as_str())));
        fields.push(("awaiter".to_owned(), Json::text(self.awaiter.as_str())));
        Json::object(fields)
    }
}

// SDK-internal types (not part of the wire protocol)

/// The result of executing a durable function.
#[derive(Debug)]
pub enum Outcome<T> {
    /// Function completed successfully or with an error.
    Done(Result<T, Error>),
    /// Function cannot proceed: it has unresolved remote dependencies.
    Suspended { remote_todos: Vec<String> },
}

/// The kind of durable function.
#[derive(Debug, Clone, Copy, PartialEq, Eq, Structural)]
pub enum DurableKind {
    /// Leaf function: no sub-tasks, always completes.
    Function,
    /// Workflow function: can call sub-tasks, may suspend.
    Workflow,
}

/// Parsed task data from the root promise param.
#[derive(Debug)]
pub struct TaskData {
    pub func: String,
    pub args: Json,
}

impl TaskData {
    /// Build a `Value` encoding `{"func": ..., "args": ...}` for remote
    /// dispatch, from what came of turning the arguments into JSON.
    pub fn into_value(func: &str, args: Result<Json, JsonError>) -> (value: Result<Value, Error>)
        ensures
            match args {
                Ok(json) => value matches Ok(v) && v.headers is None && v.data is Some
                    && v.data_tree() == JsonTree::Object(
                    seq![("func"@, JsonTree::Text(func@)), ("args"@, json.tree())],
                ),
                Err(e) => value == Err::<Value, Error>(Error::SerializationError(e)),
            },
    {
        match args {
            Ok(json) => {
                let mut entries: Vec<(String, Json)> = Vec::new();
                let name = Json::Text(func.to_owned());
                assert(name.tree() == JsonTree::Text(func@));
                entries.push(("func".to_owned(), name));
                entries.push(("args".to_owned(), json));
                let data = Json::Object(entries);
                assert(data.tree()->Object_0 =~= seq![
                    ("func"@, JsonTree::Text(func@)),
                    ("args"@, json.tree()),
                ]);
                Value::from_serializable(Ok(data))
            },
            Err(e) => Err(Error::from(e)),
        }
    }
}

impl TaskData {
    /// Whether `tree` is this record on the wire.
    pub open spec fn is_written(self, tree: JsonTree) -> bool {
        &&& tree matches JsonTree::Object(fields)
        &&& fields.len() == 2
        &&& fields[0] == ("func"@, JsonTree::Text(self.func@))
        &&& fields[1] == ("args"@, self.args.tree())
    }

    /// Put a record on the wire.
    pub fn to_json(&self) -> (json: Json)
        ensures
            self.is_written(json.tree()),
    {
        let mut fields: Vec<(String, Json)> = Vec::new();
        fields.push(("func".to_owned(), Json::text(self.func.as_str())));
        fields.push(("args".to_owned(), self.args.copy()));
        Json::object(fields)
    }
}

/// Execution status of a task.
#[derive(Debug, Clone, Copy, PartialEq, Eq, Structural)]
pub enum Status {
    Done,
    Suspended,
}

// On the wire

/// Whether a JSON value carries the headers and the data of a value, each under its name
/// and only where it is there.
pub open spec fn carries(tree: JsonTree, value: Value) -> bool {
    &&& tree is Object
    &&& tree.field("headers"@) is Some <==> value.headers is Some
    &&& value.headers matches Some(h) ==> tree.field("headers"@)->Some_0.string_map() == Some(h@)
    &&& tree.field("data"@) is Some <==> value.data is Some
    &&& value.data matches Some(d) ==> tree.field("data"@) == Some(d.tree())
}

/// A value on the wire carries its headers and its data.
pub proof fn lemma_carries(value: Value, tree: JsonTree)
    requires
        value.is_written(tree),
    ensures
        carries(tree, value),
{
    reveal_strlit("headers");
    reveal_strlit("data");
    assert("headers"@.len() == 7 && "data"@.len() == 4);
    reveal_with_fuel(find_entry, 4);
    let fields = tree->Object_0;
    if fields.len() == 2 {
        assert(fields.skip(1)[0] == fields[1]);
    }
}

/// What a value on the wire is read as: nothing for `null`, the two fields of an object,
/// with headers only where they are a map of strings, and the data itself for anything
/// else.
pub proof fn lemma_read(json: Json, value: Value)
    requires
        call_ensures(Value::from_json, (json,), value),
    ensures
        json.tree() is Null ==> value.headers is None && value.data is None,
        !(json.tree() is Null) && !(json.tree() is Object) ==> value.headers is None && value.data
            is Some && value.data->Some_0.tree() == json.tree(),
        json.tree() is Object ==> {
            let headers = json.tree().field("headers"@);
            let data = json.tree().field("data"@);
            &&& value.headers is Some <==> headers is Some && headers->Some_0.string_map() is Some
            &&& value.headers matches Some(h) ==> headers->Some_0.string_map() == Some(h@)
            &&& value.data is Some <==> data is Some
            &&& value.data matches Some(d) ==> data == Some(d.tree())
        },
{
}

/// A value on the wire carries what it holds.
pub proof fn lemma_value_on_the_wire(value: Value, json: Json)
    requires
        call_ensures(Value::to_json, (&value,), json),
    ensures
        carries(json.tree(), value),
{
    lemma_carries(value, json.tree());
}

/// The accessors of a value agree: what is absent is `null`, or no headers, and what is
/// there is given as it is.
pub proof fn lemma_accessors(value: Value, a: &Json, b: Json, c: Json, headers: StringMap)
    requires
        call_ensures(Value::data_as_ref, (&value,), a),
        call_ensures(Value::data_or_null, (&value,), b),
        call_ensures(Value::into_data_or_null, (value,), c),
        call_ensures(Value::headers_or_empty, (&value,), headers),
    ensures
        a.tree() == b.tree(),
        b.tree() == c.tree(),
        value.data is None ==> a.tree() == JsonTree::Null,
        value.data matches Some(d) ==> a.tree() == d.tree(),
        value.headers is None ==> headers@ == Map::<Seq<char>, Seq<char>>::empty(),
        value.headers matches Some(h) ==> headers@ == h@,
{
}

/// What is turned into JSON is the data of the value, and what is read from it is handed
/// on; either fails exactly where the conversion does.
pub proof fn lemma_conversions<T>(
    encoded: Result<Json, JsonError>,
    value: Result<Value, Error>,
    read: Result<T, JsonError>,
    decoded: Result<T, Error>,
)
    requires
        call_ensures(Value::from_serializable, (encoded,), value),
        call_ensures(Value::decode::<T>, (read,), decoded),
    ensures
        value is Ok <==> encoded is Ok,
        value matches Ok(v) ==> v.headers is None && v.data == Some(encoded->Ok_0),
        value matches Err(e) ==> e == Error::SerializationError(encoded->Err_0),
        decoded is Ok <==> read is Ok,
        decoded matches Ok(x) ==> read == Ok::<T, JsonError>(x),
        decoded matches Err(e) ==> e == Error::SerializationError(read->Err_0),
{
}

/// The data of a call names the function and its arguments.
pub proof fn lemma_call_data(
    func: &str,
    args: Result<Json, JsonError>,
    value: Result<Value, Error>,
)
    requires
        call_ensures(TaskData::into_value, (func, args), value),
    ensures
        value is Ok <==> args is Ok,
        value matches Ok(v) ==> {
            &&& v.headers is None
            &&& v.data is Some
            &&& v.data->Some_0.tree().field("func"@) == Some(JsonTree::Text(func@))
            &&& v.data->Some_0.tree().field("args"@) == Some(args->Ok_0.tree())
        },
{
    reveal_strlit("func");
    reveal_strlit("args");
    assert("func"@[0] == 'f' && "args"@[0] == 'a');
    if let Ok(v) = value {
        let fields = v.data->Some_0.tree()->Object_0;
        lemma_find_entry(fields, 0);
        lemma_find_entry(fields, 1);
    }
}

/// Each field of a `PromiseRecord` stands under its own name on the wire.
pub proof fn lemma_promise_record_on_the_wire(record: PromiseRecord, json: Json, tree: JsonTree)
    requires
        call_ensures(PromiseRecord::to_json, (&record,), json),
        tree == json.tree(),
    ensures
        tree.field("id"@) == Some(JsonTree::Text(record.id@)),
        tree.field("state"@) == Some(
            JsonTree::Text(
                match record.state {
                    PromiseState::Pending => "pending"@,
                    PromiseState::Resolved => "resolved"@,
                    PromiseState::Rejected => "rejected"@,
                    PromiseState::RejectedCanceled => "rejected_canceled"@,
                    PromiseState::RejectedTimedout => "rejected_timedout"@,
                },
            ),
        ),
        tree.field("param"@) is Some,
        carries(tree.field("param"@)->Some_0, record.param),
        tree.field("value"@) is Some,
        carries(tree.field("value"@)->Some_0, record.value),
        tree.field("tags"@) is Some,
        tree.field("tags"@)->Some_0.string_map() == Some(record.tags@),
        tree.field("timeoutAt"@) == Some(JsonTree::Int(record.timeout_at as int)),
        tree.field("createdAt"@) == Some(JsonTree::Int(record.created_at as int)),
        record.settled_at matches Some(n) ==> tree.field("settledAt"@) == Some(JsonTree::Int(n as int)),
        record.settled_at is None ==> tree.field("settledAt"@) == Some(JsonTree::Null),
{
    reveal_strlit("id");
    reveal_strlit("state");
    reveal_strlit("param");
    reveal_strlit("value");
    reveal_strlit("tags");
    reveal_strlit("timeoutAt");
    reveal_strlit("createdAt");
    reveal_strlit("settledAt");
    assert("id"@.len() == 2);
    assert("state"@.len() == 5);
    assert("param"@.len() == 5);
    assert("value"@.len() == 5);
    assert("tags"@.len() == 4);
    assert("timeoutAt"@.len() == 9);
    assert("createdAt"@.len() == 9);
    assert("settledAt"@.len() == 9);
    assert("state"@[0] != "param"@[0]);
    assert("state"@[0] != "value"@[0]);
    assert("param"@[0] != "value"@[0]);
    assert("timeoutAt"@[0] != "createdAt"@[0]);
    assert("timeoutAt"@[0] != "settledAt"@[0]);
    assert("createdAt"@[0] != "settledAt"@[0]);
    let fields = tree->Object_0;
    lemma_find_entry(fields, 0);
    lemma_find_entry(fields, 1);
    lemma_find_entry(fields, 2);
    lemma_find_entry(fields, 3);
    lemma_find_entry(fields, 4);
    lemma_find_entry(fields, 5);
    lemma_find_entry(fields, 6);
    lemma_find_entry(fields, 7);
    lemma_carries(record.param, fields[2].1);
    lemma_carries(record.value, fields[3].1);
}

/// Each field of a `TaskRecord` stands under its own name on the wire.
pub proof fn lemma_task_record_on_the_wire(record: TaskRecord, json: Json, tree: JsonTree)
    requires
        call_ensures(TaskRecord::to_json, (&record,), json),
        tree == json.tree(),
    ensures
        tree.field("id"@) == Some(JsonTree::Text(record.id@)),
        tree.field("state"@) == Some(
            JsonTree::Text(
                match record.state {
                    TaskState::Pending => "pending"@,
                    TaskState::Acquired => "acquired"@,
                    TaskState::Suspended => "suspended"@,
                    TaskState::Halted => "halted"@,
                    TaskState::Fulfilled => "fulfilled"@,
                },
            ),
        ),
        tree.field("version"@) == Some(JsonTree::Int(record.version as int)),
        tree.field("resumes"@) == Some(record.resumes.tree()),
        record.ttl matches Some(n) ==> tree.field("ttl"@) == Some(JsonTree::Int(n as int)),
        record.ttl is None ==> tree.field("ttl"@) == Some(JsonTree::Null),
        record.pid matches Some(x) ==> tree.field("pid"@) == Some(JsonTree::Text(x@)),
        record.pid is None ==> tree.field("pid"@) == Some(JsonTree::Null),
{
    reveal_strlit("id");
    reveal_strlit("state");
    reveal_strlit("version");
    reveal_strlit("resumes");
    reveal_strlit("ttl");
    reveal_strlit("pid");
    assert("id"@.len() == 2);
    assert("state"@.len() == 5);
    assert("version"@.len() == 7);
    assert("resumes"@.len() == 7);
    assert("ttl"@.len() == 3);
    assert("pid"@.len() == 3);
    assert("version"@[0] != "resumes"@[0]);
    assert("ttl"@[0] != "pid"@[0]);
    let fields = tree->Object_0;
    lemma_find_entry(fields, 0);
    lemma_find_entry(fields, 1);
    lemma_find_entry(fields, 2);
    lemma_find_entry(fields, 3);
    lemma_find_entry(fields, 4);
    lemma_find_entry(fields, 5);
}

/// Each field of a `ScheduleRecord` stands under its own name on the wire.
pub proof fn lemma_schedule_record_on_the_wire(record: ScheduleRecord, json: Json, tree: JsonTree)
    requires
        call_ensures(ScheduleRecord::to_json, (&record,), json),
        tree == json.tree(),
    ensures
        tree.field("id"@) == Some(JsonTree::Text(record.id@)),
        tree.field("cron"@) == Some(JsonTree::Text(record.cron@)),
        tree.field("promiseId"@) == Some(JsonTree::Text(record.promise_id@)),
        tree.field("promiseTimeout"@) == Some(JsonTree::Int(record.promise_timeout as int)),
        tree.field("promiseParam"@) is Some,
        carries(tree.field("promiseParam"@)->Some_0, record.promise_param),
        tree.field("promiseTags"@) is Some,
        tree.field("promiseTags"@)->Some_0.string_map() == Some(record.promise_tags@),
        tree.field("createdAt"@) == Some(JsonTree::Int(record.created_at as int)),
        tree.field("nextRunAt"@) == Some(JsonTree::Int(record.next_run_at as int)),
        record.last_run_at matches Some(n) ==> tree.field("lastRunAt"@) == Some(JsonTree::Int(n as int)),
        record.last_run_at is None ==> tree.field("lastRunAt"@) == Some(JsonTree::Null),
{
    reveal_strlit("id");
    reveal_strlit("cron");
    reveal_strlit("promiseId");
    reveal_strlit("promiseTimeout");
    reveal_strlit("promiseParam");
    reveal_strlit("promiseTags");
    reveal_strlit("createdAt");
    reveal_strlit("nextRunAt");
    reveal_strlit("lastRunAt");
    assert("id"@.len() == 2);
    assert("cron"@.len() == 4);
    assert("promiseId"@.len() == 9);
    assert("promiseTimeout"@.len() == 14);
    assert("promiseParam"@.len() == 12);
    assert("promiseTags"@.len() == 11);
    assert("createdAt"@.len() == 9);
    assert("nextRunAt"@.len() == 9);
    assert("lastRunAt"@.len() == 9);
    assert("promiseId"@[0] != "createdAt"@[0]);
    assert("promiseId"@[0] != "nextRunAt"@[0]);
    assert("promiseId"@[0] != "lastRunAt"@[0]);
    assert("createdAt"@[0] != "nextRunAt"@[0]);
    assert("createdAt"@[0] != "lastRunAt"@[0]);
    assert("nextRunAt"@[0] != "lastRunAt"@[0]);
    let fields = tree->Object_0;
    lemma_find_entry(fields, 0);
    lemma_find_entry(fields, 1);
    lemma_find_entry(fields, 2);
    lemma_find_entry(fields, 3);
    lemma_find_entry(fields, 4);
    lemma_find_entry(fields, 5);
    lemma_find_entry(fields, 6);
    lemma_find_entry(fields, 7);
    lemma_find_entry(fields, 8);
    lemma_carries(record.promise_param, fields[4].1);
}

/// Each field of a `PromiseCreateReq` stands under its own name on the wire.
pub proof fn lemma_promise_create_req_on_the_wire(record: PromiseCreateReq, json: Json, tree: JsonTree)
    requires
        call_ensures(PromiseCreateReq::to_json, (&record,), json),
        tree == json.tree(),
    ensures
        tree.field("id"@) == Some(JsonTree::Text(record.id@)),
        tree.field("timeoutAt"@) == Some(JsonTree::Int(record.timeout_at as int)),
        tree.field("param"@) is Some,
        carries(tree.field("param"@)->Some_0, record.param),
        tree.field("tags"@) is Some,
        tree.field("tags"@)->Some_0.string_map() == Some(record.tags@),
{
    reveal_strlit("id");
    reveal_strlit("timeoutAt");
    reveal_strlit("param");
    reveal_strlit("tags");
    assert("id"@.len() == 2);
    assert("timeoutAt"@.len() == 9);
    assert("param"@.len() == 5);
    assert("tags"@.len() == 4);
    let fields = tree->Object_0;
    lemma_find_entry(fields, 0);
    lemma_find_entry(fields, 1);
    lemma_find_entry(fields, 2);
    lemma_find_entry(fields, 3);
    lemma_carries(record.param, fields[2].1);
}

/// Each field of a `PromiseSettleReq` stands under its own name on the wire.
pub proof fn lemma_promise_settle_req_on_the_wire(record: PromiseSettleReq, json: Json, tree: JsonTree)
    requires
        call_ensures(PromiseSettleReq::to_json, (&record,), json),
        tree == json.tree(),
    ensures
        tree.field("id"@) == Some(JsonTree::Text(record.id@)),
        tree.field("state"@) == Some(
            JsonTree::Text(
                match record.state {
                    SettleState::Resolved => "resolved"@,
                    SettleState::Rejected => "rejected"@,
                    SettleState::RejectedCanceled => "rejected_canceled"@,
                },
            ),
        ),
        tree.field("value"@) is Some,
        carries(tree.field("value"@)->Some_0, record.value),
{
    reveal_strlit("id");
    reveal_strlit("state");
    reveal_strlit("value");
    assert("id"@.len() == 2);
    assert("state"@.len() == 5);
    assert("value"@.len() == 5);
    assert("state"@[0] != "value"@[0]);
    let fields = tree->Object_0;
    lemma_find_entry(fields, 0);
    lemma_find_entry(fields, 1);
    lemma_find_entry(fields, 2);
    lemma_carries(record.value, fields[2].1);
}

/// Each field of a `PromiseRegisterCallbackData` stands under its own name on the wire.
pub proof fn lemma_promise_register_callback_data_on_the_wire(record: PromiseRegisterCallbackData, json: Json, tree: JsonTree)
    requires
        call_ensures(PromiseRegisterCallbackData::to_json, (&record,), json),
        tree == json.tree(),
    ensures
        tree.field("awaited"@) == Some(JsonTree::Text(record.awaited@)),
        tree.field("awaiter"@) == Some(JsonTree::Text(record.awaiter@)),
{
    reveal_strlit("awaited");
    reveal_strlit("awaiter");
    assert("awaited"@.len() == 7);
    assert("awaiter"@.len() == 7);
    assert("awaited"@[6] != "awaiter"@[6]);
    let fields = tree->Object_0;
    lemma_find_entry(fields, 0);
    lemma_find_entry(fields, 1);
}

/// Each field of a `TaskData` stands under its own name on the wire.
pub proof fn lemma_task_data_on_the_wire(record: TaskData, json: Json, tree: JsonTree)
    requires
        call_ensures(TaskData::to_json, (&record,), json),
        tree == json.tree(),
    ensures
        tree.field("func"@) == Some(JsonTree::Text(record.func@)),
        tree.field("args"@) == Some(record.args.tree()),
{
    reveal_strlit("func");
    reveal_strlit("args");
    assert("func"@.len() == 4);
    assert("args"@.len() == 4);
    assert("func"@[0] != "args"@[0]);
    let fields = tree->Object_0;
    lemma_find_entry(fields, 0);
    lemma_find_entry(fields, 1);
}

// Names

/// The words for the states on the wire.
pub proof fn lemma_state_words(
    p: PromiseState,
    pw: &'static str,
    k: TaskState,
    kw: &'static str,
    s: SettleState,
    sw: &'static str,
)
    requires
        call_ensures(PromiseState::as_str, (&p,), pw),
        call_ensures(TaskState::as_str, (&k,), kw),
        call_ensures(SettleState::as_str, (&s,), sw),
    ensures
        pw@ == match p {
            PromiseState::Pending => "pending"@,
            PromiseState::Resolved => "resolved"@,
            PromiseState::Rejected => "rejected"@,
            PromiseState::RejectedCanceled => "rejected_canceled"@,
            PromiseState::RejectedTimedout => "rejected_timedout"@,
        },
        kw@ == match k {
            TaskState::Pending => "pending"@,
            TaskState::Acquired => "acquired"@,
            TaskState::Suspended => "suspended"@,
            TaskState::Halted => "halted"@,
            TaskState::Fulfilled => "fulfilled"@,
        },
        sw@ == match s {
            SettleState::Resolved => "resolved"@,
            SettleState::Rejected => "rejected"@,
            SettleState::RejectedCanceled => "rejected_canceled"@,
        },
{
}

/// A word names the task state whose word it is, and a word of no state names none.
pub proof fn lemma_task_state_is_parsed(
    word: &str,
    state: Option<TaskState>,
    other: TaskState,
    name: &'static str,
)
    requires
        call_ensures(TaskState::parse, (word,), state),
        call_ensures(TaskState::as_str, (&other,), name),
    ensures
        state == Some(other) <==> word@ == name@,
{
    lemma_task_state_round_trip(other);
    if let Some(found) = state {
        lemma_task_state_round_trip(found);
    }
}

/// A placeholder request has the id that it is made for, and nothing else.
pub proof fn lemma_placeholder(id: &str, req: PromiseCreateReq)
    requires
        call_ensures(PromiseCreateReq::default_with_id, (id,), req),
    ensures
        req.id@ == id@,
        req.timeout_at == 0,
        req.param.headers is None,
        req.param.data is None,
        req.tags@.dom() == Set::<Seq<char>>::empty(),
{
    assert(req.tags@.dom() =~= Set::<Seq<char>>::empty());
}

} // verus!
