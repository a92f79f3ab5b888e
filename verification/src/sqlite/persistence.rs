//! What the storage is asked for and what it answers.
use libsql::Error as LibsqlError;
use vstd::prelude::*;
use vstd::string::*;

use super::types::{PromiseRecord, TaskState};
use crate::text::joined;

verus! {

/// `libsql::Error`, read only for its message.
#[verifier::external_type_specification]
#[verifier::external_body]
pub struct ExLibsqlError(LibsqlError);

/// The message that the `Display` of `libsql::Error` gives for an error. Nothing is
/// said of the text: some errors pass on the words of another error or of the
/// operating system.
#[verifier::external_body]
fn libsql_error_text(e: &LibsqlError) -> (text: String) {
    e.to_string()
}

/// Whether `text` is a message that the database gives for an error.
pub closed spec fn is_message_of(text: String, e: LibsqlError) -> bool {
    call_ensures(libsql_error_text, (&e,), text)
}

#[derive(Debug)]
pub enum StorageError {
    /// A backend-agnostic storage error. Carries the formatted error message
    /// without exposing the underlying driver type.
    Backend(String),
    /// Serialization conflict: retries exhausted, nothing was committed. The
    /// request is answered with 503 (not 500) to indicate a retriable no-op.
    Serialization,
    /// The request contains a field that violates a storage-level constraint
    /// (such as the width of a column). The request is answered with 400.
    InvalidInput(String),
}

impl StorageError {
    /// The error in words.
    pub open spec fn words(self) -> Seq<char> {
        match self {
            StorageError::Backend(m) => "Storage error: "@ + m@,
            StorageError::Serialization => "Serialization conflict"@,
            StorageError::InvalidInput(m) => "Invalid input: "@ + m@,
        }
    }

    /// The error in words.
    pub fn message(&self) -> (text: String)
        ensures
            text@ == self.words(),
    {
        match self {
            StorageError::Backend(m) => joined("Storage error: ", m.as_str()),
            StorageError::Serialization => "Serialization conflict".to_owned(),
            StorageError::InvalidInput(m) => joined("Invalid input: ", m.as_str()),
        }
    }
}

impl From<LibsqlError> for StorageError {
    /// The storage error for an error of the database: a fault of the backend,
    /// with the message that the database gives.
    fn from(e: LibsqlError) -> (error: StorageError)
        ensures
            error matches StorageError::Backend(m) && is_message_of(m, e),
    {
        StorageError::Backend(libsql_error_text(&e))
    }
}

impl vstd::std_specs::convert::FromSpecImpl<LibsqlError> for StorageError {
    open spec fn obeys_from_spec() -> bool {
        false
    }

    open spec fn from_spec(e: LibsqlError) -> StorageError {
        arbitrary()
    }
}

// Results

#[derive(Debug)]
pub struct PromiseCreateResult {
    /// Whether the promise was newly inserted (false = already existed).
    pub was_created: bool,
    pub promise: PromiseRecord,
}

#[derive(Debug)]
pub struct PromiseSettleResult {
    /// Whether the promise was actually transitioned from pending to settled.
    pub was_settled: bool,
    /// `None` when the promise was not found in the database.
    pub promise: Option<PromiseRecord>,
}

#[derive(Debug)]
pub struct RegisterCallbackResult {
    pub awaited: Option<PromiseRecord>,
    pub awaiter: Option<PromiseRecord>,
}

#[derive(Debug)]
pub struct TaskCreateResult {
    pub promise: PromiseRecord,
    pub task_created: bool,
    pub task_state: Option<String>,
    pub task_version: Option<i64>,
}

#[derive(Debug)]
pub struct TaskAcquireResult {
    pub promise: Option<PromiseRecord>,
    pub was_acquired: bool,
    pub task_state: Option<TaskState>,
    pub task_version: Option<i64>,
}

#[derive(Debug)]
pub struct TaskFenceResult {
    pub task_exists: bool,
    pub fence_ok: bool,
    pub promise: Option<PromiseRecord>,
}

#[derive(Debug)]
pub struct TaskSuspendResult {
    pub task_matched: bool,
    pub was_suspended: bool,
    pub missing_count: i32,
}

#[derive(Debug)]
pub struct TaskReleaseResult {
    pub task_released: bool,
    pub task_exists: bool,
}

#[derive(Debug)]
pub struct TaskFulfillResult {
    pub task_exists: bool,
    /// Whether the task was actually transitioned to fulfilled.
    pub task_fulfilled: bool,
    /// `None` when the promise was not found in the database.
    pub promise: Option<PromiseRecord>,
}

#[derive(Debug)]
pub struct TaskHaltResult {
    pub task_exists: bool,
    pub task_fulfilled: bool,
}

#[derive(Debug)]
pub struct TaskContinueResult {
    pub task_exists: bool,
    pub continued: bool,
}

#[derive(Debug)]
pub struct OutgoingExecute {
    pub id: String,
    pub version: i64,
    pub address: String,
}

#[derive(Debug)]
pub struct OutgoingUnblock {
    pub address: String,
    pub promise: PromiseRecord,
}

// Parameters

pub struct PromiseCreateParams<'a> {
    pub id: &'a str,
    pub state: &'a str,
    pub param_headers: Option<&'a str>,
    pub param_data: Option<&'a str>,
    pub tags: &'a str,
    pub timeout_at: i64,
    pub created_at: i64,
    pub settled_at: Option<i64>,
    pub already_timedout: bool,
    pub address: Option<&'a str>,
}

pub struct PromiseSettleParams<'a> {
    pub id: &'a str,
    pub state: &'a str,
    pub value_headers: Option<&'a str>,
    pub value_data: Option<&'a str>,
    pub settled_at: i64,
}

pub struct TaskCreateParams<'a> {
    pub promise_id: &'a str,
    pub state: &'a str,
    pub param_headers: Option<&'a str>,
    pub param_data: Option<&'a str>,
    pub tags: &'a str,
    pub timeout_at: i64,
    pub created_at: i64,
    pub settled_at: Option<i64>,
    pub already_timedout: bool,
    pub ttl: i64,
    pub pid: &'a str,
}

pub struct TaskAcquireParams<'a> {
    pub task_id: &'a str,
    pub version: i64,
    pub time: i64,
    pub ttl: i64,
    pub pid: &'a str,
}

pub struct TaskFenceCreateParams<'a> {
    pub task_id: &'a str,
    pub version: i64,
    pub promise_id: &'a str,
    pub state: &'a str,
    pub param_headers: Option<&'a str>,
    pub param_data: Option<&'a str>,
    pub tags: &'a str,
    pub timeout_at: i64,
    pub created_at: i64,
    pub settled_at: Option<i64>,
    pub already_timedout: bool,
    pub address: Option<&'a str>,
}

pub struct TaskFenceSettleParams<'a> {
    pub task_id: &'a str,
    pub version: i64,
    pub promise_id: &'a str,
    pub state: &'a str,
    pub value_headers: Option<&'a str>,
    pub value_data: Option<&'a str>,
    pub settled_at: i64,
}

pub struct TaskFulfillParams<'a> {
    pub task_id: &'a str,
    pub version: i64,
    pub promise_id: &'a str,
    pub state: &'a str,
    pub value_headers: Option<&'a str>,
    pub value_data: Option<&'a str>,
    pub settled_at: i64,
}

pub struct ScheduleCreateParams<'a> {
    pub id: &'a str,
    pub cron: &'a str,
    pub promise_id: &'a str,
    pub promise_timeout: i64,
    pub promise_param_headers: Option<&'a str>,
    pub promise_param_data: Option<&'a str>,
    pub promise_tags: &'a str,
    pub created_at: i64,
    pub next_run_at: i64,
}

} // verus!
