//! The embedded server.
//!
//! - [`network`]: the server with its connections, and the routing of messages.
//! - [`server`]: which operation a request asks for, and how its steps follow.
//! - [`steps`]: what a step is; [`promise_ops`], [`task_ops`] and
//!   [`schedule_ops`]: the steps of each operation.
//! - [`processing`]: what is done when time has passed.
//! - [`laws`]: what holds of every request; [`requests`], [`exchanges`] and
//!   [`task_exchanges`]: what each operation asks of the storage and answers, from the
//!   envelope of a request to its response.
pub mod address;
pub mod exchanges;
pub mod laws;
pub mod network;
pub mod persistence;
pub mod processing;
pub mod promise_ops;
pub mod requests;
pub mod schedule_ops;
pub mod server;
pub mod steps;
pub mod task_exchanges;
pub mod task_ops;
pub mod types;

pub use network::{SqliteBackend, SqliteNetwork, SqliteServer};
pub use server::{Config, MessagesConfig, ServerConfig, TasksConfig, TimeoutsConfig};
