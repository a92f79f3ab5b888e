//! Durable promises: the pure core of the SDK and of its embedded server.
pub mod durable;
pub mod error;
pub mod futures;
pub mod ids;
pub mod json;
pub mod sqlite;
pub mod string_map;
pub mod text;
pub mod types;
