//! Synchronous bridge over an asynchronous CQL result stream.
//!
//! A host that can only make blocking, callback-driven calls consumes a paged
//! query result one row at a time. This crate holds the verified core of that
//! bridge: the row-streaming state machine, the recursive column-type
//! metadata tree and its walker, and the error taxonomy that crosses the
//! boundary. The driver itself (sessions, paging I/O) lives outside and hands
//! the engine plain fetch outcomes.

pub mod config;
pub mod errors;
pub mod row_set;
pub mod sinks;
pub mod type_info;
