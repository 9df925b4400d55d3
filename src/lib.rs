//! Asynchronous client core for the Tarantool database: the IPROTO wire
//! engine (framing, request bodies, response headers), the in-flight table
//! that correlates replies with callers, and the decisions of the connection
//! supervisor, streams, transactions and the prepared-statement cache.
//!
//! Sockets, timers and task plumbing stay outside this crate: they hand the
//! functions here plain values and act on what comes back.
pub mod consts;
pub mod msgpack;
pub mod request;
pub mod errors;
pub mod response;
pub mod body;
pub mod dmo;
pub mod codec;
pub mod in_flight;
pub mod greeting;
pub mod session;
pub mod statement_cache;
pub mod schema;
pub mod lemmas;
