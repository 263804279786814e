//! A thread-blocking request/response bridge over a cooperative, single-threaded
//! execution engine.
//!
//! The crate holds the rules of the bridge: how long a caller waits, what a
//! worker does while it starts and serves, when a request is abandoned, and
//! when the worker is shut down. Threads, schedulers and sockets stay outside;
//! they report what happened and carry out what these rules decide.

pub mod builder;
pub mod channel;
pub mod config;
pub mod error;
pub mod exchange;
pub mod forward;
pub mod launch;
pub mod lifetime;
pub mod timeout;
pub mod wait;
pub mod worker;
