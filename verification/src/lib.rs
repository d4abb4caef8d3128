//! Core engine of a TCP relay and process supervisor.
//!
//! The library models the decision logic of a small server keeper: it accepts
//! inbound TCP connections on several addresses, relays bytes both ways to a
//! backend, keeps a backend process alive by relaunching it on every exit, and
//! drives an ordered teardown after a termination signal.  All socket, process
//! and signal I/O is performed by the surrounding program; this crate holds the
//! verified state machines that decide what that program does next.

pub mod config;
pub mod relay;
pub mod listener;
pub mod redirect;
pub mod runner;
pub mod shutdown;
pub mod supervisor;

pub use config::Args;
pub use runner::run;
pub use runner::RunnerError;
