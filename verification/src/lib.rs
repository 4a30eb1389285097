//! Supervision core for one long-running worker process ("sidecar").
//!
//! The crate holds the decisions of a process supervisor and of the small
//! HTTP control client that talks to the worker: when to spawn, what to
//! record when the worker dies, which requests to send and how to read the
//! replies. It performs no I/O itself. Every operation is a transition on
//! plain values: the caller performs the action that a transition hands out
//! (spawn, kill, send a request) and reports back what happened.

pub mod apps;
pub mod config;
pub mod control;
pub mod error;
pub mod http;
pub mod json;
pub mod laws;
pub mod monitor;
pub mod supervisor;
pub mod text;
