//! Decision logic of a small controller for a local multi-container stack:
//! where the stack's compose file lies, how the output of a finished command
//! is rendered, and when the legacy `docker-compose` binary is tried after
//! `docker compose` has failed.
//!
//! The library performs no I/O. A caller probes the filesystem and runs the
//! processes; every decision between those steps is taken here.

pub mod actions;
pub mod dispatch;
pub mod error;
pub mod invocation;
pub mod locate;
pub mod output;
pub mod path;
pub mod runner;
pub mod text;
