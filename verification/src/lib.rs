//! Supervision of a single long-running backend service process.
//!
//! The crate models the life cycle of one child process on behalf of a
//! desktop shell: starting it, confirming it is healthy, detecting crashes
//! or hangs, and coordinating restarts and shutdown without racing itself.
//! All decision logic lives here, verified; the surrounding shell performs
//! the actual process and network operations and feeds their outcomes back
//! in as plain values.

pub mod config;
pub mod health;
pub mod launch;
pub mod monitor;
pub mod publisher;
pub mod status;
pub mod supervisor;
pub mod text;
