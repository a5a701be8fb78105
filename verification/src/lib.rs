//! Process-lifecycle controller for a secure network tunnel client.
//!
//! The library owns the part of such a client that is worth stating exactly:
//! the session lifecycle state machine that drives the process from
//! "configured" through "connected" to "terminated", and the callback bridge
//! through which the tunnel engine's asynchronous events (log rotation
//! requests, error notifications) reach the host's logging facilities.
//!
//! The tunnel engine itself, the rotating log file on disk and the operator's
//! interrupt are external collaborators: the host process performs those
//! calls and hands their outcomes to this library, whose decisions are
//! verified for every outcome.

pub mod bridge;
pub mod config;
pub mod errors;
pub mod lifecycle;
