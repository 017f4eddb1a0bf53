//! A throughput-measurement harness for one bidirectional byte stream over a
//! Unix domain socket: a server endpoint writes a continuous stream of filler
//! bytes to a single connected peer, a client reads it, and both sides report
//! running and final throughput.
//!
//! The readiness-driven core lives here, verified: how raw readiness events
//! are interpreted, in what order a readiness batch is consumed, when a
//! session ends and why, how transfer counts accumulate, and when a progress
//! line is due. The surrounding process does the outside work — registering
//! the descriptor, waiting for readiness, moving bytes over the socket,
//! reading the clock — and feeds the plain results in.

pub mod config;
pub mod events;
pub mod progress;
pub mod session;
