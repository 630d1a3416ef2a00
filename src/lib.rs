//! Supervision and event relay for an external intercepting proxy.
//!
//! The library holds the decisions: how a child's output streams turn into
//! events, when a scanner session may start or stop, how the relay bridge
//! reacts to what its socket reports, and how the proxy's command line is
//! assembled. Performing process, socket and timer work is left to the caller,
//! which feeds outcomes back into these state machines.
use vstd::prelude::*;

pub mod bridge;
pub mod event;
pub mod guard;
pub mod reader;
pub mod runner;
pub mod session;
pub mod text;
