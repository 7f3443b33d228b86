//! A periodic UDP prober: each tick, every configured target receives one
//! statsd counter increment over a per-family shared socket.
//!
//! The library holds the decisions: the target list, the payload, the socket
//! slots of each address family, the walk over resolved candidates and the
//! dispatch of jobs on a tick. The caller performs the network work that
//! those decisions ask for.

pub mod args;
pub mod job;
pub mod prober;
pub mod socket;
