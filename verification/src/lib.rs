//! Verified core of a syslog-to-graph ingestion service.
//!
//! Datagrams carrying syslog messages are decoded, turned into a single
//! graph mutation statement, and executed against a graph store; the
//! identifier the store assigns to the new message node is broadcast to
//! live subscribers.  This crate holds the logic of that pipeline: the
//! string escaper that keeps untrusted text inside query literals, the
//! mutation builder, the result serializer, the broadcast and listener
//! models, and the proofs tying them together.

use vstd::prelude::*;

pub mod escape;
pub mod fanout;
pub mod gateway;
pub mod graph;
pub mod listener;
pub mod message;
pub mod mutation;
pub mod numfmt;
pub mod serialize;
mod strutil;

verus! {

/// Event carried on the process-wide broadcast channel: either the
/// identifier of a newly ingested message node, or a stop marker.
#[derive(Debug, Clone)]
pub enum Signal {
    NewMessage(usize),
    Stop,
}

} // verus!
