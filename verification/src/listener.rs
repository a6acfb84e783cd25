//! The ingestion listener's state machine and the shutdown coordinator.
//!
//! The listener races the datagram receive against the shutdown signal
//! and acts on whichever resolves first; the decisions — what each
//! event does to the state, and which action the surrounding task must
//! perform — are the functions here.  The task around it only performs
//! the actions: receive, run the mutation against the store, publish
//! the assigned identifier.

use vstd::prelude::*;
use vstd::utf8::valid_utf8;
use crate::message::SyslogMessage;
use crate::mutation::{mutation_spec, process_datagram};

verus! {

/// The listener's lifecycle: accepting datagrams, winding down after
/// the shutdown signal, and exited.
#[derive(Debug, PartialEq, Eq, Structural)]
pub enum ListenerState {
    Running,
    Draining,
    Stopped,
}

/// What the listener observes at a suspension point: the shutdown
/// signal, an inbound datagram with its source address, or the store's
/// reply to the mutation it ran.
#[derive(Debug, PartialEq, Eq)]
pub enum ListenerEvent {
    Shutdown,
    Datagram(Vec<u8>, String),
    StoreOk(usize),
    StoreFailed,
}

/// What the surrounding task must do next: wait for the next event,
/// run a mutation against the store, publish an assigned identifier to
/// the broadcaster, exit cleanly, or abort with a fatal error.
#[derive(Debug, PartialEq, Eq)]
pub enum ListenerAction {
    Await,
    RunMutation(SyslogMessage, String),
    Publish(usize),
    Exit,
    Fail,
}

/// The state after one event: the shutdown signal stops the intake
/// (`Running` to `Draining`), a draining listener exits (`Stopped`), a
/// store failure is fatal, and everything else keeps the listener
/// running.
pub open spec fn next_state(state: ListenerState, event: ListenerEvent) -> ListenerState {
    match state {
        ListenerState::Running => match event {
            ListenerEvent::Shutdown => ListenerState::Draining,
            ListenerEvent::StoreFailed => ListenerState::Stopped,
            _ => ListenerState::Running,
        },
        ListenerState::Draining => ListenerState::Stopped,
        ListenerState::Stopped => ListenerState::Stopped,
    }
}

/// One step of the ingestion loop.
///
/// While running: a datagram is decoded and becomes a mutation to run
/// — exactly [`mutation_spec`] of the decoded message — or is dropped
/// when its payload is not UTF-8; the store's identifier for a stored
/// message is published unchanged; a store failure is fatal.  After
/// the shutdown signal nothing further is accepted and the listener
/// exits.  A datagram handed to a running listener is always fully
/// processed: the shutdown signal only takes effect at the next
/// suspension point.
pub fn listener_step(state: ListenerState, event: ListenerEvent, server_timestamp: u64) -> (r: (
    ListenerState,
    ListenerAction,
))
    ensures
        r.0 == next_state(state, event),
        state is Running ==> (event matches ListenerEvent::Datagram(buf, ip) ==> {
            &&& valid_utf8(buf@) ==> (r.1 matches ListenerAction::RunMutation(m, q) && q@
                == mutation_spec(m, ip@, server_timestamp))
            &&& !valid_utf8(buf@) ==> r.1 is Await
        }),
        state is Running ==> (event matches ListenerEvent::StoreOk(id) ==> r.1
            == ListenerAction::Publish(id)),
        state is Running && event is StoreFailed ==> r.1 is Fail,
        state is Running && event is Shutdown ==> r.1 is Await,
        state is Draining || state is Stopped ==> r.1 is Exit,
{
    match state {
        ListenerState::Running => match event {
            ListenerEvent::Shutdown => (ListenerState::Draining, ListenerAction::Await),
            ListenerEvent::Datagram(buf, ip) => {
                match process_datagram(buf.as_slice(), ip.as_str(), server_timestamp) {
                    None => (ListenerState::Running, ListenerAction::Await),
                    Some((m, q)) => (
                        ListenerState::Running,
                        ListenerAction::RunMutation(m, q),
                    ),
                }
            },
            ListenerEvent::StoreOk(id) => (ListenerState::Running, ListenerAction::Publish(id)),
            ListenerEvent::StoreFailed => (ListenerState::Stopped, ListenerAction::Fail),
        },
        ListenerState::Draining => (ListenerState::Stopped, ListenerAction::Exit),
        ListenerState::Stopped => (ListenerState::Stopped, ListenerAction::Exit),
    }
}

/// The single cancellation signal, observed by the ingestion loop and
/// the HTTP server through independent read handles.
pub struct ShutdownCoordinator {
    pub is_set: bool,
}

impl ShutdownCoordinator {
    /// A fresh coordinator: the signal is not set.
    pub fn new() -> (c: ShutdownCoordinator)
        ensures
            !c.is_set,
    {
        ShutdownCoordinator { is_set: false }
    }

    /// Set the signal.  Idempotent: setting an already-set signal
    /// succeeds and changes nothing.
    pub fn signal(&mut self)
        ensures
            final(self).is_set,
    {
        self.is_set = true;
    }

    /// Read the signal.
    pub fn observed(&self) -> (r: bool)
        ensures
            r == self.is_set,
    {
        self.is_set
    }
}

/// Shutdown termination: once the shutdown signal is observed, the
/// listener stops accepting — the signal moves a running listener to
/// `Draining` — and one further step reaches `Stopped`, whatever else
/// arrives; `Stopped` is terminal.  Meanwhile no datagram already
/// received is dropped: a running listener processes a datagram event
/// the same way whether or not the signal is already set, because the
/// signal is consulted only between events.
pub proof fn lemma_shutdown_reaches_stopped(event_while_draining: ListenerEvent)
    ensures
        next_state(ListenerState::Running, ListenerEvent::Shutdown) is Draining,
        next_state(ListenerState::Draining, event_while_draining) is Stopped,
        next_state(ListenerState::Stopped, event_while_draining) is Stopped,
{
}

} // verus!
