//! The server's lifecycle: one forward-only state machine from
//! creation through listening and graceful shutdown to a full stop,
//! with explicit admission control for new connections.

use vstd::prelude::*;

verus! {

/// The phases of a server, in the only order they can be visited.
#[derive(Debug, Clone, Copy, PartialEq, Eq, Structural)]
pub enum ServerPhase {
    Created,
    Listening,
    ShuttingDown,
    Stopped,
}

/// The server's lifecycle state: its phase and how many accepted
/// connections are still in flight.
#[derive(Debug, Clone, Copy, PartialEq, Eq, Structural)]
pub struct ServerState {
    pub phase: ServerPhase,
    pub in_flight: u32,
}

/// The state after a close signal: a listening server begins shutting
/// down; in every other phase the signal changes nothing.  In-flight
/// work is never touched.
pub open spec fn spec_after_close(s: ServerState) -> ServerState {
    ServerState {
        phase: match s.phase {
            ServerPhase::Listening => ServerPhase::ShuttingDown,
            p => p,
        },
        in_flight: s.in_flight,
    }
}

/// Whether a new connection may be admitted: only while listening,
/// and only below the configured connection cap.
pub open spec fn spec_admits(s: ServerState, max_connections: u32) -> bool {
    s.phase is Listening && s.in_flight < max_connections
}

impl ServerState {
    /// A freshly created server: not yet listening, nothing in flight.
    pub fn new() -> (r: ServerState)
        ensures
            r.phase is Created,
            r.in_flight == 0,
    {
        ServerState { phase: ServerPhase::Created, in_flight: 0 }
    }

    /// The socket is bound: the server starts listening.
    pub fn on_bound(&mut self)
        requires
            old(self).phase is Created,
        ensures
            final(self).phase is Listening,
            final(self).in_flight == old(self).in_flight,
    {
        self.phase = ServerPhase::Listening;
    }

    /// Whether a new connection may be admitted right now.
    pub fn admits(&self, max_connections: u32) -> (r: bool)
        ensures
            r == spec_admits(*self, max_connections),
    {
        match self.phase {
            ServerPhase::Listening => self.in_flight < max_connections,
            _ => false,
        }
    }

    /// A connection was admitted.
    pub fn on_accept(&mut self, max_connections: u32)
        requires
            spec_admits(*old(self), max_connections),
        ensures
            final(self).phase == old(self).phase,
            final(self).in_flight == old(self).in_flight + 1,
    {
        self.in_flight = self.in_flight + 1;
    }

    /// An admitted connection finished, on every path alike.
    pub fn on_connection_done(&mut self)
        requires
            old(self).in_flight > 0,
        ensures
            final(self).phase == old(self).phase,
            final(self).in_flight == old(self).in_flight - 1,
    {
        self.in_flight = self.in_flight - 1;
    }

    /// The close signal: begin graceful shutdown.  Redundant calls are
    /// harmless, and in-flight connections are left to finish.
    pub fn close(&mut self)
        ensures
            *final(self) == spec_after_close(*old(self)),
    {
        match self.phase {
            ServerPhase::Listening => {
                self.phase = ServerPhase::ShuttingDown;
            },
            _ => {},
        }
    }

    /// The accept loop has ended and the last in-flight connection has
    /// drained: the server has stopped.
    pub fn on_drained(&mut self)
        requires
            old(self).phase is ShuttingDown,
            old(self).in_flight == 0,
        ensures
            final(self).phase is Stopped,
            final(self).in_flight == 0,
    {
        self.phase = ServerPhase::Stopped;
    }
}

/// Law: shutdown is graceful.  After a close signal no state admits a
/// new connection, the in-flight count is untouched, a repeated
/// signal changes nothing more, and a closed server never returns to
/// listening.
pub proof fn lemma_close_graceful(s: ServerState, max_connections: u32)
    ensures
        !spec_admits(spec_after_close(s), max_connections),
        spec_after_close(s).in_flight == s.in_flight,
        spec_after_close(spec_after_close(s)) == spec_after_close(s),
        !(spec_after_close(s).phase is Listening),
{
}

} // verus!
