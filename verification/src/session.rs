//! Per-client connection lifecycle.
//!
//! A session is created when a client's socket is accepted and is not
//! retained after the protocol framework reports disconnection.  The
//! lifecycle hooks observe these events; they mutate no shared protocol
//! state and cannot fail.

use vstd::prelude::*;

verus! {

/// Why a client's connection ended.
#[derive(Clone, Copy, PartialEq, Eq, Structural, Debug)]
pub enum DisconnectReason {
    /// The client closed its connection.
    ConnectionClosed,
    /// The server severed the connection after a protocol error.
    ProtocolError,
}

/// Where a client stands in its connection lifecycle.
#[derive(Clone, Copy, PartialEq, Eq, Structural, Debug)]
pub enum LifecyclePhase {
    Connected,
    Disconnected(DisconnectReason),
}

/// One client's connection: its identity and lifecycle phase.
#[derive(Clone, Copy, PartialEq, Eq, Structural, Debug)]
pub struct ClientState {
    pub client: u64,
    pub phase: LifecyclePhase,
}

impl ClientState {
    /// Observe a client's connection: the session starts connected.
    pub fn initialized(client: u64) -> (session: Self)
        ensures
            session.client == client,
            session.phase == LifecyclePhase::Connected,
    {
        ClientState { client, phase: LifecyclePhase::Connected }
    }

    /// Observe the client's disconnection with the reported reason.  The
    /// client's identity never changes, and this observation cannot fail.
    pub fn disconnected(&mut self, reason: DisconnectReason)
        ensures
            final(self).client == old(self).client,
            final(self).phase == LifecyclePhase::Disconnected(reason),
    {
        self.phase = LifecyclePhase::Disconnected(reason);
    }

    /// Whether the session still stands for a live connection.
    pub fn is_connected(&self) -> (connected: bool)
        ensures
            connected == (self.phase == LifecyclePhase::Connected),
    {
        match self.phase {
            LifecyclePhase::Connected => true,
            LifecyclePhase::Disconnected(_) => false,
        }
    }
}

} // verus!
