//! Server loops: accepting QUIC connections, serving the requests of each
//! connection, and stopping.
use vstd::prelude::*;

verus! {

// ---------------------------------------------------------------------------
// Accepting connections (quinn)
// ---------------------------------------------------------------------------

/// What the acceptor waits for.
#[derive(Clone, Copy, Debug, PartialEq, Eq, Structural)]
pub enum AcceptSources {
    /// Only new incoming connections (no handshake is in progress).
    IncomingOnly,
    /// New incoming connections and the handshakes in progress.
    IncomingAndHandshakes,
}

/// What the acceptor got.
#[derive(Clone, Copy, Debug, PartialEq, Eq, Structural)]
pub enum AcceptEvent {
    /// A new incoming connection; its handshake has not started.
    Incoming,
    /// A handshake completed.
    HandshakeDone,
    /// A handshake failed.
    HandshakeFailed,
    /// The endpoint was shut down.
    EndpointClosed,
}

/// What the acceptor does next.
#[derive(Clone, Copy, Debug, PartialEq, Eq, Structural)]
pub enum AcceptAction {
    /// Start the handshake in a task of its own and keep accepting.
    SpawnHandshake,
    /// Return the connection.
    ReturnConnection,
    /// Ignore the failed handshake and keep accepting.
    KeepAccepting,
    /// Return "no more connections".
    ReturnNone,
}

/// The handshakes in progress of an acceptor.
pub struct HandshakeTracker {
    pending: usize,
}

impl HandshakeTracker {
    pub closed spec fn spec_pending(&self) -> nat {
        self.pending as nat
    }

    /// No handshake in progress.
    pub fn new() -> (r: Self)
        ensures
            r.spec_pending() == 0,
    {
        HandshakeTracker { pending: 0 }
    }

    /// What to wait for: the handshakes are waited for only while there is
    /// at least one, so waiting for the next one always gives one.
    pub fn sources(&self) -> (r: AcceptSources)
        ensures
            r == AcceptSources::IncomingAndHandshakes <==> self.spec_pending() > 0,
    {
        if self.pending == 0 {
            AcceptSources::IncomingOnly
        } else {
            AcceptSources::IncomingAndHandshakes
        }
    }

    /// Records an event and decides what to do.
    pub fn on_event(&mut self, ev: AcceptEvent) -> (r: AcceptAction)
        requires
            ev == AcceptEvent::Incoming ==> old(self).spec_pending() < usize::MAX,
            (ev == AcceptEvent::HandshakeDone || ev == AcceptEvent::HandshakeFailed) ==> old(
                self,
            ).spec_pending() > 0,
        ensures
            r == spec_accept_action(ev),
            final(self).spec_pending() == match ev {
                AcceptEvent::Incoming => old(self).spec_pending() + 1,
                AcceptEvent::HandshakeDone | AcceptEvent::HandshakeFailed => (old(
                    self,
                ).spec_pending() - 1) as nat,
                AcceptEvent::EndpointClosed => old(self).spec_pending(),
            },
    {
        match ev {
            AcceptEvent::Incoming => {
                self.pending = self.pending + 1;
                AcceptAction::SpawnHandshake
            },
            AcceptEvent::HandshakeDone => {
                self.pending = self.pending - 1;
                AcceptAction::ReturnConnection
            },
            AcceptEvent::HandshakeFailed => {
                self.pending = self.pending - 1;
                AcceptAction::KeepAccepting
            },
            AcceptEvent::EndpointClosed => AcceptAction::ReturnNone,
        }
    }
}

pub open spec fn spec_accept_action(ev: AcceptEvent) -> AcceptAction {
    match ev {
        AcceptEvent::Incoming => AcceptAction::SpawnHandshake,
        AcceptEvent::HandshakeDone => AcceptAction::ReturnConnection,
        AcceptEvent::HandshakeFailed => AcceptAction::KeepAccepting,
        AcceptEvent::EndpointClosed => AcceptAction::ReturnNone,
    }
}

// ---------------------------------------------------------------------------
// Serving
// ---------------------------------------------------------------------------

/// What the server loop got.
#[derive(Clone, Copy, Debug, PartialEq, Eq, Structural)]
pub enum ServeEvent {
    /// The acceptor gave a connection.
    Accepted,
    /// The acceptor has no more connections.
    AcceptorEnded,
    /// The acceptor failed.
    AcceptFailed,
    /// The shutdown signal fired.
    Shutdown,
}

/// What the server loop does next.
#[derive(Clone, Copy, Debug, PartialEq, Eq, Structural)]
pub enum ServeAction {
    /// Serve the connection in a task of its own and keep accepting.
    ServeConnection,
    /// Return success.
    Stop,
    /// Return the acceptor's error.
    Fail,
}

pub open spec fn spec_serve_action(ev: ServeEvent) -> ServeAction {
    match ev {
        ServeEvent::Accepted => ServeAction::ServeConnection,
        ServeEvent::AcceptorEnded | ServeEvent::Shutdown => ServeAction::Stop,
        ServeEvent::AcceptFailed => ServeAction::Fail,
    }
}

/// Decides what the server loop does after an event.
pub fn serve_action(ev: ServeEvent) -> (r: ServeAction)
    ensures
        r == spec_serve_action(ev),
{
    match ev {
        ServeEvent::Accepted => ServeAction::ServeConnection,
        ServeEvent::AcceptorEnded | ServeEvent::Shutdown => ServeAction::Stop,
        ServeEvent::AcceptFailed => ServeAction::Fail,
    }
}

/// What accepting the next request of a connection gave.
#[derive(Clone, Copy, Debug, PartialEq, Eq, Structural)]
pub enum ConnectionEvent {
    /// A request.
    Request,
    /// The connection ended.
    Ended,
    /// Accepting failed; `benign` when the connection closed without error.
    Failed { benign: bool },
}

/// What the connection loop does next.
#[derive(Clone, Copy, Debug, PartialEq, Eq, Structural)]
pub enum ConnectionAction {
    /// Serve the request in a task of its own and keep accepting requests.
    ServeRequest,
    /// Stop serving the connection; nothing went wrong.
    StopQuietly,
    /// Stop serving the connection and report the failure.
    StopWithWarning,
}

pub open spec fn spec_connection_action(ev: ConnectionEvent) -> ConnectionAction {
    match ev {
        ConnectionEvent::Request => ConnectionAction::ServeRequest,
        ConnectionEvent::Ended => ConnectionAction::StopQuietly,
        ConnectionEvent::Failed { benign } => if benign {
            ConnectionAction::StopQuietly
        } else {
            ConnectionAction::StopWithWarning
        },
    }
}

/// Decides what the connection loop does after an event.
pub fn connection_action(ev: ConnectionEvent) -> (r: ConnectionAction)
    ensures
        r == spec_connection_action(ev),
{
    match ev {
        ConnectionEvent::Request => ConnectionAction::ServeRequest,
        ConnectionEvent::Ended => ConnectionAction::StopQuietly,
        ConnectionEvent::Failed { benign } => if benign {
            ConnectionAction::StopQuietly
        } else {
            ConnectionAction::StopWithWarning
        },
    }
}

} // verus!
