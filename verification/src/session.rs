use vstd::prelude::*;

use crate::errors::TunnelError;

verus! {

/// Whether a live, authenticated session exists in the engine's single
/// connection slot.
#[derive(Clone, Copy, Debug, PartialEq, Eq, Structural)]
pub enum SessionPhase {
    Disconnected,
    Connected,
}

/// What the caller of a connect request must do next.
#[derive(Clone, Copy, Debug, PartialEq, Eq, Structural)]
pub enum ConnectDecision {
    /// A session is already live: reuse it, establish nothing.
    AlreadyConnected,
    /// No session is live: establish and authenticate the transport, then
    /// report the outcome back.
    Establish,
}

/// The engine's session slot: at most one authenticated secure-transport
/// connection, explicitly connected and explicitly closed.
///
/// The transport handle itself lives with the runner; this manager decides,
/// for every request of the command surface, whether the operation may run
/// and how the slot changes.
pub struct SessionManager {
    pub phase: SessionPhase,
}

impl SessionManager {
    /// A manager whose connection slot is empty.
    pub fn new() -> (m: SessionManager)
        ensures
            m.phase is Disconnected,
    {
        SessionManager { phase: SessionPhase::Disconnected }
    }

    /// Whether a live session exists.
    pub fn is_connected(&self) -> (r: bool)
        ensures
            r == (self.phase is Connected),
    {
        matches!(self.phase, SessionPhase::Connected)
    }

    /// Decide a connect request. Connecting while already connected is a
    /// no-op that reports success: no second session is ever created.
    pub fn connect_decision(&self) -> (d: ConnectDecision)
        ensures
            d == ConnectDecision::AlreadyConnected <==> self.phase is Connected,
            d == ConnectDecision::Establish <==> self.phase is Disconnected,
    {
        match self.phase {
            SessionPhase::Connected => ConnectDecision::AlreadyConnected,
            SessionPhase::Disconnected => ConnectDecision::Establish,
        }
    }

    /// The transport was established and authenticated: fill the slot.
    pub fn record_established(&mut self)
        requires
            old(self).phase is Disconnected,
        ensures
            final(self).phase is Connected,
    {
        self.phase = SessionPhase::Connected;
    }

    /// The error class of a failed establishment: credential rejection is
    /// `Auth`, any network or handshake failure is `Connect`. The slot is
    /// unchanged, so a later connect request may try again.
    pub fn connect_failure(&self, auth_rejected: bool) -> (e: TunnelError)
        ensures
            e == (if auth_rejected {
                TunnelError::Auth
            } else {
                TunnelError::Connect
            }),
    {
        if auth_rejected {
            TunnelError::Auth
        } else {
            TunnelError::Connect
        }
    }

    /// Whether a command may run: `Ok` exactly when a session is live, and
    /// `NotConnected` otherwise, in which case no I/O happens at all.
    pub fn command_allowed(&self) -> (r: Result<(), TunnelError>)
        ensures
            r is Ok <==> self.phase is Connected,
            self.phase is Disconnected ==> r == Err::<(), TunnelError>(TunnelError::NotConnected),
    {
        match self.phase {
            SessionPhase::Connected => Ok(()),
            SessionPhase::Disconnected => Err(TunnelError::NotConnected),
        }
    }

    /// Empty the slot. Returns whether a session was live, in which case
    /// the runner must gracefully disconnect the transport; after this,
    /// every operation fails with `NotConnected` until a new connect.
    pub fn disconnect(&mut self) -> (was_live: bool)
        ensures
            final(self).phase is Disconnected,
            was_live == (old(self).phase is Connected),
    {
        let was_live = matches!(self.phase, SessionPhase::Connected);
        self.phase = SessionPhase::Disconnected;
        was_live
    }
}

} // verus!
