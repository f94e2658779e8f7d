use vstd::prelude::*;

verus! {

/// The error taxonomy of the tunnel engine.
///
/// `Connect`, `Auth` and `Bind` abort the requested operation and are
/// surfaced to the caller; `Io`, `ChannelOpen` on an active shuttle and
/// `Protocol` are local to one shuttle; `NotConnected` is returned by any
/// operation attempted without a live session.
#[derive(Clone, Copy, Debug, PartialEq, Eq, Structural)]
pub enum TunnelError {
    /// Network or handshake failure while establishing the transport.
    Connect,
    /// The credentials were rejected by the remote side.
    Auth,
    /// The local TCP listener could not be bound.
    Bind,
    /// The remote side refused to open a forward channel.
    ChannelOpen,
    /// The command channel closed without ever delivering an exit status.
    Command,
    /// A read or write failed on an active shuttle.
    Io,
    /// An operation was attempted without a live session.
    NotConnected,
    /// The channel delivered an event outside the expected protocol.
    Protocol,
}

impl TunnelError {
    /// The description of this error, in the words of the command surface.
    pub open spec fn message_spec(self) -> Seq<char> {
        match self {
            TunnelError::Connect => "Connect Error"@,
            TunnelError::Auth => "Authentication Error"@,
            TunnelError::Bind => "TCP Bind Error"@,
            TunnelError::ChannelOpen => "Channel Open Error"@,
            TunnelError::Command => "Command Error"@,
            TunnelError::Io => "IO Error"@,
            TunnelError::NotConnected => "Please connect first"@,
            TunnelError::Protocol => "Protocol Error"@,
        }
    }

    /// A human-readable description of the error.
    pub fn message(&self) -> (r: &'static str)
        ensures
            r@ == self.message_spec(),
    {
        match self {
            TunnelError::Connect => "Connect Error",
            TunnelError::Auth => "Authentication Error",
            TunnelError::Bind => "TCP Bind Error",
            TunnelError::ChannelOpen => "Channel Open Error",
            TunnelError::Command => "Command Error",
            TunnelError::Io => "IO Error",
            TunnelError::NotConnected => "Please connect first",
            TunnelError::Protocol => "Protocol Error",
        }
    }
}

} // verus!
