use vstd::prelude::*;

use crate::errors::TunnelError;

verus! {

/// The reference size of one bounded read from the TCP socket.
pub const CHUNK_SIZE: u64 = 65536;

/// Why a shuttle finished.
#[derive(Clone, Copy, Debug, PartialEq, Eq, Structural)]
pub enum ShuttleEnd {
    /// The channel signalled end of stream: an orderly close.
    Closed,
    /// The job's cancellation signal fired.
    Cancelled,
    /// A local failure; the error class is recorded.
    Failed(TunnelError),
}

/// Where one shuttle stands.
#[derive(Clone, Copy, Debug, PartialEq, Eq, Structural)]
pub enum ShuttlePhase {
    /// Still servicing at least one direction.
    Open,
    /// Terminated; nothing further happens to this connection.
    Done(ShuttleEnd),
}

/// The state of one shuttle: one accepted TCP connection paired with one
/// forward channel, copied bidirectionally until either side closes, the
/// peer signals end of stream, or cancellation fires.
#[derive(Clone, Copy, Debug, PartialEq, Eq, Structural)]
pub struct ShuttleState {
    pub phase: ShuttlePhase,
    /// Whether the socket's read side has observed end of stream.
    pub stream_closed: bool,
}

/// One occurrence at a shuttle's multi-way wait: whichever of the socket,
/// the channel and the cancellation signal became ready first.
#[derive(Clone, Copy, Debug, PartialEq, Eq, Structural)]
pub enum ShuttleEvent {
    /// The socket yielded `n` bytes, `0 < n <= CHUNK_SIZE`.
    SocketData { n: u64 },
    /// The socket read returned zero bytes: local end of stream.
    SocketEof,
    /// A socket read or write, or a channel send, failed.
    IoError,
    /// The forward channel could not be opened for this connection.
    ChannelOpenFailed,
    /// The channel delivered `n` bytes of data.
    ChannelData { n: u64 },
    /// The channel signalled end of stream.
    ChannelEof,
    /// A flow-control window adjustment: a no-op.
    WindowAdjusted,
    /// Any other channel event: a protocol inconsistency, fatal to this
    /// shuttle only.
    UnexpectedChannelEvent,
    /// The job's cancellation signal fired.
    Cancelled,
}

/// What the runner of a shuttle must do after a step.
#[derive(Clone, Copy, Debug, PartialEq, Eq, Structural)]
pub enum ShuttleAction {
    /// Forward the `n` bytes just read from the socket onto the channel,
    /// in the order they were read.
    SendToChannel { n: u64 },
    /// Write the `n` bytes just received from the channel to the socket,
    /// in the order they were received.
    WriteToSocket { n: u64 },
    /// Signal end of stream on the channel.
    SendEof,
    /// No I/O; when the shuttle is `Done`, release the socket and channel.
    Nothing,
}

impl ShuttleState {
    /// A shuttle as it starts: both directions live.
    pub open spec fn initial_spec() -> ShuttleState {
        ShuttleState { phase: ShuttlePhase::Open, stream_closed: false }
    }

    /// A shuttle as it starts: both directions live.
    pub fn initial() -> (s: ShuttleState)
        ensures
            s == ShuttleState::initial_spec(),
    {
        ShuttleState { phase: ShuttlePhase::Open, stream_closed: false }
    }

    /// Whether `event` can occur at all in state `s`: the shuttle is still
    /// open, and the socket is read only while its read side is live.
    pub open spec fn event_allowed(s: ShuttleState, event: ShuttleEvent) -> bool {
        &&& s.phase is Open
        &&& match event {
            ShuttleEvent::SocketData { n } => !s.stream_closed && 0 < n <= CHUNK_SIZE,
            ShuttleEvent::SocketEof => !s.stream_closed,
            _ => true,
        }
    }

    /// The transition of one shuttle on one event: the next state and the
    /// action the runner must perform.
    pub open spec fn step_spec(s: ShuttleState, event: ShuttleEvent) -> (ShuttleState, ShuttleAction) {
        match event {
            ShuttleEvent::SocketData { n } => (
                s,
                ShuttleAction::SendToChannel { n },
            ),
            ShuttleEvent::SocketEof => (
                ShuttleState { stream_closed: true, ..s },
                ShuttleAction::SendEof,
            ),
            ShuttleEvent::IoError => (
                ShuttleState { phase: ShuttlePhase::Done(ShuttleEnd::Failed(TunnelError::Io)), ..s },
                ShuttleAction::Nothing,
            ),
            ShuttleEvent::ChannelOpenFailed => (
                ShuttleState {
                    phase: ShuttlePhase::Done(ShuttleEnd::Failed(TunnelError::ChannelOpen)),
                    ..s
                },
                ShuttleAction::Nothing,
            ),
            ShuttleEvent::ChannelData { n } => (
                s,
                ShuttleAction::WriteToSocket { n },
            ),
            ShuttleEvent::ChannelEof => (
                ShuttleState {
                    phase: ShuttlePhase::Done(ShuttleEnd::Closed),
                    stream_closed: true,
                },
                if s.stream_closed {
                    ShuttleAction::Nothing
                } else {
                    ShuttleAction::SendEof
                },
            ),
            ShuttleEvent::WindowAdjusted => (s, ShuttleAction::Nothing),
            ShuttleEvent::UnexpectedChannelEvent => (
                ShuttleState {
                    phase: ShuttlePhase::Done(ShuttleEnd::Failed(TunnelError::Protocol)),
                    ..s
                },
                ShuttleAction::Nothing,
            ),
            ShuttleEvent::Cancelled => (
                ShuttleState { phase: ShuttlePhase::Done(ShuttleEnd::Cancelled), ..s },
                ShuttleAction::Nothing,
            ),
        }
    }

    /// How many bytes `event` moves towards the remote target.
    pub open spec fn sent_delta(event: ShuttleEvent) -> int {
        match event {
            ShuttleEvent::SocketData { n } => n as int,
            _ => 0,
        }
    }

    /// How many bytes `event` moves back from the remote target.
    pub open spec fn recv_delta(event: ShuttleEvent) -> int {
        match event {
            ShuttleEvent::ChannelData { n } => n as int,
            _ => 0,
        }
    }

    /// Drive the shuttle by one event.
    pub fn step(&mut self, event: ShuttleEvent) -> (action: ShuttleAction)
        requires
            ShuttleState::event_allowed(*old(self), event),
        ensures
            (*final(self), action) == ShuttleState::step_spec(*old(self), event),
    {
        match event {
            ShuttleEvent::SocketData { n } => ShuttleAction::SendToChannel { n },
            ShuttleEvent::SocketEof => {
                self.stream_closed = true;
                ShuttleAction::SendEof
            },
            ShuttleEvent::IoError => {
                self.phase = ShuttlePhase::Done(ShuttleEnd::Failed(TunnelError::Io));
                ShuttleAction::Nothing
            },
            ShuttleEvent::ChannelOpenFailed => {
                self.phase = ShuttlePhase::Done(ShuttleEnd::Failed(TunnelError::ChannelOpen));
                ShuttleAction::Nothing
            },
            ShuttleEvent::ChannelData { n } => ShuttleAction::WriteToSocket { n },
            ShuttleEvent::ChannelEof => {
                let was_closed = self.stream_closed;
                self.phase = ShuttlePhase::Done(ShuttleEnd::Closed);
                self.stream_closed = true;
                if was_closed {
                    ShuttleAction::Nothing
                } else {
                    ShuttleAction::SendEof
                }
            },
            ShuttleEvent::WindowAdjusted => ShuttleAction::Nothing,
            ShuttleEvent::UnexpectedChannelEvent => {
                self.phase = ShuttlePhase::Done(ShuttleEnd::Failed(TunnelError::Protocol));
                ShuttleAction::Nothing
            },
            ShuttleEvent::Cancelled => {
                self.phase = ShuttlePhase::Done(ShuttleEnd::Cancelled);
                ShuttleAction::Nothing
            },
        }
    }
}

/// Cancellation terminates any open shuttle in a single step, without
/// attempting further I/O: part of the guarantee that firing the stop
/// signal halts every live shuttle within one scheduling cycle.
pub proof fn lemma_cancel_terminates_shuttle(s: ShuttleState)
    requires
        s.phase is Open,
    ensures
        ShuttleState::step_spec(s, ShuttleEvent::Cancelled).0.phase == ShuttlePhase::Done(
            ShuttleEnd::Cancelled,
        ),
        ShuttleState::step_spec(s, ShuttleEvent::Cancelled).1 == ShuttleAction::Nothing,
{
}

/// A terminated shuttle never reopens: no event whose occurrence the step
/// relation admits applies to a `Done` shuttle at all.
pub proof fn lemma_done_is_terminal(s: ShuttleState, event: ShuttleEvent)
    requires
        s.phase is Done,
    ensures
        !ShuttleState::event_allowed(s, event),
{
}

} // verus!
