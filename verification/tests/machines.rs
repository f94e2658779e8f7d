use sshtunnel::cancel::CancelFlag;
use sshtunnel::command::{CommandEvent, CommandRun};
use sshtunnel::counter::TrafficCounter;
use sshtunnel::errors::TunnelError;
use sshtunnel::session::{ConnectDecision, SessionManager, SessionPhase};
use sshtunnel::shuttle::{ShuttleAction, ShuttleEnd, ShuttleEvent, ShuttlePhase, ShuttleState};

#[test]
fn counter_accumulates_and_resets() {
    let mut c = TrafficCounter::new();
    assert_eq!(c.sent, 0);
    assert_eq!(c.recv, 0);
    c.add_sent(100);
    c.add_sent(20);
    c.add_recv(7);
    assert_eq!(c.sent, 120);
    assert_eq!(c.recv, 7);
    let (s, r) = c.read_and_reset();
    assert_eq!(s, 120);
    assert_eq!(r, 7);
    assert_eq!(c.sent, 0);
    assert_eq!(c.recv, 0);
}

#[test]
fn counter_sticks_at_max() {
    let mut c = TrafficCounter::new();
    c.add_sent(u64::MAX - 1);
    c.add_sent(5);
    assert_eq!(c.sent, u64::MAX);
    c.add_recv(u64::MAX);
    c.add_recv(1);
    assert_eq!(c.recv, u64::MAX);
}

#[test]
fn cancel_is_sticky_and_idempotent() {
    let mut f = CancelFlag::new();
    assert!(!f.is_cancelled());
    f.cancel();
    assert!(f.is_cancelled());
    f.cancel();
    assert!(f.is_cancelled());
}

#[test]
fn connect_twice_is_noop() {
    let mut m = SessionManager::new();
    assert_eq!(m.connect_decision(), ConnectDecision::Establish);
    m.record_established();
    // A second connect while connected creates no second session and is
    // reported as already connected.
    assert_eq!(m.connect_decision(), ConnectDecision::AlreadyConnected);
    assert_eq!(m.phase, SessionPhase::Connected);
}

#[test]
fn command_without_session_fails() {
    let m = SessionManager::new();
    assert_eq!(m.command_allowed(), Err(TunnelError::NotConnected));
    assert_eq!(
        TunnelError::NotConnected.message(),
        "Please connect first"
    );
}

#[test]
fn command_with_session_allowed() {
    let mut m = SessionManager::new();
    m.record_established();
    assert_eq!(m.command_allowed(), Ok(()));
}

#[test]
fn disconnect_empties_the_slot() {
    let mut m = SessionManager::new();
    m.record_established();
    assert!(m.disconnect());
    assert_eq!(m.command_allowed(), Err(TunnelError::NotConnected));
    assert!(!m.disconnect());
}

#[test]
fn connect_failure_classes() {
    let m = SessionManager::new();
    assert_eq!(m.connect_failure(true), TunnelError::Auth);
    assert_eq!(m.connect_failure(false), TunnelError::Connect);
}

#[test]
fn error_messages() {
    assert_eq!(TunnelError::Connect.message(), "Connect Error");
    assert_eq!(TunnelError::Auth.message(), "Authentication Error");
    assert_eq!(TunnelError::Bind.message(), "TCP Bind Error");
    assert_eq!(TunnelError::ChannelOpen.message(), "Channel Open Error");
    assert_eq!(TunnelError::Command.message(), "Command Error");
    assert_eq!(TunnelError::Io.message(), "IO Error");
    assert_eq!(TunnelError::Protocol.message(), "Protocol Error");
}

#[test]
fn shuttle_forwards_in_both_directions() {
    let mut s = ShuttleState::initial();
    let a = s.step(ShuttleEvent::SocketData { n: 4096 });
    assert_eq!(a, ShuttleAction::SendToChannel { n: 4096 });
    assert_eq!(s.phase, ShuttlePhase::Open);
    let a = s.step(ShuttleEvent::ChannelData { n: 9 });
    assert_eq!(a, ShuttleAction::WriteToSocket { n: 9 });
    assert_eq!(s.phase, ShuttlePhase::Open);
}

#[test]
fn shuttle_local_eof_keeps_other_direction() {
    let mut s = ShuttleState::initial();
    let a = s.step(ShuttleEvent::SocketEof);
    assert_eq!(a, ShuttleAction::SendEof);
    assert_eq!(s.phase, ShuttlePhase::Open);
    assert!(s.stream_closed);
    // The channel can still deliver data for the socket.
    let a = s.step(ShuttleEvent::ChannelData { n: 3 });
    assert_eq!(a, ShuttleAction::WriteToSocket { n: 3 });
    // A channel EOF after our own needs no second EOF.
    let a = s.step(ShuttleEvent::ChannelEof);
    assert_eq!(a, ShuttleAction::Nothing);
    assert_eq!(s.phase, ShuttlePhase::Done(ShuttleEnd::Closed));
}

#[test]
fn shuttle_channel_eof_answers_with_eof() {
    let mut s = ShuttleState::initial();
    let a = s.step(ShuttleEvent::ChannelEof);
    assert_eq!(a, ShuttleAction::SendEof);
    assert_eq!(s.phase, ShuttlePhase::Done(ShuttleEnd::Closed));
}

#[test]
fn shuttle_window_adjust_is_ignored() {
    let mut s = ShuttleState::initial();
    let a = s.step(ShuttleEvent::WindowAdjusted);
    assert_eq!(a, ShuttleAction::Nothing);
    assert_eq!(s.phase, ShuttlePhase::Open);
}

#[test]
fn shuttle_failures_are_local_and_classified() {
    let mut s = ShuttleState::initial();
    let a = s.step(ShuttleEvent::IoError);
    assert_eq!(a, ShuttleAction::Nothing);
    assert_eq!(s.phase, ShuttlePhase::Done(ShuttleEnd::Failed(TunnelError::Io)));

    let mut s = ShuttleState::initial();
    s.step(ShuttleEvent::UnexpectedChannelEvent);
    assert_eq!(
        s.phase,
        ShuttlePhase::Done(ShuttleEnd::Failed(TunnelError::Protocol))
    );

    let mut s = ShuttleState::initial();
    s.step(ShuttleEvent::ChannelOpenFailed);
    assert_eq!(
        s.phase,
        ShuttlePhase::Done(ShuttleEnd::Failed(TunnelError::ChannelOpen))
    );
}

#[test]
fn shuttle_cancellation_terminates_immediately() {
    let mut s = ShuttleState::initial();
    let a = s.step(ShuttleEvent::Cancelled);
    assert_eq!(a, ShuttleAction::Nothing);
    assert_eq!(s.phase, ShuttlePhase::Done(ShuttleEnd::Cancelled));
}

#[test]
fn command_collects_output_in_order() {
    let mut run = CommandRun::new();
    run.on_event(&CommandEvent::Data(vec![b'h', b'i']));
    run.on_event(&CommandEvent::ExitStatus(0));
    // More output may arrive after the exit status.
    run.on_event(&CommandEvent::Data(vec![b'!']));
    run.on_event(&CommandEvent::Other);
    let (out, code) = run.finish().unwrap();
    assert_eq!(out, vec![b'h', b'i', b'!']);
    assert_eq!(code, 0);
}

#[test]
fn command_without_exit_status_fails() {
    let mut run = CommandRun::new();
    run.on_event(&CommandEvent::Data(vec![1, 2, 3]));
    assert_eq!(run.finish(), Err(TunnelError::Command));
}
