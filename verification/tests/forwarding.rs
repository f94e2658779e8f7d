use sshtunnel::job::{stop_forward, ForwardJob};
use sshtunnel::session::{SessionManager, SessionPhase};
use sshtunnel::shuttle::{ShuttleAction, ShuttleEnd, ShuttleEvent, ShuttlePhase};

#[test]
fn forward_hundred_bytes_reported() {
    // One client connects to the bound listener and sends 100 bytes: the
    // bytes go out on the forwarded channel in one chunk, and the next
    // stats tick reports at least 100 bytes sent.
    let mut job = ForwardJob::new();
    let (id, count) = job.accept_connection();
    assert_eq!(id, 0);
    assert_eq!(count, 1);

    let outcome = job.shuttle_step(id, ShuttleEvent::SocketData { n: 100 });
    assert_eq!(outcome.action, ShuttleAction::SendToChannel { n: 100 });
    assert_eq!(outcome.ended, None);

    let snap = job.aggregator_tick();
    assert!(snap.sent >= 100);
    assert_eq!(snap.sent, 100);
    assert_eq!(snap.recv, 0);
}

#[test]
fn two_shuttles_summed_and_reset() {
    // Two simultaneous forwarded connections each send 50 bytes: the next
    // snapshot reports 100 bytes combined, and both counters are reset.
    let mut job = ForwardJob::new();
    let (a, count_a) = job.accept_connection();
    let (b, count_b) = job.accept_connection();
    assert_eq!(count_a, 1);
    assert_eq!(count_b, 2);

    job.shuttle_step(a, ShuttleEvent::SocketData { n: 50 });
    job.shuttle_step(b, ShuttleEvent::SocketData { n: 50 });

    let snap = job.aggregator_tick();
    assert_eq!(snap.sent, 100);
    assert_eq!(job.counters[a].sent, 0);
    assert_eq!(job.counters[b].sent, 0);

    // Nothing moved since the reset, so the totals stay where they are.
    let snap = job.aggregator_tick();
    assert_eq!(snap.sent, 100);
}

#[test]
fn received_bytes_counted_too() {
    let mut job = ForwardJob::new();
    let (id, _) = job.accept_connection();
    let outcome = job.shuttle_step(id, ShuttleEvent::ChannelData { n: 42 });
    assert_eq!(outcome.action, ShuttleAction::WriteToSocket { n: 42 });
    let snap = job.aggregator_tick();
    assert_eq!(snap.recv, 42);
    assert_eq!(snap.sent, 0);
}

#[test]
fn connection_count_balanced() {
    // Every published increment is matched by exactly one decrement, even
    // when a shuttle terminates via an error.
    let mut job = ForwardJob::new();
    let (a, up_a) = job.accept_connection();
    let (b, up_b) = job.accept_connection();
    assert_eq!((up_a, up_b), (1, 2));

    let out_a = job.shuttle_step(a, ShuttleEvent::IoError);
    assert_eq!(out_a.ended, Some(1));
    let out_b = job.shuttle_step(b, ShuttleEvent::ChannelEof);
    assert_eq!(out_b.ended, Some(0));
    assert_eq!(job.live, 0);
}

#[test]
fn cancel_winds_everything_down() {
    let mut job = ForwardJob::new();
    let (id, _) = job.accept_connection();

    job.cancel_job();
    assert!(job.cancel.fired);
    // Cancelling again has no further effect.
    job.cancel_job();
    assert!(job.cancel.fired);

    // The listener observes the signal and stops accepting.
    job.listener_observe_cancel();
    assert!(!job.accepting);

    // The live shuttle observes the signal and terminates at once,
    // publishing its decrement.
    let outcome = job.shuttle_step(id, ShuttleEvent::Cancelled);
    assert_eq!(outcome.action, ShuttleAction::Nothing);
    assert_eq!(outcome.ended, Some(0));
    assert_eq!(job.shuttles[id].phase, ShuttlePhase::Done(ShuttleEnd::Cancelled));

    // The aggregator observes the signal and emits no further snapshot.
    job.aggregator_observe_cancel();
    assert!(!job.aggregating);
    assert_eq!(job.live, 0);
}

#[test]
fn stop_fires_cancel_and_closes_session() {
    let mut manager = SessionManager::new();
    manager.record_established();
    let mut job = ForwardJob::new();

    let was_live = stop_forward(&mut job, &mut manager);
    assert!(was_live);
    assert!(job.cancel.fired);
    assert_eq!(manager.phase, SessionPhase::Disconnected);

    // A fresh job for the next forward starts with an unfired signal.
    let next = ForwardJob::new();
    assert!(!next.cancel.fired);
}

#[test]
fn accept_error_leaves_listener_running() {
    // A failed accept is local to that attempt: the listener keeps going
    // and later connections are served.
    let mut job = ForwardJob::new();
    assert!(job.accepting);
    let (id, count) = job.accept_connection();
    assert_eq!((id, count), (0, 1));
    assert!(job.accepting);
}

#[test]
fn shuttle_failure_is_local_to_one_connection() {
    let mut job = ForwardJob::new();
    let (a, _) = job.accept_connection();
    let (b, _) = job.accept_connection();

    job.shuttle_step(a, ShuttleEvent::UnexpectedChannelEvent);
    // The sibling shuttle and the listener are untouched.
    assert_eq!(job.shuttles[b].phase, ShuttlePhase::Open);
    assert!(job.accepting);
    let outcome = job.shuttle_step(b, ShuttleEvent::SocketData { n: 10 });
    assert_eq!(outcome.action, ShuttleAction::SendToChannel { n: 10 });
}

#[test]
fn totals_accumulate_across_ticks() {
    let mut job = ForwardJob::new();
    let (id, _) = job.accept_connection();
    job.shuttle_step(id, ShuttleEvent::SocketData { n: 30 });
    let snap = job.aggregator_tick();
    assert_eq!(snap.sent, 30);
    job.shuttle_step(id, ShuttleEvent::SocketData { n: 12 });
    let snap = job.aggregator_tick();
    assert_eq!(snap.sent, 42);
}
