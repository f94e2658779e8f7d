use vstd::prelude::*;

use crate::cancel::CancelFlag;
use crate::counter::{clamp64, TrafficCounter};
use crate::session::SessionManager;
use crate::shuttle::{ShuttleAction, ShuttleEvent, ShuttlePhase, ShuttleState};
use crate::stats::{
    lemma_sum_all_zero, lemma_sum_element_bound, lemma_sum_push, lemma_sum_update,
    lemma_sums_nonneg, drain_counters, sum_recv, sum_sent, StatsSnapshot,
};

verus! {

/// How many shuttles in `s` are still open.
pub open spec fn count_open(s: Seq<ShuttleState>) -> int
    decreases s.len(),
{
    if s.len() == 0 {
        0
    } else {
        count_open(s.drop_last()) + if s.last().phase is Open {
            1int
        } else {
            0int
        }
    }
}

/// The open count lies between zero and the number of shuttles.
pub proof fn lemma_count_open_bounds(s: Seq<ShuttleState>)
    ensures
        0 <= count_open(s) <= s.len(),
    decreases s.len(),
{
    if s.len() > 0 {
        lemma_count_open_bounds(s.drop_last());
    }
}

/// Appending an open shuttle raises the open count by one.
pub proof fn lemma_count_open_push(s: Seq<ShuttleState>, x: ShuttleState)
    ensures
        count_open(s.push(x)) == count_open(s) + if x.phase is Open {
            1int
        } else {
            0int
        },
{
    assert(s.push(x).drop_last() == s);
}

/// Replacing the shuttle at `i` changes the open count by the difference
/// in openness at `i`.
pub proof fn lemma_count_open_update(s: Seq<ShuttleState>, i: int, x: ShuttleState)
    requires
        0 <= i < s.len(),
    ensures
        count_open(s.update(i, x)) == count_open(s) - (if s[i].phase is Open {
            1int
        } else {
            0int
        }) + (if x.phase is Open {
            1int
        } else {
            0int
        }),
    decreases s.len(),
{
    let t = s.update(i, x);
    if i == s.len() - 1 {
        assert(t.drop_last() == s.drop_last());
    } else {
        assert(t.drop_last() == s.drop_last().update(i, x));
        lemma_count_open_update(s.drop_last(), i, x);
    }
}

/// An open shuttle witnesses a positive open count.
pub proof fn lemma_count_open_pos(s: Seq<ShuttleState>, i: int)
    requires
        0 <= i < s.len(),
        s[i].phase is Open,
    ensures
        count_open(s) >= 1,
    decreases s.len(),
{
    if i == s.len() - 1 {
        lemma_count_open_bounds(s.drop_last());
    } else {
        lemma_count_open_pos(s.drop_last(), i);
        lemma_count_open_bounds(s);
    }
}

/// When every shuttle has terminated the open count is zero.
pub proof fn lemma_count_open_all_done(s: Seq<ShuttleState>)
    requires
        forall|i: int| 0 <= i < s.len() ==> s[i].phase is Done,
    ensures
        count_open(s) == 0,
    decreases s.len(),
{
    if s.len() > 0 {
        lemma_count_open_all_done(s.drop_last());
    }
}

/// What `ForwardJob::shuttle_step` hands back to the runner.
pub struct StepOutcome {
    /// The I/O to perform for this shuttle, if any.
    pub action: ShuttleAction,
    /// When the step terminated the shuttle: the decremented live
    /// connection count, to publish to the notification sink.
    pub ended: Option<usize>,
}

/// One forwarding run: the registry of shuttles and their traffic
/// counters, the live connection count, the listener's and aggregator's
/// liveness, the job's cancellation signal, and the job-wide totals the
/// aggregator has reported so far.
///
/// The ghost fields record history: how many bytes the shuttles have
/// actually moved in each direction, and how many connection-count
/// increments and decrements have been published. The invariant `wf` ties
/// them to the visible state: the live count always equals the number of
/// open shuttles, the notification imbalance always equals the live count,
/// and the reported totals plus what still sits in the counters account
/// for every byte moved (exactly, as long as the true totals fit in
/// `u64`).
pub struct ForwardJob {
    pub shuttles: Vec<ShuttleState>,
    pub counters: Vec<TrafficCounter>,
    pub live: usize,
    pub accepting: bool,
    pub aggregating: bool,
    pub cancel: CancelFlag,
    pub total_sent: u64,
    pub total_recv: u64,
    pub moved_sent: Ghost<int>,
    pub moved_recv: Ghost<int>,
    pub incs: Ghost<nat>,
    pub decs: Ghost<nat>,
}

impl ForwardJob {
    /// The job's invariant, established at creation and preserved by every
    /// operation.
    pub open spec fn wf(self) -> bool {
        &&& self.counters@.len() == self.shuttles@.len()
        &&& self.live == count_open(self.shuttles@)
        &&& self.incs@ == self.decs@ + count_open(self.shuttles@)
        &&& self.moved_sent@ >= self.total_sent + sum_sent(self.counters@)
        &&& (self.moved_sent@ <= u64::MAX ==> self.moved_sent@ == self.total_sent + sum_sent(
            self.counters@,
        ))
        &&& self.moved_recv@ >= self.total_recv + sum_recv(self.counters@)
        &&& (self.moved_recv@ <= u64::MAX ==> self.moved_recv@ == self.total_recv + sum_recv(
            self.counters@,
        ))
    }

    /// A fresh forwarding run: no shuttles, nothing reported, the listener
    /// and the aggregator live, and a freshly created, unfired
    /// cancellation signal.
    pub fn new() -> (j: ForwardJob)
        ensures
            j.wf(),
            j.shuttles@.len() == 0,
            j.counters@.len() == 0,
            j.live == 0,
            j.accepting,
            j.aggregating,
            !j.cancel.fired,
            j.total_sent == 0,
            j.total_recv == 0,
            j.moved_sent@ == 0,
            j.moved_recv@ == 0,
            j.incs@ == 0,
            j.decs@ == 0,
    {
        ForwardJob {
            shuttles: Vec::new(),
            counters: Vec::new(),
            live: 0,
            accepting: true,
            aggregating: true,
            cancel: CancelFlag::new(),
            total_sent: 0,
            total_recv: 0,
            moved_sent: Ghost(0),
            moved_recv: Ghost(0),
            incs: Ghost(0),
            decs: Ghost(0),
        }
    }

    /// A new inbound connection was accepted while the listener was live:
    /// register an open shuttle with a zeroed counter pair and raise the
    /// live count. Returns the new shuttle's id and the incremented count,
    /// which the runner publishes to the notification sink.
    pub fn accept_connection(&mut self) -> (r: (usize, usize))
        requires
            old(self).wf(),
            old(self).accepting,
        ensures
            final(self).wf(),
            r.0 == old(self).shuttles@.len(),
            final(self).shuttles@ == old(self).shuttles@.push(ShuttleState::initial_spec()),
            final(self).counters@ == old(self).counters@.push(TrafficCounter { sent: 0, recv: 0 }),
            final(self).live == old(self).live + 1,
            r.1 == final(self).live,
            final(self).incs@ == old(self).incs@ + 1,
            final(self).decs@ == old(self).decs@,
            final(self).accepting == old(self).accepting,
            final(self).aggregating == old(self).aggregating,
            final(self).cancel == old(self).cancel,
            final(self).total_sent == old(self).total_sent,
            final(self).total_recv == old(self).total_recv,
            final(self).moved_sent == old(self).moved_sent,
            final(self).moved_recv == old(self).moved_recv,
    {
        let id = self.shuttles.len();
        self.shuttles.push(ShuttleState::initial());
        self.counters.push(TrafficCounter::new());
        proof {
            lemma_count_open_push(old(self).shuttles@, ShuttleState::initial_spec());
            lemma_count_open_bounds(old(self).shuttles@);
            lemma_sum_push(old(self).counters@, TrafficCounter { sent: 0, recv: 0 });
        }
        let new_len = self.shuttles.len();
        self.live = self.live + 1;
        proof {
            self.incs = Ghost(self.incs@ + 1);
        }
        (id, self.live)
    }

    /// Drive the shuttle `id` by one event: its state machine advances,
    /// the bytes the event moved are added to its counter pair, and, when
    /// the step terminated it, the live count falls by one and the
    /// decremented count comes back for the notification sink. The
    /// decrement is emitted exactly once per shuttle, whatever the exit
    /// path, because a terminated shuttle admits no further event.
    pub fn shuttle_step(&mut self, id: usize, event: ShuttleEvent) -> (r: StepOutcome)
        requires
            old(self).wf(),
            id < old(self).shuttles@.len(),
            ShuttleState::event_allowed(old(self).shuttles@[id as int], event),
        ensures
            final(self).wf(),
            final(self).shuttles@ == old(self).shuttles@.update(
                id as int,
                ShuttleState::step_spec(old(self).shuttles@[id as int], event).0,
            ),
            r.action == ShuttleState::step_spec(old(self).shuttles@[id as int], event).1,
            final(self).counters@.len() == old(self).counters@.len(),
            final(self).counters@[id as int].sent == clamp64(
                old(self).counters@[id as int].sent + ShuttleState::sent_delta(event),
            ),
            final(self).counters@[id as int].recv == clamp64(
                old(self).counters@[id as int].recv + ShuttleState::recv_delta(event),
            ),
            forall|j: int|
                0 <= j < old(self).counters@.len() && j != id ==> final(self).counters@[j]
                    == old(self).counters@[j],
            final(self).moved_sent@ == old(self).moved_sent@ + ShuttleState::sent_delta(event),
            final(self).moved_recv@ == old(self).moved_recv@ + ShuttleState::recv_delta(event),
            (if ShuttleState::step_spec(old(self).shuttles@[id as int], event).0.phase is Done {
                &&& final(self).live == old(self).live - 1
                &&& r.ended == Some(final(self).live)
                &&& final(self).decs@ == old(self).decs@ + 1
            } else {
                &&& final(self).live == old(self).live
                &&& r.ended == None::<usize>
                &&& final(self).decs@ == old(self).decs@
            }),
            final(self).incs@ == old(self).incs@,
            final(self).total_sent == old(self).total_sent,
            final(self).total_recv == old(self).total_recv,
            final(self).cancel == old(self).cancel,
            final(self).accepting == old(self).accepting,
            final(self).aggregating == old(self).aggregating,
    {
        let mut s = self.shuttles[id];
        let action = s.step(event);
        self.shuttles.set(id, s);
        match event {
            ShuttleEvent::SocketData { n } => {
                let c = &mut self.counters[id];
                c.add_sent(n);
            },
            ShuttleEvent::ChannelData { n } => {
                let c = &mut self.counters[id];
                c.add_recv(n);
            },
            _ => {},
        }
        proof {
            self.moved_sent = Ghost(self.moved_sent@ + ShuttleState::sent_delta(event));
            self.moved_recv = Ghost(self.moved_recv@ + ShuttleState::recv_delta(event));
            assert(self.counters@ == old(self).counters@.update(
                id as int,
                self.counters@[id as int],
            ));
            lemma_sum_update(old(self).counters@, id as int, self.counters@[id as int]);
            lemma_sum_element_bound(old(self).counters@, id as int);
            lemma_sums_nonneg(old(self).counters@);
            lemma_count_open_update(old(self).shuttles@, id as int, s);
            lemma_count_open_pos(old(self).shuttles@, id as int);
        }
        let done = matches!(s.phase, ShuttlePhase::Done(_));
        if done {
            self.live = self.live - 1;
            proof {
                self.decs = Ghost(self.decs@ + 1);
            }
            StepOutcome { action, ended: Some(self.live) }
        } else {
            StepOutcome { action, ended: None }
        }
    }

    /// One aggregator tick while the aggregator is live: atomically read
    /// and reset every registered counter, fold the sums into the job-wide
    /// totals, and hand back the snapshot to push to the notification
    /// sink. After the pass every counter is zero, and the totals account
    /// exactly for every byte moved so far whenever those totals fit in
    /// `u64`.
    pub fn aggregator_tick(&mut self) -> (snap: StatsSnapshot)
        requires
            old(self).wf(),
            old(self).aggregating,
        ensures
            final(self).wf(),
            final(self).counters@.len() == old(self).counters@.len(),
            forall|i: int|
                0 <= i < final(self).counters@.len() ==> final(self).counters@[i].sent == 0
                    && final(self).counters@[i].recv == 0,
            final(self).total_sent == clamp64(old(self).total_sent + sum_sent(old(self).counters@)),
            final(self).total_recv == clamp64(old(self).total_recv + sum_recv(old(self).counters@)),
            snap == (StatsSnapshot { sent: final(self).total_sent, recv: final(self).total_recv }),
            final(self).moved_sent@ <= u64::MAX ==> final(self).total_sent
                == final(self).moved_sent@,
            final(self).moved_recv@ <= u64::MAX ==> final(self).total_recv
                == final(self).moved_recv@,
            final(self).shuttles == old(self).shuttles,
            final(self).live == old(self).live,
            final(self).incs == old(self).incs,
            final(self).decs == old(self).decs,
            final(self).cancel == old(self).cancel,
            final(self).accepting == old(self).accepting,
            final(self).aggregating == old(self).aggregating,
            final(self).moved_sent == old(self).moved_sent,
            final(self).moved_recv == old(self).moved_recv,
    {
        proof {
            lemma_sums_nonneg(self.counters@);
        }
        let drained = drain_counters(&mut self.counters);
        if drained.sent <= u64::MAX - self.total_sent {
            self.total_sent = self.total_sent + drained.sent;
        } else {
            self.total_sent = u64::MAX;
        }
        if drained.recv <= u64::MAX - self.total_recv {
            self.total_recv = self.total_recv + drained.recv;
        } else {
            self.total_recv = u64::MAX;
        }
        proof {
            lemma_sum_all_zero(self.counters@);
        }
        StatsSnapshot { sent: self.total_sent, recv: self.total_recv }
    }

    /// Fire the job's cancellation signal. Idempotent: the signal only
    /// ever moves to fired, and a second call changes nothing at all.
    pub fn cancel_job(&mut self)
        ensures
            *final(self) == (ForwardJob { cancel: CancelFlag { fired: true }, ..*old(self) }),
    {
        self.cancel.cancel();
    }

    /// The listener observed the fired signal at its multi-way wait: it
    /// leaves its accept loop and accepts no further connection. Shuttles
    /// already spawned are not torn down here; each observes cancellation
    /// independently.
    pub fn listener_observe_cancel(&mut self)
        requires
            old(self).cancel.fired,
        ensures
            *final(self) == (ForwardJob { accepting: false, ..*old(self) }),
    {
        self.accepting = false;
    }

    /// The aggregator observed the fired signal at its multi-way wait: it
    /// exits and emits no further snapshot.
    pub fn aggregator_observe_cancel(&mut self)
        requires
            old(self).cancel.fired,
        ensures
            *final(self) == (ForwardJob { aggregating: false, ..*old(self) }),
    {
        self.aggregating = false;
    }
}

/// Stop a forwarding run: fire the job's cancellation signal, so that the
/// listener, every live shuttle and the aggregator unblock and wind down,
/// then empty the session slot. Returns whether a transport was live, in
/// which case the runner must now gracefully disconnect it. A later
/// forward job starts from `ForwardJob::new`, whose signal is fresh and
/// unfired.
pub fn stop_forward(job: &mut ForwardJob, manager: &mut SessionManager) -> (was_live: bool)
    ensures
        *final(job) == (ForwardJob { cancel: CancelFlag { fired: true }, ..*old(job) }),
        final(manager).phase is Disconnected,
        was_live == (old(manager).phase is Connected),
{
    job.cancel_job();
    manager.disconnect()
}

/// Connection-count notifications are balanced: in every well-formed job
/// whose shuttles have all terminated — however each of them exited —
/// exactly one decrement has been published for every increment.
pub proof fn lemma_notifications_balanced(job: ForwardJob)
    requires
        job.wf(),
        forall|i: int| 0 <= i < job.shuttles@.len() ==> job.shuttles@[i].phase is Done,
    ensures
        job.incs@ == job.decs@,
{
    lemma_count_open_all_done(job.shuttles@);
}

/// At every instant the notification imbalance equals the live connection
/// count: increments lead decrements by exactly the number of open
/// shuttles.
pub proof fn lemma_notification_imbalance_is_live(job: ForwardJob)
    requires
        job.wf(),
    ensures
        job.incs@ == job.decs@ + job.live,
{
}

/// Throughput accounting: as long as the true totals fit in `u64`, the
/// totals the aggregator has reported plus what still sits in the
/// counters — at most one interval's drift — equal the bytes the shuttles
/// actually moved, with no loss and no double count.
pub proof fn lemma_throughput_accounting(job: ForwardJob)
    requires
        job.wf(),
        job.moved_sent@ <= u64::MAX,
        job.moved_recv@ <= u64::MAX,
    ensures
        job.total_sent + sum_sent(job.counters@) == job.moved_sent@,
        job.total_recv + sum_recv(job.counters@) == job.moved_recv@,
{
}

/// Right after an aggregation pass, when every counter is zero, the
/// reported totals equal the bytes moved exactly: the drift is gone.
pub proof fn lemma_accounting_after_drain(job: ForwardJob)
    requires
        job.wf(),
        job.moved_sent@ <= u64::MAX,
        job.moved_recv@ <= u64::MAX,
        forall|i: int|
            0 <= i < job.counters@.len() ==> job.counters@[i].sent == 0 && job.counters@[i].recv
                == 0,
    ensures
        job.total_sent == job.moved_sent@,
        job.total_recv == job.moved_recv@,
{
    lemma_sum_all_zero(job.counters@);
}

} // verus!
