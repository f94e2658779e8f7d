use vstd::prelude::*;

use crate::counter::{clamp64, TrafficCounter};

verus! {

/// One snapshot pushed to the notification sink: the job-wide totals.
#[derive(Clone, Copy, Debug, PartialEq, Eq, Structural)]
pub struct StatsSnapshot {
    pub sent: u64,
    pub recv: u64,
}

/// The mathematical sum of the sent side over a registry of counters.
pub open spec fn sum_sent(s: Seq<TrafficCounter>) -> int
    decreases s.len(),
{
    if s.len() == 0 {
        0
    } else {
        sum_sent(s.drop_last()) + s.last().sent
    }
}

/// The mathematical sum of the received side over a registry of counters.
pub open spec fn sum_recv(s: Seq<TrafficCounter>) -> int
    decreases s.len(),
{
    if s.len() == 0 {
        0
    } else {
        sum_recv(s.drop_last()) + s.last().recv
    }
}

/// Both sums are sums of unsigned values.
pub proof fn lemma_sums_nonneg(s: Seq<TrafficCounter>)
    ensures
        sum_sent(s) >= 0,
        sum_recv(s) >= 0,
    decreases s.len(),
{
    if s.len() > 0 {
        lemma_sums_nonneg(s.drop_last());
    }
}

/// Extending the registry by one counter adds that counter to both sums.
pub proof fn lemma_sum_push(s: Seq<TrafficCounter>, c: TrafficCounter)
    ensures
        sum_sent(s.push(c)) == sum_sent(s) + c.sent,
        sum_recv(s.push(c)) == sum_recv(s) + c.recv,
{
    assert(s.push(c).drop_last() == s);
}

/// Replacing the counter at `i` changes each sum by the difference at `i`.
pub proof fn lemma_sum_update(s: Seq<TrafficCounter>, i: int, c: TrafficCounter)
    requires
        0 <= i < s.len(),
    ensures
        sum_sent(s.update(i, c)) == sum_sent(s) - s[i].sent + c.sent,
        sum_recv(s.update(i, c)) == sum_recv(s) - s[i].recv + c.recv,
    decreases s.len(),
{
    let t = s.update(i, c);
    if i == s.len() - 1 {
        assert(t.drop_last() == s.drop_last());
    } else {
        assert(t.drop_last() == s.drop_last().update(i, c));
        lemma_sum_update(s.drop_last(), i, c);
    }
}

/// A prefix one longer adds the element at the boundary to both sums.
pub proof fn lemma_sum_take_step(s: Seq<TrafficCounter>, i: int)
    requires
        0 <= i < s.len(),
    ensures
        sum_sent(s.take(i + 1)) == sum_sent(s.take(i)) + s[i].sent,
        sum_recv(s.take(i + 1)) == sum_recv(s.take(i)) + s[i].recv,
{
    assert(s.take(i + 1).drop_last() == s.take(i));
    assert(s.take(i + 1).last() == s[i]);
}

/// No single counter exceeds the sum over its registry.
pub proof fn lemma_sum_element_bound(s: Seq<TrafficCounter>, i: int)
    requires
        0 <= i < s.len(),
    ensures
        s[i].sent <= sum_sent(s),
        s[i].recv <= sum_recv(s),
    decreases s.len(),
{
    if i == s.len() - 1 {
        lemma_sums_nonneg(s.drop_last());
    } else {
        lemma_sum_element_bound(s.drop_last(), i);
    }
}

/// A registry of zeroed counters sums to zero in both directions.
pub proof fn lemma_sum_all_zero(s: Seq<TrafficCounter>)
    requires
        forall|i: int| 0 <= i < s.len() ==> s[i].sent == 0 && s[i].recv == 0,
    ensures
        sum_sent(s) == 0,
        sum_recv(s) == 0,
    decreases s.len(),
{
    if s.len() > 0 {
        lemma_sum_all_zero(s.drop_last());
    }
}

/// Read and reset every counter in the registry and sum what was read:
/// one aggregation pass. Each counter is taken atomically, so no byte is
/// counted twice; the pass returns exactly the registry's sums, clamped to
/// `u64`, and leaves every counter at zero.
pub fn drain_counters(counters: &mut Vec<TrafficCounter>) -> (r: StatsSnapshot)
    ensures
        final(counters)@.len() == old(counters)@.len(),
        forall|i: int|
            0 <= i < final(counters)@.len() ==> final(counters)@[i].sent == 0
                && final(counters)@[i].recv == 0,
        r.sent == clamp64(sum_sent(old(counters)@)),
        r.recv == clamp64(sum_recv(old(counters)@)),
{
    let ghost orig = counters@;
    let mut total_sent: u64 = 0;
    let mut total_recv: u64 = 0;
    let n = counters.len();
    let mut i: usize = 0;
    while i < n
        invariant
            i <= n,
            n == counters@.len(),
            counters@.len() == orig.len(),
            forall|j: int| 0 <= j < i ==> counters@[j].sent == 0 && counters@[j].recv == 0,
            forall|j: int| i <= j < n ==> counters@[j] == orig[j],
            total_sent == clamp64(sum_sent(orig.take(i as int))),
            total_recv == clamp64(sum_recv(orig.take(i as int))),
        decreases n - i,
    {
        proof {
            lemma_sum_take_step(orig, i as int);
            lemma_sums_nonneg(orig.take(i as int));
        }
        let c = &mut counters[i];
        let (s, v) = c.read_and_reset();
        if s <= u64::MAX - total_sent {
            total_sent = total_sent + s;
        } else {
            total_sent = u64::MAX;
        }
        if v <= u64::MAX - total_recv {
            total_recv = total_recv + v;
        } else {
            total_recv = u64::MAX;
        }
        i = i + 1;
    }
    proof {
        assert(orig.take(n as int) == orig);
    }
    StatsSnapshot { sent: total_sent, recv: total_recv }
}

} // verus!
