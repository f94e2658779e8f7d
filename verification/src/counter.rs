use vstd::prelude::*;

verus! {

/// The sum `a + b` clamped to the range of `u64`.
pub open spec fn clamp64(x: int) -> u64 {
    if x <= u64::MAX {
        x as u64
    } else {
        u64::MAX
    }
}

/// A pair of byte accumulators for one forwarded connection: bytes sent
/// towards the remote target and bytes received from it.
///
/// Exactly one shuttle writes to a counter, and the aggregator periodically
/// reads and resets it; each of those accesses is a single call here, so no
/// reader ever observes a partially reset counter.
pub struct TrafficCounter {
    pub sent: u64,
    pub recv: u64,
}

impl TrafficCounter {
    /// A fresh counter with both directions at zero.
    pub fn new() -> (c: TrafficCounter)
        ensures
            c.sent == 0,
            c.recv == 0,
    {
        TrafficCounter { sent: 0, recv: 0 }
    }

    /// Record `n` more bytes moved towards the remote target.
    /// The count sticks at `u64::MAX` rather than wrap.
    pub fn add_sent(&mut self, n: u64)
        ensures
            final(self).sent == clamp64(old(self).sent + n),
            final(self).recv == old(self).recv,
    {
        if n <= u64::MAX - self.sent {
            self.sent = self.sent + n;
        } else {
            self.sent = u64::MAX;
        }
    }

    /// Record `n` more bytes received from the remote target.
    /// The count sticks at `u64::MAX` rather than wrap.
    pub fn add_recv(&mut self, n: u64)
        ensures
            final(self).recv == clamp64(old(self).recv + n),
            final(self).sent == old(self).sent,
    {
        if n <= u64::MAX - self.recv {
            self.recv = self.recv + n;
        } else {
            self.recv = u64::MAX;
        }
    }

    /// Atomically take both counts, leaving the counter at zero, so that no
    /// byte is ever counted in two aggregation intervals.
    pub fn read_and_reset(&mut self) -> (r: (u64, u64))
        ensures
            r.0 == old(self).sent,
            r.1 == old(self).recv,
            final(self).sent == 0,
            final(self).recv == 0,
    {
        let r = (self.sent, self.recv);
        self.sent = 0;
        self.recv = 0;
        r
    }
}

} // verus!
