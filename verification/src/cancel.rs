use vstd::prelude::*;

verus! {

/// The broadcast stop signal shared by the listener, every live shuttle and
/// the aggregator of one forward job.
///
/// Once fired it stays fired: nothing un-fires a flag, a later job starts
/// with a freshly created one instead.
pub struct CancelFlag {
    pub fired: bool,
}

impl CancelFlag {
    /// A fresh, unfired signal for a new forward job.
    pub fn new() -> (c: CancelFlag)
        ensures
            !c.fired,
    {
        CancelFlag { fired: false }
    }

    /// Fire the signal. Idempotent: a second call leaves the flag exactly
    /// as the first left it.
    pub fn cancel(&mut self)
        ensures
            *final(self) == (CancelFlag { fired: true }),
    {
        self.fired = true;
    }

    /// Whether the signal has fired.
    pub fn is_cancelled(&self) -> (r: bool)
        ensures
            r == self.fired,
    {
        self.fired
    }
}

} // verus!
