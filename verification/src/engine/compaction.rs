//! The record of compactions, with a circuit breaker for repeated failures.

use vstd::prelude::*;

verus! {

/// How compactions have gone.
#[derive(Debug, Clone, Copy, PartialEq, Eq)]
pub struct CompactionTracker {
    pub consecutive_failures: u32,
    pub total_compactions: u64,
    /// Tokens before and after the last compaction.
    pub last_token_reduction: Option<(u64, u64)>,
}

impl CompactionTracker {
    /// Whether another automatic compaction may be tried.
    pub open spec fn allows(self, max_consecutive_failures: u32) -> bool {
        self.consecutive_failures < max_consecutive_failures
    }

    /// The record after one more failure.
    pub open spec fn failed(self) -> CompactionTracker {
        CompactionTracker {
            consecutive_failures: (self.consecutive_failures + 1) as u32,
            ..self
        }
    }

    /// The record after a success.
    pub open spec fn succeeded(self, before: u64, after: u64) -> CompactionTracker {
        CompactionTracker {
            consecutive_failures: 0,
            total_compactions: (self.total_compactions + 1) as u64,
            last_token_reduction: Some((before, after)),
        }
    }

    pub fn new() -> (r: Self)
        ensures
            r == (CompactionTracker {
                consecutive_failures: 0,
                total_compactions: 0,
                last_token_reduction: None,
            }),
    {
        CompactionTracker { consecutive_failures: 0, total_compactions: 0, last_token_reduction: None }
    }

    /// Whether another automatic compaction may be tried.
    pub fn can_auto_compact(&self, max_consecutive_failures: u32) -> (r: bool)
        ensures
            r == self.allows(max_consecutive_failures),
    {
        self.consecutive_failures < max_consecutive_failures
    }

    pub fn record_success(&mut self, before: u64, after: u64)
        requires
            old(self).total_compactions < u64::MAX,
        ensures
            *final(self) == old(self).succeeded(before, after),
    {
        self.total_compactions = self.total_compactions + 1;
        self.consecutive_failures = 0;
        self.last_token_reduction = Some((before, after));
    }

    pub fn record_failure(&mut self)
        requires
            old(self).consecutive_failures < u32::MAX,
        ensures
            *final(self) == old(self).failed(),
    {
        self.consecutive_failures = self.consecutive_failures + 1;
    }
}

impl Default for CompactionTracker {
    fn default() -> (r: Self)
        ensures
            r == (CompactionTracker {
                consecutive_failures: 0,
                total_compactions: 0,
                last_token_reduction: None,
            }),
    {
        CompactionTracker::new()
    }
}

/// The record after a number of failures in a row.
pub open spec fn failures(t: CompactionTracker, n: nat) -> CompactionTracker
    decreases n,
{
    if n == 0 {
        t
    } else {
        failures(t, (n - 1) as nat).failed()
    }
}

/// After as many failures in a row as are allowed no compaction is tried, with one
/// less it still is, and a success lets them be tried again.
pub proof fn law_circuit_breaker(t: CompactionTracker, max: u32, before: u64, after: u64)
    requires
        t.consecutive_failures == 0,
        max > 0,
    ensures
        !failures(t, max as nat).allows(max),
        failures(t, (max - 1) as nat).allows(max),
        failures(t, max as nat).succeeded(before, after).allows(max),
{
    lemma_failures(t, max as nat);
    lemma_failures(t, (max - 1) as nat);
}

proof fn lemma_failures(t: CompactionTracker, n: nat)
    requires
        t.consecutive_failures == 0,
        n <= u32::MAX,
    ensures
        failures(t, n).consecutive_failures == n,
    decreases n,
{
    if n > 0 {
        lemma_failures(t, (n - 1) as nat);
    }
}

/// A failure counts as one more in a row and leaves the rest; a success ends the row, counts
/// as one more and notes both sizes.
pub proof fn law_compactions_are_counted(t: CompactionTracker, before: u64, after: u64)
    ensures
        t.consecutive_failures < u32::MAX ==> t.failed().consecutive_failures
            == t.consecutive_failures + 1,
        t.failed().total_compactions == t.total_compactions,
        t.failed().last_token_reduction == t.last_token_reduction,
        t.succeeded(before, after).consecutive_failures == 0,
        t.total_compactions < u64::MAX ==> t.succeeded(before, after).total_compactions
            == t.total_compactions + 1,
        t.succeeded(before, after).last_token_reduction == Some((before, after)),
{
}

} // verus!
