//! The reporting cycle of the echo remover's quality metrics: values are
//! collected for most of a ten-second interval, and the last blocks of the
//! interval compute and report them.

use vstd::prelude::*;
use crate::transparent_mode::NUM_BLOCKS_PER_SECOND;

verus! {

/// Length of one reporting interval in blocks (ten seconds).
pub const METRICS_REPORTING_INTERVAL_BLOCKS: usize = 10 * NUM_BLOCKS_PER_SECOND;

/// Blocks at the end of an interval spent computing the report.
pub const METRICS_COMPUTATION_BLOCKS: usize = 3;

/// Blocks at the start of an interval that collect values.
pub const METRICS_COLLECTION_BLOCKS: usize = METRICS_REPORTING_INTERVAL_BLOCKS
    - METRICS_COMPUTATION_BLOCKS;

/// What one block does for the metrics.
#[derive(Debug, Clone, Copy, PartialEq, Eq, Structural)]
pub struct MetricsStep {
    /// The block's values are folded into the collected metrics.
    pub collect: bool,
    /// The interval's report was completed; the metrics start over.
    pub reported: bool,
}

/// Position in the reporting interval.
#[derive(Debug, Clone, Copy, PartialEq, Eq, Structural)]
pub struct MetricsSchedule {
    block_counter: usize,
}

impl MetricsSchedule {
    /// Blocks seen in the current interval.
    pub closed spec fn spec_block_counter(self) -> int {
        self.block_counter as int
    }

    /// The counter stays inside one interval.
    #[verifier::type_invariant]
    spec fn within_interval(self) -> bool {
        self.block_counter < METRICS_REPORTING_INTERVAL_BLOCKS
    }

    /// A schedule at the start of an interval.
    pub fn new() -> (r: MetricsSchedule)
        ensures
            r.spec_block_counter() == 0,
            r.spec_block_counter() == metrics_counter_after(0),
    {
        MetricsSchedule { block_counter: 0 }
    }

    /// Advances by one block. The first 2497 blocks of an interval collect;
    /// the 2500th completes the report and starts a new interval.
    pub fn advance(&mut self) -> (r: MetricsStep)
        ensures
            0 <= final(self).spec_block_counter() < METRICS_REPORTING_INTERVAL_BLOCKS,
            r.collect == (old(self).spec_block_counter() + 1 <= METRICS_COLLECTION_BLOCKS),
            r.reported == (old(self).spec_block_counter() + 1 == METRICS_REPORTING_INTERVAL_BLOCKS),
            final(self).spec_block_counter() == if r.reported {
                0
            } else {
                old(self).spec_block_counter() + 1
            },
            forall|n: nat|
                old(self).spec_block_counter() == #[trigger] metrics_counter_after(n)
                    ==> final(self).spec_block_counter() == metrics_counter_after(n + 1),
    {
        proof {
            use_type_invariant(&*self);
        }
        let counter = self.block_counter + 1;
        if counter <= METRICS_COLLECTION_BLOCKS {
            self.block_counter = counter;
            MetricsStep { collect: true, reported: false }
        } else if counter == METRICS_REPORTING_INTERVAL_BLOCKS {
            self.block_counter = 0;
            MetricsStep { collect: false, reported: true }
        } else {
            self.block_counter = counter;
            MetricsStep { collect: false, reported: false }
        }
    }
}

/// The counter after `n` blocks from the start.
pub open spec fn metrics_counter_after(n: nat) -> int
    decreases n,
{
    if n == 0 {
        0
    } else if metrics_counter_after((n - 1) as nat) + 1 == METRICS_REPORTING_INTERVAL_BLOCKS {
        0
    } else {
        metrics_counter_after((n - 1) as nat) + 1
    }
}

/// Reports come exactly every 2500 blocks: after `n` blocks from the start
/// the counter is `n % 2500`.
pub proof fn lemma_metrics_interval(n: nat)
    ensures
        metrics_counter_after(n) == n % (METRICS_REPORTING_INTERVAL_BLOCKS as nat),
    decreases n,
{
    if n > 0 {
        lemma_metrics_interval((n - 1) as nat);
    }
}

} // verus!
