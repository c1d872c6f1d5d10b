//! Process-lifetime transaction execution counters.
//!
//! These mirror the per-chunk counters emitted by a concurrent executor
//! while also covering sequential execution. Each recorded batch adds its
//! counts to the totals; a total wraps around on overflow, as a relaxed
//! atomic `fetch_add` does.

use vstd::prelude::*;

verus! {

/// How long a rate of the executor's metrics is averaged over.
pub const BLOCKIFIER_METRIC_RATE_DURATION: &'static str = "5m";

/// Counts of transactions, their execution and validation attempts, and aborts.
#[derive(Clone, Copy, Debug, PartialEq, Eq, Structural)]
pub struct TransactionExecutorMetrics {
    pub transactions: u64,
    pub committed_transactions: u64,
    pub execution_attempts: u64,
    pub validation_attempts: u64,
    pub aborts: u64,
    pub commit_phase_aborts: u64,
}

/// Every count zero.
pub open spec fn zero_metrics() -> TransactionExecutorMetrics {
    TransactionExecutorMetrics {
        transactions: 0,
        committed_transactions: 0,
        execution_attempts: 0,
        validation_attempts: 0,
        aborts: 0,
        commit_phase_aborts: 0,
    }
}

/// `x + y`, wrapping around past `u64::MAX`.
pub open spec fn wrapping_sum(x: u64, y: u64) -> u64 {
    if x + y > u64::MAX {
        (x + y - 0x1_0000_0000_0000_0000) as u64
    } else {
        (x + y) as u64
    }
}

/// The totals after adding the counts of `batch`, count by count.
pub open spec fn accumulated(
    totals: TransactionExecutorMetrics,
    batch: TransactionExecutorMetrics,
) -> TransactionExecutorMetrics {
    TransactionExecutorMetrics {
        transactions: wrapping_sum(totals.transactions, batch.transactions),
        committed_transactions: wrapping_sum(
            totals.committed_transactions,
            batch.committed_transactions,
        ),
        execution_attempts: wrapping_sum(totals.execution_attempts, batch.execution_attempts),
        validation_attempts: wrapping_sum(totals.validation_attempts, batch.validation_attempts),
        aborts: wrapping_sum(totals.aborts, batch.aborts),
        commit_phase_aborts: wrapping_sum(totals.commit_phase_aborts, batch.commit_phase_aborts),
    }
}

/// The totals after recording `batches`, in order.
pub open spec fn accumulated_all(
    totals: TransactionExecutorMetrics,
    batches: Seq<TransactionExecutorMetrics>,
) -> TransactionExecutorMetrics
    decreases batches.len(),
{
    if batches.len() == 0 {
        totals
    } else {
        accumulated(accumulated_all(totals, batches.drop_last()), batches.last())
    }
}

/// Adding `batch` to `totals` overflows no count.
pub open spec fn adds_without_overflow(
    totals: TransactionExecutorMetrics,
    batch: TransactionExecutorMetrics,
) -> bool {
    &&& totals.transactions + batch.transactions <= u64::MAX
    &&& totals.committed_transactions + batch.committed_transactions <= u64::MAX
    &&& totals.execution_attempts + batch.execution_attempts <= u64::MAX
    &&& totals.validation_attempts + batch.validation_attempts <= u64::MAX
    &&& totals.aborts + batch.aborts <= u64::MAX
    &&& totals.commit_phase_aborts + batch.commit_phase_aborts <= u64::MAX
}

/// Every count of `later` is at least that of `earlier`.
pub open spec fn no_count_below(
    later: TransactionExecutorMetrics,
    earlier: TransactionExecutorMetrics,
) -> bool {
    &&& later.transactions >= earlier.transactions
    &&& later.committed_transactions >= earlier.committed_transactions
    &&& later.execution_attempts >= earlier.execution_attempts
    &&& later.validation_attempts >= earlier.validation_attempts
    &&& later.aborts >= earlier.aborts
    &&& later.commit_phase_aborts >= earlier.commit_phase_aborts
}

impl Default for TransactionExecutorMetrics {
    fn default() -> (metrics: Self)
        ensures
            metrics == zero_metrics(),
    {
        TransactionExecutorMetrics {
            transactions: 0,
            committed_transactions: 0,
            execution_attempts: 0,
            validation_attempts: 0,
            aborts: 0,
            commit_phase_aborts: 0,
        }
    }
}

/// The executor totals of a process.
pub struct TransactionExecutorTotals {
    totals: TransactionExecutorMetrics,
}

impl View for TransactionExecutorTotals {
    type V = TransactionExecutorMetrics;

    closed spec fn view(&self) -> TransactionExecutorMetrics {
        self.totals
    }
}

impl TransactionExecutorTotals {
    /// The totals of a freshly started process: every count zero.
    pub fn new() -> (totals: Self)
        ensures
            totals@ == zero_metrics(),
    {
        TransactionExecutorTotals { totals: TransactionExecutorMetrics::default() }
    }
}

/// The current totals.
pub fn transaction_executor_metrics(totals: &TransactionExecutorTotals) -> (metrics:
    TransactionExecutorMetrics)
    ensures
        metrics == totals@,
{
    TransactionExecutorMetrics {
        transactions: totals.totals.transactions,
        committed_transactions: totals.totals.committed_transactions,
        execution_attempts: totals.totals.execution_attempts,
        validation_attempts: totals.totals.validation_attempts,
        aborts: totals.totals.aborts,
        commit_phase_aborts: totals.totals.commit_phase_aborts,
    }
}

/// Adds the counts of one executed batch to the totals.
pub fn record_transaction_executor_metrics(
    totals: &mut TransactionExecutorTotals,
    metrics: TransactionExecutorMetrics,
)
    ensures
        final(totals)@ == accumulated(old(totals)@, metrics),
        final(totals)@ == accumulated_all(old(totals)@, seq![metrics]),
{
    proof {
        assert(seq![metrics].drop_last() =~= Seq::<TransactionExecutorMetrics>::empty());
        assert(accumulated_all(old(totals)@, Seq::<TransactionExecutorMetrics>::empty())
            == old(totals)@);
    }
    let t = &mut totals.totals;
    t.transactions = t.transactions.wrapping_add(metrics.transactions);
    t.committed_transactions = t.committed_transactions.wrapping_add(
        metrics.committed_transactions,
    );
    t.execution_attempts = t.execution_attempts.wrapping_add(metrics.execution_attempts);
    t.validation_attempts = t.validation_attempts.wrapping_add(metrics.validation_attempts);
    t.aborts = t.aborts.wrapping_add(metrics.aborts);
    t.commit_phase_aborts = t.commit_phase_aborts.wrapping_add(metrics.commit_phase_aborts);
}

/// Totals accumulate monotonically: where no count overflows, every total
/// after recording a batch is its value before plus the batch's count.
pub proof fn lemma_totals_accumulate_monotonically(
    before: TransactionExecutorMetrics,
    batch: TransactionExecutorMetrics,
)
    requires
        before.transactions + batch.transactions <= u64::MAX,
        before.committed_transactions + batch.committed_transactions <= u64::MAX,
        before.execution_attempts + batch.execution_attempts <= u64::MAX,
        before.validation_attempts + batch.validation_attempts <= u64::MAX,
        before.aborts + batch.aborts <= u64::MAX,
        before.commit_phase_aborts + batch.commit_phase_aborts <= u64::MAX,
    ensures
        accumulated(before, batch).transactions == before.transactions + batch.transactions,
        accumulated(before, batch).committed_transactions == before.committed_transactions
            + batch.committed_transactions,
        accumulated(before, batch).execution_attempts == before.execution_attempts
            + batch.execution_attempts,
        accumulated(before, batch).validation_attempts == before.validation_attempts
            + batch.validation_attempts,
        accumulated(before, batch).aborts == before.aborts + batch.aborts,
        accumulated(before, batch).commit_phase_aborts == before.commit_phase_aborts
            + batch.commit_phase_aborts,
{
}

/// Totals only grow: after any number of recorded batches, none of which
/// overflows a count when it is added, every total is at least what it was
/// before the first of them.
pub proof fn lemma_totals_only_grow(
    totals: TransactionExecutorMetrics,
    batches: Seq<TransactionExecutorMetrics>,
)
    requires
        forall|i: int|
            0 <= i < batches.len() ==> adds_without_overflow(
                #[trigger] accumulated_all(totals, batches.take(i)),
                batches[i],
            ),
    ensures
        no_count_below(accumulated_all(totals, batches), totals),
    decreases batches.len(),
{
    if batches.len() > 0 {
        let prefix = batches.drop_last();
        assert forall|i: int| 0 <= i < prefix.len() implies adds_without_overflow(
            #[trigger] accumulated_all(totals, prefix.take(i)),
            prefix[i],
        ) by {
            assert(prefix.take(i) =~= batches.take(i));
            assert(prefix[i] == batches[i]);
        }
        lemma_totals_only_grow(totals, prefix);
        let last = batches.len() - 1;
        assert(batches.take(last) =~= prefix);
        assert(adds_without_overflow(accumulated_all(totals, batches.take(last)), batches[last]));
        lemma_totals_accumulate_monotonically(accumulated_all(totals, prefix), batches.last());
    }
}

/// Recording a batch adds each of its counts to the matching total, modulo
/// `2^64`: a total wraps around past `u64::MAX` as a relaxed atomic
/// `fetch_add` does, and no count is added to another total.
pub proof fn lemma_recording_adds_each_count(
    totals: TransactionExecutorMetrics,
    batch: TransactionExecutorMetrics,
)
    ensures
        accumulated(totals, batch).transactions as int == (totals.transactions
            + batch.transactions) % 0x1_0000_0000_0000_0000,
        accumulated(totals, batch).committed_transactions as int == (totals.committed_transactions
            + batch.committed_transactions) % 0x1_0000_0000_0000_0000,
        accumulated(totals, batch).execution_attempts as int == (totals.execution_attempts
            + batch.execution_attempts) % 0x1_0000_0000_0000_0000,
        accumulated(totals, batch).validation_attempts as int == (totals.validation_attempts
            + batch.validation_attempts) % 0x1_0000_0000_0000_0000,
        accumulated(totals, batch).aborts as int == (totals.aborts + batch.aborts)
            % 0x1_0000_0000_0000_0000,
        accumulated(totals, batch).commit_phase_aborts as int == (totals.commit_phase_aborts
            + batch.commit_phase_aborts) % 0x1_0000_0000_0000_0000,
        accumulated_all(totals, seq![batch]) == accumulated(totals, batch),
{
    assert(seq![batch].drop_last() =~= Seq::<TransactionExecutorMetrics>::empty());
    assert(accumulated_all(totals, Seq::<TransactionExecutorMetrics>::empty()) == totals);
}

/// Recording no batch changes nothing, and recording one more batch adds it
/// to the totals the earlier batches left.
pub proof fn lemma_batches_are_recorded_in_order(
    totals: TransactionExecutorMetrics,
    batches: Seq<TransactionExecutorMetrics>,
    batch: TransactionExecutorMetrics,
)
    ensures
        accumulated_all(totals, Seq::<TransactionExecutorMetrics>::empty()) == totals,
        accumulated_all(totals, batches.push(batch)) == accumulated(
            accumulated_all(totals, batches),
            batch,
        ),
{
    assert(batches.push(batch).drop_last() =~= batches);
}

/// A process starts with every total zero.
pub proof fn lemma_fresh_totals_are_zero()
    ensures
        zero_metrics().transactions == 0,
        zero_metrics().committed_transactions == 0,
        zero_metrics().execution_attempts == 0,
        zero_metrics().validation_attempts == 0,
        zero_metrics().aborts == 0,
        zero_metrics().commit_phase_aborts == 0,
{
}

} // verus!
