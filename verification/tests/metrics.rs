use starknet_hash_cache::metrics::{
    record_transaction_executor_metrics, transaction_executor_metrics,
    TransactionExecutorMetrics, TransactionExecutorTotals, BLOCKIFIER_METRIC_RATE_DURATION,
};

#[test]
fn transaction_executor_metrics_accumulate_monotonically() {
    let mut totals = TransactionExecutorTotals::new();
    let before = transaction_executor_metrics(&totals);
    let increment = TransactionExecutorMetrics {
        transactions: 50,
        committed_transactions: 48,
        execution_attempts: 73,
        validation_attempts: 81,
        aborts: 23,
        commit_phase_aborts: 4,
    };

    record_transaction_executor_metrics(&mut totals, increment);
    let after = transaction_executor_metrics(&totals);

    assert!(after.transactions >= before.transactions + increment.transactions);
    assert!(
        after.committed_transactions
            >= before.committed_transactions + increment.committed_transactions
    );
    assert!(after.execution_attempts >= before.execution_attempts + increment.execution_attempts);
    assert!(
        after.validation_attempts >= before.validation_attempts + increment.validation_attempts
    );
    assert!(after.aborts >= before.aborts + increment.aborts);
    assert!(after.commit_phase_aborts >= before.commit_phase_aborts + increment.commit_phase_aborts);
}

#[test]
fn fresh_totals_are_zero() {
    let totals = TransactionExecutorTotals::new();
    assert_eq!(transaction_executor_metrics(&totals), TransactionExecutorMetrics::default());
    assert_eq!(TransactionExecutorMetrics::default().aborts, 0);
}

#[test]
fn batches_add_up_exactly() {
    let mut totals = TransactionExecutorTotals::new();
    let batch = TransactionExecutorMetrics {
        transactions: 1,
        committed_transactions: 2,
        execution_attempts: 3,
        validation_attempts: 4,
        aborts: 5,
        commit_phase_aborts: 6,
    };
    record_transaction_executor_metrics(&mut totals, batch);
    record_transaction_executor_metrics(&mut totals, batch);
    assert_eq!(
        transaction_executor_metrics(&totals),
        TransactionExecutorMetrics {
            transactions: 2,
            committed_transactions: 4,
            execution_attempts: 6,
            validation_attempts: 8,
            aborts: 10,
            commit_phase_aborts: 12,
        }
    );
}

#[test]
fn totals_wrap_around_on_overflow() {
    let mut totals = TransactionExecutorTotals::new();
    let big = TransactionExecutorMetrics { transactions: u64::MAX, ..Default::default() };
    let one = TransactionExecutorMetrics { transactions: 1, aborts: 1, ..Default::default() };
    record_transaction_executor_metrics(&mut totals, big);
    record_transaction_executor_metrics(&mut totals, one);
    let after = transaction_executor_metrics(&totals);
    assert_eq!(after.transactions, 0);
    assert_eq!(after.aborts, 1);
}

#[test]
fn rate_duration_is_five_minutes() {
    assert_eq!(BLOCKIFIER_METRIC_RATE_DURATION, "5m");
}

#[test]
fn totals_only_grow_across_batches() {
    let mut totals = TransactionExecutorTotals::new();
    let mut previous = transaction_executor_metrics(&totals);
    for n in 0..10u64 {
        let batch = TransactionExecutorMetrics {
            transactions: n,
            committed_transactions: n / 2,
            execution_attempts: n + 1,
            validation_attempts: 2 * n,
            aborts: n % 3,
            commit_phase_aborts: n % 2,
        };
        record_transaction_executor_metrics(&mut totals, batch);
        let now = transaction_executor_metrics(&totals);
        assert!(now.transactions >= previous.transactions);
        assert!(now.committed_transactions >= previous.committed_transactions);
        assert!(now.execution_attempts >= previous.execution_attempts);
        assert!(now.validation_attempts >= previous.validation_attempts);
        assert!(now.aborts >= previous.aborts);
        assert!(now.commit_phase_aborts >= previous.commit_phase_aborts);
        previous = now;
    }
    assert_eq!(previous.transactions, 45);
    assert_eq!(previous.execution_attempts, 55);
}
