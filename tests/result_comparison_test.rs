use dtre::{
    BalanceDifference, DiffAnalyzer, ExecutionTrace, PerformanceMetrics, ReplayResult,
    ResultComparator, State, StateHash, StateHasher, StateTransitionInfo, TextMap,
    ValidationError, Version,
};

#[derive(Debug, Clone, PartialEq)]
struct TestState {
    balance: i64,
    count: u32,
}

impl State for TestState {
    fn encode(&self) -> Vec<u8> {
        bincode::serialize(&(self.balance, self.count)).unwrap()
    }

    fn validate(&self) -> Result<(), ValidationError> {
        Ok(())
    }
}

fn create_replay_result(balance: i64, count: u32, tx_count: usize) -> ReplayResult<TestState> {
    let state = TestState { balance, count };
    let hash = StateHasher::new().hash(&state);
    ReplayResult {
        final_state: state,
        final_hash: hash,
        execution_trace: ExecutionTrace {
            transactions_processed: tx_count,
            state_transitions: vec![],
            rule_applications: vec![],
            checkpoints: vec![],
        },
        performance_metrics: PerformanceMetrics {
            total_duration_ms: 100,
            transactions_per_second: 10,
            average_transaction_time_ms: 10,
        },
    }
}

fn create_test_result(balance: i64, tx_count: usize) -> ReplayResult<TestState> {
    create_replay_result(balance, 0, tx_count)
}

fn balances(pairs: &[(&str, i64)]) -> TextMap<i64> {
    let mut map = TextMap::new();
    for (k, v) in pairs {
        map.insert(k.to_string(), *v);
    }
    map
}

fn row(id: &str, baseline: i64, comparison: i64, difference: i64) -> BalanceDifference {
    BalanceDifference {
        account_id: id.to_string(),
        baseline_balance: baseline,
        comparison_balance: comparison,
        difference,
    }
}

#[test]
fn test_identical_results() {
    let comparator = ResultComparator::new();
    let comparison = comparator.compare(create_test_result(100, 5), create_test_result(100, 5));
    assert!(comparison.are_identical());
    assert!(comparison.final_state_matches);
    assert!(comparison.final_hash_matches);
    assert_eq!(comparison.divergent_transition_count(), 0);
}

#[test]
fn test_different_results() {
    let comparator = ResultComparator::new();
    let comparison = comparator.compare(create_test_result(100, 5), create_test_result(150, 5));
    assert!(!comparison.are_identical());
    assert!(!comparison.final_state_matches);
    assert!(!comparison.final_hash_matches);
}

#[test]
fn test_balance_difference_analysis() {
    let baseline = balances(&[("account1", 100), ("account2", 200)]);
    let comparison = balances(&[("account1", 150), ("account2", 200), ("account3", 50)]);
    let differences = DiffAnalyzer::analyze_balance_differences(&baseline, &comparison);
    assert_eq!(differences.len(), 2);
    assert_eq!(DiffAnalyzer::total_balance_difference(&differences), 100);
    assert_eq!(differences[0], row("account1", 100, 150, 50));
    assert_eq!(differences[1], row("account3", 0, 50, 50));
}

#[test]
fn test_largest_differences() {
    let differences = vec![row("a1", 100, 150, 50), row("a2", 200, 100, -100), row("a3", 50, 60, 10)];
    let largest = DiffAnalyzer::largest_differences(&differences, 2);
    assert_eq!(largest.len(), 2);
    assert_eq!(largest[0].account_id, "a2");
    assert_eq!(largest[1].account_id, "a1");
}

#[test]
fn test_impact_analysis_creation() {
    let comparator = ResultComparator::new();
    let baseline_version = Version::new(1, 0, 0);
    let comparison_version = Version::new(1, 1, 0);
    let analysis = comparator.create_impact_analysis(
        baseline_version,
        comparison_version,
        create_test_result(100, 5),
        create_test_result(100, 5),
    );
    assert_eq!(analysis.baseline_version, baseline_version);
    assert_eq!(analysis.comparison_version, comparison_version);
    assert!(analysis.is_safe_migration());
}

#[test]
fn test_comparison_summary_identical() {
    let comparator = ResultComparator::new();
    let comparison =
        comparator.compare(create_replay_result(100, 5, 10), create_replay_result(100, 5, 10));
    assert_eq!(comparison.summary(), "Results are identical");
}

#[test]
fn test_comparison_summary_different() {
    let comparator = ResultComparator::new();
    let comparison =
        comparator.compare(create_replay_result(100, 5, 10), create_replay_result(150, 5, 10));
    let summary = comparison.summary();
    assert!(summary.contains("Results differ"));
    assert!(summary.contains("final states differ"));
    assert!(summary.contains("final hashes differ"));
    assert_eq!(summary, "Results differ: final states differ, final hashes differ");
}

#[test]
fn test_empty_balance_maps() {
    let baseline = TextMap::new();
    let comparison = TextMap::new();
    let differences = DiffAnalyzer::analyze_balance_differences(&baseline, &comparison);
    assert_eq!(differences.len(), 0);
    assert_eq!(DiffAnalyzer::total_balance_difference(&differences), 0);
}

#[test]
fn test_largest_differences_with_empty_vec() {
    let differences = vec![];
    let largest = DiffAnalyzer::largest_differences(&differences, 5);
    assert_eq!(largest.len(), 0);
}

fn info(id: &str, byte: u8) -> StateTransitionInfo {
    StateTransitionInfo {
        from_hash: StateHash([0u8; 32]),
        to_hash: StateHash([byte; 32]),
        transaction_id: id.to_string(),
    }
}

#[test]
fn shorter_trace_compares_against_zero_hash() {
    let mut baseline = create_test_result(100, 3);
    baseline.execution_trace.state_transitions = vec![info("t1", 1), info("t2", 2), info("t3", 3)];
    let mut comparison = create_test_result(100, 2);
    comparison.execution_trace.state_transitions = vec![info("t1", 1), info("t2", 9)];
    let result = ResultComparator::new().compare(baseline, comparison);
    assert_eq!(result.state_differences.len(), 3);
    assert!(result.state_differences[0].hashes_match);
    assert!(!result.state_differences[1].hashes_match);
    assert_eq!(result.state_differences[2].comparison_hash, StateHash::zero());
    assert!(!result.state_differences[2].hashes_match);
    assert_eq!(result.divergent_transition_count(), 2);
    assert_eq!(result.first_divergence().unwrap().transaction_index, 1);
    assert!(!result.transaction_count_matches);
    assert_eq!(
        result.summary(),
        "Results differ: transaction counts differ, 2 transitions diverged"
    );
}

#[test]
fn state_differences_list_only_divergent_indices() {
    let b = vec![info("t1", 1), info("t2", 2), info("t3", 3)];
    let c = vec![info("t1", 1), info("t2", 5), info("t3", 3)];
    let diffs = dtre::result_comparison::find_state_differences(&b, &c);
    assert_eq!(diffs.len(), 1);
    assert_eq!(diffs[0].transaction_index, 1);
    assert_eq!(diffs[0].transaction_id, "t2");
    assert_eq!(diffs[0].comparison_hash, StateHash([5u8; 32]));
}

#[test]
fn performance_difference_is_signed() {
    let mut slow = create_test_result(1, 1);
    slow.performance_metrics.total_duration_ms = 40;
    let mut fast = create_test_result(1, 1);
    fast.performance_metrics.total_duration_ms = 15;
    let result = ResultComparator::new().compare(slow, fast);
    assert_eq!(result.performance_comparison.duration_difference_ms, -25);
    assert_eq!(result.performance_comparison.tps_difference, 0);
}
