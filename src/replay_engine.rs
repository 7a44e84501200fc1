//! The replay façade: configures and runs replays, compares rule versions,
//! and re-runs a replay on several workers to detect non-determinism.

use vstd::prelude::*;
use vstd::string::StringExecFns;
use core::marker::PhantomData;
use crate::context::ExecutionContext;
use crate::error::ProcessingError;
use crate::result_comparison::{differences_exact, find_state_differences};
use crate::state_manager::{Checkpoint, checkpoint_intact};
use crate::traits::{
    RuleSet, State, Transaction, duplicate, encoding_of, valid_state, version_of,
};
use crate::transaction_processor::{
    TransactionProcessor, checkpoint_count, checkpoint_records, replay_spec, trace_records,
};
use crate::types::{ImpactAnalysis, PerformanceMetrics, ReplayResult, Timestamp};
use crate::hasher::state_digest;

verus! {

#[verifier::external_type_specification]
#[verifier::external_body]
pub struct ExInstant(std::time::Instant);

/// Relies on `std::time::Instant::now`: a monotonic reading of the clock.
#[verifier::external_body]
fn start_clock() -> std::time::Instant {
    std::time::Instant::now()
}

/// Relies on `std::time::Instant::elapsed`, in whole milliseconds.
#[verifier::external_body]
fn elapsed_ms(start: &std::time::Instant) -> u64 {
    start.elapsed().as_millis() as u64
}

/// Relies on `rayon::current_num_threads`: the size of the worker pool.
#[verifier::external_body]
fn pool_size() -> usize {
    rayon::current_num_threads()
}

/// The checkpoint interval as a number, 0 for none.
pub open spec fn interval_of(interval: Option<usize>) -> int {
    match interval {
        Some(n) => n as int,
        None => 0,
    }
}

/// A replay result is the one that replaying `txs` from `initial` yields:
/// its final state and hash, and a complete trace in input order.
pub open spec fn replay_result_matches<S: State, T: Transaction, R: RuleSet<S, T>>(
    res: ReplayResult<S>,
    initial: S,
    txs: Seq<T>,
    rules: R,
    ctx: ExecutionContext,
    interval: int,
    count0: int,
) -> bool {
    &&& replay_spec(initial, txs, rules, ctx) is Some
    &&& res.final_state == replay_spec(initial, txs, rules, ctx)->Some_0
    &&& res.final_hash.0@ == state_digest(res.final_state)
    &&& res.execution_trace.transactions_processed == count0 + txs.len()
    &&& trace_records(res.execution_trace, 0, initial, txs, txs.len() as int, rules, ctx)
    &&& checkpoint_records(
        res.execution_trace,
        0,
        initial,
        txs,
        checkpoint_count(txs.len() as int, interval),
        interval,
        count0,
        rules,
        ctx,
    )
}

/// What a replay from a fresh, validated initial state returns.
pub open spec fn replay_post<S: State, T: Transaction, R: RuleSet<S, T>>(
    initial: S,
    txs: Seq<T>,
    rules: R,
    ctx: ExecutionContext,
    interval: int,
    r: Result<ReplayResult<S>, ProcessingError>,
) -> bool {
    &&& (r is Ok <==> valid_state(initial) && replay_spec(initial, txs, rules, ctx) is Some)
    &&& r matches Ok(res) ==> replay_result_matches(res, initial, txs, rules, ctx, interval, 0)
}

/// Integer throughput figures of a run of `n` transactions over `ms` milliseconds.
pub fn performance_metrics(n: usize, ms: u64) -> (r: PerformanceMetrics)
    ensures
        r.total_duration_ms == ms,
        ms > 0 && (n as int) * 1000 / (ms as int) <= u64::MAX ==> r.transactions_per_second as int
            == (n as int) * 1000 / (ms as int),
        ms > 0 && (n as int) * 1000 / (ms as int) > u64::MAX ==> r.transactions_per_second
            == u64::MAX,
        ms == 0 ==> r.transactions_per_second == 0,
        n > 0 ==> r.average_transaction_time_ms as int == ms as int / n as int,
        n == 0 ==> r.average_transaction_time_ms == 0,
{
    let transactions_per_second: u64 = if ms > 0 {
        let scaled: u128 = (n as u128) * 1000;
        let tps: u128 = scaled / (ms as u128);
        if tps <= u64::MAX as u128 {
            tps as u64
        } else {
            u64::MAX
        }
    } else {
        0
    };
    let average_transaction_time_ms: u64 = if n > 0 {
        ms / (n as u64)
    } else {
        0
    };
    PerformanceMetrics { total_duration_ms: ms, transactions_per_second, average_transaction_time_ms }
}

/// Runs `transactions` through a processor and packages the outcome.
fn drive<S: State, T: Transaction, R: RuleSet<S, T>>(
    processor: TransactionProcessor<S>,
    transactions: &[T],
    rules: &R,
    context: &ExecutionContext,
    checkpoint_interval: Option<usize>,
    ms_start: &std::time::Instant,
) -> (r: Result<ReplayResult<S>, ProcessingError>)
    requires
        processor.wf(),
        processor.spec_manager().spec_count() + transactions@.len() <= usize::MAX,
        processor.spec_trace().transactions_processed == processor.spec_manager().spec_count(),
        processor.spec_trace().state_transitions@.len() == 0,
        processor.spec_trace().rule_applications@.len() == 0,
        processor.spec_trace().checkpoints@.len() == 0,
    ensures
        r is Ok <==> replay_spec(processor.spec_state(), transactions@, *rules, *context) is Some,
        r matches Ok(res) ==> replay_result_matches(
            res,
            processor.spec_state(),
            transactions@,
            *rules,
            *context,
            interval_of(checkpoint_interval),
            processor.spec_manager().spec_count() as int,
        ),
{
    let mut processor = processor;
    match checkpoint_interval {
        Some(interval) => {
            match processor.process_transactions_with_checkpoints(
                transactions,
                rules,
                context,
                interval,
            ) {
                Ok(_) => {},
                Err(e) => {
                    return Err(e);
                },
            }
        },
        None => {
            match processor.process_transactions(transactions, rules, context) {
                Ok(_) => {},
                Err(e) => {
                    return Err(e);
                },
            }
        },
    }
    let ms = elapsed_ms(ms_start);
    let performance_metrics = performance_metrics(transactions.len(), ms);
    let final_hash = processor.current_hash();
    let (final_state, execution_trace) = processor.into_result();
    Ok(ReplayResult { final_state, final_hash, execution_trace, performance_metrics })
}

/// Replays a sequence from a fresh processor over `initial`.
fn replay_fresh<S: State, T: Transaction, R: RuleSet<S, T>>(
    initial: &S,
    transactions: &[T],
    rules: &R,
    context: &ExecutionContext,
    checkpoint_interval: Option<usize>,
) -> (r: Result<ReplayResult<S>, ProcessingError>)
    ensures
        replay_post(*initial, transactions@, *rules, *context, interval_of(checkpoint_interval), r),
{
    let start = start_clock();
    let _n = transactions.len();
    let processor = match TransactionProcessor::new(duplicate(initial)) {
        Ok(p) => p,
        Err(e) => {
            return Err(e);
        },
    };
    drive(processor, transactions, rules, context, checkpoint_interval, &start)
}

/// Relies on rayon's `into_par_iter`, `map` and `collect` over
/// `0..workers`: one entry per worker, in worker order, each the result
/// that `replay_fresh` returns for the same arguments.
#[verifier::external_body]
fn run_workers<S: State + Send + Sync, T: Transaction + Sync, R: RuleSet<S, T> + Sync>(
    initial: &S,
    transactions: &[T],
    rules: &R,
    context: &ExecutionContext,
    workers: usize,
) -> (r: Vec<Result<ReplayResult<S>, ProcessingError>>)
    ensures
        r@.len() == workers,
        forall|i: int|
            0 <= i < r@.len() ==> replay_post(
                *initial,
                transactions@,
                *rules,
                *context,
                0,
                #[trigger] r@[i],
            ),
{
    rayon::iter::ParallelIterator::collect(
        rayon::iter::ParallelIterator::map(
            rayon::iter::IntoParallelIterator::into_par_iter(0..workers),
            |_| replay_fresh(initial, transactions, rules, context, None),
        ),
    )
}

/// Checks that all workers of a determinism check agree.  The first error
/// of a worker, in worker order, is returned as it is; otherwise any
/// final hash that differs from the first worker's is a
/// `NonDeterministicOperation` error, and when all agree the first
/// worker's result is returned.
pub fn reconcile_workers<S>(results: Vec<Result<ReplayResult<S>, ProcessingError>>) -> (r: Result<
    ReplayResult<S>,
    ProcessingError,
>)
    requires
        results@.len() > 0,
    ensures
        (exists|i: int| 0 <= i < results@.len() && results@[i] is Err) ==> exists|i: int|
            {
                &&& 0 <= i < results@.len()
                &&& #[trigger] results@[i] is Err
                &&& r == results@[i]
                &&& forall|j: int| 0 <= j < i ==> results@[j] is Ok
            },
        (forall|i: int| 0 <= i < results@.len() ==> results@[i] is Ok) && (exists|i: int|
            0 <= i < results@.len() && (#[trigger] results@[i])->Ok_0.final_hash
                != results@[0]->Ok_0.final_hash)
            ==> (r matches Err(ProcessingError::NonDeterministicOperation { operation: o, .. })
            && o@ == "parallel_replay"@),
        r is Ok ==> r == results@[0] && forall|i: int|
            0 <= i < results@.len() ==> (#[trigger] results@[i]) is Ok && results@[i]->Ok_0.final_hash
                == results@[0]->Ok_0.final_hash,
        (forall|i: int| 0 <= i < results@.len() ==> results@[i] is Ok) && (forall|i: int|
            0 <= i < results@.len() ==> (#[trigger] results@[i])->Ok_0.final_hash
                == results@[0]->Ok_0.final_hash) ==> r is Ok,
{
    let mut i: usize = 0;
    while i < results.len() && results[i].is_ok()
        invariant
            i <= results@.len(),
            forall|j: int| 0 <= j < i ==> (#[trigger] results@[j]) is Ok,
        decreases results@.len() - i,
    {
        i = i + 1;
    }
    if i < results.len() {
        let ghost all = results@;
        let mut rs = results;
        let r = rs.swap_remove(i);
        assert(r == all[i as int]);
        return r;
    }
    let mut k: usize = 1;
    while k < results.len() && hashes_agree(&results[k], &results[0])
        invariant
            1 <= k,
            results@.len() > 0,
            forall|j: int| 0 <= j < results@.len() ==> (#[trigger] results@[j]) is Ok,
            forall|j: int|
                0 <= j < k && j < results@.len() ==> (#[trigger] results@[j])->Ok_0.final_hash
                    == results@[0]->Ok_0.final_hash,
        decreases results@.len() - k,
    {
        k = k + 1;
    }
    if k < results.len() {
        proof {
            reveal_strlit("parallel_replay");
        }
        return Err(
            ProcessingError::NonDeterministicOperation {
                operation: String::from_str("parallel_replay"),
                location: String::from_str("Parallel execution produced different results"),
            },
        );
    }
    let ghost all = results@;
    let mut rs = results;
    let r = rs.swap_remove(0);
    assert(r == all[0]);
    r
}

/// Whether two successful results have the same final hash.
fn hashes_agree<S>(
    a: &Result<ReplayResult<S>, ProcessingError>,
    b: &Result<ReplayResult<S>, ProcessingError>,
) -> (r: bool)
    requires
        a is Ok,
        b is Ok,
    ensures
        r == (a->Ok_0.final_hash == b->Ok_0.final_hash),
{
    match (a, b) {
        (Ok(x), Ok(y)) => x.final_hash.same_as(&y.final_hash),
        _ => false,
    }
}

/// The replay engine: an initial state, a rule set, a context and an
/// optional checkpoint interval.
#[derive(Debug)]
pub struct ReplayEngine<S: State, T: Transaction, R: RuleSet<S, T>> {
    initial_state: S,
    rule_set: R,
    context: ExecutionContext,
    checkpoint_interval: Option<usize>,
    _phantom_t: PhantomData<T>,
}

impl<S: State, T: Transaction, R: RuleSet<S, T>> ReplayEngine<S, T, R> {
    pub closed spec fn spec_initial(&self) -> S {
        self.initial_state
    }

    pub closed spec fn spec_rules(&self) -> R {
        self.rule_set
    }

    pub closed spec fn spec_context(&self) -> ExecutionContext {
        self.context
    }

    pub closed spec fn spec_interval(&self) -> Option<usize> {
        self.checkpoint_interval
    }

    pub fn new(initial_state: S, rule_set: R, context: ExecutionContext) -> (r: ReplayEngine<
        S,
        T,
        R,
    >)
        ensures
            r.spec_initial() == initial_state,
            r.spec_rules() == rule_set,
            r.spec_context() == context,
            r.spec_interval() is None,
    {
        ReplayEngine {
            initial_state,
            rule_set,
            context,
            checkpoint_interval: None,
            _phantom_t: PhantomData,
        }
    }

    pub fn with_checkpointing(
        initial_state: S,
        rule_set: R,
        context: ExecutionContext,
        checkpoint_interval: usize,
    ) -> (r: ReplayEngine<S, T, R>)
        ensures
            r.spec_initial() == initial_state,
            r.spec_rules() == rule_set,
            r.spec_context() == context,
            r.spec_interval() == Some(checkpoint_interval),
    {
        ReplayEngine {
            initial_state,
            rule_set,
            context,
            checkpoint_interval: Some(checkpoint_interval),
            _phantom_t: PhantomData,
        }
    }

    pub fn builder() -> (r: ReplayEngineBuilder<S, T, R>)
        ensures
            r.spec_initial() is None,
            r.spec_rules() is None,
            r.spec_context() is None,
            r.spec_interval() is None,
    {
        ReplayEngineBuilder::new()
    }

    /// Replays the sequence from the initial state: the final state is the
    /// state after every transaction in order, and the trace records each
    /// of them.  The first rejected transaction's error is returned.
    pub fn replay(&self, transactions: &[T]) -> (r: Result<ReplayResult<S>, ProcessingError>)
        ensures
            replay_post(
                self.spec_initial(),
                transactions@,
                self.spec_rules(),
                self.spec_context(),
                interval_of(self.spec_interval()),
                r,
            ),
    {
        replay_fresh(
            &self.initial_state,
            transactions,
            &self.rule_set,
            &self.context,
            self.checkpoint_interval,
        )
    }

    /// Resumes from an intact checkpoint and replays the remaining transactions.
    pub fn replay_from_checkpoint(
        &self,
        checkpoint: &Checkpoint<S>,
        remaining_transactions: &[T],
    ) -> (r: Result<ReplayResult<S>, ProcessingError>)
        requires
            checkpoint.transaction_index + remaining_transactions@.len() <= usize::MAX,
        ensures
            r is Ok <==> checkpoint_intact(*checkpoint) && replay_spec(
                checkpoint.state,
                remaining_transactions@,
                self.spec_rules(),
                self.spec_context(),
            ) is Some,
            r matches Ok(res) ==> replay_result_matches(
                res,
                checkpoint.state,
                remaining_transactions@,
                self.spec_rules(),
                self.spec_context(),
                interval_of(self.spec_interval()),
                checkpoint.transaction_index as int,
            ),
    {
        let start = start_clock();
        let processor = match TransactionProcessor::from_checkpoint(checkpoint) {
            Ok(p) => p,
            Err(e) => {
                return Err(e);
            },
        };
        drive(
            processor,
            remaining_transactions,
            &self.rule_set,
            &self.context,
            self.checkpoint_interval,
            &start,
        )
    }

    /// Determinism check: below 100 transactions this is `replay`; from
    /// 100 on, the whole sequence is replayed independently by at least two
    /// workers and their final hashes must agree, else the result is a
    /// `NonDeterministicOperation` error.  The first worker's result is
    /// returned, with the timing of the whole check.
    pub fn replay_parallel(&self, transactions: &[T]) -> (r: Result<ReplayResult<S>, ProcessingError>)
        where
            S: Send + Sync,
            T: Sync,
            R: Sync,
        ensures
            transactions@.len() < 100 ==> replay_post(
                self.spec_initial(),
                transactions@,
                self.spec_rules(),
                self.spec_context(),
                interval_of(self.spec_interval()),
                r,
            ),
            transactions@.len() >= 100 ==> (r is Ok <==> valid_state(self.spec_initial())
                && replay_spec(
                self.spec_initial(),
                transactions@,
                self.spec_rules(),
                self.spec_context(),
            ) is Some),
            transactions@.len() >= 100 ==> (r matches Ok(res) ==> replay_result_matches(
                res,
                self.spec_initial(),
                transactions@,
                self.spec_rules(),
                self.spec_context(),
                0,
                0,
            )),
    {
        if transactions.len() < 100 {
            return self.replay(transactions);
        }
        let start = start_clock();
        let pool = pool_size();
        let workers = if pool < 2 {
            2
        } else {
            pool
        };
        let results = run_workers(
            &self.initial_state,
            transactions,
            &self.rule_set,
            &self.context,
            workers,
        );
        proof {
            assert(replay_post(
                self.spec_initial(),
                transactions@,
                self.spec_rules(),
                self.spec_context(),
                0,
                results@[0],
            ));
            assert forall|i: int| 0 <= i < results@.len() implies ((#[trigger] results@[i]) is Ok
                <==> results@[0] is Ok) && (results@[0] is Ok ==> results@[i]->Ok_0.final_hash
                == results@[0]->Ok_0.final_hash) by {
                assert(replay_post(
                    self.spec_initial(),
                    transactions@,
                    self.spec_rules(),
                    self.spec_context(),
                    0,
                    results@[i],
                ));
                if results@[0] is Ok {
                    crate::types::lemma_hash_eq_from_view(
                        results@[i]->Ok_0.final_hash,
                        results@[0]->Ok_0.final_hash,
                    );
                }
            }
        }
        match reconcile_workers(results) {
            Ok(res) => {
                let ms = elapsed_ms(&start);
                let mut res = res;
                res.performance_metrics = performance_metrics(transactions.len(), ms);
                Ok(res)
            },
            Err(e) => Err(e),
        }
    }

    pub fn initial_state(&self) -> (r: &S)
        ensures
            *r == self.spec_initial(),
    {
        &self.initial_state
    }

    pub fn rule_set(&self) -> (r: &R)
        ensures
            *r == self.spec_rules(),
    {
        &self.rule_set
    }

    pub fn context(&self) -> (r: &ExecutionContext)
        ensures
            *r == self.spec_context(),
    {
        &self.context
    }

    /// Replays the same input under another rule set.
    pub fn replay_with_different_rules<R2: RuleSet<S, T>>(
        &self,
        transactions: &[T],
        new_rule_set: &R2,
    ) -> (r: Result<ReplayResult<S>, ProcessingError>)
        ensures
            replay_post(
                self.spec_initial(),
                transactions@,
                *new_rule_set,
                self.spec_context(),
                interval_of(self.spec_interval()),
                r,
            ),
    {
        replay_fresh(
            &self.initial_state,
            transactions,
            new_rule_set,
            &self.context,
            self.checkpoint_interval,
        )
    }

    /// Replays the input under the engine's rules and under `new_rule_set`
    /// and reports, index by index, the transitions whose resulting hashes
    /// differ.  The first error of either replay is returned.
    pub fn analyze_migration_impact<R2: RuleSet<S, T>>(
        &self,
        transactions: &[T],
        new_rule_set: &R2,
    ) -> (r: Result<ImpactAnalysis<S>, ProcessingError>)
        ensures
            r is Ok <==> valid_state(self.spec_initial()) && replay_spec(
                self.spec_initial(),
                transactions@,
                self.spec_rules(),
                self.spec_context(),
            ) is Some && replay_spec(
                self.spec_initial(),
                transactions@,
                *new_rule_set,
                self.spec_context(),
            ) is Some,
            r matches Ok(a) ==> {
                &&& a.baseline_version == version_of(self.spec_rules())
                &&& a.comparison_version == version_of(*new_rule_set)
                &&& replay_post(
                    self.spec_initial(),
                    transactions@,
                    self.spec_rules(),
                    self.spec_context(),
                    interval_of(self.spec_interval()),
                    Ok(a.baseline_result),
                )
                &&& replay_post(
                    self.spec_initial(),
                    transactions@,
                    *new_rule_set,
                    self.spec_context(),
                    interval_of(self.spec_interval()),
                    Ok(a.comparison_result),
                )
                &&& impact_consistent(a)
            },
    {
        let baseline_result = match self.replay(transactions) {
            Ok(res) => res,
            Err(e) => {
                return Err(e);
            },
        };
        let comparison_result = match self.replay_with_different_rules(transactions, new_rule_set) {
            Ok(res) => res,
            Err(e) => {
                return Err(e);
            },
        };
        let differences = find_state_differences(
            baseline_result.execution_trace.state_transitions.as_slice(),
            comparison_result.execution_trace.state_transitions.as_slice(),
        );
        let baseline_bytes = baseline_result.final_state.encode();
        let comparison_bytes = comparison_result.final_state.encode();
        let identical_final_state = same_bytes(&baseline_bytes, &comparison_bytes);
        let identical_final_hash = baseline_result.final_hash.same_as(
            &comparison_result.final_hash,
        );
        Ok(
            ImpactAnalysis {
                baseline_version: self.rule_set.version(),
                comparison_version: new_rule_set.version(),
                baseline_result,
                comparison_result,
                differences,
                identical_final_state,
                identical_final_hash,
            },
        )
    }

    /// Whether the migration to `new_rule_set` is safe over this input.
    pub fn verify_migration_safety<R2: RuleSet<S, T>>(
        &self,
        transactions: &[T],
        new_rule_set: &R2,
    ) -> (r: Result<bool, ProcessingError>)
        ensures
            r is Ok <==> valid_state(self.spec_initial()) && replay_spec(
                self.spec_initial(),
                transactions@,
                self.spec_rules(),
                self.spec_context(),
            ) is Some && replay_spec(
                self.spec_initial(),
                transactions@,
                *new_rule_set,
                self.spec_context(),
            ) is Some,
            r matches Ok(safe) ==> (safe <==> {
                let b = replay_spec(
                    self.spec_initial(),
                    transactions@,
                    self.spec_rules(),
                    self.spec_context(),
                )->Some_0;
                let c = replay_spec(
                    self.spec_initial(),
                    transactions@,
                    *new_rule_set,
                    self.spec_context(),
                )->Some_0;
                encoding_of(b) == encoding_of(c) && state_digest(b) == state_digest(c)
                    && forall|i: int|
                    0 <= i < transactions@.len() ==> #[trigger] state_digest(
                        crate::transaction_processor::state_after(
                            self.spec_initial(),
                            transactions@,
                            i + 1,
                            self.spec_rules(),
                            self.spec_context(),
                        ),
                    ) == state_digest(
                        crate::transaction_processor::state_after(
                            self.spec_initial(),
                            transactions@,
                            i + 1,
                            *new_rule_set,
                            self.spec_context(),
                        ),
                    )
            }),
    {
        match self.analyze_migration_impact(transactions, new_rule_set) {
            Ok(analysis) => {
                proof {
                    let n = transactions@.len() as int;
                    let bt = analysis.baseline_result.execution_trace;
                    let ct = analysis.comparison_result.execution_trace;
                    lemma_safe_migration_iff(analysis, n);
                    assert(crate::transaction_processor::trace_records(
                        bt,
                        0,
                        self.spec_initial(),
                        transactions@,
                        n,
                        self.spec_rules(),
                        self.spec_context(),
                    ));
                    assert forall|i: int|
                        #![trigger bt.state_transitions@[i]]
                        #![trigger state_digest(
                            crate::transaction_processor::state_after(
                                self.spec_initial(),
                                transactions@,
                                i + 1,
                                self.spec_rules(),
                                self.spec_context(),
                            ),
                        )]
                        0 <= i < n implies bt.state_transitions@[i].to_hash
                        == ct.state_transitions@[i].to_hash <==> state_digest(
                        crate::transaction_processor::state_after(
                            self.spec_initial(),
                            transactions@,
                            i + 1,
                            self.spec_rules(),
                            self.spec_context(),
                        ),
                    ) == state_digest(
                        crate::transaction_processor::state_after(
                            self.spec_initial(),
                            transactions@,
                            i + 1,
                            *new_rule_set,
                            self.spec_context(),
                        ),
                    ) by {
                        assert(crate::transaction_processor::info_matches(
                            bt.state_transitions@[0 + i],
                            crate::transaction_processor::state_after(
                                self.spec_initial(),
                                transactions@,
                                i,
                                self.spec_rules(),
                                self.spec_context(),
                            ),
                            crate::transaction_processor::state_after(
                                self.spec_initial(),
                                transactions@,
                                i + 1,
                                self.spec_rules(),
                                self.spec_context(),
                            ),
                            transactions@[i],
                        ));
                        assert(crate::transaction_processor::info_matches(
                            ct.state_transitions@[0 + i],
                            crate::transaction_processor::state_after(
                                self.spec_initial(),
                                transactions@,
                                i,
                                *new_rule_set,
                                self.spec_context(),
                            ),
                            crate::transaction_processor::state_after(
                                self.spec_initial(),
                                transactions@,
                                i + 1,
                                *new_rule_set,
                                self.spec_context(),
                            ),
                            transactions@[i],
                        ));
                        if bt.state_transitions@[i].to_hash.0@ == ct.state_transitions@[i].to_hash.0@ {
                            crate::types::lemma_hash_eq_from_view(
                                bt.state_transitions@[i].to_hash,
                                ct.state_transitions@[i].to_hash,
                            );
                        }
                    }
                    if analysis.baseline_result.final_hash.0@
                        == analysis.comparison_result.final_hash.0@ {
                        crate::types::lemma_hash_eq_from_view(
                            analysis.baseline_result.final_hash,
                            analysis.comparison_result.final_hash,
                        );
                    }
                }
                Ok(analysis.is_safe_migration())
            },
            Err(e) => Err(e),
        }
    }
}

/// Whether two byte strings are equal.
fn same_bytes(a: &Vec<u8>, b: &Vec<u8>) -> (r: bool)
    ensures
        r == (a@ == b@),
{
    if a.len() != b.len() {
        return false;
    }
    let mut i: usize = 0;
    while i < a.len()
        invariant
            a@.len() == b@.len(),
            i <= a@.len(),
            forall|j: int| 0 <= j < i ==> a@[j] == b@[j],
        decreases a@.len() - i,
    {
        if a[i] != b[i] {
            return false;
        }
        i = i + 1;
    }
    assert(a@ =~= b@);
    true
}

/// The flags and the difference list of an analysis agree with its two results.
pub open spec fn impact_consistent<S: State>(a: ImpactAnalysis<S>) -> bool {
    &&& a.identical_final_state == (encoding_of(a.baseline_result.final_state) == encoding_of(
        a.comparison_result.final_state,
    ))
    &&& a.identical_final_hash == (a.baseline_result.final_hash
        == a.comparison_result.final_hash)
    &&& differences_exact(
        a.differences@,
        a.baseline_result.execution_trace.state_transitions@,
        a.comparison_result.execution_trace.state_transitions@,
    )
}

/// A safe migration has equal final hashes and equal hashes after every
/// transition that both replays recorded.
pub proof fn lemma_migration_safety<S: State>(a: ImpactAnalysis<S>)
    requires
        impact_consistent(a),
        a.spec_is_safe(),
    ensures
        a.baseline_result.final_hash == a.comparison_result.final_hash,
        forall|i: int|
            0 <= i < a.baseline_result.execution_trace.state_transitions@.len() && i
                < a.comparison_result.execution_trace.state_transitions@.len() ==> (
            #[trigger] a.baseline_result.execution_trace.state_transitions@[i]).to_hash
                == a.comparison_result.execution_trace.state_transitions@[i].to_hash,
{
}

proof fn lemma_safe_migration_iff<S: State>(a: ImpactAnalysis<S>, n: int)
    requires
        impact_consistent(a),
        a.baseline_result.execution_trace.state_transitions@.len() == n,
        a.comparison_result.execution_trace.state_transitions@.len() == n,
    ensures
        a.spec_is_safe() <==> (a.identical_final_state && a.identical_final_hash && forall|i: int|
            0 <= i < n ==> (#[trigger] a.baseline_result.execution_trace.state_transitions@[i]).to_hash
                == a.comparison_result.execution_trace.state_transitions@[i].to_hash),
{
    if a.differences@.len() > 0 {
        let d = a.differences@[0];
        assert(a.baseline_result.execution_trace.state_transitions@[d.transaction_index as int].to_hash
            != a.comparison_result.execution_trace.state_transitions@[d.transaction_index as int].to_hash);
    }
}

/// Builder of a `ReplayEngine`; the initial state, rule set and context are required.
pub struct ReplayEngineBuilder<S: State, T: Transaction, R: RuleSet<S, T>> {
    initial_state: Option<S>,
    rule_set: Option<R>,
    context: Option<ExecutionContext>,
    checkpoint_interval: Option<usize>,
    _phantom_t: PhantomData<T>,
}

impl<S: State, T: Transaction, R: RuleSet<S, T>> ReplayEngineBuilder<S, T, R> {
    pub closed spec fn spec_initial(&self) -> Option<S> {
        self.initial_state
    }

    pub closed spec fn spec_rules(&self) -> Option<R> {
        self.rule_set
    }

    pub closed spec fn spec_context(&self) -> Option<ExecutionContext> {
        self.context
    }

    pub closed spec fn spec_interval(&self) -> Option<usize> {
        self.checkpoint_interval
    }

    pub fn new() -> (r: ReplayEngineBuilder<S, T, R>)
        ensures
            r.spec_initial() is None,
            r.spec_rules() is None,
            r.spec_context() is None,
            r.spec_interval() is None,
    {
        ReplayEngineBuilder {
            initial_state: None,
            rule_set: None,
            context: None,
            checkpoint_interval: None,
            _phantom_t: PhantomData,
        }
    }

    pub fn with_initial_state(self, state: S) -> (r: ReplayEngineBuilder<S, T, R>)
        ensures
            r.spec_initial() == Some(state),
            r.spec_rules() == self.spec_rules(),
            r.spec_context() == self.spec_context(),
            r.spec_interval() == self.spec_interval(),
    {
        let mut b = self;
        b.initial_state = Some(state);
        b
    }

    pub fn with_rule_set(self, rule_set: R) -> (r: ReplayEngineBuilder<S, T, R>)
        ensures
            r.spec_rules() == Some(rule_set),
            r.spec_initial() == self.spec_initial(),
            r.spec_context() == self.spec_context(),
            r.spec_interval() == self.spec_interval(),
    {
        let mut b = self;
        b.rule_set = Some(rule_set);
        b
    }

    pub fn with_context(self, context: ExecutionContext) -> (r: ReplayEngineBuilder<S, T, R>)
        ensures
            r.spec_context() == Some(context),
            r.spec_initial() == self.spec_initial(),
            r.spec_rules() == self.spec_rules(),
            r.spec_interval() == self.spec_interval(),
    {
        let mut b = self;
        b.context = Some(context);
        b
    }

    /// Sets a fresh context frozen at `time` and seeded with `seed`.
    pub fn with_time_and_seed(self, time: Timestamp, seed: u64) -> (r: ReplayEngineBuilder<
        S,
        T,
        R,
    >)
        ensures
            r.spec_context() matches Some(c) && c.spec_now() == time && c.spec_seed() == seed
                && c.wf(),
            r.spec_initial() == self.spec_initial(),
            r.spec_rules() == self.spec_rules(),
            r.spec_interval() == self.spec_interval(),
    {
        let mut b = self;
        b.context = Some(ExecutionContext::new(time, seed));
        b
    }

    pub fn with_checkpoint_interval(self, interval: usize) -> (r: ReplayEngineBuilder<S, T, R>)
        ensures
            r.spec_interval() == Some(interval),
            r.spec_initial() == self.spec_initial(),
            r.spec_rules() == self.spec_rules(),
            r.spec_context() == self.spec_context(),
    {
        let mut b = self;
        b.checkpoint_interval = Some(interval);
        b
    }

    /// The engine, or the name of the first missing part.
    pub fn build(self) -> (r: Result<ReplayEngine<S, T, R>, String>)
        ensures
            r is Ok <==> self.spec_initial() is Some && self.spec_rules() is Some
                && self.spec_context() is Some,
            self.spec_initial() is None ==> (r matches Err(m) && m@ == "Initial state is required"@),
            self.spec_initial() is Some && self.spec_rules() is None ==> (r matches Err(m) && m@
                == "Rule set is required"@),
            self.spec_initial() is Some && self.spec_rules() is Some && self.spec_context() is None
                ==> (r matches Err(m) && m@ == "Execution context is required"@),
            r matches Ok(e) ==> {
                &&& e.spec_initial() == self.spec_initial()->Some_0
                &&& e.spec_rules() == self.spec_rules()->Some_0
                &&& e.spec_context() == self.spec_context()->Some_0
                &&& e.spec_interval() == self.spec_interval()
            },
    {
        proof {
            reveal_strlit("Initial state is required");
            reveal_strlit("Rule set is required");
            reveal_strlit("Execution context is required");
        }
        let initial_state = match self.initial_state {
            Some(s) => s,
            None => {
                return Err(String::from_str("Initial state is required"));
            },
        };
        let rule_set = match self.rule_set {
            Some(r) => r,
            None => {
                return Err(String::from_str("Rule set is required"));
            },
        };
        let context = match self.context {
            Some(c) => c,
            None => {
                return Err(String::from_str("Execution context is required"));
            },
        };
        match self.checkpoint_interval {
            Some(interval) => Ok(
                ReplayEngine::with_checkpointing(initial_state, rule_set, context, interval),
            ),
            None => Ok(ReplayEngine::new(initial_state, rule_set, context)),
        }
    }
}

impl<S: State, T: Transaction, R: RuleSet<S, T>> Default for ReplayEngineBuilder<S, T, R> {
    fn default() -> (r: ReplayEngineBuilder<S, T, R>)
        ensures
            r.spec_initial() is None,
            r.spec_rules() is None,
            r.spec_context() is None,
            r.spec_interval() is None,
    {
        ReplayEngineBuilder::new()
    }
}

/// Two replays of the same input, rules and context either both fail or
/// both succeed with equal final states, equal encodings and equal final
/// hashes.
pub proof fn lemma_replay_deterministic<S: State, T: Transaction, R: RuleSet<S, T>>(
    initial: S,
    txs: Seq<T>,
    rules: R,
    ctx: ExecutionContext,
    interval: int,
    r1: Result<ReplayResult<S>, ProcessingError>,
    r2: Result<ReplayResult<S>, ProcessingError>,
)
    requires
        replay_post(initial, txs, rules, ctx, interval, r1),
        replay_post(initial, txs, rules, ctx, interval, r2),
    ensures
        r1 is Ok <==> r2 is Ok,
        r1 is Ok ==> r1->Ok_0.final_state == r2->Ok_0.final_state,
        r1 is Ok ==> encoding_of(r1->Ok_0.final_state) == encoding_of(r2->Ok_0.final_state),
        r1 is Ok ==> r1->Ok_0.final_hash == r2->Ok_0.final_hash,
{
    if r1 is Ok {
        crate::types::lemma_hash_eq_from_view(r1->Ok_0.final_hash, r2->Ok_0.final_hash);
    }
}

/// After a successful replay the count of processed transactions and the
/// lengths of both trace lists equal the input's length, and the i-th
/// recorded transition carries the i-th transaction's identifier.
pub proof fn lemma_trace_complete<S: State, T: Transaction, R: RuleSet<S, T>>(
    res: ReplayResult<S>,
    initial: S,
    txs: Seq<T>,
    rules: R,
    ctx: ExecutionContext,
    interval: int,
)
    requires
        replay_result_matches(res, initial, txs, rules, ctx, interval, 0),
    ensures
        res.execution_trace.transactions_processed == txs.len(),
        res.execution_trace.state_transitions@.len() == txs.len(),
        res.execution_trace.rule_applications@.len() == txs.len(),
        forall|i: int|
            0 <= i < txs.len() ==> (#[trigger] res.execution_trace.state_transitions@[i]).transaction_id@
                == crate::traits::transaction_id_of(txs[i]),
{
    assert forall|i: int| 0 <= i < txs.len() implies (#[trigger] res.execution_trace.state_transitions@[i]).transaction_id@
        == crate::traits::transaction_id_of(txs[i]) by {
        assert(crate::transaction_processor::info_matches(
            res.execution_trace.state_transitions@[0 + i],
            crate::transaction_processor::state_after(initial, txs, i, rules, ctx),
            crate::transaction_processor::state_after(initial, txs, i + 1, rules, ctx),
            txs[i],
        ));
    }
}

/// Replays of two orderings whose first transactions differ record
/// different first transitions: the trace follows the input order.
pub proof fn lemma_order_sensitivity<S: State, T: Transaction, R: RuleSet<S, T>>(
    res1: ReplayResult<S>,
    res2: ReplayResult<S>,
    initial: S,
    txs1: Seq<T>,
    txs2: Seq<T>,
    rules: R,
    ctx: ExecutionContext,
    interval: int,
)
    requires
        replay_result_matches(res1, initial, txs1, rules, ctx, interval, 0),
        replay_result_matches(res2, initial, txs2, rules, ctx, interval, 0),
        txs1.len() > 0,
        txs2.len() > 0,
        crate::traits::transaction_id_of(txs1[0]) != crate::traits::transaction_id_of(txs2[0]),
    ensures
        res1.execution_trace.state_transitions@[0].transaction_id@
            != res2.execution_trace.state_transitions@[0].transaction_id@,
{
    lemma_trace_complete(res1, initial, txs1, rules, ctx, interval);
    lemma_trace_complete(res2, initial, txs2, rules, ctx, interval);
    assert(res1.execution_trace.state_transitions@[0].transaction_id@
        == crate::traits::transaction_id_of(txs1[0]));
    assert(res2.execution_trace.state_transitions@[0].transaction_id@
        == crate::traits::transaction_id_of(txs2[0]));
}

/// Workers that disagree on a final hash never yield a success.
pub proof fn lemma_disagreement_is_error<S>(
    results: Seq<Result<ReplayResult<S>, ProcessingError>>,
    r: Result<ReplayResult<S>, ProcessingError>,
    i: int,
)
    requires
        0 <= i < results.len(),
        results[i] is Ok,
        results[0] is Ok,
        results[i]->Ok_0.final_hash != results[0]->Ok_0.final_hash,
        r is Ok ==> forall|k: int|
            0 <= k < results.len() ==> (#[trigger] results[k]) is Ok && results[k]->Ok_0.final_hash
                == results[0]->Ok_0.final_hash,
    ensures
        r is Err,
{
    if r is Ok {
        assert(results[i]->Ok_0.final_hash == results[0]->Ok_0.final_hash);
    }
}

} // verus!
