//! Drives a sequence of transactions through a state manager and records
//! the execution trace in lockstep.

use vstd::prelude::*;
use crate::context::ExecutionContext;
use crate::error::ProcessingError;
use crate::hasher::state_digest;
use crate::state_manager::{
    Checkpoint, StateManager, applied_state, apply_succeeds, checkpoint_intact,
};
use crate::traits::{
    RuleSet, State, Transaction, duplicate, outcome, timestamp_of, transaction_id_of, valid_state,
    version_of, well_formed,
};
use crate::types::{
    CheckpointInfo, ExecutionTrace, RuleApplication, StateHash, StateTransition,
    StateTransitionInfo, Timestamp,
};

verus! {

/// The state after one transaction, if it is accepted.
pub open spec fn step<S: State, T: Transaction, R: RuleSet<S, T>>(
    state: S,
    tx: T,
    rules: R,
    ctx: ExecutionContext,
) -> Option<S> {
    if apply_succeeds(state, tx, rules, ctx) {
        Some(applied_state(state, tx, rules, ctx))
    } else {
        None
    }
}

/// The state after a whole sequence, if every transaction is accepted.
pub open spec fn replay_spec<S: State, T: Transaction, R: RuleSet<S, T>>(
    initial: S,
    txs: Seq<T>,
    rules: R,
    ctx: ExecutionContext,
) -> Option<S>
    decreases txs.len(),
{
    if txs.len() == 0 {
        Some(initial)
    } else {
        match replay_spec(initial, txs.drop_last(), rules, ctx) {
            Some(s) => step(s, txs.last(), rules, ctx),
            None => None,
        }
    }
}

/// The state after the first `k` transactions.
pub open spec fn state_after<S: State, T: Transaction, R: RuleSet<S, T>>(
    initial: S,
    txs: Seq<T>,
    k: int,
    rules: R,
    ctx: ExecutionContext,
) -> S {
    replay_spec(initial, txs.take(k), rules, ctx)->Some_0
}

/// A trace entry records the hashes around a transaction and its identifier.
pub open spec fn info_matches<S: State, T: Transaction>(
    info: StateTransitionInfo,
    from: S,
    to: S,
    tx: T,
) -> bool {
    &&& info.from_hash.0@ == state_digest(from)
    &&& info.to_hash.0@ == state_digest(to)
    &&& info.transaction_id@ == transaction_id_of(tx)
}

/// A rule application records the rule version, the transaction and its instant.
pub open spec fn application_matches<S: State, T: Transaction, R: RuleSet<S, T>>(
    app: RuleApplication,
    rules: R,
    tx: T,
) -> bool {
    &&& app.rule_version == version_of(rules)
    &&& app.transaction_id@ == transaction_id_of(tx)
    &&& app.timestamp == timestamp_of(tx)
}

/// The trace entries from position `base` on record `txs`, replayed from
/// `initial`, one per transaction, for the first `n` of them.
pub open spec fn trace_records<S: State, T: Transaction, R: RuleSet<S, T>>(
    trace: ExecutionTrace,
    base: int,
    initial: S,
    txs: Seq<T>,
    n: int,
    rules: R,
    ctx: ExecutionContext,
) -> bool {
    &&& trace.state_transitions@.len() == base + n
    &&& trace.rule_applications@.len() == base + n
    &&& forall|i: int|
        0 <= i < n ==> #[trigger] info_matches(
            trace.state_transitions@[base + i],
            state_after(initial, txs, i, rules, ctx),
            state_after(initial, txs, i + 1, rules, ctx),
            txs[i],
        )
    &&& forall|i: int|
        0 <= i < n ==> #[trigger] application_matches(trace.rule_applications@[base + i], rules, txs[i])
}

proof fn lemma_replay_step<S: State, T: Transaction, R: RuleSet<S, T>>(
    initial: S,
    txs: Seq<T>,
    i: int,
    rules: R,
    ctx: ExecutionContext,
)
    requires
        0 <= i < txs.len(),
    ensures
        replay_spec(initial, txs.take(i + 1), rules, ctx) == match replay_spec(
            initial,
            txs.take(i),
            rules,
            ctx,
        ) {
            Some(s) => step(s, txs[i], rules, ctx),
            None => None,
        },
{
    assert(txs.take(i + 1).drop_last() =~= txs.take(i));
    assert(txs.take(i + 1).last() == txs[i]);
}

/// A checkpoint entry taken after the first `k` transactions.
pub open spec fn checkpoint_matches<S: State, T: Transaction, R: RuleSet<S, T>>(
    info: CheckpointInfo,
    initial: S,
    txs: Seq<T>,
    k: int,
    count0: int,
    rules: R,
    ctx: ExecutionContext,
) -> bool {
    &&& info.transaction_index == count0 + k
    &&& info.hash.0@ == state_digest(state_after(initial, txs, k, rules, ctx))
    &&& info.timestamp == timestamp_of(txs[k - 1])
}

/// The checkpoint entries from position `cbase` on are the `c` checkpoints
/// taken after every `interval`-th transaction.
pub open spec fn checkpoint_records<S: State, T: Transaction, R: RuleSet<S, T>>(
    trace: ExecutionTrace,
    cbase: int,
    initial: S,
    txs: Seq<T>,
    c: int,
    interval: int,
    count0: int,
    rules: R,
    ctx: ExecutionContext,
) -> bool {
    &&& trace.checkpoints@.len() == cbase + c
    &&& forall|j: int|
        0 <= j < c ==> #[trigger] checkpoint_matches(
            trace.checkpoints@[cbase + j],
            initial,
            txs,
            (j + 1) * interval,
            count0,
            rules,
            ctx,
        )
}

/// The number of checkpoints taken over `n` transactions.
pub open spec fn checkpoint_count(n: int, interval: int) -> int {
    if interval > 0 {
        n / interval
    } else {
        0
    }
}

/// Once a prefix is rejected, so is every longer prefix.
proof fn lemma_replay_rejected<S: State, T: Transaction, R: RuleSet<S, T>>(
    initial: S,
    txs: Seq<T>,
    i: int,
    rules: R,
    ctx: ExecutionContext,
)
    requires
        0 <= i <= txs.len(),
        replay_spec(initial, txs.take(i), rules, ctx) is None,
    ensures
        replay_spec(initial, txs, rules, ctx) is None,
    decreases txs.len() - i,
{
    if i < txs.len() {
        lemma_replay_step(initial, txs, i, rules, ctx);
        lemma_replay_rejected(initial, txs, i + 1, rules, ctx);
    } else {
        assert(txs.take(i) =~= txs);
    }
}

/// Applies transactions and keeps the execution trace.
#[derive(Debug)]
pub struct TransactionProcessor<S: State> {
    state_manager: StateManager<S>,
    execution_trace: ExecutionTrace,
}

impl<S: State> TransactionProcessor<S> {
    /// The manager's state is valid and the two trace lists have equal length.
    pub closed spec fn wf(&self) -> bool {
        &&& self.state_manager.wf()
        &&& self.execution_trace.state_transitions@.len()
            == self.execution_trace.rule_applications@.len()
    }

    pub closed spec fn spec_manager(&self) -> StateManager<S> {
        self.state_manager
    }

    pub closed spec fn spec_trace(&self) -> ExecutionTrace {
        self.execution_trace
    }

    pub open spec fn spec_state(&self) -> S {
        self.spec_manager().spec_state()
    }

    /// A processor over a valid initial state, with an empty trace.
    pub fn new(initial_state: S) -> (r: Result<TransactionProcessor<S>, ProcessingError>)
        ensures
            r is Ok <==> valid_state(initial_state),
            r matches Ok(p) ==> {
                &&& p.wf()
                &&& p.spec_state() == initial_state
                &&& p.spec_manager().spec_count() == 0
                &&& p.spec_manager().spec_checkpoints().len() == 0
                &&& p.spec_trace().transactions_processed == 0
                &&& p.spec_trace().state_transitions@.len() == 0
                &&& p.spec_trace().rule_applications@.len() == 0
                &&& p.spec_trace().checkpoints@.len() == 0
            },
            r matches Err(e) ==> e is TransactionFailed,
    {
        match StateManager::new(initial_state) {
            Ok(state_manager) => Ok(
                TransactionProcessor {
                    state_manager,
                    execution_trace: ExecutionTrace {
                        transactions_processed: 0,
                        state_transitions: Vec::new(),
                        rule_applications: Vec::new(),
                        checkpoints: Vec::new(),
                    },
                },
            ),
            Err(e) => {
                let m = e.message();
                Err(
                    ProcessingError::TransactionFailed {
                        transaction_id: String::from_str("initial"),
                        reason: crate::error::joined(
                            "Failed to initialize state manager: ",
                            m.as_str(),
                        ),
                    },
                )
            },
        }
    }

    /// A processor resuming from an intact checkpoint: its state, and its
    /// count as the count of processed transactions.
    pub fn from_checkpoint(checkpoint: &Checkpoint<S>) -> (r: Result<
        TransactionProcessor<S>,
        ProcessingError,
    >)
        ensures
            r is Ok <==> checkpoint_intact(*checkpoint),
            r matches Ok(p) ==> {
                &&& p.wf()
                &&& p.spec_state() == checkpoint.state
                &&& p.spec_manager().spec_count() == checkpoint.transaction_index
                &&& p.spec_manager().spec_checkpoints().len() == 0
                &&& p.spec_trace().transactions_processed == checkpoint.transaction_index
                &&& p.spec_trace().state_transitions@.len() == 0
                &&& p.spec_trace().rule_applications@.len() == 0
                &&& p.spec_trace().checkpoints@.len() == 0
            },
            r matches Err(e) ==> e is TransactionFailed,
    {
        let mut state_manager = match StateManager::new(duplicate(&checkpoint.state)) {
            Ok(m) => m,
            Err(e) => {
                let m = e.message();
                return Err(
                    ProcessingError::TransactionFailed {
                        transaction_id: String::from_str("checkpoint"),
                        reason: crate::error::joined(
                            "Failed to initialize state manager from checkpoint: ",
                            m.as_str(),
                        ),
                    },
                );
            },
        };
        match state_manager.restore_checkpoint(checkpoint) {
            Ok(()) => {},
            Err(e) => {
                let m = e.message();
                return Err(
                    ProcessingError::TransactionFailed {
                        transaction_id: String::from_str("checkpoint"),
                        reason: crate::error::joined("Failed to restore checkpoint: ", m.as_str()),
                    },
                );
            },
        }
        Ok(
            TransactionProcessor {
                state_manager,
                execution_trace: ExecutionTrace {
                    transactions_processed: checkpoint.transaction_index,
                    state_transitions: Vec::new(),
                    rule_applications: Vec::new(),
                    checkpoints: Vec::new(),
                },
            },
        )
    }

    /// Applies one transaction and, on success, appends to both trace lists
    /// and counts it.  On error nothing changes.
    pub fn process_transaction<T: Transaction, R: RuleSet<S, T>>(
        &mut self,
        transaction: &T,
        rule_set: &R,
        context: &ExecutionContext,
    ) -> (r: Result<StateTransition<S>, ProcessingError>)
        requires
            old(self).wf(),
            old(self).spec_manager().spec_count() < usize::MAX,
            old(self).spec_trace().transactions_processed < usize::MAX,
        ensures
            final(self).wf(),
            r is Ok <==> apply_succeeds(old(self).spec_state(), *transaction, *rule_set, *context),
            r is Err ==> *final(self) == *old(self),
            !well_formed(*transaction) ==> (r matches Err(
                ProcessingError::TransactionFailed { transaction_id: id, .. },
            ) && id@ == transaction_id_of(*transaction)),
            well_formed(*transaction) && outcome(
                *rule_set,
                old(self).spec_state(),
                *transaction,
                *context,
            ) is Err ==> r == Err::<StateTransition<S>, ProcessingError>(
                outcome(*rule_set, old(self).spec_state(), *transaction, *context)->Err_0,
            ),
            r matches Ok(t) ==> {
                let old_trace = old(self).spec_trace();
                let new_trace = final(self).spec_trace();
                &&& final(self).spec_state() == applied_state(
                    old(self).spec_state(),
                    *transaction,
                    *rule_set,
                    *context,
                )
                &&& final(self).spec_manager().spec_count() == old(self).spec_manager().spec_count()
                    + 1
                &&& final(self).spec_manager().spec_checkpoints() == old(
                    self,
                ).spec_manager().spec_checkpoints()
                &&& new_trace.transactions_processed == old_trace.transactions_processed + 1
                &&& new_trace.state_transitions@.drop_last() == old_trace.state_transitions@
                &&& new_trace.rule_applications@.drop_last() == old_trace.rule_applications@
                &&& new_trace.checkpoints == old_trace.checkpoints
                &&& new_trace.state_transitions@.len() == old_trace.state_transitions@.len() + 1
                &&& new_trace.rule_applications@.len() == old_trace.rule_applications@.len() + 1
                &&& info_matches(
                    new_trace.state_transitions@.last(),
                    old(self).spec_state(),
                    final(self).spec_state(),
                    *transaction,
                )
                &&& application_matches(new_trace.rule_applications@.last(), *rule_set, *transaction)
                &&& t.from_state == old(self).spec_state()
                &&& t.to_state == final(self).spec_state()
                &&& t.from_hash.0@ == state_digest(old(self).spec_state())
                &&& t.to_hash.0@ == state_digest(final(self).spec_state())
                &&& t.transaction_id@ == transaction_id_of(*transaction)
            },
    {
        let transition = match self.state_manager.apply_transaction(
            transaction,
            rule_set,
            context,
        ) {
            Ok(t) => t,
            Err(e) => {
                return Err(e);
            },
        };
        self.execution_trace.state_transitions.push(
            StateTransitionInfo {
                from_hash: transition.from_hash,
                to_hash: transition.to_hash,
                transaction_id: transition.transaction_id.clone(),
            },
        );
        self.execution_trace.rule_applications.push(
            RuleApplication {
                rule_version: rule_set.version(),
                transaction_id: transaction.id().to_owned(),
                timestamp: transaction.timestamp(),
            },
        );
        self.execution_trace.transactions_processed = self.execution_trace.transactions_processed
            + 1;
        Ok(transition)
    }

    /// Applies the transactions in order and stops at the first error,
    /// which it returns; the state and the trace then reflect the
    /// transactions before it.
    pub fn process_transactions<T: Transaction, R: RuleSet<S, T>>(
        &mut self,
        transactions: &[T],
        rule_set: &R,
        context: &ExecutionContext,
    ) -> (r: Result<Vec<StateTransition<S>>, ProcessingError>)
        requires
            old(self).wf(),
            old(self).spec_manager().spec_count() + transactions@.len() <= usize::MAX,
            old(self).spec_trace().transactions_processed + transactions@.len() <= usize::MAX,
        ensures
            final(self).wf(),
            final(self).spec_trace().checkpoints == old(self).spec_trace().checkpoints,
            final(self).spec_manager().spec_checkpoints() == old(
                self,
            ).spec_manager().spec_checkpoints(),
            r is Ok <==> replay_spec(
                old(self).spec_state(),
                transactions@,
                *rule_set,
                *context,
            ) is Some,
            r matches Ok(ts) ==> {
                &&& final(self).spec_state() == replay_spec(
                    old(self).spec_state(),
                    transactions@,
                    *rule_set,
                    *context,
                )->Some_0
                &&& ts@.len() == transactions@.len()
                &&& final(self).spec_manager().spec_count() == old(self).spec_manager().spec_count()
                    + transactions@.len()
                &&& final(self).spec_trace().transactions_processed == old(
                    self,
                ).spec_trace().transactions_processed + transactions@.len()
                &&& trace_records(
                    final(self).spec_trace(),
                    old(self).spec_trace().state_transitions@.len() as int,
                    old(self).spec_state(),
                    transactions@,
                    transactions@.len() as int,
                    *rule_set,
                    *context,
                )
            },
            r is Err ==> exists|k: int|
                {
                    &&& 0 <= k < transactions@.len()
                    &&& replay_spec(
                        old(self).spec_state(),
                        transactions@.take(k),
                        *rule_set,
                        *context,
                    ) is Some
                    &&& step(
                        state_after(old(self).spec_state(), transactions@, k, *rule_set, *context),
                        transactions@[k],
                        *rule_set,
                        *context,
                    ) is None
                    &&& #[trigger] final(self).spec_state() == state_after(
                        old(self).spec_state(),
                        transactions@,
                        k,
                        *rule_set,
                        *context,
                    )
                    &&& final(self).spec_trace().transactions_processed == old(
                        self,
                    ).spec_trace().transactions_processed + k
                    &&& trace_records(
                        final(self).spec_trace(),
                        old(self).spec_trace().state_transitions@.len() as int,
                        old(self).spec_state(),
                        transactions@,
                        k,
                        *rule_set,
                        *context,
                    )
                },
    {
        let ghost s0 = self.spec_state();
        let ghost base = self.execution_trace.state_transitions@.len() as int;
        let ghost old_count = self.state_manager.spec_count();
        let ghost old_processed = self.execution_trace.transactions_processed;
        let ghost old_checkpoints = self.execution_trace.checkpoints;
        let ghost old_manager_checkpoints = self.state_manager.spec_checkpoints();
        let mut transitions: Vec<StateTransition<S>> = Vec::new();
        let mut i: usize = 0;
        assert(transactions@.take(0) =~= Seq::<T>::empty());
        while i < transactions.len()
            invariant
                self.wf(),
                i <= transactions@.len(),
                s0 == old(self).spec_state(),
                base == old(self).spec_trace().state_transitions@.len(),
                old_count == old(self).spec_manager().spec_count(),
                old_processed == old(self).spec_trace().transactions_processed,
                old_checkpoints == old(self).spec_trace().checkpoints,
                old_manager_checkpoints == old(self).spec_manager().spec_checkpoints(),
                old_count + transactions@.len() <= usize::MAX,
                old_processed + transactions@.len() <= usize::MAX,
                replay_spec(s0, transactions@.take(i as int), *rule_set, *context) == Some(
                    self.spec_state(),
                ),
                self.spec_manager().spec_count() == old_count + i,
                self.spec_trace().transactions_processed == old_processed + i,
                self.spec_trace().checkpoints == old_checkpoints,
                self.spec_manager().spec_checkpoints() == old_manager_checkpoints,
                transitions@.len() == i,
                trace_records(self.spec_trace(), base, s0, transactions@, i as int, *rule_set, *context),
            decreases transactions@.len() - i,
        {
            let ghost before = self.spec_trace();
            let ghost state_i = self.spec_state();
            proof {
                lemma_replay_step(s0, transactions@, i as int, *rule_set, *context);
            }
            match self.process_transaction(&transactions[i], rule_set, context) {
                Ok(t) => {
                    transitions.push(t);
                },
                Err(e) => {
                    assert(self.spec_trace() == before);
                    assert(self.spec_trace().checkpoints == old_checkpoints);
                    assert(state_after(s0, transactions@, i as int, *rule_set, *context)
                        == self.spec_state());
                    proof {
                        lemma_replay_rejected(s0, transactions@, i + 1, *rule_set, *context);
                    }
                    return Err(e);
                },
            }
            proof {
                let after = self.spec_trace();
                assert(state_after(s0, transactions@, i + 1, *rule_set, *context)
                    == self.spec_state());
                assert forall|j: int| 0 <= j < i + 1 implies #[trigger] info_matches(
                    after.state_transitions@[base + j],
                    state_after(s0, transactions@, j, *rule_set, *context),
                    state_after(s0, transactions@, j + 1, *rule_set, *context),
                    transactions@[j],
                ) by {
                    if j < i {
                        assert(after.state_transitions@[base + j]
                            == before.state_transitions@[base + j]);
                    }
                }
                assert forall|j: int| 0 <= j < i + 1 implies #[trigger] application_matches(
                    after.rule_applications@[base + j],
                    *rule_set,
                    transactions@[j],
                ) by {
                    if j < i {
                        assert(after.rule_applications@[base + j]
                            == before.rule_applications@[base + j]);
                    }
                }
            }
            i = i + 1;
        }
        assert(transactions@.take(i as int) =~= transactions@);
        Ok(transitions)
    }

    /// Like `process_transactions`, and after every `checkpoint_interval`-th
    /// successful transaction of this call, takes a checkpoint stamped with
    /// that transaction's instant and records it in the trace.  An interval
    /// of 0 takes none.
    pub fn process_transactions_with_checkpoints<T: Transaction, R: RuleSet<S, T>>(
        &mut self,
        transactions: &[T],
        rule_set: &R,
        context: &ExecutionContext,
        checkpoint_interval: usize,
    ) -> (r: Result<Vec<StateTransition<S>>, ProcessingError>)
        requires
            old(self).wf(),
            old(self).spec_manager().spec_count() + transactions@.len() <= usize::MAX,
            old(self).spec_trace().transactions_processed + transactions@.len() <= usize::MAX,
        ensures
            final(self).wf(),
            r is Ok <==> replay_spec(
                old(self).spec_state(),
                transactions@,
                *rule_set,
                *context,
            ) is Some,
            r matches Ok(ts) ==> {
                &&& final(self).spec_state() == replay_spec(
                    old(self).spec_state(),
                    transactions@,
                    *rule_set,
                    *context,
                )->Some_0
                &&& ts@.len() == transactions@.len()
                &&& final(self).spec_manager().spec_count() == old(self).spec_manager().spec_count()
                    + transactions@.len()
                &&& final(self).spec_trace().transactions_processed == old(
                    self,
                ).spec_trace().transactions_processed + transactions@.len()
                &&& trace_records(
                    final(self).spec_trace(),
                    old(self).spec_trace().state_transitions@.len() as int,
                    old(self).spec_state(),
                    transactions@,
                    transactions@.len() as int,
                    *rule_set,
                    *context,
                )
                &&& checkpoint_records(
                    final(self).spec_trace(),
                    old(self).spec_trace().checkpoints@.len() as int,
                    old(self).spec_state(),
                    transactions@,
                    checkpoint_count(transactions@.len() as int, checkpoint_interval as int),
                    checkpoint_interval as int,
                    old(self).spec_manager().spec_count() as int,
                    *rule_set,
                    *context,
                )
            },
            r is Err ==> exists|k: int|
                {
                    &&& 0 <= k < transactions@.len()
                    &&& replay_spec(
                        old(self).spec_state(),
                        transactions@.take(k),
                        *rule_set,
                        *context,
                    ) is Some
                    &&& step(
                        state_after(old(self).spec_state(), transactions@, k, *rule_set, *context),
                        transactions@[k],
                        *rule_set,
                        *context,
                    ) is None
                    &&& #[trigger] final(self).spec_state() == state_after(
                        old(self).spec_state(),
                        transactions@,
                        k,
                        *rule_set,
                        *context,
                    )
                    &&& final(self).spec_trace().transactions_processed == old(
                        self,
                    ).spec_trace().transactions_processed + k
                    &&& trace_records(
                        final(self).spec_trace(),
                        old(self).spec_trace().state_transitions@.len() as int,
                        old(self).spec_state(),
                        transactions@,
                        k,
                        *rule_set,
                        *context,
                    )
                    &&& checkpoint_records(
                        final(self).spec_trace(),
                        old(self).spec_trace().checkpoints@.len() as int,
                        old(self).spec_state(),
                        transactions@,
                        checkpoint_count(k, checkpoint_interval as int),
                        checkpoint_interval as int,
                        old(self).spec_manager().spec_count() as int,
                        *rule_set,
                        *context,
                    )
                },
    {
        let ghost s0 = self.spec_state();
        let ghost base = self.execution_trace.state_transitions@.len() as int;
        let ghost cbase = self.execution_trace.checkpoints@.len() as int;
        let ghost old_count = self.state_manager.spec_count();
        let ghost old_processed = self.execution_trace.transactions_processed;
        let mut transitions: Vec<StateTransition<S>> = Vec::new();
        let mut i: usize = 0;
        let mut since: usize = 0;
        let ghost mut c: int = 0;
        assert(transactions@.take(0) =~= Seq::<T>::empty());
        while i < transactions.len()
            invariant
                self.wf(),
                i <= transactions@.len(),
                s0 == old(self).spec_state(),
                base == old(self).spec_trace().state_transitions@.len(),
                cbase == old(self).spec_trace().checkpoints@.len(),
                old_count == old(self).spec_manager().spec_count(),
                old_processed == old(self).spec_trace().transactions_processed,
                old_count + transactions@.len() <= usize::MAX,
                old_processed + transactions@.len() <= usize::MAX,
                replay_spec(s0, transactions@.take(i as int), *rule_set, *context) == Some(
                    self.spec_state(),
                ),
                self.spec_manager().spec_count() == old_count + i,
                self.spec_trace().transactions_processed == old_processed + i,
                transitions@.len() == i,
                trace_records(self.spec_trace(), base, s0, transactions@, i as int, *rule_set, *context),
                checkpoint_interval > 0 ==> i == c * checkpoint_interval + since && since
                    < checkpoint_interval,
                checkpoint_interval == 0 ==> c == 0,
                c >= 0,
                since <= i,
                checkpoint_records(
                    self.spec_trace(),
                    cbase,
                    s0,
                    transactions@,
                    c,
                    checkpoint_interval as int,
                    old_count as int,
                    *rule_set,
                    *context,
                ),
            decreases transactions@.len() - i,
        {
            let ghost before = self.spec_trace();
            proof {
                lemma_replay_step(s0, transactions@, i as int, *rule_set, *context);
            }
            match self.process_transaction(&transactions[i], rule_set, context) {
                Ok(t) => {
                    transitions.push(t);
                },
                Err(e) => {
                    assert(self.spec_trace() == before);
                    assert(state_after(s0, transactions@, i as int, *rule_set, *context)
                        == self.spec_state());
                    proof {
                        lemma_replay_rejected(s0, transactions@, i + 1, *rule_set, *context);
                        if checkpoint_interval > 0 {
                            vstd::arithmetic::div_mod::lemma_fundamental_div_mod_converse(
                                i as int,
                                checkpoint_interval as int,
                                c,
                                since as int,
                            );
                        }
                    }
                    return Err(e);
                },
            }
            proof {
                let after = self.spec_trace();
                assert(state_after(s0, transactions@, i + 1, *rule_set, *context)
                    == self.spec_state());
                assert forall|j: int| 0 <= j < i + 1 implies #[trigger] info_matches(
                    after.state_transitions@[base + j],
                    state_after(s0, transactions@, j, *rule_set, *context),
                    state_after(s0, transactions@, j + 1, *rule_set, *context),
                    transactions@[j],
                ) by {
                    if j < i {
                        assert(after.state_transitions@[base + j]
                            == before.state_transitions@[base + j]);
                    }
                }
                assert forall|j: int| 0 <= j < i + 1 implies #[trigger] application_matches(
                    after.rule_applications@[base + j],
                    *rule_set,
                    transactions@[j],
                ) by {
                    if j < i {
                        assert(after.rule_applications@[base + j]
                            == before.rule_applications@[base + j]);
                    }
                }
            }
            if checkpoint_interval > 0 && since + 1 == checkpoint_interval {
                let ghost before_cp = self.spec_trace();
                let timestamp = transactions[i].timestamp();
                let checkpoint = self.create_checkpoint(timestamp);
                self.execution_trace.checkpoints.push(
                    CheckpointInfo {
                        transaction_index: checkpoint.transaction_index,
                        hash: checkpoint.hash,
                        timestamp: checkpoint.timestamp,
                    },
                );
                proof {
                    let after = self.spec_trace();
                    assert((c + 1) * checkpoint_interval == c * checkpoint_interval
                        + checkpoint_interval) by (nonlinear_arith);
                    assert forall|j: int| 0 <= j < c + 1 implies #[trigger] checkpoint_matches(
                        after.checkpoints@[cbase + j],
                        s0,
                        transactions@,
                        (j + 1) * checkpoint_interval,
                        old_count as int,
                        *rule_set,
                        *context,
                    ) by {
                        if j < c {
                            assert(after.checkpoints@[cbase + j] == before_cp.checkpoints@[cbase
                                + j]);
                        }
                    }
                    c = c + 1;
                }
                since = 0;
            } else {
                since = since + 1;
            }
            i = i + 1;
        }
        assert(transactions@.take(i as int) =~= transactions@);
        proof {
            if checkpoint_interval > 0 {
                vstd::arithmetic::div_mod::lemma_fundamental_div_mod_converse(
                    i as int,
                    checkpoint_interval as int,
                    c,
                    since as int,
                );
            }
        }
        Ok(transitions)
    }

    pub fn current_state(&self) -> (r: &S)
        ensures
            *r == self.spec_state(),
    {
        self.state_manager.current_state()
    }

    pub fn current_hash(&self) -> (r: StateHash)
        ensures
            r.0@ == state_digest(self.spec_state()),
    {
        self.state_manager.current_hash()
    }

    pub fn execution_trace(&self) -> (r: &ExecutionTrace)
        ensures
            *r == self.spec_trace(),
    {
        &self.execution_trace
    }

    /// The final state and the trace.
    pub fn into_result(self) -> (r: (S, ExecutionTrace))
        ensures
            r.0 == self.spec_state(),
            r.1 == self.spec_trace(),
    {
        let state = duplicate(self.state_manager.current_state());
        (state, self.execution_trace)
    }

    pub fn transactions_processed(&self) -> (r: usize)
        ensures
            r == self.spec_trace().transactions_processed,
    {
        self.execution_trace.transactions_processed
    }

    /// Snapshots the current state through the manager.
    pub fn create_checkpoint(&mut self, timestamp: Timestamp) -> (r: Checkpoint<S>)
        requires
            old(self).wf(),
        ensures
            final(self).wf(),
            r.state == old(self).spec_state(),
            r.hash.0@ == state_digest(old(self).spec_state()),
            r.transaction_index == old(self).spec_manager().spec_count(),
            r.timestamp == timestamp,
            final(self).spec_state() == old(self).spec_state(),
            final(self).spec_manager().spec_count() == old(self).spec_manager().spec_count(),
            final(self).spec_manager().spec_checkpoints() == old(
                self,
            ).spec_manager().spec_checkpoints().push(r),
            final(self).spec_trace() == old(self).spec_trace(),
    {
        self.state_manager.create_checkpoint(timestamp)
    }

    pub fn state_manager(&self) -> (r: &StateManager<S>)
        ensures
            *r == self.spec_manager(),
    {
        &self.state_manager
    }

    pub fn state_manager_mut(&mut self) -> (r: &mut StateManager<S>) {
        &mut self.state_manager
    }
}

} // verus!
