//! The owner of the current state: applies transactions atomically, takes
//! and restores checkpoints.

use vstd::prelude::*;
use vstd::string::StringExecFns;
use crate::context::ExecutionContext;
use crate::error::{ProcessingError, StateError, joined};
use crate::hasher::{StateHasher, state_digest};
use crate::traits::{RuleSet, State, Transaction, duplicate, outcome, transaction_id_of, valid_state, well_formed};
use crate::types::{StateHash, StateTransition, Timestamp};

verus! {

/// A snapshot of the state at a transaction boundary.
#[derive(Debug, Clone)]
pub struct Checkpoint<S> {
    pub state: S,
    pub hash: StateHash,
    pub transaction_index: usize,
    pub timestamp: Timestamp,
}

/// Two states and their hashes.
#[derive(Debug, Clone)]
pub struct StateDiff<S> {
    pub from_state: S,
    pub to_state: S,
    pub from_hash: StateHash,
    pub to_hash: StateHash,
}

/// A checkpoint may be restored when its state is valid and its hash is the
/// hash of its state.
pub open spec fn checkpoint_intact<S: State>(cp: Checkpoint<S>) -> bool {
    valid_state(cp.state) && cp.hash.0@ == state_digest(cp.state)
}

/// Whether applying `tx` to `state` under `rules` succeeds: the transaction
/// is well formed, the rules accept it, and the new state is valid.
pub open spec fn apply_succeeds<S: State, T: Transaction, R: RuleSet<S, T>>(
    state: S,
    tx: T,
    rules: R,
    ctx: ExecutionContext,
) -> bool {
    well_formed(tx) && outcome(rules, state, tx, ctx) is Ok && valid_state(
        outcome(rules, state, tx, ctx)->Ok_0,
    )
}

/// The state that a successful application yields.
pub open spec fn applied_state<S: State, T: Transaction, R: RuleSet<S, T>>(
    state: S,
    tx: T,
    rules: R,
    ctx: ExecutionContext,
) -> S {
    outcome(rules, state, tx, ctx)->Ok_0
}

/// Owns the current state, its checkpoints and the count of applied transactions.
#[derive(Debug, Clone)]
pub struct StateManager<S: State> {
    current_state: S,
    hasher: StateHasher,
    checkpoints: Vec<Checkpoint<S>>,
    transaction_count: usize,
}

impl<S: State> StateManager<S> {
    /// The current state has been validated.
    pub closed spec fn wf(&self) -> bool {
        valid_state(self.current_state)
    }

    pub closed spec fn spec_state(&self) -> S {
        self.current_state
    }

    pub closed spec fn spec_count(&self) -> usize {
        self.transaction_count
    }

    pub closed spec fn spec_checkpoints(&self) -> Seq<Checkpoint<S>> {
        self.checkpoints@
    }

    /// A manager over a valid initial state.
    pub fn new(initial_state: S) -> (r: Result<StateManager<S>, StateError>)
        ensures
            r is Ok <==> valid_state(initial_state),
            r matches Ok(m) ==> m.wf() && m.spec_state() == initial_state && m.spec_count() == 0
                && m.spec_checkpoints().len() == 0,
            r matches Err(e) ==> e is TransitionFailed,
    {
        match initial_state.validate() {
            Ok(()) => Ok(
                StateManager {
                    current_state: initial_state,
                    hasher: StateHasher::new(),
                    checkpoints: Vec::new(),
                    transaction_count: 0,
                },
            ),
            Err(e) => {
                let m = e.message();
                Err(
                    StateError::TransitionFailed {
                        reason: joined("Initial state validation failed: ", m.as_str()),
                    },
                )
            },
        }
    }

    pub fn current_state(&self) -> (r: &S)
        ensures
            *r == self.spec_state(),
    {
        &self.current_state
    }

    pub fn current_hash(&self) -> (r: StateHash)
        ensures
            r.0@ == state_digest(self.spec_state()),
    {
        self.hasher.hash(&self.current_state)
    }

    /// Validates `transaction`, applies `rules`, validates the new state and
    /// only then commits it.  On any error nothing observable changes.
    pub fn apply_transaction<T: Transaction, R: RuleSet<S, T>>(
        &mut self,
        transaction: &T,
        rules: &R,
        context: &ExecutionContext,
    ) -> (r: Result<StateTransition<S>, ProcessingError>)
        requires
            old(self).wf(),
            old(self).spec_count() < usize::MAX,
        ensures
            final(self).wf(),
            r is Ok <==> apply_succeeds(old(self).spec_state(), *transaction, *rules, *context),
            r is Err ==> *final(self) == *old(self),
            !well_formed(*transaction) ==> (r matches Err(
                ProcessingError::TransactionFailed { transaction_id: id, .. },
            ) && id@ == transaction_id_of(*transaction)),
            well_formed(*transaction) && outcome(
                *rules,
                old(self).spec_state(),
                *transaction,
                *context,
            ) is Err ==> r == Err::<StateTransition<S>, ProcessingError>(
                outcome(*rules, old(self).spec_state(), *transaction, *context)->Err_0,
            ),
            well_formed(*transaction) && outcome(
                *rules,
                old(self).spec_state(),
                *transaction,
                *context,
            ) is Ok && !valid_state(applied_state(old(self).spec_state(), *transaction, *rules, *context))
                ==> (r matches Err(ProcessingError::TransactionFailed { transaction_id: id, .. })
                && id@ == transaction_id_of(*transaction)),
            r matches Ok(t) ==> {
                &&& final(self).spec_state() == applied_state(
                    old(self).spec_state(),
                    *transaction,
                    *rules,
                    *context,
                )
                &&& final(self).spec_count() == old(self).spec_count() + 1
                &&& final(self).spec_checkpoints() == old(self).spec_checkpoints()
                &&& t.from_state == old(self).spec_state()
                &&& t.to_state == final(self).spec_state()
                &&& t.from_hash.0@ == state_digest(old(self).spec_state())
                &&& t.to_hash.0@ == state_digest(final(self).spec_state())
                &&& t.transaction_id@ == transaction_id_of(*transaction)
            },
    {
        match transaction.validate() {
            Ok(()) => {},
            Err(e) => {
                let m = e.message();
                return Err(
                    ProcessingError::TransactionFailed {
                        transaction_id: transaction.id().to_owned(),
                        reason: joined("Transaction validation failed: ", m.as_str()),
                    },
                );
            },
        }
        let from_state = duplicate(&self.current_state);
        let from_hash = self.hasher.hash(&from_state);
        let new_state = match rules.apply(&self.current_state, transaction, context) {
            Ok(s) => s,
            Err(e) => {
                return Err(e);
            },
        };
        match new_state.validate() {
            Ok(()) => {},
            Err(e) => {
                let m = e.message();
                return Err(
                    ProcessingError::TransactionFailed {
                        transaction_id: transaction.id().to_owned(),
                        reason: joined("New state validation failed: ", m.as_str()),
                    },
                );
            },
        }
        let to_hash = self.hasher.hash(&new_state);
        self.current_state = duplicate(&new_state);
        self.transaction_count = self.transaction_count + 1;
        Ok(
            StateTransition {
                from_state,
                to_state: new_state,
                from_hash,
                to_hash,
                transaction_id: transaction.id().to_owned(),
            },
        )
    }

    /// Snapshots the current state, hash and count, and keeps the snapshot.
    pub fn create_checkpoint(&mut self, timestamp: Timestamp) -> (r: Checkpoint<S>)
        requires
            old(self).wf(),
        ensures
            final(self).wf(),
            r.state == old(self).spec_state(),
            r.hash.0@ == state_digest(old(self).spec_state()),
            r.transaction_index == old(self).spec_count(),
            r.timestamp == timestamp,
            final(self).spec_state() == old(self).spec_state(),
            final(self).spec_count() == old(self).spec_count(),
            final(self).spec_checkpoints() == old(self).spec_checkpoints().push(r),
    {
        let hash = self.current_hash();
        let kept = Checkpoint {
            state: duplicate(&self.current_state),
            hash,
            transaction_index: self.transaction_count,
            timestamp,
        };
        let checkpoint = Checkpoint {
            state: duplicate(&self.current_state),
            hash,
            transaction_index: self.transaction_count,
            timestamp,
        };
        self.checkpoints.push(kept);
        checkpoint
    }

    /// Restores a checkpoint whose state is valid and whose hash matches its
    /// state; otherwise reports a checkpoint error and changes nothing.
    pub fn restore_checkpoint(&mut self, checkpoint: &Checkpoint<S>) -> (r: Result<(), StateError>)
        requires
            old(self).wf(),
        ensures
            final(self).wf(),
            r is Ok <==> checkpoint_intact(*checkpoint),
            r matches Err(e) ==> e is CheckpointError,
            r is Err ==> *final(self) == *old(self),
            r is Ok ==> final(self).spec_state() == checkpoint.state && final(self).spec_count()
                == checkpoint.transaction_index && final(self).spec_checkpoints() == old(
                self,
            ).spec_checkpoints(),
    {
        match checkpoint.state.validate() {
            Ok(()) => {},
            Err(e) => {
                let m = e.message();
                return Err(
                    StateError::CheckpointError {
                        reason: joined("Checkpoint state validation failed: ", m.as_str()),
                    },
                );
            },
        }
        let computed_hash = self.hasher.hash(&checkpoint.state);
        if !computed_hash.same_as(&checkpoint.hash) {
            let expected = checkpoint.hash.to_text();
            let actual = computed_hash.to_text();
            let mut reason = joined("Checkpoint hash mismatch: expected ", expected.as_str());
            reason.append(", got ");
            reason.append(actual.as_str());
            return Err(StateError::CheckpointError { reason });
        }
        self.current_state = duplicate(&checkpoint.state);
        self.transaction_count = checkpoint.transaction_index;
        Ok(())
    }

    pub fn checkpoints(&self) -> (r: &[Checkpoint<S>])
        ensures
            r@ == self.spec_checkpoints(),
    {
        self.checkpoints.as_slice()
    }

    /// Both states with their hashes.
    pub fn calculate_diff(&self, from_state: &S, to_state: &S) -> (r: StateDiff<S>)
        ensures
            r.from_state == *from_state,
            r.to_state == *to_state,
            r.from_hash.0@ == state_digest(*from_state),
            r.to_hash.0@ == state_digest(*to_state),
    {
        let from_hash = self.hasher.hash(from_state);
        let to_hash = self.hasher.hash(to_state);
        StateDiff {
            from_state: duplicate(from_state),
            to_state: duplicate(to_state),
            from_hash,
            to_hash,
        }
    }

    /// Whether two states have the same hash.
    pub fn compare_states(&self, state1: &S, state2: &S) -> (r: bool)
        ensures
            r == (state_digest(*state1) == state_digest(*state2)),
    {
        let hash1 = self.hasher.hash(state1);
        let hash2 = self.hasher.hash(state2);
        hash1.same_as(&hash2)
    }

    pub fn transaction_count(&self) -> (r: usize)
        ensures
            r == self.spec_count(),
    {
        self.transaction_count
    }

    pub fn clear_checkpoints(&mut self)
        ensures
            final(self).wf() == old(self).wf(),
            final(self).spec_state() == old(self).spec_state(),
            final(self).spec_count() == old(self).spec_count(),
            final(self).spec_checkpoints().len() == 0,
    {
        self.checkpoints.clear();
    }
}

/// A checkpoint taken of a valid manager restores to exactly its state,
/// hash and count.
pub proof fn lemma_checkpoint_round_trip<S: State>(m: StateManager<S>, cp: Checkpoint<S>)
    requires
        m.wf(),
        cp.state == m.spec_state(),
        cp.hash.0@ == state_digest(m.spec_state()),
        cp.transaction_index == m.spec_count(),
    ensures
        checkpoint_intact(cp),
        cp.state == m.spec_state(),
        cp.hash.0@ == state_digest(cp.state),
        cp.transaction_index == m.spec_count(),
{
}

} // verus!
