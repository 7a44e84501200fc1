//! The contracts that the caller's state, transaction and rule types meet.
//!
//! What an implementation computes is described by spec functions that are
//! fixed functions of their arguments but left unspecified here: each is
//! determined by the corresponding method of the implementation, so an
//! implementation needs to provide the methods alone.

use vstd::prelude::*;
use crate::context::ExecutionContext;
use crate::error::{ProcessingError, ValidationError};
use crate::types::{Timestamp, Version};

verus! {

/// The canonical encoding of a state.
pub closed spec fn encoding_of<S>(s: S) -> Seq<u8> {
    (choose|f: spec_fn(S) -> Seq<u8>| #[trigger] f(s) == f(s))(s)
}

/// Whether a state meets its own invariant.
pub closed spec fn valid_state<S>(s: S) -> bool {
    (choose|f: spec_fn(S) -> bool| #[trigger] f(s) == f(s))(s)
}

/// The identifier of a transaction.
pub closed spec fn transaction_id_of<T>(t: T) -> Seq<char> {
    (choose|f: spec_fn(T) -> Seq<char>| #[trigger] f(t) == f(t))(t)
}

/// The instant of a transaction.
pub closed spec fn timestamp_of<T>(t: T) -> Timestamp {
    (choose|f: spec_fn(T) -> Timestamp| #[trigger] f(t) == f(t))(t)
}

/// Whether a transaction is well formed, independently of any state.
pub closed spec fn well_formed<T>(t: T) -> bool {
    (choose|f: spec_fn(T) -> Option<()>| #[trigger] f(t) == f(t))(t) is Some
}

/// The version of a rule set.
pub closed spec fn version_of<R>(r: R) -> Version {
    (choose|f: spec_fn(R) -> Version| #[trigger] f(r) == f(r))(r)
}

/// What applying a rule set yields: a function of its arguments alone.
pub closed spec fn outcome<S, T, R>(
    rules: R,
    state: S,
    transaction: T,
    context: ExecutionContext,
) -> Result<S, ProcessingError> {
    (choose|f: spec_fn(R, S, T, ExecutionContext) -> Result<S, ProcessingError>|
        #[trigger] f(rules, state, transaction, context) == f(rules, state, transaction, context))(
        rules,
        state,
        transaction,
        context,
    )
}

/// A replayable state.
///
/// Implementors promise value semantics: `clone` is a deep copy equal to the
/// original, `encode` depends on the value alone (every unordered
/// collection is visited in a canonical, sorted order), and so does
/// `validate`.
pub trait State: Clone + Sized {
    /// Encodes the state, for instance with the compact binary encoder.
    fn encode(&self) -> (r: Vec<u8>)
        ensures
            r@ == encoding_of(*self),
    ;

    /// Checks the state's invariant.
    fn validate(&self) -> (r: Result<(), ValidationError>)
        ensures
            r is Ok <==> valid_state(*self),
    ;
}

/// An immutable event to replay; every method depends on the value alone.
pub trait Transaction: Sized {
    /// The stable identifier.
    fn id(&self) -> (r: &str)
        ensures
            r@ == transaction_id_of(*self),
    ;

    /// The instant of the event.
    fn timestamp(&self) -> (r: Timestamp)
        ensures
            r == timestamp_of(*self),
    ;

    /// Checks that the transaction is well formed.
    fn validate(&self) -> (r: Result<(), ValidationError>)
        ensures
            r is Ok <==> well_formed(*self),
    ;
}

/// A versioned, referentially transparent state-transition function: it
/// reads nothing but its arguments.
pub trait RuleSet<S: State, T: Transaction>: Sized {
    fn version(&self) -> (r: Version)
        ensures
            r == version_of(*self),
    ;

    fn apply(&self, state: &S, transaction: &T, context: &ExecutionContext) -> (r: Result<
        S,
        ProcessingError,
    >)
        ensures
            r == outcome(*self, *state, *transaction, *context),
    ;
}

/// Relies on `Clone::clone` of the state type, which the `State` contract
/// requires to be a deep copy equal to the original.
#[verifier::external_body]
pub(crate) fn duplicate<S: State>(s: &S) -> (r: S)
    ensures
        r == *s,
{
    s.clone()
}

} // verus!
