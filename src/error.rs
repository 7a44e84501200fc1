//! Error taxonomy: validation, processing, state, rule and serialization errors.

use vstd::prelude::*;
use vstd::string::StringExecFns;
use crate::types::{StateHash, Version, version_text};

verus! {

/// Diagnostic context attached to an error.
#[derive(Debug, Clone)]
pub struct ErrorContext {
    pub transaction_id: Option<String>,
    pub transaction_index: Option<usize>,
    pub rule_version: Option<Version>,
    pub state_hash_before: Option<StateHash>,
    pub state_hash_after: Option<StateHash>,
    pub additional_info: Vec<(String, String)>,
}

impl ErrorContext {
    /// An empty context.
    pub fn new() -> (r: ErrorContext)
        ensures
            r.transaction_id is None,
            r.transaction_index is None,
            r.rule_version is None,
            r.state_hash_before is None,
            r.state_hash_after is None,
            r.additional_info@.len() == 0,
    {
        ErrorContext {
            transaction_id: None,
            transaction_index: None,
            rule_version: None,
            state_hash_before: None,
            state_hash_after: None,
            additional_info: Vec::new(),
        }
    }

    /// Records the transaction and its position in the sequence.
    pub fn with_transaction(self, id: String, index: usize) -> (r: ErrorContext)
        ensures
            r.transaction_id == Some(id),
            r.transaction_index == Some(index),
            r.rule_version == self.rule_version,
            r.state_hash_before == self.state_hash_before,
            r.state_hash_after == self.state_hash_after,
            r.additional_info == self.additional_info,
    {
        let mut c = self;
        c.transaction_id = Some(id);
        c.transaction_index = Some(index);
        c
    }

    /// Records the rule version being applied.
    pub fn with_rule(self, version: Version) -> (r: ErrorContext)
        ensures
            r.rule_version == Some(version),
            r.transaction_id == self.transaction_id,
            r.transaction_index == self.transaction_index,
            r.state_hash_before == self.state_hash_before,
            r.state_hash_after == self.state_hash_after,
            r.additional_info == self.additional_info,
    {
        let mut c = self;
        c.rule_version = Some(version);
        c
    }

    /// Records the state hashes around the failed operation.
    pub fn with_state_hashes(self, before: StateHash, after: Option<StateHash>) -> (r:
        ErrorContext)
        ensures
            r.state_hash_before == Some(before),
            r.state_hash_after == after,
            r.transaction_id == self.transaction_id,
            r.transaction_index == self.transaction_index,
            r.rule_version == self.rule_version,
            r.additional_info == self.additional_info,
    {
        let mut c = self;
        c.state_hash_before = Some(before);
        c.state_hash_after = after;
        c
    }

    /// Appends a key/value pair of extra information.
    pub fn with_info(self, key: String, value: String) -> (r: ErrorContext)
        ensures
            r.additional_info@ == self.additional_info@.push((key, value)),
            r.transaction_id == self.transaction_id,
            r.transaction_index == self.transaction_index,
            r.rule_version == self.rule_version,
            r.state_hash_before == self.state_hash_before,
            r.state_hash_after == self.state_hash_after,
    {
        let mut c = self;
        c.additional_info.push((key, value));
        c
    }
}

impl Default for ErrorContext {
    fn default() -> (r: ErrorContext)
        ensures
            r.transaction_id is None,
            r.additional_info@.len() == 0,
    {
        ErrorContext::new()
    }
}

/// A difference in one field, with both values rendered as text.
#[derive(Debug, Clone)]
pub struct FieldDiff {
    pub field_path: String,
    pub expected_value: String,
    pub actual_value: String,
}

/// A state mismatch with its per-field differences.
#[derive(Debug, Clone)]
pub struct StateMismatchDetail {
    pub expected_hash: StateHash,
    pub actual_hash: StateHash,
    pub field_diffs: Vec<FieldDiff>,
    pub transaction_id: Option<String>,
    pub transaction_index: Option<usize>,
}

/// A validation failure with the rules it broke.
#[derive(Debug, Clone)]
pub struct ValidationDetail {
    pub violated_rules: Vec<String>,
    pub field: Option<String>,
    pub expected_constraint: Option<String>,
    pub actual_value: Option<String>,
    pub context: ErrorContext,
}

/// Any error of the engine, by kind.
#[derive(Debug, Clone)]
pub enum DTREError {
    Processing(ProcessingError),
    Validation(ValidationError),
    State(StateError),
    Rule(RuleError),
    Serialization(SerializationError),
}

/// Failures while applying transactions.
#[derive(Debug, Clone)]
pub enum ProcessingError {
    NonDeterministicOperation { operation: String, location: String },
    TransactionFailed { transaction_id: String, reason: String },
    RuleApplicationFailed { rule_version: Version, details: String },
    ExternalEntityNotFound { entity_id: String },
    ExternalEntityTypeMismatch { entity_id: String, expected_type: String },
    OrderingViolation { entity_type: String, expected_order: Vec<String>, actual_order: Vec<String> },
    WithContext { message: String, context: ErrorContext },
}

/// Failures of intrinsic checks on states and transactions.
#[derive(Debug, Clone)]
pub enum ValidationError {
    InvalidState { reason: String },
    InvalidTransaction { reason: String },
    RuleViolated { rule: String },
    WithDetails { details: ValidationDetail },
}

/// Failures of the state manager.
#[derive(Debug, Clone)]
pub enum StateError {
    TransitionFailed { reason: String },
    Mismatch { expected: String, actual: String },
    CheckpointError { reason: String },
    MismatchWithDetail { detail: StateMismatchDetail },
}

/// Failures of the rule registry.
#[derive(Debug, Clone)]
pub enum RuleError {
    NotFound { version: Version },
    VersionConflict { reason: String },
    RegistrationFailed { reason: String },
}

/// Failures of an encoder.
#[derive(Debug, Clone)]
pub enum SerializationError {
    SerializationFailed { reason: String },
    DeserializationFailed { reason: String },
}

pub open spec fn processing_message(e: ProcessingError) -> Seq<char> {
    match e {
        ProcessingError::NonDeterministicOperation { operation, location } =>
            "Non-deterministic operation detected: "@ + operation@ + " at "@ + location@,
        ProcessingError::TransactionFailed { transaction_id, reason } =>
            "Transaction processing failed: "@ + transaction_id@ + " - "@ + reason@,
        ProcessingError::RuleApplicationFailed { rule_version, details } =>
            "Rule application failed: "@ + version_text(rule_version) + " - "@ + details@,
        ProcessingError::ExternalEntityNotFound { entity_id } =>
            "External entity not found: "@ + entity_id@,
        ProcessingError::ExternalEntityTypeMismatch { entity_id, expected_type } =>
            "External entity type mismatch: "@ + entity_id@ + " - expected "@ + expected_type@,
        ProcessingError::OrderingViolation { entity_type, .. } =>
            "Ordering violation for "@ + entity_type@,
        ProcessingError::WithContext { message, .. } =>
            "Processing failed with context: "@ + message@,
    }
}

pub open spec fn validation_message(e: ValidationError) -> Seq<char> {
    match e {
        ValidationError::InvalidState { reason } => "Invalid state: "@ + reason@,
        ValidationError::InvalidTransaction { reason } => "Invalid transaction: "@ + reason@,
        ValidationError::RuleViolated { rule } => "Validation rule violated: "@ + rule@,
        ValidationError::WithDetails { .. } => "Validation failed with details"@,
    }
}

pub open spec fn state_message(e: StateError) -> Seq<char> {
    match e {
        StateError::TransitionFailed { reason } => "State transition failed: "@ + reason@,
        StateError::Mismatch { expected, actual } =>
            "State mismatch: expected "@ + expected@ + ", got "@ + actual@,
        StateError::CheckpointError { reason } => "Checkpoint error: "@ + reason@,
        StateError::MismatchWithDetail { .. } => "State mismatch with detailed diff"@,
    }
}

pub open spec fn rule_message(e: RuleError) -> Seq<char> {
    match e {
        RuleError::NotFound { version } => "Rule not found: version "@ + version_text(version),
        RuleError::VersionConflict { reason } => "Rule version conflict: "@ + reason@,
        RuleError::RegistrationFailed { reason } => "Rule registration failed: "@ + reason@,
    }
}

pub open spec fn serialization_message(e: SerializationError) -> Seq<char> {
    match e {
        SerializationError::SerializationFailed { reason } => "Serialization failed: "@ + reason@,
        SerializationError::DeserializationFailed { reason } =>
            "Deserialization failed: "@ + reason@,
    }
}

/// Concatenation of a literal prefix and a text.
pub(crate) fn joined(prefix: &str, rest: &str) -> (r: String)
    ensures
        r@ == prefix@ + rest@,
{
    let mut s = String::from_str(prefix);
    s.append(rest);
    s
}

impl ProcessingError {
    /// Wraps a message with its diagnostic context.
    pub fn with_context(message: String, context: ErrorContext) -> (r: ProcessingError)
        ensures
            r == (ProcessingError::WithContext { message, context }),
    {
        ProcessingError::WithContext { message, context }
    }

    /// The attached context, for the `WithContext` variant only.
    pub fn context(&self) -> (r: Option<&ErrorContext>)
        ensures
            self is WithContext ==> r == Some(&self->WithContext_context),
            !(self is WithContext) ==> r is None,
    {
        match self {
            ProcessingError::WithContext { context, .. } => Some(context),
            _ => None,
        }
    }

    /// The error's message.
    pub fn message(&self) -> (r: String)
        ensures
            r@ == processing_message(*self),
    {
        proof {
            reveal_strlit("Non-deterministic operation detected: ");
            reveal_strlit(" at ");
            reveal_strlit("Transaction processing failed: ");
            reveal_strlit(" - ");
            reveal_strlit("Rule application failed: ");
            reveal_strlit("External entity not found: ");
            reveal_strlit("External entity type mismatch: ");
            reveal_strlit(" - expected ");
            reveal_strlit("Ordering violation for ");
            reveal_strlit("Processing failed with context: ");
        }
        match self {
            ProcessingError::NonDeterministicOperation { operation, location } => {
                let mut s = joined("Non-deterministic operation detected: ", operation.as_str());
                s.append(" at ");
                s.append(location.as_str());
                s
            },
            ProcessingError::TransactionFailed { transaction_id, reason } => {
                let mut s = joined("Transaction processing failed: ", transaction_id.as_str());
                s.append(" - ");
                s.append(reason.as_str());
                s
            },
            ProcessingError::RuleApplicationFailed { rule_version, details } => {
                let v = rule_version.to_text();
                let mut s = joined("Rule application failed: ", v.as_str());
                s.append(" - ");
                s.append(details.as_str());
                s
            },
            ProcessingError::ExternalEntityNotFound { entity_id } => {
                joined("External entity not found: ", entity_id.as_str())
            },
            ProcessingError::ExternalEntityTypeMismatch { entity_id, expected_type } => {
                let mut s = joined("External entity type mismatch: ", entity_id.as_str());
                s.append(" - expected ");
                s.append(expected_type.as_str());
                s
            },
            ProcessingError::OrderingViolation { entity_type, .. } => {
                joined("Ordering violation for ", entity_type.as_str())
            },
            ProcessingError::WithContext { message, .. } => {
                joined("Processing failed with context: ", message.as_str())
            },
        }
    }
}

impl ValidationError {
    /// A validation error carrying full details.
    pub fn with_details(details: ValidationDetail) -> (r: ValidationError)
        ensures
            r == (ValidationError::WithDetails { details }),
    {
        ValidationError::WithDetails { details }
    }

    /// The details, for the `WithDetails` variant only.
    pub fn details(&self) -> (r: Option<&ValidationDetail>)
        ensures
            self is WithDetails ==> r == Some(&self->WithDetails_details),
            !(self is WithDetails) ==> r is None,
    {
        match self {
            ValidationError::WithDetails { details } => Some(details),
            _ => None,
        }
    }

    /// The error's message.
    pub fn message(&self) -> (r: String)
        ensures
            r@ == validation_message(*self),
    {
        proof {
            reveal_strlit("Invalid state: ");
            reveal_strlit("Invalid transaction: ");
            reveal_strlit("Validation rule violated: ");
            reveal_strlit("Validation failed with details");
        }
        match self {
            ValidationError::InvalidState { reason } => joined("Invalid state: ", reason.as_str()),
            ValidationError::InvalidTransaction { reason } => {
                joined("Invalid transaction: ", reason.as_str())
            },
            ValidationError::RuleViolated { rule } => {
                joined("Validation rule violated: ", rule.as_str())
            },
            ValidationError::WithDetails { .. } => String::from_str("Validation failed with details"),
        }
    }
}

impl StateError {
    /// A mismatch error carrying the per-field diff.
    pub fn mismatch_with_detail(detail: StateMismatchDetail) -> (r: StateError)
        ensures
            r == (StateError::MismatchWithDetail { detail }),
    {
        StateError::MismatchWithDetail { detail }
    }

    /// The diff, for the `MismatchWithDetail` variant only.
    pub fn mismatch_detail(&self) -> (r: Option<&StateMismatchDetail>)
        ensures
            self is MismatchWithDetail ==> r == Some(&self->MismatchWithDetail_detail),
            !(self is MismatchWithDetail) ==> r is None,
    {
        match self {
            StateError::MismatchWithDetail { detail } => Some(detail),
            _ => None,
        }
    }

    /// The error's message.
    pub fn message(&self) -> (r: String)
        ensures
            r@ == state_message(*self),
    {
        proof {
            reveal_strlit("State transition failed: ");
            reveal_strlit("State mismatch: expected ");
            reveal_strlit(", got ");
            reveal_strlit("Checkpoint error: ");
            reveal_strlit("State mismatch with detailed diff");
        }
        match self {
            StateError::TransitionFailed { reason } => {
                joined("State transition failed: ", reason.as_str())
            },
            StateError::Mismatch { expected, actual } => {
                let mut s = joined("State mismatch: expected ", expected.as_str());
                s.append(", got ");
                s.append(actual.as_str());
                s
            },
            StateError::CheckpointError { reason } => joined("Checkpoint error: ", reason.as_str()),
            StateError::MismatchWithDetail { .. } => {
                String::from_str("State mismatch with detailed diff")
            },
        }
    }
}

impl RuleError {
    /// The error's message.
    pub fn message(&self) -> (r: String)
        ensures
            r@ == rule_message(*self),
    {
        proof {
            reveal_strlit("Rule not found: version ");
            reveal_strlit("Rule version conflict: ");
            reveal_strlit("Rule registration failed: ");
        }
        match self {
            RuleError::NotFound { version } => {
                let v = version.to_text();
                joined("Rule not found: version ", v.as_str())
            },
            RuleError::VersionConflict { reason } => {
                joined("Rule version conflict: ", reason.as_str())
            },
            RuleError::RegistrationFailed { reason } => {
                joined("Rule registration failed: ", reason.as_str())
            },
        }
    }
}

impl SerializationError {
    /// The error's message.
    pub fn message(&self) -> (r: String)
        ensures
            r@ == serialization_message(*self),
    {
        proof {
            reveal_strlit("Serialization failed: ");
            reveal_strlit("Deserialization failed: ");
        }
        match self {
            SerializationError::SerializationFailed { reason } => {
                joined("Serialization failed: ", reason.as_str())
            },
            SerializationError::DeserializationFailed { reason } => {
                joined("Deserialization failed: ", reason.as_str())
            },
        }
    }
}

impl DTREError {
    /// The error's message, prefixed by its kind.
    pub fn message(&self) -> (r: String)
        ensures
            self is Processing ==> r@ == "Processing error: "@ + processing_message(
                self->Processing_0,
            ),
            self is Validation ==> r@ == "Validation error: "@ + validation_message(
                self->Validation_0,
            ),
            self is State ==> r@ == "State error: "@ + state_message(self->State_0),
            self is Rule ==> r@ == "Rule error: "@ + rule_message(self->Rule_0),
            self is Serialization ==> r@ == "Serialization error: "@ + serialization_message(
                self->Serialization_0,
            ),
    {
        match self {
            DTREError::Processing(e) => {
                let m = e.message();
                joined("Processing error: ", m.as_str())
            },
            DTREError::Validation(e) => {
                let m = e.message();
                joined("Validation error: ", m.as_str())
            },
            DTREError::State(e) => {
                let m = e.message();
                joined("State error: ", m.as_str())
            },
            DTREError::Rule(e) => {
                let m = e.message();
                joined("Rule error: ", m.as_str())
            },
            DTREError::Serialization(e) => {
                let m = e.message();
                joined("Serialization error: ", m.as_str())
            },
        }
    }
}

impl From<ProcessingError> for DTREError {
    fn from(e: ProcessingError) -> (r: DTREError) {
        DTREError::Processing(e)
    }
}

impl vstd::std_specs::convert::FromSpecImpl<ProcessingError> for DTREError {
    open spec fn obeys_from_spec() -> bool {
        true
    }

    open spec fn from_spec(e: ProcessingError) -> DTREError {
        DTREError::Processing(e)
    }
}

} // verus!
