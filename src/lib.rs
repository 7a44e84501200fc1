//! Deterministic transaction replay: a pure state-transition engine with
//! checkpoints, hash chains, rule-set versioning and migration analysis.

pub mod context;
pub mod error;
pub mod hasher;
pub mod logging;
pub mod replay_engine;
pub mod result_comparison;
pub mod rule_set;
pub mod serialization;
pub mod state_manager;
pub mod store;
pub mod traits;
pub mod transaction_processor;
pub mod types;

pub use context::{
    DeterministicTime, ExecutionContext, ExecutionContextBuilder, ExternalEntityResolver,
    ExternalFacts, ExternalValue, NonDeterminismGuard, Operation, OrderingRules, SeededRandom,
};
pub use error::{
    DTREError, ErrorContext, FieldDiff, ProcessingError, RuleError, SerializationError, StateError,
    StateMismatchDetail, ValidationDetail, ValidationError,
};
pub use hasher::StateHasher;
pub use logging::{
    DeterministicLogger, ExecutionTraceLog, LogEntry, LogLevel, TraceEvent, TraceEventType,
};
pub use replay_engine::{ReplayEngine, ReplayEngineBuilder};
pub use result_comparison::{
    BalanceDifference, DiffAnalyzer, FieldComparison, PerformanceComparison, ResultComparator,
    ResultComparison, TransitionDifference,
};
pub use rule_set::{RuleSetMetadata, RuleSetRegistry, VersionedRuleSet};
pub use serialization::{BincodeSerializer, JsonSerializer, SerializationContext, StateSerializer};
pub use state_manager::{Checkpoint, StateDiff, StateManager};
pub use store::TextMap;
pub use traits::{RuleSet, State, Transaction};
pub use transaction_processor::TransactionProcessor;
pub use types::{
    CheckpointInfo, ExecutionTrace, ImpactAnalysis, PerformanceMetrics, ReplayResult,
    RuleApplication, StateDifference, StateHash, StateTransition, StateTransitionInfo, Timestamp,
    Version,
};
