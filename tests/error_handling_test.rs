use dtre::{
    DTREError, ErrorContext, ProcessingError, RuleError, SerializationError, StateError,
    StateHash, StateMismatchDetail, ValidationDetail, ValidationError, Version,
};

#[test]
fn messages_follow_their_templates() {
    let e = ProcessingError::TransactionFailed {
        transaction_id: "TXN001".to_string(),
        reason: "Insufficient balance".to_string(),
    };
    assert_eq!(e.message(), "Transaction processing failed: TXN001 - Insufficient balance");
    let e = ProcessingError::RuleApplicationFailed {
        rule_version: Version::new(1, 2, 3),
        details: "bad".to_string(),
    };
    assert_eq!(e.message(), "Rule application failed: 1.2.3 - bad");
    let e = RuleError::NotFound { version: Version::new(2, 0, 0) };
    assert_eq!(e.message(), "Rule not found: version 2.0.0");
    let e = DTREError::State(StateError::CheckpointError { reason: "x".to_string() });
    assert_eq!(e.message(), "State error: Checkpoint error: x");
    let e = DTREError::from(ProcessingError::ExternalEntityNotFound { entity_id: "e".to_string() });
    assert_eq!(e.message(), "Processing error: External entity not found: e");
    let e = SerializationError::DeserializationFailed { reason: "eof".to_string() };
    assert_eq!(e.message(), "Deserialization failed: eof");
    let e = ValidationError::RuleViolated { rule: "r1".to_string() };
    assert_eq!(e.message(), "Validation rule violated: r1");
}

#[test]
fn error_context_builders_record_everything() {
    let context = ErrorContext::new()
        .with_transaction("tx9".to_string(), 9)
        .with_rule(Version::new(1, 0, 0))
        .with_state_hashes(StateHash([1u8; 32]), Some(StateHash([2u8; 32])))
        .with_info("k".to_string(), "v".to_string());
    assert_eq!(context.transaction_id.as_deref(), Some("tx9"));
    assert_eq!(context.transaction_index, Some(9));
    assert_eq!(context.rule_version, Some(Version::new(1, 0, 0)));
    assert_eq!(context.state_hash_after, Some(StateHash([2u8; 32])));
    assert_eq!(context.additional_info.len(), 1);

    let e = ProcessingError::with_context("failed".to_string(), context);
    assert_eq!(e.context().unwrap().transaction_index, Some(9));
    assert!(ProcessingError::ExternalEntityNotFound { entity_id: "a".to_string() }.context().is_none());
    assert_eq!(e.message(), "Processing failed with context: failed");
}

#[test]
fn detail_accessors_return_payloads() {
    let detail = ValidationDetail {
        violated_rules: vec!["positive".to_string()],
        field: Some("balance".to_string()),
        expected_constraint: Some(">= 0".to_string()),
        actual_value: Some("-5".to_string()),
        context: ErrorContext::default(),
    };
    let e = ValidationError::with_details(detail);
    assert_eq!(e.details().unwrap().violated_rules, vec!["positive".to_string()]);
    assert!(ValidationError::InvalidState { reason: "r".to_string() }.details().is_none());

    let mismatch = StateMismatchDetail {
        expected_hash: StateHash([0u8; 32]),
        actual_hash: StateHash([1u8; 32]),
        field_diffs: vec![],
        transaction_id: None,
        transaction_index: Some(3),
    };
    let e = StateError::mismatch_with_detail(mismatch);
    assert_eq!(e.mismatch_detail().unwrap().transaction_index, Some(3));
    assert_eq!(e.message(), "State mismatch with detailed diff");
}
