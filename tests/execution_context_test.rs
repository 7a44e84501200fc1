use dtre::{
    DeterministicTime, ExecutionContext, ExternalEntityResolver, ExternalFacts, ExternalValue,
    NonDeterminismGuard, Operation, OrderingRules, ProcessingError, SeededRandom, Timestamp,
};

fn at(seconds: i64) -> Timestamp {
    Timestamp::from_seconds(seconds)
}

fn texts(items: &[&str]) -> Vec<String> {
    items.iter().map(|s| s.to_string()).collect()
}

fn test_entity(id: &str, value: i64) -> ExternalValue {
    ExternalValue::Record {
        kind: "TestEntity".to_string(),
        fields: vec![("id".to_string(), id.to_string()), ("value".to_string(), value.to_string())],
    }
}

#[test]
fn test_deterministic_time_basic() {
    let time = at(1000000);
    let dt = DeterministicTime::new(time);
    assert_eq!(dt.current(), time);
    assert_eq!(dt.current(), time);
    assert_eq!(dt.current(), time);
}

#[test]
fn test_seeded_random_basic() {
    let mut rng1 = SeededRandom::new(42);
    let mut rng2 = SeededRandom::new(42);
    assert_eq!(rng1.next_u64(), rng2.next_u64());
    assert_eq!(rng1.next_u64(), rng2.next_u64());
    assert_eq!(rng1.next_u64(), rng2.next_u64());
}

#[test]
fn test_external_facts_basic() {
    let mut facts = ExternalFacts::new();
    facts.insert("key1".to_string(), ExternalValue::Integer(42));
    facts.insert("key2".to_string(), ExternalValue::Text("value".to_string()));

    assert_eq!(facts.get("key1", "i64"), Some(&ExternalValue::Integer(42)));
    assert_eq!(facts.get("key2", "String"), Some(&ExternalValue::Text("value".to_string())));
    assert_eq!(facts.get("nonexistent", "i64"), None);

    assert!(facts.contains_key("key1"));
    assert!(!facts.contains_key("nonexistent"));
    assert_eq!(facts.len(), 2);
}

#[test]
fn test_execution_context_builder() {
    let time = at(1000000);
    let ctx = ExecutionContext::builder()
        .with_time(time)
        .with_random_seed(42)
        .with_external_fact("test".to_string(), ExternalValue::Integer(123))
        .build();
    assert_eq!(ctx.now(), time);
    assert_eq!(ctx.get_external_fact("test", "i64"), Some(&ExternalValue::Integer(123)));
}

#[test]
fn test_guard_strict_mode() {
    let guard = NonDeterminismGuard::new();
    assert!(guard.check_operation(&Operation::SystemTime).is_err());
    assert!(guard.check_operation(&Operation::NetworkAccess).is_err());
    assert!(guard.check_operation(&Operation::RandomWithoutSeed).is_err());
}

#[test]
fn test_guard_non_strict_mode() {
    let guard = NonDeterminismGuard::with_strict_mode(false);
    assert!(guard.check_operation(&Operation::SystemTime).is_ok());
    assert!(guard.check_operation(&Operation::NetworkAccess).is_ok());
    assert!(guard.check_operation(&Operation::RandomWithoutSeed).is_ok());
}

#[test]
fn test_guard_validate() {
    let guard = NonDeterminismGuard::new();
    let result = guard.validate(&Operation::SystemTime, || 42);
    assert!(result.is_err());
    let guard_permissive = NonDeterminismGuard::with_strict_mode(false);
    let result = guard_permissive.validate(&Operation::SystemTime, || 42);
    assert_eq!(result.unwrap(), 42);
}

#[test]
fn test_entity_resolver_basic() {
    let mut resolver = ExternalEntityResolver::new();
    let entity = test_entity("test1", 42);
    resolver.register("test1".to_string(), entity.clone());

    let resolved = resolver.resolve("test1", "TestEntity");
    assert!(resolved.is_ok());
    assert_eq!(resolved.unwrap(), &entity);

    let result = resolver.resolve("nonexistent", "TestEntity");
    assert!(result.is_err());
}

#[test]
fn test_entity_resolver_type_mismatch() {
    let mut resolver = ExternalEntityResolver::new();
    resolver.register("test1".to_string(), test_entity("test1", 42));
    let result = resolver.resolve("test1", "TestAccount");
    assert!(result.is_err());
    match result {
        Err(ProcessingError::ExternalEntityTypeMismatch { entity_id, expected_type }) => {
            assert_eq!(entity_id, "test1");
            assert_eq!(expected_type, "TestAccount");
        },
        _ => panic!("expected a type mismatch"),
    }
}

#[test]
fn test_ordering_rules_basic() {
    let mut rules = OrderingRules::new();
    let expected_order = texts(&["a", "b", "c"]);
    rules.add_ordering("test_type".to_string(), expected_order.clone());
    assert_eq!(rules.get_ordering("test_type"), Some(&expected_order));
    assert_eq!(rules.get_ordering("nonexistent"), None);
}

#[test]
fn test_ordering_validation() {
    let mut rules = OrderingRules::new();
    rules.add_ordering("items".to_string(), texts(&["a", "b", "c"]));
    let items = texts(&["a", "b", "c"]);
    assert!(rules.validate_ordering("items", &items).is_ok());
    let wrong_order = texts(&["c", "b", "a"]);
    let result = rules.validate_ordering("items", &wrong_order);
    assert!(result.is_err());
    assert!(result.unwrap_err().message().contains("Ordering violation"));
}

#[test]
fn test_ordering_sort() {
    let mut rules = OrderingRules::new();
    rules.add_ordering("items".to_string(), texts(&["c", "a", "b"]));
    let mut items = texts(&["a", "b", "c"]);
    rules.sort_by_ordering("items", &mut items);
    assert_eq!(items, texts(&["c", "a", "b"]));
}

#[test]
fn test_ordering_default_lexicographic() {
    let rules = OrderingRules::new();
    let mut items = texts(&["zebra", "apple", "banana"]);
    rules.sort_by_ordering("unspecified", &mut items);
    assert_eq!(items, texts(&["apple", "banana", "zebra"]));
}

#[test]
fn test_execution_context_with_entities() {
    let entity = test_entity("test1", 42);
    let ctx = ExecutionContext::builder()
        .with_time(at(1000000))
        .with_random_seed(42)
        .with_external_entity("test1".to_string(), entity.clone())
        .build();
    let resolved = ctx.resolve_entity("test1", "TestEntity");
    assert!(resolved.is_ok());
    assert_eq!(resolved.unwrap(), &entity);
}

#[test]
fn test_execution_context_with_ordering() {
    let mut ordering_rules = OrderingRules::new();
    ordering_rules.add_ordering("accounts".to_string(), texts(&["ACC001", "ACC002", "ACC003"]));
    let ctx = ExecutionContext::builder()
        .with_time(at(1000000))
        .with_random_seed(42)
        .with_ordering_rules(ordering_rules)
        .build();
    assert!(ctx.validate_ordering("accounts", &texts(&["ACC001", "ACC002", "ACC003"])).is_ok());
    assert!(ctx.validate_ordering("accounts", &texts(&["ACC003", "ACC001", "ACC002"])).is_err());
}

#[test]
fn guard_names_every_operation() {
    let guard = NonDeterminismGuard::new();
    let cases = [
        (Operation::SystemTime, "system_time"),
        (Operation::RandomWithoutSeed, "unseeded_random"),
        (Operation::NetworkAccess, "network_access"),
        (Operation::FileSystemRead, "file_system_read"),
        (Operation::FileSystemWrite, "file_system_write"),
        (Operation::EnvironmentVariable, "environment_variable"),
        (Operation::ThreadSpawn, "thread_spawn"),
        (Operation::ProcessSpawn, "process_spawn"),
    ];
    for (op, name) in cases {
        let e = guard.check_operation(&op).unwrap_err();
        let message = e.message();
        assert!(message.contains("Non-deterministic operation"));
        assert!(message.contains(name));
    }
}

#[test]
fn cloned_context_restarts_random_stream() {
    let mut ctx = ExecutionContext::new(at(5), 7);
    let first = ctx.random().next_u64();
    let mut clone = ctx.clone();
    assert_eq!(clone.random().next_u64(), first);
    assert_eq!(clone.random().seed(), 7);
    let later = ctx.with_time(at(6));
    assert_eq!(later.now(), at(6));
    assert_eq!(ctx.now(), at(5));
}

#[test]
fn seeded_ranges_and_ratios() {
    let mut rng = SeededRandom::new(3);
    for _ in 0..100 {
        let v = rng.gen_range(10, 20);
        assert!((10..20).contains(&v));
    }
    assert!(!rng.gen_ratio(0, 5));
    assert!(rng.gen_ratio(5, 5));
    let _ = rng.next_u32();
}

#[test]
fn permissive_rules_accept_any_order() {
    let mut rules = OrderingRules::permissive();
    rules.add_ordering("items".to_string(), texts(&["a", "b"]));
    assert!(!rules.is_stable_ordering_enforced());
    assert!(rules.validate_ordering("items", &texts(&["b", "a"])).is_ok());
}

#[test]
fn facts_lookup_with_wrong_kind_is_empty() {
    let mut facts = ExternalFacts::new();
    facts.insert("rate".to_string(), ExternalValue::Unsigned(5));
    facts.insert("rate".to_string(), ExternalValue::Boolean(true));
    assert_eq!(facts.len(), 1);
    assert_eq!(facts.get("rate", "u64"), None);
    assert_eq!(facts.get("rate", "bool"), Some(&ExternalValue::Boolean(true)));
}
