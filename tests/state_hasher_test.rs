use dtre::{State, StateHash, StateHasher, ValidationError};

#[derive(Debug, Clone, PartialEq)]
struct ValueState {
    value: i64,
}

impl State for ValueState {
    fn encode(&self) -> Vec<u8> {
        bincode::serialize(&self.value).unwrap()
    }

    fn validate(&self) -> Result<(), ValidationError> {
        Ok(())
    }
}

#[derive(Debug, Clone, PartialEq)]
struct TestState {
    balance: i64,
    counter: u32,
    name: String,
}

impl State for TestState {
    fn encode(&self) -> Vec<u8> {
        bincode::serialize(&(self.balance, self.counter, &self.name)).unwrap()
    }

    fn validate(&self) -> Result<(), ValidationError> {
        if self.balance < 0 {
            return Err(ValidationError::InvalidState {
                reason: "Balance cannot be negative".to_string(),
            });
        }
        Ok(())
    }
}

#[test]
fn test_hash_consistency() {
    let hasher = StateHasher::new();
    let state = ValueState { value: 42 };
    let hash1 = hasher.hash(&state);
    let hash2 = hasher.hash(&state);
    assert_eq!(hash1, hash2, "Same state should produce same hash");
}

#[test]
fn test_hash_different_states() {
    let hasher = StateHasher::new();
    let hash1 = hasher.hash(&ValueState { value: 42 });
    let hash2 = hasher.hash(&ValueState { value: 43 });
    assert_ne!(hash1, hash2, "Different states should produce different hashes");
}

#[test]
fn test_hash_chain_empty() {
    let hasher = StateHasher::new();
    let hashes: Vec<StateHash> = vec![];
    let chain_hash = hasher.hash_chain(&hashes);
    assert_eq!(chain_hash.0.len(), 32);
}

#[test]
fn test_hash_chain_single() {
    let hasher = StateHasher::new();
    let hash = hasher.hash(&ValueState { value: 42 });
    let chain_hash = hasher.hash_chain(&[hash]);
    assert_ne!(chain_hash, hash);
}

#[test]
fn test_hash_chain_multiple() {
    let hasher = StateHasher::new();
    let hash1 = hasher.hash(&ValueState { value: 1 });
    let hash2 = hasher.hash(&ValueState { value: 2 });
    let hash3 = hasher.hash(&ValueState { value: 3 });
    let chain_hash = hasher.hash_chain(&[hash1, hash2, hash3]);
    assert_eq!(chain_hash.0.len(), 32);
}

#[test]
fn test_hash_chain_order_matters() {
    let hasher = StateHasher::new();
    let hash1 = hasher.hash(&ValueState { value: 1 });
    let hash2 = hasher.hash(&ValueState { value: 2 });
    let chain_forward = hasher.hash_chain(&[hash1, hash2]);
    let chain_backward = hasher.hash_chain(&[hash2, hash1]);
    assert_ne!(chain_forward, chain_backward, "Hash chain order should matter");
}

#[test]
fn test_extend_chain() {
    let hasher = StateHasher::new();
    let hash1 = hasher.hash(&ValueState { value: 1 });
    let hash2 = hasher.hash(&ValueState { value: 2 });
    let hash3 = hasher.hash(&ValueState { value: 3 });

    let chain1 = hasher.hash_chain(&[hash1]);
    let chain2 = hasher.extend_chain(&chain1, &hash2);
    let chain3 = hasher.extend_chain(&chain2, &hash3);
    let full_chain = hasher.hash_chain(&[hash1, hash2, hash3]);

    assert_eq!(chain3.0.len(), 32);
    assert_eq!(full_chain.0.len(), 32);
    assert_ne!(chain3, full_chain);
}

#[test]
fn test_hash_basic() {
    let hasher = StateHasher::new();
    let state = TestState { balance: 100, counter: 5, name: "test".to_string() };
    let hash = hasher.hash(&state);
    assert_eq!(hash.0.len(), 32);
}

#[test]
fn test_hash_chain_basic() {
    let hasher = StateHasher::new();
    let hash1 = hasher.hash(&TestState { balance: 1, counter: 1, name: "a".to_string() });
    let hash2 = hasher.hash(&TestState { balance: 2, counter: 2, name: "b".to_string() });
    let chain = hasher.hash_chain(&[hash1, hash2]);
    assert_eq!(chain.0.len(), 32);
}

#[test]
fn test_extend_chain_basic() {
    let hasher = StateHasher::new();
    let hash1 = hasher.hash(&TestState { balance: 1, counter: 1, name: "a".to_string() });
    let hash2 = hasher.hash(&TestState { balance: 2, counter: 2, name: "b".to_string() });
    let chain1 = hasher.hash_chain(&[hash1]);
    let chain2 = hasher.extend_chain(&chain1, &hash2);
    assert_eq!(chain2.0.len(), 32);
    assert_ne!(chain1, chain2);
}

#[test]
fn hash_is_blake3_of_the_encoding() {
    let hasher = StateHasher::new();
    let state = ValueState { value: 7 };
    let expected = *blake3::hash(&bincode::serialize(&7i64).unwrap()).as_bytes();
    assert_eq!(hasher.hash(&state).0, expected);
}

#[test]
fn hash_chain_digests_concatenation() {
    let hasher = StateHasher::new();
    let a = StateHash([1u8; 32]);
    let b = StateHash([2u8; 32]);
    let mut bytes = vec![1u8; 32];
    bytes.extend_from_slice(&[2u8; 32]);
    assert_eq!(hasher.hash_chain(&[a, b]).0, *blake3::hash(&bytes).as_bytes());
    assert_eq!(hasher.extend_chain(&a, &b).0, *blake3::hash(&bytes).as_bytes());
    assert_eq!(hasher.hash_chain(&[]).0, *blake3::hash(&[]).as_bytes());
}

#[test]
fn hash_prints_as_lowercase_hex() {
    let h = StateHash([0xabu8; 32]);
    let text = h.to_text();
    assert_eq!(text.len(), 64);
    assert_eq!(&text[0..4], "abab");
    assert_eq!(StateHash::zero().to_text(), "0".repeat(64));
}

#[test]
fn version_prints_as_triple() {
    assert_eq!(dtre::Version::new(1, 20, 3).to_text(), "1.20.3");
    assert!(dtre::Version::new(1, 0, 0).is_compatible_with(&dtre::Version::new(1, 5, 2)));
    assert!(!dtre::Version::new(1, 0, 0).is_compatible_with(&dtre::Version::new(2, 0, 0)));
}
