//! The execution context: the only channel through which rules read
//! time, randomness, external facts, external entities and orderings.

use vstd::prelude::*;
use vstd::string::StringExecFns;
use crate::error::ProcessingError;
use crate::store::TextMap;
use crate::types::Timestamp;

verus! {

#[verifier::external_type_specification]
#[verifier::external_body]
pub struct ExChaCha8Rng(rand_chacha::ChaCha8Rng);

/// Relies on `SeedableRng::seed_from_u64` of `rand_chacha::ChaCha8Rng`: a
/// generator fully determined by the seed.
#[verifier::external_body]
fn rng_from_seed(seed: u64) -> rand_chacha::ChaCha8Rng {
    <rand_chacha::ChaCha8Rng as rand::SeedableRng>::seed_from_u64(seed)
}

/// Relies on `rand::Rng::gen::<u64>`: the next value of the stream.
#[verifier::external_body]
fn draw_u64(rng: &mut rand_chacha::ChaCha8Rng) -> u64 {
    rand::Rng::gen::<u64>(rng)
}

/// Relies on `rand::Rng::gen::<u32>`: the next value of the stream.
#[verifier::external_body]
fn draw_u32(rng: &mut rand_chacha::ChaCha8Rng) -> u32 {
    rand::Rng::gen::<u32>(rng)
}

/// Relies on `rand::Rng::gen_range` over `low..high`, which panics on an
/// empty range and otherwise returns a value inside it.
#[verifier::external_body]
fn draw_range(rng: &mut rand_chacha::ChaCha8Rng, low: u64, high: u64) -> (r: u64)
    requires
        low < high,
    ensures
        low <= r < high,
{
    rand::Rng::gen_range(rng, low..high)
}

/// Relies on `rand::Rng::gen_ratio`, which panics unless
/// `0 < denominator` and `numerator <= denominator`, never yields `true`
/// for a zero numerator and always does when both are equal.
#[verifier::external_body]
fn draw_ratio(rng: &mut rand_chacha::ChaCha8Rng, numerator: u32, denominator: u32) -> (r: bool)
    requires
        0 < denominator,
        numerator <= denominator,
    ensures
        numerator == 0 ==> !r,
        numerator == denominator ==> r,
{
    rand::Rng::gen_ratio(rng, numerator, denominator)
}

/// Relies on `chrono::Utc::now`: the wall-clock instant, as seconds and
/// nanoseconds since the Unix epoch.
#[verifier::external_body]
pub(crate) fn wall_clock_now() -> Timestamp {
    let now = chrono::Utc::now();
    Timestamp::new(now.timestamp(), now.timestamp_subsec_nanos())
}

/// A frozen clock.
#[derive(Debug, Clone, Copy)]
pub struct DeterministicTime {
    current_time: Timestamp,
}

impl DeterministicTime {
    pub closed spec fn spec_current(&self) -> Timestamp {
        self.current_time
    }

    pub fn new(time: Timestamp) -> (r: DeterministicTime)
        ensures
            r.spec_current() == time,
    {
        DeterministicTime { current_time: time }
    }

    /// The frozen instant; every call returns the same value.
    pub fn current(&self) -> (r: Timestamp)
        ensures
            r == self.spec_current(),
    {
        self.current_time
    }

    /// A clock frozen at another instant; `self` is unchanged.
    pub fn with_time(&self, time: Timestamp) -> (r: DeterministicTime)
        ensures
            r.spec_current() == time,
    {
        DeterministicTime { current_time: time }
    }
}

/// A ChaCha8 stream seeded from a `u64`.  Cloning restarts the stream from
/// the seed, so a clone yields the same values as a fresh generator.
#[derive(Debug)]
pub struct SeededRandom {
    rng: rand_chacha::ChaCha8Rng,
    seed: u64,
}

impl SeededRandom {
    pub closed spec fn spec_seed(&self) -> u64 {
        self.seed
    }

    pub fn new(seed: u64) -> (r: SeededRandom)
        ensures
            r.spec_seed() == seed,
    {
        SeededRandom { rng: rng_from_seed(seed), seed }
    }

    pub fn seed(&self) -> (r: u64)
        ensures
            r == self.spec_seed(),
    {
        self.seed
    }

    pub fn next_u64(&mut self) -> (r: u64)
        ensures
            final(self).spec_seed() == old(self).spec_seed(),
    {
        draw_u64(&mut self.rng)
    }

    pub fn next_u32(&mut self) -> (r: u32)
        ensures
            final(self).spec_seed() == old(self).spec_seed(),
    {
        draw_u32(&mut self.rng)
    }

    /// A value in `low..high`.
    pub fn gen_range(&mut self, low: u64, high: u64) -> (r: u64)
        requires
            low < high,
        ensures
            low <= r < high,
            final(self).spec_seed() == old(self).spec_seed(),
    {
        draw_range(&mut self.rng, low, high)
    }

    /// `true` with probability `numerator / denominator`.
    pub fn gen_ratio(&mut self, numerator: u32, denominator: u32) -> (r: bool)
        requires
            0 < denominator,
            numerator <= denominator,
        ensures
            numerator == 0 ==> !r,
            numerator == denominator ==> r,
            final(self).spec_seed() == old(self).spec_seed(),
    {
        draw_ratio(&mut self.rng, numerator, denominator)
    }
}

impl Clone for SeededRandom {
    /// A generator restarted from the same seed.
    fn clone(&self) -> (r: SeededRandom)
        ensures
            r.spec_seed() == self.spec_seed(),
    {
        SeededRandom::new(self.seed)
    }
}

/// A typed value supplied from outside the engine.
#[derive(Debug, Clone, PartialEq, Eq)]
pub enum ExternalValue {
    Integer(i64),
    Unsigned(u64),
    Boolean(bool),
    Text(String),
    Record { kind: String, fields: Vec<(String, String)> },
}

/// The name of a value's type: `i64`, `u64`, `bool`, `String`, or a record's own kind.
pub open spec fn kind_of(v: ExternalValue) -> Seq<char> {
    match v {
        ExternalValue::Integer(_) => "i64"@,
        ExternalValue::Unsigned(_) => "u64"@,
        ExternalValue::Boolean(_) => "bool"@,
        ExternalValue::Text(_) => "String"@,
        ExternalValue::Record { kind, .. } => kind@,
    }
}

impl ExternalValue {
    /// The name of the value's type.
    pub fn kind_name(&self) -> (r: String)
        ensures
            r@ == kind_of(*self),
    {
        proof {
            reveal_strlit("i64");
            reveal_strlit("u64");
            reveal_strlit("bool");
            reveal_strlit("String");
        }
        match self {
            ExternalValue::Integer(_) => String::from_str("i64"),
            ExternalValue::Unsigned(_) => String::from_str("u64"),
            ExternalValue::Boolean(_) => String::from_str("bool"),
            ExternalValue::Text(_) => String::from_str("String"),
            ExternalValue::Record { kind, .. } => kind.clone(),
        }
    }
}

/// Whether a value has the named type.
fn has_type(v: &ExternalValue, kind: &str) -> (r: bool)
    ensures
        r == (kind_of(*v) == kind@),
{
    let t = v.kind_name();
    let wanted = kind.to_owned();
    t == wanted
}

/// Immutable typed facts keyed by name.  A lookup of a missing key, or with
/// another type, yields nothing.
#[derive(Debug, Clone)]
pub struct ExternalFacts {
    facts: TextMap<ExternalValue>,
}

impl View for ExternalFacts {
    type V = Map<Seq<char>, ExternalValue>;

    closed spec fn view(&self) -> Map<Seq<char>, ExternalValue> {
        self.facts@
    }
}

impl ExternalFacts {
    pub closed spec fn wf(&self) -> bool {
        self.facts.wf()
    }

    pub fn new() -> (r: ExternalFacts)
        ensures
            r.wf(),
            r@ == Map::<Seq<char>, ExternalValue>::empty(),
    {
        ExternalFacts { facts: TextMap::new() }
    }

    pub fn insert(&mut self, key: String, value: ExternalValue)
        requires
            old(self).wf(),
        ensures
            final(self).wf(),
            final(self)@ == old(self)@.insert(key@, value),
    {
        self.facts.insert(key, value)
    }

    /// The fact under `key` if it has the type `kind`.
    pub fn get(&self, key: &str, kind: &str) -> (r: Option<&ExternalValue>)
        requires
            self.wf(),
        ensures
            r is Some <==> (self@.contains_key(key@) && kind_of(self@[key@]) == kind@),
            r matches Some(v) ==> *v == self@[key@],
    {
        match self.facts.get(key) {
            Some(v) => {
                if has_type(v, kind) {
                    Some(v)
                } else {
                    None
                }
            },
            None => None,
        }
    }

    pub fn contains_key(&self, key: &str) -> (r: bool)
        requires
            self.wf(),
        ensures
            r == self@.contains_key(key@),
    {
        self.facts.contains_key(key)
    }

    pub fn len(&self) -> (r: usize)
        requires
            self.wf(),
        ensures
            r == self@.dom().len(),
    {
        self.facts.len()
    }

    pub fn is_empty(&self) -> (r: bool)
        requires
            self.wf(),
        ensures
            r == (self@.dom().len() == 0),
    {
        self.facts.is_empty()
    }
}

/// Entities keyed by identifier.  A missing identifier or a value of
/// another type is an error.
#[derive(Debug, Clone)]
pub struct ExternalEntityResolver {
    entities: TextMap<ExternalValue>,
}

impl View for ExternalEntityResolver {
    type V = Map<Seq<char>, ExternalValue>;

    closed spec fn view(&self) -> Map<Seq<char>, ExternalValue> {
        self.entities@
    }
}

impl ExternalEntityResolver {
    pub closed spec fn wf(&self) -> bool {
        self.entities.wf()
    }

    pub fn new() -> (r: ExternalEntityResolver)
        ensures
            r.wf(),
            r@ == Map::<Seq<char>, ExternalValue>::empty(),
    {
        ExternalEntityResolver { entities: TextMap::new() }
    }

    pub fn register(&mut self, entity_id: String, entity: ExternalValue)
        requires
            old(self).wf(),
        ensures
            final(self).wf(),
            final(self)@ == old(self)@.insert(entity_id@, entity),
    {
        self.entities.insert(entity_id, entity)
    }

    /// The entity under `entity_id`, which must have the type `kind`.
    pub fn resolve(&self, entity_id: &str, kind: &str) -> (r: Result<
        &ExternalValue,
        ProcessingError,
    >)
        requires
            self.wf(),
        ensures
            !self@.contains_key(entity_id@) ==> (r matches Err(
                ProcessingError::ExternalEntityNotFound { entity_id: id },
            ) && id@ == entity_id@),
            self@.contains_key(entity_id@) && kind_of(self@[entity_id@]) != kind@ ==> (r matches Err(
                ProcessingError::ExternalEntityTypeMismatch { entity_id: id, expected_type: t },
            ) && id@ == entity_id@ && t@ == kind@),
            self@.contains_key(entity_id@) && kind_of(self@[entity_id@]) == kind@ ==> (r matches Ok(
                v,
            ) && *v == self@[entity_id@]),
    {
        match self.entities.get(entity_id) {
            None => Err(ProcessingError::ExternalEntityNotFound { entity_id: entity_id.to_owned() }),
            Some(v) => {
                if has_type(v, kind) {
                    Ok(v)
                } else {
                    Err(
                        ProcessingError::ExternalEntityTypeMismatch {
                            entity_id: entity_id.to_owned(),
                            expected_type: kind.to_owned(),
                        },
                    )
                }
            },
        }
    }

    pub fn contains(&self, entity_id: &str) -> (r: bool)
        requires
            self.wf(),
        ensures
            r == self@.contains_key(entity_id@),
    {
        self.entities.contains_key(entity_id)
    }

    pub fn len(&self) -> (r: usize)
        requires
            self.wf(),
        ensures
            r == self@.dom().len(),
    {
        self.entities.len()
    }

    pub fn is_empty(&self) -> (r: bool)
        requires
            self.wf(),
        ensures
            r == (self@.dom().len() == 0),
    {
        self.entities.is_empty()
    }
}

/// Lexicographic order on texts, character by character.
pub open spec fn text_le(a: Seq<char>, b: Seq<char>) -> bool
    decreases a.len(),
{
    if a.len() == 0 {
        true
    } else if b.len() == 0 {
        false
    } else if a[0] != b[0] {
        (a[0] as u32) < (b[0] as u32)
    } else {
        text_le(a.drop_first(), b.drop_first())
    }
}

/// The texts that a vector of strings holds.
pub open spec fn texts(v: Seq<String>) -> Seq<Seq<char>> {
    v.map_values(|s: String| s@)
}

/// The position of an identifier in a canonical order (its last occurrence),
/// or `usize::MAX` when the order does not list it.
pub open spec fn rank_of(order: Seq<Seq<char>>, id: Seq<char>) -> int
    decreases order.len(),
{
    if order.len() == 0 {
        usize::MAX as int
    } else if order.last() == id {
        order.len() - 1
    } else {
        rank_of(order.drop_last(), id)
    }
}

/// The rank of `id` in `order`.
fn rank_in(order: &Vec<String>, id: &String) -> (r: usize)
    ensures
        r as int == rank_of(texts(order@), id@),
{
    let mut i: usize = order.len();
    assert(texts(order@).subrange(0, i as int) =~= texts(order@));
    while i > 0
        invariant
            i <= order@.len(),
            rank_of(texts(order@), id@) == rank_of(texts(order@).subrange(0, i as int), id@),
        decreases i,
    {
        let ghost pre = texts(order@).subrange(0, i as int);
        assert(pre.drop_last() =~= texts(order@).subrange(0, i - 1));
        assert(pre.last() == order@[i - 1]@);
        if order[i - 1] == *id {
            return i - 1;
        }
        i = i - 1;
    }
    assert(texts(order@).subrange(0, 0).len() == 0);
    usize::MAX
}

/// Relies on `slice::sort_by_key` with a key computed by `rank_in`: the
/// result is a permutation of the input with ranks in non-decreasing order.
#[verifier::external_body]
fn sort_by_rank(items: &mut Vec<String>, order: &Vec<String>)
    ensures
        final(items)@.to_multiset() == old(items)@.to_multiset(),
        forall|i: int, j: int|
            0 <= i < j < final(items)@.len() ==> rank_of(texts(order@), final(items)@[i]@)
                <= rank_of(texts(order@), final(items)@[j]@),
{
    items.sort_by_key(|s| rank_in(order, s))
}

/// Relies on `slice::sort` over `String`, whose order is the lexicographic
/// order of the characters: the result is a sorted permutation of the input.
#[verifier::external_body]
fn sort_texts(items: &mut Vec<String>)
    ensures
        final(items)@.to_multiset() == old(items)@.to_multiset(),
        forall|i: int, j: int|
            0 <= i < j < final(items)@.len() ==> text_le(final(items)@[i]@, final(items)@[j]@),
{
    items.sort()
}

/// A copy of a list of identifiers.
fn copy_texts(v: &[String]) -> (r: Vec<String>)
    ensures
        r@ == v@,
{
    let mut r: Vec<String> = Vec::new();
    let mut i: usize = 0;
    while i < v.len()
        invariant
            i <= v@.len(),
            r@ == v@.subrange(0, i as int),
        decreases v@.len() - i,
    {
        r.push(v[i].clone());
        i = i + 1;
    }
    assert(r@ =~= v@);
    r
}

/// Whether two identifier lists hold the same texts in the same order.
fn same_texts(a: &[String], b: &[String]) -> (r: bool)
    ensures
        r == (texts(a@) == texts(b@)),
{
    if a.len() != b.len() {
        assert(texts(a@).len() != texts(b@).len());
        return false;
    }
    let mut i: usize = 0;
    while i < a.len()
        invariant
            a@.len() == b@.len(),
            i <= a@.len(),
            forall|j: int| 0 <= j < i ==> a@[j]@ == b@[j]@,
        decreases a@.len() - i,
    {
        if a[i] != b[i] {
            assert(texts(a@)[i as int] != texts(b@)[i as int]);
            return false;
        }
        i = i + 1;
    }
    assert(texts(a@) =~= texts(b@));
    true
}

/// Canonical orderings of collections, by entity type.
#[derive(Debug, Clone)]
pub struct OrderingRules {
    enforce_stable_ordering: bool,
    custom_orderings: TextMap<Vec<String>>,
}

impl View for OrderingRules {
    type V = Map<Seq<char>, Vec<String>>;

    closed spec fn view(&self) -> Map<Seq<char>, Vec<String>> {
        self.custom_orderings@
    }
}

impl OrderingRules {
    pub closed spec fn wf(&self) -> bool {
        self.custom_orderings.wf()
    }

    pub closed spec fn enforced(&self) -> bool {
        self.enforce_stable_ordering
    }

    /// Rules with enforcement on and no orderings.
    pub fn new() -> (r: OrderingRules)
        ensures
            r.wf(),
            r.enforced(),
            r@ == Map::<Seq<char>, Vec<String>>::empty(),
    {
        OrderingRules { enforce_stable_ordering: true, custom_orderings: TextMap::new() }
    }

    /// Rules with enforcement off, for tests.
    pub fn permissive() -> (r: OrderingRules)
        ensures
            r.wf(),
            !r.enforced(),
            r@ == Map::<Seq<char>, Vec<String>>::empty(),
    {
        OrderingRules { enforce_stable_ordering: false, custom_orderings: TextMap::new() }
    }

    pub fn add_ordering(&mut self, entity_type: String, ordered_ids: Vec<String>)
        requires
            old(self).wf(),
        ensures
            final(self).wf(),
            final(self).enforced() == old(self).enforced(),
            final(self)@ == old(self)@.insert(entity_type@, ordered_ids),
    {
        self.custom_orderings.insert(entity_type, ordered_ids)
    }

    pub fn get_ordering(&self, entity_type: &str) -> (r: Option<&Vec<String>>)
        requires
            self.wf(),
        ensures
            r is Some <==> self@.contains_key(entity_type@),
            r matches Some(v) ==> *v == self@[entity_type@],
    {
        self.custom_orderings.get(entity_type)
    }

    pub fn is_stable_ordering_enforced(&self) -> (r: bool)
        ensures
            r == self.enforced(),
    {
        self.enforce_stable_ordering
    }

    /// Checks a collection's identifiers, in order, against the registered
    /// ordering of `entity_type`.
    pub fn validate_ordering(&self, entity_type: &str, ids: &[String]) -> (r: Result<
        (),
        ProcessingError,
    >)
        requires
            self.wf(),
        ensures
            r is Ok <==> (!self.enforced() || !self@.contains_key(entity_type@) || texts(ids@)
                == texts(self@[entity_type@]@)),
            r matches Err(e) ==> (e matches ProcessingError::OrderingViolation {
                entity_type: t,
                expected_order: x,
                actual_order: a,
            } && t@ == entity_type@ && x@ == self@[entity_type@]@ && a@ == ids@),
    {
        if !self.enforce_stable_ordering {
            return Ok(());
        }
        match self.custom_orderings.get(entity_type) {
            Some(expected) => {
                if same_texts(ids, expected.as_slice()) {
                    Ok(())
                } else {
                    Err(
                        ProcessingError::OrderingViolation {
                            entity_type: entity_type.to_owned(),
                            expected_order: copy_texts(expected.as_slice()),
                            actual_order: copy_texts(ids),
                        },
                    )
                }
            },
            None => Ok(()),
        }
    }

    /// Reorders identifiers by the registered ordering of `entity_type`
    /// (unlisted ones last), or lexicographically when none is registered.
    pub fn sort_by_ordering(&self, entity_type: &str, ids: &mut Vec<String>)
        requires
            self.wf(),
        ensures
            final(ids)@.to_multiset() == old(ids)@.to_multiset(),
            self@.contains_key(entity_type@) ==> forall|i: int, j: int|
                0 <= i < j < final(ids)@.len() ==> rank_of(
                    texts(self@[entity_type@]@),
                    final(ids)@[i]@,
                ) <= rank_of(texts(self@[entity_type@]@), final(ids)@[j]@),
            !self@.contains_key(entity_type@) ==> forall|i: int, j: int|
                0 <= i < j < final(ids)@.len() ==> text_le(final(ids)@[i]@, final(ids)@[j]@),
    {
        match self.custom_orderings.get(entity_type) {
            Some(order) => sort_by_rank(ids, order),
            None => sort_texts(ids),
        }
    }
}

impl Default for OrderingRules {
    fn default() -> (r: OrderingRules)
        ensures
            r.wf(),
            r.enforced(),
            r@ == Map::<Seq<char>, Vec<String>>::empty(),
    {
        OrderingRules::new()
    }
}

/// Everything a rule set may read besides the state and the transaction.
#[derive(Debug, Clone)]
pub struct ExecutionContext {
    deterministic_time: DeterministicTime,
    seeded_random: SeededRandom,
    external_facts: ExternalFacts,
    entity_resolver: ExternalEntityResolver,
    ordering_rules: OrderingRules,
}

impl ExecutionContext {
    pub closed spec fn wf(&self) -> bool {
        self.external_facts.wf() && self.entity_resolver.wf() && self.ordering_rules.wf()
    }

    pub closed spec fn spec_now(&self) -> Timestamp {
        self.deterministic_time.spec_current()
    }

    pub closed spec fn spec_seed(&self) -> u64 {
        self.seeded_random.spec_seed()
    }

    pub closed spec fn spec_facts(&self) -> ExternalFacts {
        self.external_facts
    }

    pub closed spec fn spec_entities(&self) -> ExternalEntityResolver {
        self.entity_resolver
    }

    pub closed spec fn spec_ordering(&self) -> OrderingRules {
        self.ordering_rules
    }

    /// A context frozen at `time`, seeded with `random_seed`, with no facts,
    /// entities or orderings.
    pub fn new(time: Timestamp, random_seed: u64) -> (r: ExecutionContext)
        ensures
            r.wf(),
            r.spec_now() == time,
            r.spec_seed() == random_seed,
            r.spec_facts()@ == Map::<Seq<char>, ExternalValue>::empty(),
            r.spec_entities()@ == Map::<Seq<char>, ExternalValue>::empty(),
            r.spec_ordering()@ == Map::<Seq<char>, Vec<String>>::empty(),
            r.spec_ordering().enforced(),
    {
        ExecutionContext {
            deterministic_time: DeterministicTime::new(time),
            seeded_random: SeededRandom::new(random_seed),
            external_facts: ExternalFacts::new(),
            entity_resolver: ExternalEntityResolver::new(),
            ordering_rules: OrderingRules::new(),
        }
    }

    pub fn builder() -> (r: ExecutionContextBuilder)
        ensures
            r.wf(),
            r.spec_time() is None,
            r.spec_seed() is None,
    {
        ExecutionContextBuilder::new()
    }

    /// The frozen instant.
    pub fn now(&self) -> (r: Timestamp)
        ensures
            r == self.spec_now(),
    {
        self.deterministic_time.current()
    }

    /// The seeded generator.
    pub fn random(&mut self) -> (r: &mut SeededRandom) {
        &mut self.seeded_random
    }

    /// The fact under `key` if it has the type `kind`.
    pub fn get_external_fact(&self, key: &str, kind: &str) -> (r: Option<&ExternalValue>)
        requires
            self.wf(),
        ensures
            r is Some <==> (self.spec_facts()@.contains_key(key@) && kind_of(
                self.spec_facts()@[key@],
            ) == kind@),
            r matches Some(v) ==> *v == self.spec_facts()@[key@],
    {
        self.external_facts.get(key, kind)
    }

    pub fn external_facts(&self) -> (r: &ExternalFacts)
        ensures
            *r == self.spec_facts(),
    {
        &self.external_facts
    }

    /// The entity under `entity_id`, which must have the type `kind`.
    pub fn resolve_entity(&self, entity_id: &str, kind: &str) -> (r: Result<
        &ExternalValue,
        ProcessingError,
    >)
        requires
            self.wf(),
        ensures
            !self.spec_entities()@.contains_key(entity_id@) ==> (r matches Err(
                ProcessingError::ExternalEntityNotFound { entity_id: id },
            ) && id@ == entity_id@),
            self.spec_entities()@.contains_key(entity_id@) && kind_of(
                self.spec_entities()@[entity_id@],
            ) != kind@ ==> (r matches Err(
                ProcessingError::ExternalEntityTypeMismatch { entity_id: id, expected_type: t },
            ) && id@ == entity_id@ && t@ == kind@),
            self.spec_entities()@.contains_key(entity_id@) && kind_of(
                self.spec_entities()@[entity_id@],
            ) == kind@ ==> (r matches Ok(v) && *v == self.spec_entities()@[entity_id@]),
    {
        self.entity_resolver.resolve(entity_id, kind)
    }

    pub fn entity_resolver(&self) -> (r: &ExternalEntityResolver)
        ensures
            *r == self.spec_entities(),
    {
        &self.entity_resolver
    }

    pub fn ordering_rules(&self) -> (r: &OrderingRules)
        ensures
            *r == self.spec_ordering(),
    {
        &self.ordering_rules
    }

    /// Checks identifiers against the registered ordering of `entity_type`.
    pub fn validate_ordering(&self, entity_type: &str, ids: &[String]) -> (r: Result<
        (),
        ProcessingError,
    >)
        requires
            self.wf(),
        ensures
            r is Ok <==> (!self.spec_ordering().enforced() || !self.spec_ordering()@.contains_key(
                entity_type@,
            ) || texts(ids@) == texts(self.spec_ordering()@[entity_type@]@)),
    {
        self.ordering_rules.validate_ordering(entity_type, ids)
    }

    /// Reorders identifiers by the registered ordering of `entity_type`.
    pub fn sort_by_ordering(&self, entity_type: &str, ids: &mut Vec<String>)
        requires
            self.wf(),
        ensures
            final(ids)@.to_multiset() == old(ids)@.to_multiset(),
            self.spec_ordering()@.contains_key(entity_type@) ==> forall|i: int, j: int|
                0 <= i < j < final(ids)@.len() ==> rank_of(
                    texts(self.spec_ordering()@[entity_type@]@),
                    final(ids)@[i]@,
                ) <= rank_of(texts(self.spec_ordering()@[entity_type@]@), final(ids)@[j]@),
            !self.spec_ordering()@.contains_key(entity_type@) ==> forall|i: int, j: int|
                0 <= i < j < final(ids)@.len() ==> text_le(final(ids)@[i]@, final(ids)@[j]@),
    {
        self.ordering_rules.sort_by_ordering(entity_type, ids)
    }

    /// The same context frozen at another instant; the generator restarts
    /// from the same seed and `self` is unchanged.
    pub fn with_time(&self, time: Timestamp) -> (r: ExecutionContext)
        ensures
            r.spec_now() == time,
            r.spec_seed() == self.spec_seed(),
    {
        ExecutionContext {
            deterministic_time: self.deterministic_time.with_time(time),
            seeded_random: self.seeded_random.clone(),
            external_facts: self.external_facts.clone(),
            entity_resolver: self.entity_resolver.clone(),
            ordering_rules: self.ordering_rules.clone(),
        }
    }
}

/// Builder of an `ExecutionContext`.
pub struct ExecutionContextBuilder {
    time: Option<Timestamp>,
    random_seed: Option<u64>,
    external_facts: ExternalFacts,
    entity_resolver: ExternalEntityResolver,
    ordering_rules: OrderingRules,
}

impl ExecutionContextBuilder {
    pub closed spec fn wf(&self) -> bool {
        self.external_facts.wf() && self.entity_resolver.wf() && self.ordering_rules.wf()
    }

    pub closed spec fn spec_time(&self) -> Option<Timestamp> {
        self.time
    }

    pub closed spec fn spec_seed(&self) -> Option<u64> {
        self.random_seed
    }

    pub closed spec fn spec_facts(&self) -> ExternalFacts {
        self.external_facts
    }

    pub closed spec fn spec_entities(&self) -> ExternalEntityResolver {
        self.entity_resolver
    }

    pub closed spec fn spec_ordering(&self) -> OrderingRules {
        self.ordering_rules
    }

    pub fn new() -> (r: ExecutionContextBuilder)
        ensures
            r.wf(),
            r.spec_time() is None,
            r.spec_seed() is None,
            r.spec_facts()@ == Map::<Seq<char>, ExternalValue>::empty(),
            r.spec_entities()@ == Map::<Seq<char>, ExternalValue>::empty(),
            r.spec_ordering()@ == Map::<Seq<char>, Vec<String>>::empty(),
            r.spec_ordering().enforced(),
    {
        ExecutionContextBuilder {
            time: None,
            random_seed: None,
            external_facts: ExternalFacts::new(),
            entity_resolver: ExternalEntityResolver::new(),
            ordering_rules: OrderingRules::new(),
        }
    }

    pub fn with_time(self, time: Timestamp) -> (r: ExecutionContextBuilder)
        ensures
            r.spec_time() == Some(time),
            r.spec_seed() == self.spec_seed(),
            r.spec_facts() == self.spec_facts(),
            r.spec_entities() == self.spec_entities(),
            r.spec_ordering() == self.spec_ordering(),
            r.wf() == self.wf(),
    {
        let mut b = self;
        b.time = Some(time);
        b
    }

    pub fn with_random_seed(self, seed: u64) -> (r: ExecutionContextBuilder)
        ensures
            r.spec_seed() == Some(seed),
            r.spec_time() == self.spec_time(),
            r.spec_facts() == self.spec_facts(),
            r.spec_entities() == self.spec_entities(),
            r.spec_ordering() == self.spec_ordering(),
            r.wf() == self.wf(),
    {
        let mut b = self;
        b.random_seed = Some(seed);
        b
    }

    pub fn with_external_fact(self, key: String, value: ExternalValue) -> (r:
        ExecutionContextBuilder)
        requires
            self.wf(),
        ensures
            r.wf(),
            r.spec_facts()@ == self.spec_facts()@.insert(key@, value),
            r.spec_time() == self.spec_time(),
            r.spec_seed() == self.spec_seed(),
            r.spec_entities() == self.spec_entities(),
            r.spec_ordering() == self.spec_ordering(),
    {
        let mut b = self;
        b.external_facts.insert(key, value);
        b
    }

    pub fn with_external_entity(self, entity_id: String, entity: ExternalValue) -> (r:
        ExecutionContextBuilder)
        requires
            self.wf(),
        ensures
            r.wf(),
            r.spec_entities()@ == self.spec_entities()@.insert(entity_id@, entity),
            r.spec_time() == self.spec_time(),
            r.spec_seed() == self.spec_seed(),
            r.spec_facts() == self.spec_facts(),
            r.spec_ordering() == self.spec_ordering(),
    {
        let mut b = self;
        b.entity_resolver.register(entity_id, entity);
        b
    }

    pub fn with_ordering(self, entity_type: String, ordered_ids: Vec<String>) -> (r:
        ExecutionContextBuilder)
        requires
            self.wf(),
        ensures
            r.wf(),
            r.spec_ordering()@ == self.spec_ordering()@.insert(entity_type@, ordered_ids),
            r.spec_ordering().enforced() == self.spec_ordering().enforced(),
            r.spec_time() == self.spec_time(),
            r.spec_seed() == self.spec_seed(),
            r.spec_facts() == self.spec_facts(),
            r.spec_entities() == self.spec_entities(),
    {
        let mut b = self;
        b.ordering_rules.add_ordering(entity_type, ordered_ids);
        b
    }

    pub fn with_ordering_rules(self, ordering_rules: OrderingRules) -> (r: ExecutionContextBuilder)
        requires
            self.wf(),
            ordering_rules.wf(),
        ensures
            r.wf(),
            r.spec_ordering() == ordering_rules,
            r.spec_time() == self.spec_time(),
            r.spec_seed() == self.spec_seed(),
            r.spec_facts() == self.spec_facts(),
            r.spec_entities() == self.spec_entities(),
    {
        let mut b = self;
        b.ordering_rules = ordering_rules;
        b
    }

    /// The context; without a time it is frozen at the wall-clock instant of
    /// this call, and without a seed the seed is 0.
    pub fn build(self) -> (r: ExecutionContext)
        requires
            self.wf(),
        ensures
            r.wf(),
            self.spec_time() matches Some(t) ==> r.spec_now() == t,
            r.spec_seed() == (match self.spec_seed() {
                Some(s) => s,
                None => 0u64,
            }),
            r.spec_facts() == self.spec_facts(),
            r.spec_entities() == self.spec_entities(),
            r.spec_ordering() == self.spec_ordering(),
    {
        let time = match self.time {
            Some(t) => t,
            None => wall_clock_now(),
        };
        let random_seed = match self.random_seed {
            Some(s) => s,
            None => 0,
        };
        ExecutionContext {
            deterministic_time: DeterministicTime::new(time),
            seeded_random: SeededRandom::new(random_seed),
            external_facts: self.external_facts,
            entity_resolver: self.entity_resolver,
            ordering_rules: self.ordering_rules,
        }
    }
}

impl Default for ExecutionContextBuilder {
    fn default() -> (r: ExecutionContextBuilder)
        ensures
            r.wf(),
            r.spec_time() is None,
            r.spec_seed() is None,
    {
        ExecutionContextBuilder::new()
    }
}

/// Operations whose outcome depends on the machine or the moment.
#[derive(Debug, Clone, Copy, PartialEq, Eq, Structural)]
pub enum Operation {
    SystemTime,
    RandomWithoutSeed,
    NetworkAccess,
    FileSystemRead,
    FileSystemWrite,
    EnvironmentVariable,
    ThreadSpawn,
    ProcessSpawn,
}

/// The name under which an operation is reported.
pub open spec fn operation_name(op: Operation) -> Seq<char> {
    match op {
        Operation::SystemTime => "system_time"@,
        Operation::RandomWithoutSeed => "unseeded_random"@,
        Operation::NetworkAccess => "network_access"@,
        Operation::FileSystemRead => "file_system_read"@,
        Operation::FileSystemWrite => "file_system_write"@,
        Operation::EnvironmentVariable => "environment_variable"@,
        Operation::ThreadSpawn => "thread_spawn"@,
        Operation::ProcessSpawn => "process_spawn"@,
    }
}

/// Where an operation is reported to have happened.
pub open spec fn operation_location(op: Operation) -> Seq<char> {
    match op {
        Operation::SystemTime => "time access"@,
        Operation::RandomWithoutSeed => "random generation"@,
        Operation::NetworkAccess => "external dependency"@,
        Operation::FileSystemRead => "file system access"@,
        Operation::FileSystemWrite => "file system access"@,
        Operation::EnvironmentVariable => "environment access"@,
        Operation::ThreadSpawn => "concurrency"@,
        Operation::ProcessSpawn => "process management"@,
    }
}

/// Rejects non-deterministic operations in strict mode; permits all otherwise.
#[derive(Debug, Clone, Copy)]
pub struct NonDeterminismGuard {
    strict_mode: bool,
}

impl NonDeterminismGuard {
    pub closed spec fn strict(&self) -> bool {
        self.strict_mode
    }

    /// A guard in strict mode.
    pub fn new() -> (r: NonDeterminismGuard)
        ensures
            r.strict(),
    {
        NonDeterminismGuard { strict_mode: true }
    }

    pub fn with_strict_mode(strict: bool) -> (r: NonDeterminismGuard)
        ensures
            r.strict() == strict,
    {
        NonDeterminismGuard { strict_mode: strict }
    }

    /// In strict mode every listed operation is an error that names it.
    pub fn check_operation(&self, op: &Operation) -> (r: Result<(), ProcessingError>)
        ensures
            r is Ok <==> !self.strict(),
            r matches Err(e) ==> (e matches ProcessingError::NonDeterministicOperation {
                operation: o,
                location: l,
            } && o@ == operation_name(*op) && l@ == operation_location(*op)),
    {
        if !self.strict_mode {
            return Ok(());
        }
        proof {
            reveal_strlit("system_time");
            reveal_strlit("time access");
            reveal_strlit("unseeded_random");
            reveal_strlit("random generation");
            reveal_strlit("network_access");
            reveal_strlit("external dependency");
            reveal_strlit("file_system_read");
            reveal_strlit("file system access");
            reveal_strlit("file_system_write");
            reveal_strlit("environment_variable");
            reveal_strlit("environment access");
            reveal_strlit("thread_spawn");
            reveal_strlit("concurrency");
            reveal_strlit("process_spawn");
            reveal_strlit("process management");
        }
        let (operation, location) = match op {
            Operation::SystemTime => ("system_time", "time access"),
            Operation::RandomWithoutSeed => ("unseeded_random", "random generation"),
            Operation::NetworkAccess => ("network_access", "external dependency"),
            Operation::FileSystemRead => ("file_system_read", "file system access"),
            Operation::FileSystemWrite => ("file_system_write", "file system access"),
            Operation::EnvironmentVariable => ("environment_variable", "environment access"),
            Operation::ThreadSpawn => ("thread_spawn", "concurrency"),
            Operation::ProcessSpawn => ("process_spawn", "process management"),
        };
        Err(
            ProcessingError::NonDeterministicOperation {
                operation: String::from_str(operation),
                location: String::from_str(location),
            },
        )
    }

    /// Runs `f` when the operation is permitted.
    pub fn validate<T, F: FnOnce() -> T>(&self, op: &Operation, f: F) -> (r: Result<
        T,
        ProcessingError,
    >)
        requires
            f.requires(()),
        ensures
            r is Ok <==> !self.strict(),
            r matches Ok(v) ==> f.ensures((), v),
            r matches Err(e) ==> (e matches ProcessingError::NonDeterministicOperation {
                operation: o,
                ..
            } && o@ == operation_name(*op)),
    {
        match self.check_operation(op) {
            Ok(()) => Ok(f()),
            Err(e) => Err(e),
        }
    }
}

impl Default for NonDeterminismGuard {
    fn default() -> (r: NonDeterminismGuard)
        ensures
            r.strict(),
    {
        NonDeterminismGuard::new()
    }
}

} // verus!
