//! Core data types: versions, hashes, timestamps, traces and replay results.

use vstd::prelude::*;
use vstd::string::StringExecFns;

verus! {

/// A semantic version `major.minor.patch` tagging a rule set.
#[derive(Debug, Clone, Copy, PartialEq, Eq, Hash, Structural)]
pub struct Version {
    pub major: u32,
    pub minor: u32,
    pub patch: u32,
}

/// Decimal digits of a number, as written by its `Display` impl.
pub uninterp spec fn decimal_of(n: u64) -> Seq<char>;

/// Relies on `u64`'s `Display`, through `ToString::to_string`: the decimal
/// digits of the number.
#[verifier::external_body]
pub(crate) fn decimal_text(n: u64) -> (r: String)
    ensures
        r@ == decimal_of(n),
        r@.len() > 0,
{
    n.to_string()
}

/// `a.b.c` as text.
pub open spec fn version_text(v: Version) -> Seq<char> {
    decimal_of(v.major as u64) + seq!['.'] + decimal_of(v.minor as u64) + seq!['.']
        + decimal_of(v.patch as u64)
}

/// Lexicographic order on `(major, minor, patch)`.
pub open spec fn version_le(a: Version, b: Version) -> bool {
    a.major < b.major || (a.major == b.major && (a.minor < b.minor || (a.minor == b.minor
        && a.patch <= b.patch)))
}

impl Version {
    pub fn new(major: u32, minor: u32, patch: u32) -> (r: Version)
        ensures
            r.major == major,
            r.minor == minor,
            r.patch == patch,
    {
        Version { major, minor, patch }
    }

    /// Two versions are compatible when their major numbers are equal.
    pub fn is_compatible_with(&self, other: &Version) -> (r: bool)
        ensures
            r == (self.major == other.major),
    {
        self.major == other.major
    }

    /// Whether `self` is at most `other` in lexicographic order.
    pub fn is_at_most(&self, other: &Version) -> (r: bool)
        ensures
            r == version_le(*self, *other),
    {
        if self.major != other.major {
            self.major < other.major
        } else if self.minor != other.minor {
            self.minor < other.minor
        } else {
            self.patch <= other.patch
        }
    }

    /// The version written as `MAJOR.MINOR.PATCH`.
    pub fn to_text(&self) -> (r: String)
        ensures
            r@ == version_text(*self),
    {
        let mut s = decimal_text(self.major as u64);
        s.append(".");
        let minor = decimal_text(self.minor as u64);
        s.append(minor.as_str());
        s.append(".");
        let patch = decimal_text(self.patch as u64);
        s.append(patch.as_str());
        proof {
            reveal_strlit(".");
        }
        s
    }
}

/// A 32-byte state fingerprint; equality is bytewise.
#[derive(Debug, Clone, Copy, Hash)]
pub struct StateHash(pub [u8; 32]);

/// Lower-case hexadecimal digit of a value below 16.
pub open spec fn hex_digit(d: u8) -> char {
    if d < 10 {
        (('0' as u8) + d) as char
    } else {
        (('a' as u8) + (d - 10)) as char
    }
}

/// Two lower-case hexadecimal digits per byte, high nibble first.
pub open spec fn hex_of(b: Seq<u8>) -> Seq<char>
    decreases b.len(),
{
    if b.len() == 0 {
        Seq::empty()
    } else {
        seq![hex_digit(b[0] / 16), hex_digit(b[0] % 16)] + hex_of(b.drop_first())
    }
}

/// Relies on `hex::encode`: two lower-case digits per byte, in order.
#[verifier::external_body]
fn hex_text(b: &[u8]) -> (r: String)
    ensures
        r@ == hex_of(b@),
{
    hex::encode(b)
}

impl StateHash {
    /// The all-zero hash, which stands for a missing transition.
    pub fn zero() -> (r: StateHash)
        ensures
            r.0@ == Seq::new(32, |i: int| 0u8),
    {
        let r = StateHash([0u8; 32]);
        assert(r.0@ =~= Seq::new(32, |i: int| 0u8));
        r
    }

    /// Bytewise equality.
    pub fn same_as(&self, other: &StateHash) -> (r: bool)
        ensures
            r == (self.0@ == other.0@),
            r == (*self == *other),
    {
        let mut i: usize = 0;
        while i < 32
            invariant
                0 <= i <= 32,
                forall|j: int| 0 <= j < i ==> self.0@[j] == other.0@[j],
            decreases 32 - i,
        {
            if self.0[i] != other.0[i] {
                assert(self.0@[i as int] != other.0@[i as int]);
                return false;
            }
            i = i + 1;
        }
        assert(self.0@ =~= other.0@);
        proof {
            lemma_hash_eq_from_view(*self, *other);
        }
        true
    }

    /// The hash as 64 lower-case hexadecimal characters.
    pub fn to_text(&self) -> (r: String)
        ensures
            r@ == hex_of(self.0@),
    {
        hex_text(self.0.as_slice())
    }
}

/// Two hashes whose bytes agree are the same value.
pub proof fn lemma_hash_eq_from_view(a: StateHash, b: StateHash)
    requires
        a.0@ == b.0@,
    ensures
        a == b,
{
    assert(a.0 == b.0);
}

impl PartialEq for StateHash {
    fn eq(&self, other: &StateHash) -> (r: bool) {
        self.same_as(other)
    }
}

impl vstd::std_specs::cmp::PartialEqSpecImpl for StateHash {
    open spec fn obeys_eq_spec() -> bool {
        true
    }

    open spec fn eq_spec(&self, other: &StateHash) -> bool {
        *self == *other
    }
}

impl Eq for StateHash {}

/// An instant in UTC: whole seconds since the Unix epoch and the nanoseconds past them.
#[derive(Debug, Clone, Copy, PartialEq, Eq, Hash, PartialOrd, Ord, Structural)]
pub struct Timestamp {
    pub seconds: i64,
    pub nanos: u32,
}

impl Timestamp {
    pub fn new(seconds: i64, nanos: u32) -> (r: Timestamp)
        ensures
            r.seconds == seconds,
            r.nanos == nanos,
    {
        Timestamp { seconds, nanos }
    }

    /// An instant on a whole second.
    pub fn from_seconds(seconds: i64) -> (r: Timestamp)
        ensures
            r.seconds == seconds,
            r.nanos == 0,
    {
        Timestamp { seconds, nanos: 0 }
    }
}


/// One successful application, with both states in full.
#[derive(Debug, Clone)]
pub struct StateTransition<S> {
    pub from_state: S,
    pub to_state: S,
    pub from_hash: StateHash,
    pub to_hash: StateHash,
    pub transaction_id: String,
}

/// One successful application, by hashes.
#[derive(Debug, Clone)]
pub struct StateTransitionInfo {
    pub from_hash: StateHash,
    pub to_hash: StateHash,
    pub transaction_id: String,
}

/// Which rule version handled which transaction, and when the transaction happened.
#[derive(Debug, Clone)]
pub struct RuleApplication {
    pub rule_version: Version,
    pub transaction_id: String,
    pub timestamp: Timestamp,
}

/// A checkpoint taken during a replay.
#[derive(Debug, Clone, Copy)]
pub struct CheckpointInfo {
    pub transaction_index: usize,
    pub hash: StateHash,
    pub timestamp: Timestamp,
}

/// The audit trail of a replay; the three lists grow in lockstep.
#[derive(Debug, Clone)]
pub struct ExecutionTrace {
    pub transactions_processed: usize,
    pub state_transitions: Vec<StateTransitionInfo>,
    pub rule_applications: Vec<RuleApplication>,
    pub checkpoints: Vec<CheckpointInfo>,
}

/// Wall-clock measurements of a replay, in whole milliseconds; they are not
/// part of the determinism guarantee.
#[derive(Debug, Clone, Copy)]
pub struct PerformanceMetrics {
    pub total_duration_ms: u64,
    pub transactions_per_second: u64,
    pub average_transaction_time_ms: u64,
}

/// What a replay produced.
#[derive(Debug, Clone)]
pub struct ReplayResult<S> {
    pub final_state: S,
    pub final_hash: StateHash,
    pub execution_trace: ExecutionTrace,
    pub performance_metrics: PerformanceMetrics,
}

/// A transition whose resulting hash differs between two rule versions.
#[derive(Debug, Clone)]
pub struct StateDifference {
    pub transaction_id: String,
    pub transaction_index: usize,
    pub baseline_hash: StateHash,
    pub comparison_hash: StateHash,
    pub description: String,
}

/// The effect of replacing one rule version by another over the same input.
#[derive(Debug, Clone)]
pub struct ImpactAnalysis<S> {
    pub baseline_version: Version,
    pub comparison_version: Version,
    pub baseline_result: ReplayResult<S>,
    pub comparison_result: ReplayResult<S>,
    pub differences: Vec<StateDifference>,
    pub identical_final_state: bool,
    pub identical_final_hash: bool,
}

impl<S> ImpactAnalysis<S> {
    pub open spec fn spec_is_safe(&self) -> bool {
        self.identical_final_state && self.identical_final_hash && self.differences@.len() == 0
    }

    /// Safe when final states and hashes agree and no transition diverged.
    pub fn is_safe_migration(&self) -> (r: bool)
        ensures
            r == self.spec_is_safe(),
    {
        self.identical_final_state && self.identical_final_hash && self.differences.len() == 0
    }

    /// The number of transitions whose resulting hashes differ.
    pub fn difference_count(&self) -> (r: usize)
        ensures
            r == self.differences@.len(),
    {
        self.differences.len()
    }

    /// A one-line account naming both versions.
    pub fn summary(&self) -> (r: String)
        ensures
            self.spec_is_safe() ==> r@ == "Safe migration from "@ + version_text(
                self.baseline_version,
            ) + " to "@ + version_text(self.comparison_version),
            !self.spec_is_safe() ==> r@ == "Migration impact from "@ + version_text(
                self.baseline_version,
            ) + " to "@ + version_text(self.comparison_version) + ": "@ + decimal_of(
                self.differences@.len() as u64,
            ) + " transitions differ"@,
    {
        let b = self.baseline_version.to_text();
        let c = self.comparison_version.to_text();
        if self.is_safe_migration() {
            let mut s = String::from_str("Safe migration from ");
            s.append(b.as_str());
            s.append(" to ");
            s.append(c.as_str());
            s
        } else {
            let mut s = String::from_str("Migration impact from ");
            s.append(b.as_str());
            s.append(" to ");
            s.append(c.as_str());
            s.append(": ");
            let n = decimal_text(self.differences.len() as u64);
            s.append(n.as_str());
            s.append(" transitions differ");
            s
        }
    }
}

} // verus!
