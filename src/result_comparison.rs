//! Structural comparison of replay results and divergence reports.

use vstd::prelude::*;
use vstd::string::StringExecFns;
use crate::error::joined;
use crate::hasher::{StateHasher, state_digest};
use crate::traits::State;
use crate::store::{TextMap, keys_unique, map_of};
use crate::types::{
    ImpactAnalysis, ReplayResult, StateDifference, StateHash, StateTransitionInfo, Version,
    decimal_of, decimal_text,
};

verus! {

/// `differences` lists, in increasing order of index, exactly the positions
/// present in both transition lists whose resulting hashes differ.
pub open spec fn differences_exact(
    differences: Seq<StateDifference>,
    baseline: Seq<StateTransitionInfo>,
    comparison: Seq<StateTransitionInfo>,
) -> bool {
    &&& forall|j: int|
        0 <= j < differences.len() ==> {
            let d = #[trigger] differences[j];
            let i = d.transaction_index as int;
            &&& i < baseline.len()
            &&& i < comparison.len()
            &&& baseline[i].to_hash != comparison[i].to_hash
            &&& d.baseline_hash == baseline[i].to_hash
            &&& d.comparison_hash == comparison[i].to_hash
            &&& d.transaction_id@ == baseline[i].transaction_id@
        }
    &&& forall|j: int, k: int|
        0 <= j < k < differences.len() ==> differences[j].transaction_index
            < differences[k].transaction_index
    &&& forall|i: int|
        0 <= i < baseline.len() && i < comparison.len() && baseline[i].to_hash
            != comparison[i].to_hash ==> exists|j: int|
            0 <= j < differences.len() && (#[trigger] differences[j]).transaction_index == i
}

/// The positions, present in both lists, whose resulting hashes differ.
pub fn find_state_differences(
    baseline: &[StateTransitionInfo],
    comparison: &[StateTransitionInfo],
) -> (r: Vec<StateDifference>)
    ensures
        differences_exact(r@, baseline@, comparison@),
{
    let mut differences: Vec<StateDifference> = Vec::new();
    let n = if baseline.len() < comparison.len() {
        baseline.len()
    } else {
        comparison.len()
    };
    let mut i: usize = 0;
    while i < n
        invariant
            n <= baseline@.len(),
            n <= comparison@.len(),
            n == baseline@.len() || n == comparison@.len(),
            i <= n,
            forall|j: int|
                0 <= j < differences@.len() ==> {
                    let d = #[trigger] differences@[j];
                    let k = d.transaction_index as int;
                    &&& k < i
                    &&& baseline@[k].to_hash != comparison@[k].to_hash
                    &&& d.baseline_hash == baseline@[k].to_hash
                    &&& d.comparison_hash == comparison@[k].to_hash
                    &&& d.transaction_id@ == baseline@[k].transaction_id@
                },
            forall|j: int, k: int|
                0 <= j < k < differences@.len() ==> differences@[j].transaction_index
                    < differences@[k].transaction_index,
            forall|k: int|
                0 <= k < i && baseline@[k].to_hash != comparison@[k].to_hash ==> exists|j: int|
                    0 <= j < differences@.len() && (#[trigger] differences@[j]).transaction_index
                        == k,
        decreases n - i,
    {
        let b = &baseline[i];
        let c = &comparison[i];
        if !b.to_hash.same_as(&c.to_hash) {
            let index_text = decimal_text(i as u64);
            let mut description = joined("State diverged at transaction ", index_text.as_str());
            description.append(" (");
            description.append(b.transaction_id.as_str());
            description.append(")");
            let ghost before = differences@;
            differences.push(
                StateDifference {
                    transaction_id: b.transaction_id.clone(),
                    transaction_index: i,
                    baseline_hash: b.to_hash,
                    comparison_hash: c.to_hash,
                    description,
                },
            );
            assert forall|k: int|
                0 <= k < i + 1 && baseline@[k].to_hash != comparison@[k].to_hash implies exists|
                j: int,
            |
                0 <= j < differences@.len() && (#[trigger] differences@[j]).transaction_index
                    == k by {
                if k < i {
                    let j = choose|j: int|
                        0 <= j < before.len() && (#[trigger] before[j]).transaction_index == k;
                    assert(differences@[j] == before[j]);
                } else {
                    assert(differences@[differences@.len() - 1].transaction_index == k);
                }
            }
        }
        i = i + 1;
    }
    differences
}

/// One position of two transition lists, compared.
#[derive(Debug, Clone)]
pub struct TransitionDifference {
    pub transaction_index: usize,
    pub transaction_id: String,
    pub baseline_hash: StateHash,
    pub comparison_hash: StateHash,
    pub hashes_match: bool,
}

/// Timing of two results side by side, in whole milliseconds and
/// transactions per second; informational only.
#[derive(Debug, Clone, Copy)]
pub struct PerformanceComparison {
    pub baseline_duration_ms: u64,
    pub comparison_duration_ms: u64,
    pub duration_difference_ms: i64,
    pub baseline_tps: u64,
    pub comparison_tps: u64,
    pub tps_difference: i64,
}

/// One field of two states, rendered as text and compared.
#[derive(Debug, Clone)]
pub struct FieldComparison {
    pub field_name: String,
    pub baseline_value: String,
    pub comparison_value: String,
    pub values_match: bool,
}

/// The balances of one account under two results.
#[derive(Debug, Clone, PartialEq, Eq)]
pub struct BalanceDifference {
    pub account_id: String,
    pub baseline_balance: i64,
    pub comparison_balance: i64,
    pub difference: i64,
}

/// Two replay results compared.
#[derive(Debug, Clone)]
pub struct ResultComparison<S> {
    pub baseline_result: ReplayResult<S>,
    pub comparison_result: ReplayResult<S>,
    pub final_state_matches: bool,
    pub final_hash_matches: bool,
    pub transaction_count_matches: bool,
    pub state_differences: Vec<TransitionDifference>,
    pub performance_comparison: PerformanceComparison,
}

/// An integer clamped into the range of `i64`.
pub open spec fn clamp_i64(x: int) -> i64 {
    if x > i64::MAX {
        i64::MAX
    } else if x < i64::MIN {
        i64::MIN
    } else {
        x as i64
    }
}

fn clamped_difference(a: u64, b: u64) -> (r: i64)
    ensures
        r == clamp_i64(a - b),
{
    let d: i128 = (a as i128) - (b as i128);
    if d > i64::MAX as i128 {
        i64::MAX
    } else if d < i64::MIN as i128 {
        i64::MIN
    } else {
        d as i64
    }
}

/// The all-zero hash that stands for a missing transition.
pub open spec fn is_zero_hash(h: StateHash) -> bool {
    h.0@ == Seq::new(32, |i: int| 0u8)
}

/// Entry `i` of a transition comparison: the two hashes at `i`, or the
/// zero hash on the side that has no transition there.
pub open spec fn transition_entry(
    d: TransitionDifference,
    i: int,
    b: Seq<StateTransitionInfo>,
    c: Seq<StateTransitionInfo>,
) -> bool {
    &&& d.transaction_index == i
    &&& if i < b.len() && i < c.len() {
        &&& d.transaction_id@ == b[i].transaction_id@
        &&& d.baseline_hash == b[i].to_hash
        &&& d.comparison_hash == c[i].to_hash
        &&& d.hashes_match == (b[i].to_hash == c[i].to_hash)
    } else if i < b.len() {
        &&& d.transaction_id@ == b[i].transaction_id@
        &&& d.baseline_hash == b[i].to_hash
        &&& is_zero_hash(d.comparison_hash)
        &&& !d.hashes_match
    } else {
        &&& d.transaction_id@ == c[i].transaction_id@
        &&& is_zero_hash(d.baseline_hash)
        &&& d.comparison_hash == c[i].to_hash
        &&& !d.hashes_match
    }
}

/// A full comparison covers every position of the longer list.
pub open spec fn transitions_exact(
    r: Seq<TransitionDifference>,
    b: Seq<StateTransitionInfo>,
    c: Seq<StateTransitionInfo>,
) -> bool {
    &&& r.len() == if b.len() < c.len() {
        c.len()
    } else {
        b.len()
    }
    &&& forall|i: int| 0 <= i < r.len() ==> transition_entry(#[trigger] r[i], i, b, c)
}

/// Compares two transition lists position by position over the longer one.
pub fn compare_transitions(
    baseline: &[StateTransitionInfo],
    comparison: &[StateTransitionInfo],
) -> (r: Vec<TransitionDifference>)
    ensures
        transitions_exact(r@, baseline@, comparison@),
{
    let mut differences: Vec<TransitionDifference> = Vec::new();
    let max_len = if baseline.len() < comparison.len() {
        comparison.len()
    } else {
        baseline.len()
    };
    let mut i: usize = 0;
    while i < max_len
        invariant
            max_len == if baseline@.len() < comparison@.len() {
                comparison@.len()
            } else {
                baseline@.len()
            },
            i <= max_len,
            differences@.len() == i,
            forall|j: int|
                0 <= j < i ==> transition_entry(#[trigger] differences@[j], j, baseline@, comparison@),
        decreases max_len - i,
    {
        let entry = if i < baseline.len() && i < comparison.len() {
            let b = &baseline[i];
            let c = &comparison[i];
            TransitionDifference {
                transaction_index: i,
                transaction_id: b.transaction_id.clone(),
                baseline_hash: b.to_hash,
                comparison_hash: c.to_hash,
                hashes_match: b.to_hash.same_as(&c.to_hash),
            }
        } else if i < baseline.len() {
            let b = &baseline[i];
            TransitionDifference {
                transaction_index: i,
                transaction_id: b.transaction_id.clone(),
                baseline_hash: b.to_hash,
                comparison_hash: StateHash::zero(),
                hashes_match: false,
            }
        } else {
            let c = &comparison[i];
            TransitionDifference {
                transaction_index: i,
                transaction_id: c.transaction_id.clone(),
                baseline_hash: StateHash::zero(),
                comparison_hash: c.to_hash,
                hashes_match: false,
            }
        };
        differences.push(entry);
        i = i + 1;
    }
    differences
}

/// Compares replay results and builds impact analyses.
#[derive(Debug, Clone, Copy)]
pub struct ResultComparator {
    hasher: StateHasher,
}

impl ResultComparator {
    pub fn new() -> (r: ResultComparator) {
        ResultComparator { hasher: StateHasher::new() }
    }

    /// Compares final states by hash, final hashes, transaction counts and
    /// every transition position.
    pub fn compare<S: State>(&self, baseline: ReplayResult<S>, comparison: ReplayResult<S>) -> (r:
        ResultComparison<S>)
        ensures
            r.baseline_result == baseline,
            r.comparison_result == comparison,
            r.final_state_matches == (state_digest(baseline.final_state) == state_digest(
                comparison.final_state,
            )),
            r.final_hash_matches == (baseline.final_hash == comparison.final_hash),
            r.transaction_count_matches == (baseline.execution_trace.transactions_processed
                == comparison.execution_trace.transactions_processed),
            transitions_exact(
                r.state_differences@,
                baseline.execution_trace.state_transitions@,
                comparison.execution_trace.state_transitions@,
            ),
            r.performance_comparison.baseline_duration_ms
                == baseline.performance_metrics.total_duration_ms,
            r.performance_comparison.comparison_duration_ms
                == comparison.performance_metrics.total_duration_ms,
            r.performance_comparison.duration_difference_ms == clamp_i64(
                comparison.performance_metrics.total_duration_ms
                    - baseline.performance_metrics.total_duration_ms,
            ),
            r.performance_comparison.tps_difference == clamp_i64(
                comparison.performance_metrics.transactions_per_second
                    - baseline.performance_metrics.transactions_per_second,
            ),
    {
        let baseline_state_hash = self.hasher.hash(&baseline.final_state);
        let comparison_state_hash = self.hasher.hash(&comparison.final_state);
        let final_state_matches = baseline_state_hash.same_as(&comparison_state_hash);
        proof {
            if state_digest(baseline.final_state) == state_digest(comparison.final_state) {
                crate::types::lemma_hash_eq_from_view(baseline_state_hash, comparison_state_hash);
            }
        }
        let final_hash_matches = baseline.final_hash.same_as(&comparison.final_hash);
        let transaction_count_matches = baseline.execution_trace.transactions_processed
            == comparison.execution_trace.transactions_processed;
        let state_differences = compare_transitions(
            baseline.execution_trace.state_transitions.as_slice(),
            comparison.execution_trace.state_transitions.as_slice(),
        );
        let b = baseline.performance_metrics;
        let c = comparison.performance_metrics;
        let performance_comparison = PerformanceComparison {
            baseline_duration_ms: b.total_duration_ms,
            comparison_duration_ms: c.total_duration_ms,
            duration_difference_ms: clamped_difference(c.total_duration_ms, b.total_duration_ms),
            baseline_tps: b.transactions_per_second,
            comparison_tps: c.transactions_per_second,
            tps_difference: clamped_difference(c.transactions_per_second, b.transactions_per_second),
        };
        ResultComparison {
            baseline_result: baseline,
            comparison_result: comparison,
            final_state_matches,
            final_hash_matches,
            transaction_count_matches,
            state_differences,
            performance_comparison,
        }
    }

    /// An impact analysis of two results produced under two rule versions.
    pub fn create_impact_analysis<S: State>(
        &self,
        baseline_version: Version,
        comparison_version: Version,
        baseline_result: ReplayResult<S>,
        comparison_result: ReplayResult<S>,
    ) -> (r: ImpactAnalysis<S>)
        ensures
            r.baseline_version == baseline_version,
            r.comparison_version == comparison_version,
            r.baseline_result == baseline_result,
            r.comparison_result == comparison_result,
            r.identical_final_hash == (baseline_result.final_hash == comparison_result.final_hash),
            r.identical_final_state == (state_digest(baseline_result.final_state) == state_digest(
                comparison_result.final_state,
            )),
            differences_exact(
                r.differences@,
                baseline_result.execution_trace.state_transitions@,
                comparison_result.execution_trace.state_transitions@,
            ),
    {
        let identical_final_hash = baseline_result.final_hash.same_as(&comparison_result.final_hash);
        let baseline_state_hash = self.hasher.hash(&baseline_result.final_state);
        let comparison_state_hash = self.hasher.hash(&comparison_result.final_state);
        let identical_final_state = baseline_state_hash.same_as(&comparison_state_hash);
        proof {
            if state_digest(baseline_result.final_state) == state_digest(
                comparison_result.final_state,
            ) {
                crate::types::lemma_hash_eq_from_view(baseline_state_hash, comparison_state_hash);
            }
        }
        let differences = find_state_differences(
            baseline_result.execution_trace.state_transitions.as_slice(),
            comparison_result.execution_trace.state_transitions.as_slice(),
        );
        ImpactAnalysis {
            baseline_version,
            comparison_version,
            baseline_result,
            comparison_result,
            differences,
            identical_final_state,
            identical_final_hash,
        }
    }
}

impl Default for ResultComparator {
    fn default() -> (r: ResultComparator) {
        ResultComparator::new()
    }
}

/// The number of divergent positions among the first entries.
pub open spec fn divergent_count(d: Seq<TransitionDifference>) -> nat
    decreases d.len(),
{
    if d.len() == 0 {
        0
    } else {
        divergent_count(d.drop_last()) + if d.last().hashes_match {
            0nat
        } else {
            1nat
        }
    }
}

/// Parts of a summary, joined by `", "`.
pub open spec fn join_parts(parts: Seq<Seq<char>>) -> Seq<char>
    decreases parts.len(),
{
    if parts.len() == 0 {
        Seq::empty()
    } else if parts.len() == 1 {
        parts[0]
    } else {
        join_parts(parts.drop_last()) + ", "@ + parts.last()
    }
}

impl<S> ResultComparison<S> {
    pub open spec fn spec_identical(&self) -> bool {
        &&& self.final_state_matches
        &&& self.final_hash_matches
        &&& self.transaction_count_matches
        &&& forall|i: int|
            0 <= i < self.state_differences@.len() ==> (#[trigger] self.state_differences@[i]).hashes_match
    }

    /// The parts of the summary of a comparison that is not identical.
    pub open spec fn summary_parts(&self) -> Seq<Seq<char>> {
        let p1 = if !self.final_state_matches {
            seq!["final states differ"@]
        } else {
            Seq::empty()
        };
        let p2 = if !self.final_hash_matches {
            p1.push("final hashes differ"@)
        } else {
            p1
        };
        let p3 = if !self.transaction_count_matches {
            p2.push("transaction counts differ"@)
        } else {
            p2
        };
        let n = divergent_count(self.state_differences@);
        if n > 0 {
            p3.push(decimal_of(n as u64) + " transitions diverged"@)
        } else {
            p3
        }
    }

    /// Identical when final states, final hashes and counts match and every
    /// transition position matches.
    pub fn are_identical(&self) -> (r: bool)
        ensures
            r == self.spec_identical(),
    {
        if !(self.final_state_matches && self.final_hash_matches && self.transaction_count_matches) {
            return false;
        }
        let mut i: usize = 0;
        while i < self.state_differences.len()
            invariant
                i <= self.state_differences@.len(),
                forall|j: int| 0 <= j < i ==> (#[trigger] self.state_differences@[j]).hashes_match,
            decreases self.state_differences@.len() - i,
        {
            if !self.state_differences[i].hashes_match {
                return false;
            }
            i = i + 1;
        }
        true
    }

    /// The number of positions whose hashes differ.
    pub fn divergent_transition_count(&self) -> (r: usize)
        ensures
            r == divergent_count(self.state_differences@),
    {
        let mut count: usize = 0;
        let mut i: usize = 0;
        while i < self.state_differences.len()
            invariant
                i <= self.state_differences@.len(),
                count == divergent_count(self.state_differences@.take(i as int)),
                count <= i,
            decreases self.state_differences@.len() - i,
        {
            assert(self.state_differences@.take(i + 1).drop_last()
                =~= self.state_differences@.take(i as int));
            if !self.state_differences[i].hashes_match {
                count = count + 1;
            }
            i = i + 1;
        }
        assert(self.state_differences@.take(i as int) =~= self.state_differences@);
        count
    }

    /// The first position whose hashes differ.
    pub fn first_divergence(&self) -> (r: Option<&TransitionDifference>)
        ensures
            r is None <==> forall|i: int|
                0 <= i < self.state_differences@.len()
                    ==> (#[trigger] self.state_differences@[i]).hashes_match,
            r matches Some(d) ==> exists|i: int|
                0 <= i < self.state_differences@.len() && *d == self.state_differences@[i]
                    && !d.hashes_match && forall|j: int|
                    0 <= j < i ==> (#[trigger] self.state_differences@[j]).hashes_match,
    {
        let mut i: usize = 0;
        while i < self.state_differences.len()
            invariant
                i <= self.state_differences@.len(),
                forall|j: int| 0 <= j < i ==> (#[trigger] self.state_differences@[j]).hashes_match,
            decreases self.state_differences@.len() - i,
        {
            if !self.state_differences[i].hashes_match {
                return Some(&self.state_differences[i]);
            }
            i = i + 1;
        }
        None
    }

    /// "Results are identical", or "Results differ: " followed by what differs.
    pub fn summary(&self) -> (r: String)
        ensures
            self.spec_identical() ==> r@ == "Results are identical"@,
            !self.spec_identical() ==> r@ == "Results differ: "@ + join_parts(self.summary_parts()),
    {
        if self.are_identical() {
            proof {
                reveal_strlit("Results are identical");
            }
            return String::from_str("Results are identical");
        }
        let mut text = String::new();
        let ghost mut parts: Seq<Seq<char>> = Seq::empty();
        proof {
            reveal_strlit("");
            reveal_strlit(", ");
            reveal_strlit("final states differ");
            reveal_strlit("final hashes differ");
            reveal_strlit("transaction counts differ");
            reveal_strlit(" transitions diverged");
            reveal_strlit("Results differ: ");
        }
        if !self.final_state_matches {
            append_part(&mut text, "final states differ", Ghost(parts));
            proof {
                parts = parts.push("final states differ"@);
            }
        }
        if !self.final_hash_matches {
            append_part(&mut text, "final hashes differ", Ghost(parts));
            proof {
                parts = parts.push("final hashes differ"@);
            }
        }
        if !self.transaction_count_matches {
            append_part(&mut text, "transaction counts differ", Ghost(parts));
            proof {
                parts = parts.push("transaction counts differ"@);
            }
        }
        let n = self.divergent_transition_count();
        if n > 0 {
            let mut item = decimal_text(n as u64);
            item.append(" transitions diverged");
            append_part(&mut text, item.as_str(), Ghost(parts));
            proof {
                parts = parts.push(item@);
            }
        }
        assert(parts =~= self.summary_parts());
        let mut out = String::from_str("Results differ: ");
        out.append(text.as_str());
        out
    }
}

/// Appends a part to a `", "`-joined list.
fn append_part(text: &mut String, part: &str, Ghost(parts): Ghost<Seq<Seq<char>>>)
    requires
        old(text)@ == join_parts(parts),
        parts.len() == 0 ==> old(text)@.len() == 0,
        parts.len() > 0 ==> old(text)@.len() > 0,
        part@.len() > 0,
    ensures
        final(text)@ == join_parts(parts.push(part@)),
        final(text)@.len() > 0,
{
    proof {
        reveal_strlit(", ");
        assert(parts.push(part@).drop_last() =~= parts);
    }
    if !text.as_str().is_empty() {
        text.append(", ");
    }
    text.append(part);
}

/// A balance row as plain values: account, baseline, comparison, difference.
pub open spec fn balance_view(d: BalanceDifference) -> (Seq<char>, i64, i64, i64) {
    (d.account_id@, d.baseline_balance, d.comparison_balance, d.difference)
}

/// A balance from a map, 0 when the account is missing.
pub open spec fn balance_or_zero(m: Map<Seq<char>, i64>, k: Seq<char>) -> int {
    if m.contains_key(k) {
        m[k] as int
    } else {
        0
    }
}

/// Rows for the baseline's accounts whose balance differs, in the baseline's order.
pub open spec fn changed_rows(b: Seq<(String, i64)>, c: Map<Seq<char>, i64>) -> Seq<
    (Seq<char>, i64, i64, i64),
>
    decreases b.len(),
{
    if b.len() == 0 {
        Seq::empty()
    } else {
        let prev = changed_rows(b.drop_last(), c);
        let k = b.last().0@;
        let v = b.last().1;
        let cv = balance_or_zero(c, k);
        if cv - v != 0 {
            prev.push((k, v, cv as i64, (cv - v) as i64))
        } else {
            prev
        }
    }
}

/// Rows for the comparison's accounts that the baseline lacks, in the comparison's order.
pub open spec fn added_rows(c: Seq<(String, i64)>, b: Map<Seq<char>, i64>) -> Seq<
    (Seq<char>, i64, i64, i64),
>
    decreases c.len(),
{
    if c.len() == 0 {
        Seq::empty()
    } else {
        let prev = added_rows(c.drop_last(), b);
        let k = c.last().0@;
        let v = c.last().1;
        if !b.contains_key(k) {
            prev.push((k, 0i64, v, v))
        } else {
            prev
        }
    }
}

/// The sum of the differences.
pub open spec fn difference_sum(d: Seq<BalanceDifference>) -> int
    decreases d.len(),
{
    if d.len() == 0 {
        0
    } else {
        difference_sum(d.drop_last()) + d.last().difference
    }
}

/// The absolute value of a row's difference.
pub open spec fn magnitude(d: BalanceDifference) -> int {
    if d.difference < 0 {
        -d.difference
    } else {
        d.difference as int
    }
}

/// The absolute value of a row's difference.
fn magnitude_of(d: &BalanceDifference) -> (r: u64)
    ensures
        r as int == magnitude(*d),
{
    if d.difference < 0 {
        (-(d.difference as i128)) as u64
    } else {
        d.difference as u64
    }
}

/// Relies on `slice::sort_by_key` with the key `Reverse(magnitude_of(..))`:
/// a permutation of the rows with magnitudes in non-increasing order.
#[verifier::external_body]
fn sort_by_magnitude(rows: &mut Vec<BalanceDifference>)
    ensures
        final(rows)@.to_multiset() == old(rows)@.to_multiset(),
        forall|i: int, j: int|
            0 <= i < j < final(rows)@.len() ==> magnitude(final(rows)@[i]) >= magnitude(
                final(rows)@[j],
            ),
{
    rows.sort_by_key(|d| std::cmp::Reverse(magnitude_of(d)))
}

/// A copy of a row.
fn copy_difference(d: &BalanceDifference) -> (r: BalanceDifference)
    ensures
        r == *d,
{
    BalanceDifference {
        account_id: d.account_id.clone(),
        baseline_balance: d.baseline_balance,
        comparison_balance: d.comparison_balance,
        difference: d.difference,
    }
}

/// Helpers for per-account balance comparisons.
pub struct DiffAnalyzer {}

impl DiffAnalyzer {
    /// One row per baseline account whose balance changed (a missing
    /// comparison balance counts as 0), then one row per account found only
    /// in the comparison; each difference is comparison minus baseline.
    pub fn analyze_balance_differences(
        baseline_balances: &TextMap<i64>,
        comparison_balances: &TextMap<i64>,
    ) -> (r: Vec<BalanceDifference>)
        requires
            baseline_balances.wf(),
            comparison_balances.wf(),
            forall|k: Seq<char>|
                #![trigger baseline_balances@[k]]
                baseline_balances@.contains_key(k) ==> i64::MIN <= balance_or_zero(
                    comparison_balances@,
                    k,
                ) - baseline_balances@[k] <= i64::MAX,
        ensures
            r@.map_values(|d: BalanceDifference| balance_view(d)) == changed_rows(
                baseline_balances.entries_spec(),
                comparison_balances@,
            ) + added_rows(comparison_balances.entries_spec(), baseline_balances@),
    {
        let mut differences: Vec<BalanceDifference> = Vec::new();
        let b = baseline_balances.entries();
        let c = comparison_balances.entries();
        proof {
            baseline_balances.lemma_view();
            comparison_balances.lemma_view();
        }
        let mut i: usize = 0;
        while i < b.len()
            invariant
                b@ == baseline_balances.entries_spec(),
                keys_unique(b@),
                baseline_balances@ == map_of(b@),
                comparison_balances.wf(),
                i <= b@.len(),
                forall|k: Seq<char>|
                    #![trigger baseline_balances@[k]]
                    baseline_balances@.contains_key(k) ==> i64::MIN <= balance_or_zero(
                        comparison_balances@,
                        k,
                    ) - baseline_balances@[k] <= i64::MAX,
                differences@.map_values(|d: BalanceDifference| balance_view(d)) == changed_rows(
                    b@.take(i as int),
                    comparison_balances@,
                ),
            decreases b@.len() - i,
        {
            proof {
                crate::store::lemma_map_of_index(b@, i as int);
                assert(b@.take(i + 1).drop_last() =~= b@.take(i as int));
            }
            let account = &b[i].0;
            let baseline_balance = b[i].1;
            let comparison_balance = match comparison_balances.get(account.as_str()) {
                Some(v) => *v,
                None => 0,
            };
            let ghost before = differences@;
            if comparison_balance as i128 - baseline_balance as i128 != 0 {
                let difference = comparison_balance - baseline_balance;
                differences.push(
                    BalanceDifference {
                        account_id: account.clone(),
                        baseline_balance,
                        comparison_balance,
                        difference,
                    },
                );
                assert(differences@.map_values(|d: BalanceDifference| balance_view(d))
                    =~= before.map_values(|d: BalanceDifference| balance_view(d)).push(
                    balance_view(differences@.last()),
                ));
            }
            i = i + 1;
        }
        assert(b@.take(i as int) =~= b@);
        let ghost first_part = differences@.map_values(|d: BalanceDifference| balance_view(d));
        let mut j: usize = 0;
        proof {
            comparison_balances.lemma_view();
            assert(c@.take(0) =~= Seq::<(String, i64)>::empty());
            assert(first_part + added_rows(c@.take(0), baseline_balances@) =~= first_part);
        }
        while j < c.len()
            invariant
                c@ == comparison_balances.entries_spec(),
                baseline_balances.wf(),
                j <= c@.len(),
                differences@.map_values(|d: BalanceDifference| balance_view(d)) == first_part
                    + added_rows(c@.take(j as int), baseline_balances@),
            decreases c@.len() - j,
        {
            proof {
                assert(c@.take(j + 1).drop_last() =~= c@.take(j as int));
            }
            let account = &c[j].0;
            let comparison_balance = c[j].1;
            let ghost before = differences@;
            if !baseline_balances.contains_key(account.as_str()) {
                differences.push(
                    BalanceDifference {
                        account_id: account.clone(),
                        baseline_balance: 0,
                        comparison_balance,
                        difference: comparison_balance,
                    },
                );
                assert(differences@.map_values(|d: BalanceDifference| balance_view(d))
                    =~= before.map_values(|d: BalanceDifference| balance_view(d)).push(
                    balance_view(differences@.last()),
                ));
            }
            proof {
                let rows = added_rows(c@.take(j + 1), baseline_balances@);
                assert(first_part + rows =~= differences@.map_values(
                    |d: BalanceDifference| balance_view(d),
                ));
            }
            j = j + 1;
        }
        assert(c@.take(j as int) =~= c@);
        differences
    }

    /// The sum of all differences.
    pub fn total_balance_difference(differences: &[BalanceDifference]) -> (r: i64)
        requires
            i64::MIN <= difference_sum(differences@) <= i64::MAX,
        ensures
            r == difference_sum(differences@),
    {
        let mut total: i128 = 0;
        let mut i: usize = 0;
        while i < differences.len()
            invariant
                i <= differences@.len(),
                total == difference_sum(differences@.take(i as int)),
                -(i as int) * 0x8000_0000_0000_0000 <= total <= (i as int) * 0x8000_0000_0000_0000,
            decreases differences@.len() - i,
        {
            proof {
                assert(differences@.take(i + 1).drop_last() =~= differences@.take(i as int));
                assert((i as int) * 0x8000_0000_0000_0000 + 0x8000_0000_0000_0000 == (i + 1)
                    * 0x8000_0000_0000_0000) by (nonlinear_arith);
                assert((i as int) < 0x1_0000_0000_0000_0000);
                assert((i + 1) * 0x8000_0000_0000_0000 <= 0x1_0000_0000_0000_0000
                    * 0x8000_0000_0000_0000) by (nonlinear_arith)
                    requires
                        (i as int) < 0x1_0000_0000_0000_0000,
                ;
            }
            total = total + differences[i].difference as i128;
            i = i + 1;
        }
        assert(differences@.take(i as int) =~= differences@);
        total as i64
    }

    /// The `limit` rows of largest absolute difference, largest first.
    pub fn largest_differences(differences: &[BalanceDifference], limit: usize) -> (r: Vec<
        BalanceDifference,
    >)
        ensures
            r@.len() == if limit < differences@.len() {
                limit as int
            } else {
                differences@.len() as int
            },
            exists|sorted: Seq<BalanceDifference>|
                {
                    &&& sorted.to_multiset() == differences@.to_multiset()
                    &&& forall|i: int, j: int|
                        0 <= i < j < sorted.len() ==> magnitude(sorted[i]) >= magnitude(sorted[j])
                    &&& r@ == sorted.take(r@.len() as int)
                },
    {
        let mut rows: Vec<BalanceDifference> = Vec::new();
        let mut i: usize = 0;
        while i < differences.len()
            invariant
                i <= differences@.len(),
                rows@ == differences@.take(i as int),
            decreases differences@.len() - i,
        {
            rows.push(copy_difference(&differences[i]));
            assert(rows@ =~= differences@.take(i + 1));
            i = i + 1;
        }
        assert(differences@.take(i as int) =~= differences@);
        let ghost unsorted = rows@;
        sort_by_magnitude(&mut rows);
        let ghost sorted = rows@;
        proof {
            vstd::seq_lib::to_multiset_len(unsorted);
            vstd::seq_lib::to_multiset_len(sorted);
        }
        if limit < rows.len() {
            rows.truncate(limit);
        }
        assert(rows@ =~= sorted.take(rows@.len() as int));
        rows
    }
}

} // verus!
