//! Versioned rule sets and the registry that keeps one entry per version.

use vstd::prelude::*;
use vstd::string::StringExecFns;
use crate::context::wall_clock_now;
use crate::error::{RuleError, joined};
use crate::types::{Timestamp, Version, version_le};

verus! {

/// Descriptive data of a rule set; it takes no part in equality.
#[derive(Debug, Clone)]
pub struct RuleSetMetadata {
    pub name: String,
    pub description: String,
    pub author: Option<String>,
    pub created_at: Timestamp,
}

impl RuleSetMetadata {
    /// Metadata without an author, stamped with the wall-clock instant.
    pub fn new(name: String, description: String) -> (r: RuleSetMetadata)
        ensures
            r.name == name,
            r.description == description,
            r.author is None,
    {
        RuleSetMetadata { name, description, author: None, created_at: wall_clock_now() }
    }
}

/// A rule set tagged with its version and metadata.
#[derive(Debug)]
pub struct VersionedRuleSet<R> {
    version: Version,
    rules: R,
    metadata: RuleSetMetadata,
}

impl<R> VersionedRuleSet<R> {
    pub closed spec fn spec_version(&self) -> Version {
        self.version
    }

    pub closed spec fn spec_rules(&self) -> R {
        self.rules
    }

    pub closed spec fn spec_metadata(&self) -> RuleSetMetadata {
        self.metadata
    }

    pub fn new(version: Version, rules: R, metadata: RuleSetMetadata) -> (r: VersionedRuleSet<R>)
        ensures
            r.spec_version() == version,
            r.spec_rules() == rules,
            r.spec_metadata() == metadata,
    {
        VersionedRuleSet { version, rules, metadata }
    }

    pub fn version(&self) -> (r: &Version)
        ensures
            *r == self.spec_version(),
    {
        &self.version
    }

    pub fn metadata(&self) -> (r: &RuleSetMetadata)
        ensures
            *r == self.spec_metadata(),
    {
        &self.metadata
    }

    pub fn rules(&self) -> (r: &R)
        ensures
            *r == self.spec_rules(),
    {
        &self.rules
    }

    /// Compatible when the major numbers agree.
    pub fn is_compatible_with(&self, other_version: &Version) -> (r: bool)
        ensures
            r == (self.spec_version().major == other_version.major),
    {
        self.version.is_compatible_with(other_version)
    }
}

/// Rule sets keyed by exact version, in registration order.
pub struct RuleSetRegistry<R> {
    rule_sets: Vec<VersionedRuleSet<R>>,
}

impl<R> RuleSetRegistry<R> {
    /// The registered entries, in registration order.
    pub closed spec fn entries(&self) -> Seq<VersionedRuleSet<R>> {
        self.rule_sets@
    }

    /// No version is registered twice.
    pub open spec fn wf(&self) -> bool {
        forall|i: int, j: int|
            0 <= i < j < self.entries().len() ==> self.entries()[i].spec_version()
                != self.entries()[j].spec_version()
    }

    pub open spec fn has_version(&self, v: Version) -> bool {
        exists|i: int| 0 <= i < self.entries().len() && (#[trigger] self.entries()[i]).spec_version() == v
    }

    pub fn new() -> (r: RuleSetRegistry<R>)
        ensures
            r.wf(),
            r.entries().len() == 0,
    {
        RuleSetRegistry { rule_sets: Vec::new() }
    }

    /// The position of a version.
    fn position(&self, version: &Version) -> (r: Option<usize>)
        ensures
            r matches Some(i) ==> i < self.entries().len() && self.entries()[i as int].spec_version()
                == *version,
            r is None <==> !self.has_version(*version),
    {
        let mut i: usize = 0;
        while i < self.rule_sets.len()
            invariant
                i <= self.rule_sets@.len(),
                forall|j: int| 0 <= j < i ==> (#[trigger] self.rule_sets@[j]).spec_version() != *version,
            decreases self.rule_sets@.len() - i,
        {
            if self.rule_sets[i].version == *version {
                return Some(i);
            }
            i = i + 1;
        }
        None
    }

    /// Registers a rule set under its version.  A version already present
    /// is refused with `RegistrationFailed` and the registry is unchanged.
    pub fn register(&mut self, rule_set: VersionedRuleSet<R>) -> (r: Result<(), RuleError>)
        requires
            old(self).wf(),
        ensures
            final(self).wf(),
            r is Err <==> old(self).has_version(rule_set.spec_version()),
            r matches Err(e) ==> e is RegistrationFailed,
            r is Err ==> final(self).entries() == old(self).entries(),
            r is Ok ==> final(self).entries() == old(self).entries().push(rule_set),
    {
        let version = rule_set.version;
        if self.position(&version).is_some() {
            let v = version.to_text();
            let mut reason = joined("Version ", v.as_str());
            reason.append(" already exists");
            return Err(RuleError::RegistrationFailed { reason });
        }
        match self.check_conflicts(&version) {
            Ok(()) => {},
            Err(e) => {
                return Err(e);
            },
        }
        let ghost before = self.rule_sets@;
        self.rule_sets.push(rule_set);
        assert forall|a: int, b: int|
            0 <= a < b < self.entries().len() implies self.entries()[a].spec_version()
            != self.entries()[b].spec_version() by {
            assert(self.entries()[a] == before[a]);
            if b < before.len() {
                assert(self.entries()[b] == before[b]);
            } else {
                assert(before[a] == old(self).entries()[a]);
            }
        }
        Ok(())
    }

    /// Refuses a version whose `(major, minor, patch)` an entry already has.
    fn check_conflicts(&self, new_version: &Version) -> (r: Result<(), RuleError>)
        ensures
            r is Ok <==> !self.has_version(*new_version),
            r matches Err(e) ==> e is VersionConflict,
    {
        let mut i: usize = 0;
        while i < self.rule_sets.len()
            invariant
                i <= self.rule_sets@.len(),
                forall|j: int| 0 <= j < i ==> (#[trigger] self.rule_sets@[j]).spec_version() != *new_version,
            decreases self.rule_sets@.len() - i,
        {
            let existing = &self.rule_sets[i].version;
            if existing.major == new_version.major {
                if existing.minor == new_version.minor && existing.patch == new_version.patch {
                    assert(self.entries()[i as int].spec_version() == *new_version);
                    let n = new_version.to_text();
                    let e = existing.to_text();
                    let mut reason = joined("Version ", n.as_str());
                    reason.append(" conflicts with existing version ");
                    reason.append(e.as_str());
                    return Err(RuleError::VersionConflict { reason });
                }
            }
            i = i + 1;
        }
        Ok(())
    }

    /// The entry of a version.
    pub fn get(&self, version: &Version) -> (r: Option<&VersionedRuleSet<R>>)
        ensures
            r is None <==> !self.has_version(*version),
            r matches Some(e) ==> e.spec_version() == *version && exists|i: int|
                0 <= i < self.entries().len() && self.entries()[i] == *e,
    {
        match self.position(version) {
            Some(i) => Some(&self.rule_sets[i]),
            None => None,
        }
    }

    pub fn contains(&self, version: &Version) -> (r: bool)
        ensures
            r == self.has_version(*version),
    {
        self.position(version).is_some()
    }

    /// The registered versions, in registration order.
    pub fn versions(&self) -> (r: Vec<Version>)
        ensures
            r@ == self.entries().map_values(|e: VersionedRuleSet<R>| e.spec_version()),
    {
        let mut out: Vec<Version> = Vec::new();
        let mut i: usize = 0;
        while i < self.rule_sets.len()
            invariant
                i <= self.rule_sets@.len(),
                out@ == self.rule_sets@.take(i as int).map_values(
                    |e: VersionedRuleSet<R>| e.spec_version(),
                ),
            decreases self.rule_sets@.len() - i,
        {
            out.push(self.rule_sets[i].version);
            assert(out@ =~= self.rule_sets@.take(i + 1).map_values(
                |e: VersionedRuleSet<R>| e.spec_version(),
            ));
            i = i + 1;
        }
        assert(self.rule_sets@.take(i as int) =~= self.rule_sets@);
        out
    }

    /// The entries whose major number is `version`'s, in registration order.
    pub fn get_compatible(&self, version: &Version) -> (r: Vec<&VersionedRuleSet<R>>)
        ensures
            r@.map_values(|e: &VersionedRuleSet<R>| *e) == self.entries().filter(
                |e: VersionedRuleSet<R>| e.spec_version().major == version.major,
            ),
    {
        let mut out: Vec<&VersionedRuleSet<R>> = Vec::new();
        let mut i: usize = 0;
        while i < self.rule_sets.len()
            invariant
                i <= self.rule_sets@.len(),
                out@.map_values(|e: &VersionedRuleSet<R>| *e) == self.rule_sets@.take(
                    i as int,
                ).filter(|e: VersionedRuleSet<R>| e.spec_version().major == version.major),
            decreases self.rule_sets@.len() - i,
        {
            let ghost before = out@;
            proof {
                assert(self.rule_sets@.take(i + 1).drop_last() =~= self.rule_sets@.take(i as int));
                reveal(Seq::filter);
            }
            let entry = &self.rule_sets[i];
            if entry.is_compatible_with(version) {
                out.push(entry);
                assert(out@.map_values(|e: &VersionedRuleSet<R>| *e) =~= before.map_values(
                    |e: &VersionedRuleSet<R>| *e,
                ).push(*entry));
            }
            proof {
                reveal(Seq::filter);
            }
            i = i + 1;
        }
        assert(self.rule_sets@.take(i as int) =~= self.rule_sets@);
        out
    }

    /// Removes and returns the entry of a version.
    pub fn remove(&mut self, version: &Version) -> (r: Option<VersionedRuleSet<R>>)
        requires
            old(self).wf(),
        ensures
            final(self).wf(),
            r is None <==> !old(self).has_version(*version),
            r is None ==> final(self).entries() == old(self).entries(),
            r matches Some(e) ==> e.spec_version() == *version && !final(self).has_version(
                *version,
            ) && final(self).entries().len() == old(self).entries().len() - 1,
    {
        match self.position(version) {
            Some(i) => {
                let ghost before = self.rule_sets@;
                let e = self.rule_sets.remove(i);
                assert forall|j: int| 0 <= j < self.rule_sets@.len() implies (#[trigger] self.rule_sets@[j]).spec_version()
                    != *version by {
                    if j < i {
                        assert(self.rule_sets@[j] == before[j]);
                    } else {
                        assert(self.rule_sets@[j] == before[j + 1]);
                    }
                }
                assert forall|a: int, b: int|
                    0 <= a < b < self.rule_sets@.len() implies self.rule_sets@[a].spec_version()
                    != self.rule_sets@[b].spec_version() by {
                    let a2 = if a < i {
                        a
                    } else {
                        a + 1
                    };
                    let b2 = if b < i {
                        b
                    } else {
                        b + 1
                    };
                    assert(self.rule_sets@[a] == before[a2]);
                    assert(self.rule_sets@[b] == before[b2]);
                }
                Some(e)
            },
            None => None,
        }
    }

    /// The greatest version in lexicographic `(major, minor, patch)` order.
    pub fn latest_version(&self) -> (r: Option<&Version>)
        ensures
            r is None <==> self.entries().len() == 0,
            r matches Some(v) ==> self.has_version(*v) && forall|i: int|
                0 <= i < self.entries().len() ==> version_le(
                    (#[trigger] self.entries()[i]).spec_version(),
                    *v,
                ),
    {
        if self.rule_sets.len() == 0 {
            return None;
        }
        let mut best: usize = 0;
        let mut i: usize = 1;
        while i < self.rule_sets.len()
            invariant
                1 <= i <= self.rule_sets@.len(),
                best < i,
                forall|j: int|
                    0 <= j < i ==> version_le(
                        (#[trigger] self.rule_sets@[j]).spec_version(),
                        self.rule_sets@[best as int].spec_version(),
                    ),
            decreases self.rule_sets@.len() - i,
        {
            if self.rule_sets[best].version.is_at_most(&self.rule_sets[i].version) {
                best = i;
            }
            i = i + 1;
        }
        assert(self.entries()[best as int].spec_version() == self.rule_sets@[best as int].spec_version());
        Some(&self.rule_sets[best].version)
    }

    /// The entry of the greatest version.
    pub fn latest(&self) -> (r: Option<&VersionedRuleSet<R>>)
        ensures
            r is None <==> self.entries().len() == 0,
            r matches Some(e) ==> exists|i: int|
                0 <= i < self.entries().len() && self.entries()[i] == *e && forall|j: int|
                    0 <= j < self.entries().len() ==> version_le(
                        (#[trigger] self.entries()[j]).spec_version(),
                        e.spec_version(),
                    ),
    {
        match self.latest_version() {
            Some(v) => {
                let v = *v;
                self.get(&v)
            },
            None => None,
        }
    }
}

impl<R> Default for RuleSetRegistry<R> {
    fn default() -> (r: RuleSetRegistry<R>)
        ensures
            r.wf(),
            r.entries().len() == 0,
    {
        RuleSetRegistry::new()
    }
}

/// After a successful registration the version is present, so that
/// `register` refuses it from then on and `get` finds it.
pub proof fn lemma_registry_uniqueness<R>(
    before: RuleSetRegistry<R>,
    after: RuleSetRegistry<R>,
    rule_set: VersionedRuleSet<R>,
)
    requires
        after.entries() == before.entries().push(rule_set),
    ensures
        after.has_version(rule_set.spec_version()),
{
    assert(after.entries()[after.entries().len() - 1] == rule_set);
}

} // verus!
