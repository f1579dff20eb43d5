//! Filter policy: a default minimum severity plus per-target overrides.
//!
//! A policy decides pass/drop for a candidate (severity, target) pair:
//! the pair passes exactly when the severity is at least the effective
//! minimum for the target, which is the target's override when one is
//! present and the default minimum otherwise. `build` derives a policy
//! from a verbosity count as a monotone staircase: a higher verbosity
//! never tightens filtering for any target.

use vstd::prelude::*;
use vstd::string::StringExecFns;
use crate::level::{str_eq, Level};

verus! {

/// The rule set deciding whether a (severity, target) pair produces output.
pub struct FilterPolicy {
    /// Minimum severity for targets without an override.
    pub default_min: Level,
    /// Overriding minimum severity per target name; the first entry with a
    /// matching name wins.
    pub overrides: Vec<(String, Level)>,
}

/// Override for `target` among `entries`: the first entry whose name
/// matches, if any.
pub open spec fn lookup(entries: Seq<(String, Level)>, target: Seq<char>) -> Option<Level>
    decreases entries.len(),
{
    if entries.len() == 0 {
        None
    } else if entries[0].0@ == target {
        Some(entries[0].1)
    } else {
        lookup(entries.drop_first(), target)
    }
}

/// When the first `i` entries do not name `target`, the lookup over the
/// whole sequence equals the lookup over the rest.
proof fn lemma_lookup_skip(entries: Seq<(String, Level)>, target: Seq<char>, i: int)
    requires
        0 <= i <= entries.len(),
        forall|j: int| 0 <= j < i ==> (#[trigger] entries[j]).0@ != target,
    ensures
        lookup(entries, target) == lookup(entries.skip(i), target),
    decreases i,
{
    if i > 0 {
        lemma_lookup_skip(entries.drop_first(), target, i - 1);
        assert(entries.drop_first().skip(i - 1) =~= entries.skip(i));
    } else {
        assert(entries.skip(0) =~= entries);
    }
}

impl FilterPolicy {
    /// Minimum severity in force for `target` under this policy.
    pub open spec fn effective_min(self, target: Seq<char>) -> Level {
        match lookup(self.overrides@, target) {
            Some(l) => l,
            None => self.default_min,
        }
    }

    /// Pass/drop decision for a (severity, target) pair.
    pub open spec fn spec_admits(self, severity: Level, target: Seq<char>) -> bool {
        severity.ord() >= self.effective_min(target).ord()
    }

    /// Looks up the minimum severity in force for `target`.
    pub fn min_for(&self, target: &str) -> (r: Level)
        ensures
            r == self.effective_min(target@),
    {
        let mut i: usize = 0;
        while i < self.overrides.len()
            invariant
                i <= self.overrides@.len(),
                forall|j: int| 0 <= j < i ==> (#[trigger] self.overrides@[j]).0@ != target@,
            decreases self.overrides@.len() - i,
        {
            if str_eq(self.overrides[i].0.as_str(), target) {
                proof {
                    lemma_lookup_skip(self.overrides@, target@, i as int);
                    assert(self.overrides@.skip(i as int)[0] == self.overrides@[i as int]);
                }
                return self.overrides[i].1;
            }
            i = i + 1;
        }
        proof {
            lemma_lookup_skip(self.overrides@, target@, self.overrides@.len() as int);
        }
        self.default_min
    }

    /// True exactly when this policy admits `severity` for `target`.
    /// The result is a pure function of the arguments and the policy:
    /// the same triple always yields the same boolean.
    pub fn admits(&self, severity: Level, target: &str) -> (r: bool)
        ensures
            r == self.spec_admits(severity, target@),
    {
        let min = self.min_for(target);
        severity.at_least(min)
    }
}

/// Default minimum severity the staircase prescribes at a verbosity.
pub open spec fn default_min_for(verbosity: u64) -> Level {
    if verbosity == 0 {
        Level::INFO
    } else if verbosity == 1 || verbosity == 2 {
        Level::DEBUG
    } else {
        Level::NOTSET
    }
}

/// Override the staircase places on the high-volume target, when any.
pub open spec fn override_min_for(verbosity: u64) -> Option<Level> {
    if verbosity == 0 {
        Some(Level::WARNING)
    } else if verbosity == 1 {
        Some(Level::INFO)
    } else {
        None
    }
}

/// Minimum severity in force for `target` at a verbosity, with `busy`
/// the name of the high-volume target.
pub open spec fn min_at(verbosity: u64, busy: Seq<char>, target: Seq<char>) -> Level {
    match override_min_for(verbosity) {
        Some(l) => if target == busy {
            l
        } else {
            default_min_for(verbosity)
        },
        None => default_min_for(verbosity),
    }
}

/// Pass/drop decision the staircase prescribes at a verbosity.
pub open spec fn admits_at(verbosity: u64, busy: Seq<char>, severity: Level, target: Seq<char>) -> bool {
    severity.ord() >= min_at(verbosity, busy, target).ord()
}

impl FilterPolicy {
    /// Builds the policy for a verbosity count:
    /// 0 admits `INFO` and above, capping the high-volume target at
    /// `WARNING`; 1 admits `DEBUG` and above, capping that target at
    /// `INFO`; 2 admits `DEBUG` and above with no override; 3 or more
    /// admits every severity. The resulting policy decides exactly as
    /// `admits_at` for every (severity, target) pair.
    pub fn build(verbosity: u64, busy_target: &str) -> (r: FilterPolicy)
        ensures
            r.default_min == default_min_for(verbosity),
            forall|s: Level, t: Seq<char>| r.spec_admits(s, t) == admits_at(verbosity, busy_target@, s, t),
    {
        let mut overrides: Vec<(String, Level)> = Vec::new();
        let default_min: Level;
        if verbosity == 0 {
            overrides.push((String::from_str(busy_target), Level::WARNING));
            default_min = Level::INFO;
        } else if verbosity == 1 {
            overrides.push((String::from_str(busy_target), Level::INFO));
            default_min = Level::DEBUG;
        } else if verbosity == 2 {
            default_min = Level::DEBUG;
        } else {
            default_min = Level::NOTSET;
        }
        let r = FilterPolicy { default_min, overrides };
        proof {
            assert forall|s: Level, t: Seq<char>|
                r.spec_admits(s, t) == admits_at(verbosity, busy_target@, s, t) by {
                let ov = r.overrides@;
                if ov.len() == 0 {
                    assert(lookup(ov, t) == None::<Level>);
                } else {
                    assert(lookup(ov.drop_first(), t) == None::<Level>);
                    if ov[0].0@ == t {
                        assert(lookup(ov, t) == Some(ov[0].1));
                    } else {
                        assert(lookup(ov, t) == None::<Level>);
                    }
                }
            }
        }
        r
    }
}

/// Law: admission is monotone in severity. If a policy admits a
/// severity for some target, it admits every higher severity for that
/// target as well.
pub proof fn lemma_admits_monotone(p: FilterPolicy, s1: Level, s2: Level, target: Seq<char>)
    requires
        s1.ord() <= s2.ord(),
        p.spec_admits(s1, target),
    ensures
        p.spec_admits(s2, target),
{
}

/// Law: admission is deterministic. The contract of `admits` pins its
/// result to a pure function of the policy, severity and target, so any
/// two results obtained for the same triple are the same boolean.
pub proof fn lemma_admits_deterministic(p: FilterPolicy, severity: Level, target: Seq<char>, r1: bool, r2: bool)
    requires
        r1 == p.spec_admits(severity, target),
        r2 == p.spec_admits(severity, target),
    ensures
        r1 == r2,
{
}

/// Law: the staircase is monotone across configurations. Raising the
/// verbosity by one never causes a previously admitted (severity,
/// target) pair to become rejected.
pub proof fn lemma_staircase_monotone(verbosity: u64, busy: Seq<char>, severity: Level, target: Seq<char>)
    requires
        verbosity < u64::MAX,
        admits_at(verbosity, busy, severity, target),
    ensures
        admits_at((verbosity + 1) as u64, busy, severity, target),
{
}

} // verus!
