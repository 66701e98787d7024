//! Capability sets and the relation engine over them.
//!
//! A capability set assigns one flag — Present (`true`) or Absent (`false`) —
//! to every feature of a fixed registry. A set is represented by its flag
//! vector; the feature at registry position `f` is addressed by the index `f`.
//! The subset relation and the union of two sets are computed from the
//! declared flags alone: no probing is involved.

use vstd::prelude::*;

verus! {

/// The subset relation between two flag assignments: `a` and `b` describe
/// sets over the same registry and every feature `a` marks Present is marked
/// Present by `b` as well.
pub open spec fn subset_flags(a: Seq<bool>, b: Seq<bool>) -> bool {
    &&& a.len() == b.len()
    &&& forall|i: int| 0 <= i < a.len() ==> (a[i] ==> b[i])
}

/// The union of two flag assignments of equal length: a feature is Present in
/// the union exactly when it is Present in either operand.
pub open spec fn union_flags(a: Seq<bool>, b: Seq<bool>) -> Seq<bool>
    recommends
        a.len() == b.len(),
{
    Seq::new(a.len(), |i: int| a[i] || b[i])
}

/// True when the feature index `f` occurs in the list `present`.
pub open spec fn listed(present: Seq<usize>, f: int) -> bool {
    exists|k: int| 0 <= k < present.len() && present[k] == f
}

/// A capability set: one flag for every feature the registry knows, fixed
/// once the set is declared.
pub struct FeatureSet {
    flags: Vec<bool>,
}

impl View for FeatureSet {
    type V = Seq<bool>;

    closed spec fn view(&self) -> Seq<bool> {
        self.flags@
    }
}

impl FeatureSet {
    /// True when this set marks the feature at registry position `f` Present.
    pub open spec fn marks(self, f: int) -> bool {
        0 <= f < self@.len() && self@[f]
    }

    /// Declares a capability set over a registry of `count` features: each
    /// feature listed in `present` is marked Present, every other feature is
    /// marked Absent. A listed index that names no registry feature (an index
    /// at or above `count`) is a declaration error, and no set is produced.
    pub fn declare(count: usize, present: &Vec<usize>) -> (r: Option<FeatureSet>)
        ensures
            r is Some <==> (forall|k: int|
                0 <= k < present@.len() ==> (#[trigger] present@[k]) < count),
            r is Some ==> r->Some_0@.len() == count,
            r is Some ==> forall|f: int|
                0 <= f < count ==> ((#[trigger] r->Some_0@[f]) <==> listed(present@, f)),
    {
        let n = present.len();
        let mut k: usize = 0;
        while k < n
            invariant
                n == present@.len(),
                k <= n,
                forall|j: int| 0 <= j < k ==> (#[trigger] present@[j]) < count,
            decreases n - k,
        {
            if present[k] >= count {
                return None;
            }
            k += 1;
        }
        let mut flags: Vec<bool> = Vec::new();
        let mut f: usize = 0;
        while f < count
            invariant
                flags@.len() == f,
                f <= count,
                forall|i: int| 0 <= i < f ==> !(#[trigger] flags@[i]),
            decreases count - f,
        {
            flags.push(false);
            f += 1;
        }
        let mut k: usize = 0;
        while k < n
            invariant
                n == present@.len(),
                k <= n,
                flags@.len() == count,
                forall|j: int| 0 <= j < n ==> (#[trigger] present@[j]) < count,
                forall|i: int|
                    0 <= i < count ==> ((#[trigger] flags@[i]) <==> exists|j: int|
                        0 <= j < k && (#[trigger] present@[j]) == i),
            decreases n - k,
        {
            let i = present[k];
            flags.set(i, true);
            k += 1;
        }
        Some(FeatureSet { flags })
    }

    /// Returns the number of features of the registry this set was declared
    /// over.
    pub fn feature_count(&self) -> (n: usize)
        ensures
            n == self@.len(),
    {
        self.flags.len()
    }

    /// Reports whether this set marks the feature at position `f` Present;
    /// an index that names no registry feature is not marked.
    pub fn marked(&self, f: usize) -> (r: bool)
        ensures
            r == self.marks(f as int),
    {
        f < self.flags.len() && self.flags[f]
    }

    /// Reports whether every feature in the list is marked Present by this
    /// set, purely from the declared flags: no probing is involved.
    pub fn has_features(&self, features: &Vec<usize>) -> (r: bool)
        ensures
            r == (forall|j: int|
                0 <= j < features@.len() ==> self.marks(#[trigger] features@[j] as int)),
    {
        let n = features.len();
        let mut j: usize = 0;
        while j < n
            invariant
                n == features@.len(),
                j <= n,
                forall|i: int| 0 <= i < j ==> self.marks(#[trigger] features@[i] as int),
            decreases n - j,
        {
            if !self.marked(features[j]) {
                return false;
            }
            j += 1;
        }
        true
    }

    /// Decides the subset relation: true exactly when the two sets range over
    /// the same registry and every feature this set marks Present is marked
    /// Present by `other` as well.
    pub fn is_subset_of(&self, other: &FeatureSet) -> (r: bool)
        ensures
            r == subset_flags(self@, other@),
    {
        if self.flags.len() != other.flags.len() {
            return false;
        }
        let n = self.flags.len();
        let mut i: usize = 0;
        while i < n
            invariant
                n == self@.len(),
                i <= n,
                self@.len() == other@.len(),
                forall|k: int| 0 <= k < i ==> ((#[trigger] self@[k]) ==> other@[k]),
            decreases n - i,
        {
            if self.flags[i] && !other.flags[i] {
                return false;
            }
            i += 1;
        }
        true
    }

    /// Decides the superset relation: true exactly when `other` is a subset
    /// of this set.
    pub fn is_superset_of(&self, other: &FeatureSet) -> (r: bool)
        ensures
            r == subset_flags(other@, self@),
    {
        other.is_subset_of(self)
    }

    /// Forms the union of two sets over the same registry: a feature is
    /// Present in the result exactly when it is Present in either operand.
    /// Two sets over registries of different sizes have no union.
    pub fn union(&self, other: &FeatureSet) -> (r: Option<FeatureSet>)
        ensures
            r is Some <==> self@.len() == other@.len(),
            r is Some ==> r->Some_0@ == union_flags(self@, other@),
    {
        if self.flags.len() != other.flags.len() {
            return None;
        }
        let n = self.flags.len();
        let mut flags: Vec<bool> = Vec::new();
        let mut i: usize = 0;
        while i < n
            invariant
                n == self@.len(),
                i <= n,
                self@.len() == other@.len(),
                flags@.len() == i,
                forall|k: int| 0 <= k < i ==> (#[trigger] flags@[k]) == (self@[k] || other@[k]),
            decreases n - i,
        {
            flags.push(self.flags[i] || other.flags[i]);
            i += 1;
        }
        assert(flags@ =~= union_flags(self@, other@));
        Some(FeatureSet { flags })
    }

    /// Makes an identical copy of this set.
    pub(crate) fn copied(&self) -> (r: FeatureSet)
        ensures
            r@ == self@,
    {
        let n = self.flags.len();
        let mut flags: Vec<bool> = Vec::new();
        let mut i: usize = 0;
        while i < n
            invariant
                n == self@.len(),
                i <= n,
                flags@.len() == i,
                forall|k: int| 0 <= k < i ==> (#[trigger] flags@[k]) == self@[k],
            decreases n - i,
        {
            flags.push(self.flags[i]);
            i += 1;
        }
        assert(flags@ =~= self@);
        FeatureSet { flags }
    }
}

/// The subset relation is reflexive: every set is a subset of itself, so
/// narrowing a witness to the very set it proves always succeeds.
pub proof fn lemma_subset_reflexive(a: Seq<bool>)
    ensures
        subset_flags(a, a),
{
}

/// The subset relation is transitive: a subset of a subset of `c` is itself
/// a subset of `c`. Narrowing a witness in two steps, through a set between
/// the two, therefore succeeds exactly when narrowing directly does.
pub proof fn lemma_subset_transitive(a: Seq<bool>, b: Seq<bool>, c: Seq<bool>)
    requires
        subset_flags(a, b),
        subset_flags(b, c),
    ensures
        subset_flags(a, c),
{
}

/// The subset relation is antisymmetric: two sets that are subsets of each
/// other mark identical features Present.
pub proof fn lemma_subset_antisymmetric(a: Seq<bool>, b: Seq<bool>)
    requires
        subset_flags(a, b),
        subset_flags(b, a),
    ensures
        a == b,
{
    assert(a =~= b);
}

/// The union of two sets is a superset of both operands, so a witness of
/// the union can be narrowed back to either one.
pub proof fn lemma_union_upper_bound(a: Seq<bool>, b: Seq<bool>)
    requires
        a.len() == b.len(),
    ensures
        subset_flags(a, union_flags(a, b)),
        subset_flags(b, union_flags(a, b)),
{
}

/// The union of two sets requires nothing beyond what the operands require:
/// it is a subset of every common superset of both.
pub proof fn lemma_union_least_upper_bound(a: Seq<bool>, b: Seq<bool>, c: Seq<bool>)
    requires
        subset_flags(a, c),
        subset_flags(b, c),
    ensures
        subset_flags(union_flags(a, b), c),
{
}

/// The union of two sets is commutative.
pub proof fn lemma_union_commutative(a: Seq<bool>, b: Seq<bool>)
    requires
        a.len() == b.len(),
    ensures
        union_flags(a, b) == union_flags(b, a),
{
    assert(union_flags(a, b) =~= union_flags(b, a));
}

/// The union of two sets is associative.
pub proof fn lemma_union_associative(a: Seq<bool>, b: Seq<bool>, c: Seq<bool>)
    requires
        a.len() == b.len(),
        b.len() == c.len(),
    ensures
        union_flags(union_flags(a, b), c) == union_flags(a, union_flags(b, c)),
{
    assert(union_flags(union_flags(a, b), c) =~= union_flags(a, union_flags(b, c)));
}

/// The union of two sets is idempotent: a set united with itself is itself.
pub proof fn lemma_union_idempotent(a: Seq<bool>)
    ensures
        union_flags(a, a) == a,
{
    assert(union_flags(a, a) =~= a);
}

} // verus!
