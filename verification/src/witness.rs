//! Proof witnesses: values whose existence certifies that every feature a
//! capability set marks Present has been confirmed.
//!
//! A [`Witness`] is created by the detector ([`FeatureSet::detect`]), by
//! narrowing an existing witness to a smaller set ([`Witness::shrink`]), by
//! widening one after probing exactly the missing features
//! ([`Witness::expand`]), by merging two witnesses into one for the union of
//! their sets ([`Witness::combine`]), or — for a caller that can itself prove
//! the confirmation — by [`Witness::new_unchecked`]. Every witness carries a
//! ghost record of the probe outcomes it relies on, and every feature its set
//! marks Present is confirmed by that record.

use vstd::prelude::*;

use crate::capset::FeatureSet;
use crate::capset::subset_flags;
use crate::capset::union_flags;
use crate::registry::Registry;

verus! {

/// A marker that cannot be constructed outside this crate: it keeps every
/// path to a [`Witness`] inside the library, so that no witness exists
/// without the confirmation its contract records.
#[derive(Copy, Clone)]
pub struct UnsafeConstructible(());

/// A proof that every feature of one capability set marked Present has been
/// confirmed.
///
/// The confirmation is recorded as a ghost assignment of one boolean outcome
/// per feature — the probe outcomes the witness relies on — and every witness
/// satisfies [`Witness::sound`]: each feature its set marks Present is
/// confirmed by that record.
pub struct Witness {
    set: FeatureSet,
    confirmed: Ghost<Seq<bool>>,
    guard: UnsafeConstructible,
}

impl Witness {
    #[verifier::type_invariant]
    spec fn wf(self) -> bool {
        &&& self.confirmed@.len() == self.set@.len()
        &&& forall|i: int| 0 <= i < self.set@.len() ==> ((#[trigger] self.set@[i]) ==> self.confirmed@[i])
    }

    /// The declared flags of the set this witness proves.
    pub closed spec fn flags(self) -> Seq<bool> {
        self.set@
    }

    /// The probe outcomes this witness relies on, one per feature.
    pub closed spec fn confirmed(self) -> Seq<bool> {
        self.confirmed@
    }

    /// True when this witness's set marks the feature at position `f`
    /// Present.
    pub open spec fn marks(self, f: int) -> bool {
        0 <= f < self.flags().len() && self.flags()[f]
    }

    /// The soundness invariant: every feature the set marks Present is
    /// confirmed by the recorded probe outcomes.
    pub open spec fn sound(self) -> bool {
        &&& self.confirmed().len() == self.flags().len()
        &&& forall|f: int| self.marks(f) ==> self.confirmed()[f]
    }

    /// Every witness is sound: no constructor hands one out otherwise.
    pub fn soundness(&self)
        ensures
            self.sound(),
    {
        proof {
            use_type_invariant(self);
        }
    }

    /// Constructs a witness without consulting any registry. The caller
    /// supplies the probe outcomes the witness is to rely on and must prove
    /// that they confirm every feature the set marks Present: the obligation
    /// the detector would otherwise discharge at run time is discharged
    /// statically instead.
    pub fn new_unchecked(set: &FeatureSet, outcomes: Ghost<Seq<bool>>) -> (r: Witness)
        requires
            outcomes@.len() == set@.len(),
            forall|f: int| set.marks(f) ==> outcomes@[f],
        ensures
            r.flags() == set@,
            r.confirmed() == outcomes@,
    {
        Witness { set: set.copied(), confirmed: Ghost(outcomes@), guard: UnsafeConstructible(()) }
    }

    /// Borrows the capability set this witness proves.
    pub fn feature_set(&self) -> (s: &FeatureSet)
        ensures
            s@ == self.flags(),
    {
        &self.set
    }

    /// Reports whether every feature in the list is marked Present by this
    /// witness's set, purely from the declared flags: no probing is involved.
    pub fn has_features(&self, features: &Vec<usize>) -> (r: bool)
        ensures
            r == (forall|j: int|
                0 <= j < features@.len() ==> self.marks(#[trigger] features@[j] as int)),
    {
        self.set.has_features(features)
    }

    /// Decides whether the set this witness proves is a subset of `other`.
    pub fn is_subset_of(&self, other: &FeatureSet) -> (r: bool)
        ensures
            r == subset_flags(self.flags(), other@),
    {
        self.set.is_subset_of(other)
    }

    /// Decides whether the set this witness proves is a superset of
    /// `required`: whether the witness already proves everything `required`
    /// asks for.
    pub fn is_superset_of(&self, required: &FeatureSet) -> (r: bool)
        ensures
            r == subset_flags(required@, self.flags()),
    {
        self.set.is_superset_of(required)
    }

    /// Narrows this witness to a target set, trusting the existing proof: no
    /// probing is involved, and the recorded outcomes are kept unchanged.
    /// The conversion succeeds exactly when the target is a subset of the
    /// proven set — when the target requires no more than this witness
    /// already proves.
    pub fn shrink(&self, target: &FeatureSet) -> (r: Option<Witness>)
        ensures
            r is Some <==> subset_flags(target@, self.flags()),
            r is Some ==> r->Some_0.flags() == target@,
            r is Some ==> r->Some_0.confirmed() == self.confirmed(),
    {
        proof {
            use_type_invariant(self);
        }
        if target.is_subset_of(&self.set) {
            Some(
                Witness {
                    set: target.copied(),
                    confirmed: Ghost(self.confirmed@),
                    guard: UnsafeConstructible(()),
                },
            )
        } else {
            None
        }
    }

    /// Widens this witness to a target set by probing exactly the gap: the
    /// features the target marks Present that the proven set does not. The
    /// conversion succeeds exactly when the sets range over the registry and
    /// every gap feature's probe outcome is positive — the features already
    /// proven are never re-probed, and features the build assures are not
    /// probed either.
    pub fn expand(&self, target: &FeatureSet, registry: &mut Registry) -> (r: Option<Witness>)
        ensures
            final(registry).support_view() == old(registry).support_view(),
            final(registry).assured_view() == old(registry).assured_view(),
            r is Some <==> (target@.len() == self.flags().len() && target@.len() == old(
                registry,
            ).support_view().len() && forall|f: int|
                (#[trigger] target.marks(f) && !self.marks(f)) ==> old(registry).supports(f)),
            r is Some ==> r->Some_0.flags() == target@,
            r is Some ==> r->Some_0.confirmed() == Seq::new(
                target@.len(),
                |i: int| self.confirmed()[i] || old(registry).support_view()[i],
            ),
            old(registry).probe_log().subset_of(final(registry).probe_log()),
            forall|f: int|
                #[trigger] final(registry).probe_log().contains(f) ==> old(
                    registry,
                ).probe_log().contains(f) || (target.marks(f) && !self.marks(f) && !old(
                    registry,
                ).assures(f)),
    {
        proof {
            use_type_invariant(self);
        }
        if target.feature_count() != self.set.feature_count() || target.feature_count()
            != registry.feature_count() {
            return None;
        }
        let n = target.feature_count();
        let mut i: usize = 0;
        while i < n
            invariant
                n == target@.len(),
                i <= n,
                target@.len() == self.flags().len(),
                target@.len() == registry.support_view().len(),
                registry.support_view() == old(registry).support_view(),
                registry.assured_view() == old(registry).assured_view(),
                old(registry).probe_log().subset_of(registry.probe_log()),
                forall|f: int|
                    #[trigger] registry.probe_log().contains(f) ==> old(
                        registry,
                    ).probe_log().contains(f) || (target.marks(f) && !self.marks(f) && !old(
                        registry,
                    ).assures(f)),
                forall|f: int|
                    0 <= f < i ==> ((#[trigger] target@[f] && !self.flags()[f])
                        ==> registry.supports(f)),
            decreases n - i,
        {
            if target.marked(i) && !self.set.marked(i) {
                registry.assured_implies_supported();
                if !registry.is_assured(i) {
                    if !registry.probe(i) {
                        return None;
                    }
                }
            }
            i += 1;
        }
        let confirmed: Ghost<Seq<bool>> = Ghost(
            Seq::new(target@.len(), |k: int| self.confirmed@[k] || registry.support_view()[k]),
        );
        Some(Witness { set: target.copied(), confirmed, guard: UnsafeConstructible(()) })
    }

    /// Merges two witnesses over the same registry into a witness of the
    /// union of their sets. No probing is involved: the union requires
    /// nothing beyond what one of the two witnesses already proves, so the
    /// merged record confirms every feature the union marks Present.
    pub fn combine(a: &Witness, b: &Witness) -> (r: Option<Witness>)
        ensures
            r is Some <==> a.flags().len() == b.flags().len(),
            r is Some ==> r->Some_0.flags() == union_flags(a.flags(), b.flags()),
            r is Some ==> r->Some_0.confirmed() == union_flags(a.confirmed(), b.confirmed()),
    {
        proof {
            use_type_invariant(a);
            use_type_invariant(b);
        }
        match a.set.union(&b.set) {
            Some(set) => Some(
                Witness {
                    set,
                    confirmed: Ghost(union_flags(a.confirmed@, b.confirmed@)),
                    guard: UnsafeConstructible(()),
                },
            ),
            None => None,
        }
    }
}

impl FeatureSet {
    /// The detector: confirms, against the registry, every feature this set
    /// marks Present, and yields a witness exactly when all of them are
    /// supported. A feature the build assures is trivially present and its
    /// probe is skipped; every other Present feature is probed. Probing
    /// stops at the first feature found unsupported.
    pub fn detect(&self, registry: &mut Registry) -> (r: Option<Witness>)
        ensures
            final(registry).support_view() == old(registry).support_view(),
            final(registry).assured_view() == old(registry).assured_view(),
            r is Some <==> (self@.len() == old(registry).support_view().len() && forall|f: int|
                #[trigger] self.marks(f) ==> old(registry).supports(f)),
            r is Some ==> r->Some_0.flags() == self@,
            r is Some ==> r->Some_0.confirmed() == old(registry).support_view(),
            old(registry).probe_log().subset_of(final(registry).probe_log()),
            forall|f: int|
                #[trigger] final(registry).probe_log().contains(f) ==> old(
                    registry,
                ).probe_log().contains(f) || (self.marks(f) && !old(registry).assures(f)),
    {
        if self.feature_count() != registry.feature_count() {
            return None;
        }
        let n = self.feature_count();
        let mut i: usize = 0;
        while i < n
            invariant
                n == self@.len(),
                i <= n,
                self@.len() == registry.support_view().len(),
                registry.support_view() == old(registry).support_view(),
                registry.assured_view() == old(registry).assured_view(),
                old(registry).probe_log().subset_of(registry.probe_log()),
                forall|f: int|
                    #[trigger] registry.probe_log().contains(f) ==> old(
                        registry,
                    ).probe_log().contains(f) || (self.marks(f) && !old(registry).assures(f)),
                forall|f: int| 0 <= f < i ==> ((#[trigger] self@[f]) ==> registry.supports(f)),
            decreases n - i,
        {
            if self.marked(i) {
                registry.assured_implies_supported();
                if !registry.is_assured(i) {
                    if !registry.probe(i) {
                        return None;
                    }
                }
            }
            i += 1;
        }
        Some(
            Witness {
                set: self.copied(),
                confirmed: Ghost(registry.support_view()),
                guard: UnsafeConstructible(()),
            },
        )
    }
}

/// Conversion of a witness into a value for a target capability set, without
/// probing: the runtime counterpart of constructing one feature-set type from
/// another that proves at least as much.
pub trait FromFeatures: Sized {
    /// The declared flags of the target value.
    spec fn flags_of(self) -> Seq<bool>;

    /// Converts a witness into a value for the target set. The conversion
    /// succeeds exactly when the target requires no more than the witness
    /// proves.
    fn from_features(source: &Witness, target: &FeatureSet) -> (r: Option<Self>)
        ensures
            r is Some <==> subset_flags(target@, source.flags()),
            r is Some ==> r->Some_0.flags_of() == target@,
    ;
}

impl FromFeatures for Witness {
    open spec fn flags_of(self) -> Seq<bool> {
        self.flags()
    }

    fn from_features(source: &Witness, target: &FeatureSet) -> (r: Option<Witness>) {
        source.shrink(target)
    }
}

} // verus!
