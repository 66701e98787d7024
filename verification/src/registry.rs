//! The capability registry: one probe outcome per feature, and an optional
//! static assurance per feature.
//!
//! The platform supplies, for a fixed ordered list of features, one boolean
//! probe outcome each: whether the running machine supports the feature. A
//! value of [`Registry`] carries those outcomes, together with the features
//! the build configuration assures unconditionally (a deployment target that
//! always has them). The detector may treat an assured feature as trivially
//! present and skip its probe; an assurance never contradicts the probe
//! outcomes, which construction checks.
//!
//! A ghost log records which features have been probed so far. The log has no
//! runtime representation; it lets the contracts of the detector say which
//! probes a call performs.

use vstd::prelude::*;

verus! {

/// The registry's probe outcomes for a fixed, ordered list of features,
/// with the build configuration's static assurances and a ghost log of the
/// probes performed so far.
pub struct Registry {
    support: Vec<bool>,
    assured: Vec<bool>,
    probed: Ghost<Set<int>>,
}

impl Registry {
    #[verifier::type_invariant]
    spec fn wf(self) -> bool {
        &&& self.support@.len() == self.assured@.len()
        &&& forall|i: int|
            0 <= i < self.assured@.len() ==> ((#[trigger] self.assured@[i]) ==> self.support@[i])
    }

    /// The probe outcome of every feature, by registry position.
    pub closed spec fn support_view(self) -> Seq<bool> {
        self.support@
    }

    /// The static assurance of every feature, by registry position.
    pub closed spec fn assured_view(self) -> Seq<bool> {
        self.assured@
    }

    /// The set of registry positions whose probe has been run on this value.
    pub closed spec fn probe_log(self) -> Set<int> {
        self.probed@
    }

    /// True when the registry knows a feature at position `f` and its probe
    /// outcome is positive.
    pub open spec fn supports(self, f: int) -> bool {
        0 <= f < self.support_view().len() && self.support_view()[f]
    }

    /// True when the build configuration assures the feature at position `f`
    /// unconditionally.
    pub open spec fn assures(self, f: int) -> bool {
        0 <= f < self.assured_view().len() && self.assured_view()[f]
    }

    /// An assured feature is always a supported one: every registry value
    /// carries this guarantee, which construction established.
    pub fn assured_implies_supported(&self)
        ensures
            self.support_view().len() == self.assured_view().len(),
            forall|f: int| self.assures(f) ==> self.supports(f),
    {
        proof {
            use_type_invariant(self);
        }
    }

    /// Builds a registry from one probe outcome per feature, with no static
    /// assurances. No probe is recorded as run yet.
    pub fn new(support: Vec<bool>) -> (r: Registry)
        ensures
            r.support_view() == support@,
            r.assured_view().len() == support@.len(),
            forall|f: int| !r.assures(f),
            r.probe_log() == Set::<int>::empty(),
    {
        let n = support.len();
        let mut assured: Vec<bool> = Vec::new();
        let mut i: usize = 0;
        while i < n
            invariant
                assured@.len() == i,
                i <= n,
                forall|k: int| 0 <= k < i ==> !(#[trigger] assured@[k]),
            decreases n - i,
        {
            assured.push(false);
            i += 1;
        }
        Registry { support, assured, probed: Ghost(Set::empty()) }
    }

    /// Builds a registry from one probe outcome per feature and one static
    /// assurance per feature. The lists must pair up, and an assurance of a
    /// feature whose probe outcome is negative is contradictory: in either
    /// case no registry is produced.
    pub fn with_assurances(support: Vec<bool>, assured: Vec<bool>) -> (r: Option<Registry>)
        ensures
            r is Some <==> (support@.len() == assured@.len() && forall|i: int|
                0 <= i < assured@.len() ==> ((#[trigger] assured@[i]) ==> support@[i])),
            r is Some ==> r->Some_0.support_view() == support@,
            r is Some ==> r->Some_0.assured_view() == assured@,
            r is Some ==> r->Some_0.probe_log() == Set::<int>::empty(),
    {
        if support.len() != assured.len() {
            return None;
        }
        let n = support.len();
        let mut i: usize = 0;
        while i < n
            invariant
                n == support@.len(),
                n == assured@.len(),
                i <= n,
                forall|k: int| 0 <= k < i ==> ((#[trigger] assured@[k]) ==> support@[k]),
            decreases n - i,
        {
            if assured[i] && !support[i] {
                return None;
            }
            i += 1;
        }
        Some(Registry { support, assured, probed: Ghost(Set::empty()) })
    }

    /// Returns the number of features the registry knows.
    pub fn feature_count(&self) -> (n: usize)
        ensures
            n == self.support_view().len(),
    {
        self.support.len()
    }

    /// Runs the probe for the feature at position `f` and reports its
    /// outcome. The outcome is a pure query against immutable machine state:
    /// only the ghost log of performed probes changes.
    pub fn probe(&mut self, f: usize) -> (r: bool)
        requires
            f < old(self).support_view().len(),
        ensures
            r == old(self).supports(f as int),
            final(self).support_view() == old(self).support_view(),
            final(self).assured_view() == old(self).assured_view(),
            final(self).probe_log() == old(self).probe_log().insert(f as int),
    {
        proof {
            use_type_invariant(&*self);
        }
        self.probed = Ghost(self.probed@.insert(f as int));
        self.support[f]
    }

    /// Reports whether the build configuration assures the feature at
    /// position `f`; no probe is run.
    pub fn is_assured(&self, f: usize) -> (r: bool)
        requires
            f < self.support_view().len(),
        ensures
            r == self.assures(f as int),
    {
        proof {
            use_type_invariant(self);
        }
        self.assured[f]
    }
}

} // verus!
