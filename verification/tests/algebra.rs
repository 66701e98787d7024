// The relation engine and the union combinator, on declared flags alone.

use arch_types::FeatureSet;
use arch_types::logic;
use arch_types::logic::Bool;

const FEATURES: usize = 3;
const F1: usize = 0;
const F2: usize = 1;

fn declare(present: &[usize]) -> FeatureSet {
    FeatureSet::declare(FEATURES, &present.to_vec()).unwrap()
}

#[test]
fn declare_marks_exactly_the_listed_features() {
    let s = declare(&[F1, F2]);
    assert_eq!(s.feature_count(), FEATURES);
    assert!(s.marked(F1));
    assert!(s.marked(F2));
    assert!(!s.marked(2));
    assert!(s.has_features(&vec![F1, F2]));
    assert!(!s.has_features(&vec![F1, 2]));
}

#[test]
fn declare_rejects_an_unknown_feature() {
    assert!(FeatureSet::declare(FEATURES, &vec![F1, FEATURES]).is_none());
    assert!(FeatureSet::declare(0, &vec![0]).is_none());
    assert!(FeatureSet::declare(0, &vec![]).is_some());
}

#[test]
fn marked_is_false_beyond_the_registry() {
    let s = declare(&[F1]);
    assert!(!s.marked(FEATURES));
    assert!(!s.marked(usize::MAX));
}

#[test]
fn subset_is_reflexive() {
    let s = declare(&[F1, F2]);
    assert!(s.is_subset_of(&s));
    assert!(s.is_superset_of(&s));
    let empty = declare(&[]);
    assert!(empty.is_subset_of(&empty));
}

#[test]
fn subset_is_transitive() {
    let a = declare(&[F1]);
    let b = declare(&[F1, F2]);
    let c = declare(&[F1, F2, 2]);
    assert!(a.is_subset_of(&b));
    assert!(b.is_subset_of(&c));
    assert!(a.is_subset_of(&c));
}

#[test]
fn subset_both_ways_means_identical_marks() {
    let a = declare(&[F2, F1]);
    let b = declare(&[F1, F2, F1]);
    assert!(a.is_subset_of(&b));
    assert!(b.is_subset_of(&a));
    for f in 0..FEATURES {
        assert_eq!(a.marked(f), b.marked(f));
    }
}

#[test]
fn subset_needs_one_registry() {
    let a = FeatureSet::declare(2, &vec![0]).unwrap();
    let b = FeatureSet::declare(3, &vec![0]).unwrap();
    assert!(!a.is_subset_of(&b));
    assert!(!b.is_subset_of(&a));
    assert!(a.union(&b).is_none());
}

#[test]
fn union_is_correct() {
    let a = declare(&[F1]);
    let b = declare(&[F2]);
    let c = a.union(&b).unwrap();
    assert!(c.has_features(&vec![F1]));
    assert!(c.has_features(&vec![F2]));
    assert!(c.is_superset_of(&a));
    assert!(c.is_superset_of(&b));
    assert!(a.is_subset_of(&c));
    assert!(!c.is_subset_of(&a));
    assert!(!c.marked(2));
}

#[test]
fn union_of_a_set_with_itself() {
    let a = declare(&[F1]);
    let c = a.union(&a).unwrap();
    assert!(c.is_subset_of(&a));
    assert!(a.is_subset_of(&c));
}

#[test]
fn union_is_commutative() {
    let a = declare(&[F1]);
    let b = declare(&[F2, 2]);
    let ab = a.union(&b).unwrap();
    let ba = b.union(&a).unwrap();
    assert!(ab.is_subset_of(&ba));
    assert!(ba.is_subset_of(&ab));
}

#[test]
fn marker_types_report_their_truth_values() {
    assert!(logic::True::value());
    assert!(!logic::False::value());
    assert!(logic::or::<logic::True, logic::False>());
    assert!(!logic::or::<logic::False, logic::False>());
    assert!(logic::and::<logic::True, logic::True>());
    assert!(!logic::and::<logic::True, logic::False>());
}
