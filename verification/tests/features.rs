// The x86 features these tests speak of, as positions in a four-feature
// registry.
const SSE: usize = 0;
const SSE2: usize = 1;
const AVX: usize = 2;
const AVX2: usize = 3;
const FEATURES: usize = 4;

use arch_types::FeatureSet;
use arch_types::Registry;
use arch_types::Witness;

/// A registry on which every feature probes true.
fn registry_all_true() -> Registry {
    Registry::new(vec![true, true, true, true])
}

fn declare(present: &[usize]) -> FeatureSet {
    FeatureSet::declare(FEATURES, &present.to_vec()).unwrap()
}

fn sse(tag: &Witness) {
    assert!(tag.has_features(&vec![SSE]));
}

fn sse2(tag: &Witness) {
    assert!(tag.has_features(&vec![SSE2]));
}

fn sse_avx(tag: &Witness) {
    assert!(tag.has_features(&vec![SSE, AVX]));
}

fn avx2(tag: &Witness) {
    assert!(tag.has_features(&vec![AVX2]));
}

#[test]
fn requires_features() {
    let arch_sse_sse2_avx = declare(&[SSE, SSE2, AVX]);
    let arch_sse_avx_avx2 = declare(&[SSE, AVX, AVX2]);
    let mut registry = registry_all_true();
    if let Some(tag) = arch_sse_sse2_avx.detect(&mut registry) {
        sse(&tag);
        sse_avx(&tag);
        sse2(&tag);
    }
    if let Some(tag) = arch_sse_avx_avx2.detect(&mut registry) {
        sse(&tag);
        sse_avx(&tag);
        avx2(&tag);
    }
}

#[test]
fn test_requires_features() {
    let arch_sse_sse2_avx = declare(&[SSE, SSE2, AVX]);
    let arch_sse_avx_avx2 = declare(&[SSE, AVX, AVX2]);
    let arch_sse_avx2 = declare(&[SSE, AVX2]);
    let mut registry = registry_all_true();
    assert_eq!(arch_sse_avx2.feature_count(), FEATURES);
    if let Some(tag) = arch_sse_sse2_avx.detect(&mut registry) {
        sse(&tag);
        sse_avx(&tag);
        sse2(&tag);
    }
    if let Some(tag) = arch_sse_avx_avx2.detect(&mut registry) {
        sse(&tag);
        sse_avx(&tag);
        avx2(&tag);
    }
}

#[test]
fn shrink() {
    let arch_sse_sse2_avx = declare(&[SSE, SSE2, AVX]);
    let arch_sse_avx_avx2 = declare(&[SSE, AVX, AVX2]);
    let arch_sse_avx2 = declare(&[SSE, AVX2]);
    let mut registry = registry_all_true();
    if let Some(tag) = arch_sse_sse2_avx.detect(&mut registry) {
        assert!(tag.shrink(&arch_sse_avx2).is_none());
        assert!(tag.shrink(&arch_sse_avx_avx2).is_none());
    }
    if let Some(tag) = arch_sse_avx_avx2.detect(&mut registry) {
        assert!(tag.shrink(&arch_sse_avx2).is_some());
        assert!(tag.shrink(&arch_sse_sse2_avx).is_none());
    }
}
