//! Runtime-checked proofs of CPU capability support.
//!
//! A [`capset::FeatureSet`] records, for every feature of a fixed registry,
//! whether the feature is required (Present) or not (Absent). A
//! [`witness::Witness`] is a value that can only be obtained by confirming,
//! against a [`registry::Registry`] of probe outcomes, that every feature its
//! set marks Present is actually supported. A witness can be narrowed to a
//! smaller set without re-probing ([`witness::Witness::shrink`]), widened by
//! probing exactly the missing features ([`witness::Witness::expand`]), and
//! merged with another into a proof of the union of their sets
//! ([`witness::Witness::combine`]). The subset relation between sets, and
//! their union, are computed from the declared flags alone.

pub mod capset;
pub mod logic;
pub mod registry;
pub mod witness;

pub use capset::FeatureSet;
pub use registry::Registry;
pub use witness::FromFeatures;
pub use witness::UnsafeConstructible;
pub use witness::Witness;
