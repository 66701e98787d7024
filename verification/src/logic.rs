//! The Boolean proof algebra: two canonical marker types, one for each truth
//! value, each reporting its value through the [`Bool`] trait.

use vstd::prelude::*;

verus! {

/// A type standing for one truth value.
///
/// The two implementors, [`True`] and [`False`], are the two marks a feature
/// can carry inside a capability set: Present and Absent.
pub trait Bool: Sized {
    /// The truth value this type stands for.
    spec fn spec_value() -> bool;

    /// Returns the truth value this type stands for.
    fn value() -> (r: bool)
        ensures
            r == Self::spec_value(),
    ;
}

/// The type standing for `true`: a feature marked Present.
#[derive(Copy, Clone, Debug)]
pub struct True;

/// The type standing for `false`: a feature marked Absent.
#[derive(Copy, Clone, Debug)]
pub struct False;

impl Bool for True {
    open spec fn spec_value() -> bool {
        true
    }

    fn value() -> (r: bool)
        ensures
            r == Self::spec_value(),
    {
        true
    }
}

impl Bool for False {
    open spec fn spec_value() -> bool {
        false
    }

    fn value() -> (r: bool)
        ensures
            r == Self::spec_value(),
    {
        false
    }
}

/// The disjunction of two marks: Present when either operand is Present.
pub fn or<A: Bool, B: Bool>() -> (r: bool)
    ensures
        r == (A::spec_value() || B::spec_value()),
{
    A::value() || B::value()
}

/// The conjunction of two marks: Present only when both operands are Present.
pub fn and<A: Bool, B: Bool>() -> (r: bool)
    ensures
        r == (A::spec_value() && B::spec_value()),
{
    A::value() && B::value()
}

} // verus!
