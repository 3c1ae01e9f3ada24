//! The representation of real numbers that a sampler computes with.
use vstd::prelude::*;

verus! {

/// A representation of real numbers, named by a marker type: the arithmetic
/// that the Gibbs sampler performs on parameters and log-densities.
///
/// Each operation has a spec counterpart that names its result as a function
/// of its arguments alone; nothing more is stated of those results. What the
/// sampler proves holds whatever they are.
pub trait Real {
    type Value: Copy;

    spec fn zero_spec() -> Self::Value;

    spec fn one_spec() -> Self::Value;

    spec fn add_spec(a: Self::Value, b: Self::Value) -> Self::Value;

    spec fn sub_spec(a: Self::Value, b: Self::Value) -> Self::Value;

    spec fn exp_spec(a: Self::Value) -> Self::Value;

    spec fn min_spec(a: Self::Value, b: Self::Value) -> Self::Value;

    /// `a < b`.
    spec fn lt_spec(a: Self::Value, b: Self::Value) -> bool;

    /// `a` is negative infinity, the log-density of a point outside the
    /// support.
    spec fn neg_inf(a: Self::Value) -> bool;

    fn zero() -> (r: Self::Value)
        ensures
            r == Self::zero_spec(),
    ;

    fn one() -> (r: Self::Value)
        ensures
            r == Self::one_spec(),
    ;

    fn add(a: Self::Value, b: Self::Value) -> (r: Self::Value)
        ensures
            r == Self::add_spec(a, b),
    ;

    fn sub(a: Self::Value, b: Self::Value) -> (r: Self::Value)
        ensures
            r == Self::sub_spec(a, b),
    ;

    fn exp(a: Self::Value) -> (r: Self::Value)
        ensures
            r == Self::exp_spec(a),
    ;

    fn min(a: Self::Value, b: Self::Value) -> (r: Self::Value)
        ensures
            r == Self::min_spec(a, b),
    ;

    /// Whether `a < b`.
    fn lt(a: Self::Value, b: Self::Value) -> (r: bool)
        ensures
            r == Self::lt_spec(a, b),
    ;

    /// Whether `a` is negative infinity.
    fn is_neg_infinity(a: Self::Value) -> (r: bool)
        ensures
            r == Self::neg_inf(a),
    ;
}

/// `a` is positive: `0 < a`.
pub open spec fn positive<R: Real + ?Sized>(a: R::Value) -> bool {
    R::lt_spec(R::zero_spec(), a)
}

/// The random draws that a random-walk sampler consumes, in a representation
/// of real numbers. Nothing is stated of a draw.
pub trait Draws: Real {
    /// A draw from the normal distribution with the given mean and positive
    /// standard deviation.
    fn normal(mean: Self::Value, sd: Self::Value) -> Self::Value
        requires
            positive::<Self>(sd),
    ;

    /// A draw from the uniform distribution on [0, 1).
    fn uniform() -> Self::Value;
}

} // verus!
