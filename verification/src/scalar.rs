//! The numeric capability set that the differentiation engine is generic
//! over.
//!
//! The engine never computes with a concrete number type of its own: every
//! primal value, local partial derivative and optimizer quantity is a value
//! of some type implementing [`Scalar`]. The abstract spec functions
//! (`add_s`, `mul_s`, ...) name the results of the corresponding executable
//! operations, so that every contract in this crate can speak of numeric
//! results symbolically; the three lemmas state the identity and
//! annihilation laws of `zero_s`/`one_s` that the backward sweep's
//! correctness arguments rest on. An implementation (typically a wrapper
//! around a machine float, supplied by the embedding application) provides
//! the executable operations and is the sole axiomatic ground of those
//! laws.

use vstd::prelude::*;

verus! {

/// A real-number-like scalar: the carrier of primal values and derivatives.
pub trait Scalar: Sized + Copy {
    /// The additive identity.
    spec fn zero_s() -> Self;

    /// The multiplicative identity.
    spec fn one_s() -> Self;

    /// One half, used by the square-root derivative.
    spec fn half_s() -> Self;

    /// The scalar standing for a small signed integer.
    spec fn from_i32_s(n: i32) -> Self;

    spec fn add_s(self, o: Self) -> Self;

    spec fn sub_s(self, o: Self) -> Self;

    spec fn mul_s(self, o: Self) -> Self;

    spec fn div_s(self, o: Self) -> Self;

    spec fn neg_s(self) -> Self;

    /// The reciprocal `1 / self`.
    spec fn recip_s(self) -> Self;

    spec fn exp_s(self) -> Self;

    spec fn ln_s(self) -> Self;

    spec fn sqrt_s(self) -> Self;

    spec fn abs_s(self) -> Self;

    spec fn signum_s(self) -> Self;

    /// `self` raised to the integer power `n`.
    spec fn powi_s(self, n: i32) -> Self;

    fn zero_v() -> (r: Self)
        ensures
            r == Self::zero_s(),
    ;

    fn one_v() -> (r: Self)
        ensures
            r == Self::one_s(),
    ;

    fn half_v() -> (r: Self)
        ensures
            r == Self::half_s(),
    ;

    fn from_i32_v(n: i32) -> (r: Self)
        ensures
            r == Self::from_i32_s(n),
    ;

    fn add_v(self, o: Self) -> (r: Self)
        ensures
            r == self.add_s(o),
    ;

    fn sub_v(self, o: Self) -> (r: Self)
        ensures
            r == self.sub_s(o),
    ;

    fn mul_v(self, o: Self) -> (r: Self)
        ensures
            r == self.mul_s(o),
    ;

    fn div_v(self, o: Self) -> (r: Self)
        ensures
            r == self.div_s(o),
    ;

    fn neg_v(self) -> (r: Self)
        ensures
            r == self.neg_s(),
    ;

    fn recip_v(self) -> (r: Self)
        ensures
            r == self.recip_s(),
    ;

    fn exp_v(self) -> (r: Self)
        ensures
            r == self.exp_s(),
    ;

    fn ln_v(self) -> (r: Self)
        ensures
            r == self.ln_s(),
    ;

    fn sqrt_v(self) -> (r: Self)
        ensures
            r == self.sqrt_s(),
    ;

    fn abs_v(self) -> (r: Self)
        ensures
            r == self.abs_s(),
    ;

    fn signum_v(self) -> (r: Self)
        ensures
            r == self.signum_s(),
    ;

    fn powi_v(self, n: i32) -> (r: Self)
        ensures
            r == self.powi_s(n),
    ;

    /// Whether `self` is the additive identity.
    fn is_zero_v(self) -> (r: bool)
        ensures
            r == (self == Self::zero_s()),
    ;

    /// `zero_s` is an identity of addition.
    proof fn lemma_add_zero(a: Self)
        ensures
            a.add_s(Self::zero_s()) == a,
            Self::zero_s().add_s(a) == a,
    ;

    /// `zero_s` annihilates under multiplication.
    proof fn lemma_mul_zero(a: Self)
        ensures
            a.mul_s(Self::zero_s()) == Self::zero_s(),
            Self::zero_s().mul_s(a) == Self::zero_s(),
    ;

    /// `one_s` is an identity of multiplication.
    proof fn lemma_mul_one(a: Self)
        ensures
            a.mul_s(Self::one_s()) == a,
            Self::one_s().mul_s(a) == a,
    ;
}

} // verus!
