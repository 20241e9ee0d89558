//! The scalar field abstraction.
//!
//! A [`Scalar`] is a real-number-like type with the operations the solver
//! needs: field arithmetic, absolute value, square root, powers, and
//! comparison, together with a machine epsilon and an infinity. Every
//! executable operation is specified against an abstract (per-implementation)
//! specification function, so that the contracts of the solver can speak
//! exactly about the values it computes without fixing a concrete
//! representation.

use vstd::prelude::*;

verus! {

/// The index type used for vector and matrix dimensions.
pub type IndexType = usize;

/// A real scalar: the element type of vectors and matrices.
///
/// Implementations are supplied by the caller (for example a double-precision
/// backend). The `sp_*` specification functions are abstract names for the
/// results of the corresponding executable operations; the solver's contracts
/// are stated over them, and an implementation outside this crate leaves them
/// at their defaults.
pub trait Scalar: Sized + Copy {
    /// The additive identity, as a specification value.
    open spec fn sp_zero() -> Self {
        arbitrary()
    }

    /// The multiplicative identity, as a specification value.
    open spec fn sp_one() -> Self {
        arbitrary()
    }

    /// Abstract sum of two scalars.
    open spec fn sp_add(self, other: Self) -> Self {
        arbitrary()
    }

    /// Abstract difference of two scalars.
    open spec fn sp_sub(self, other: Self) -> Self {
        arbitrary()
    }

    /// Abstract product of two scalars.
    open spec fn sp_mul(self, other: Self) -> Self {
        arbitrary()
    }

    /// Abstract quotient of two scalars.
    open spec fn sp_div(self, other: Self) -> Self {
        arbitrary()
    }

    /// Abstract negation.
    open spec fn sp_neg(self) -> Self {
        arbitrary()
    }

    /// Abstract absolute value.
    open spec fn sp_abs(self) -> Self {
        arbitrary()
    }

    /// Abstract square root.
    open spec fn sp_sqrt(self) -> Self {
        arbitrary()
    }

    /// Abstract power with a scalar exponent.
    open spec fn sp_pow(self, exponent: Self) -> Self {
        arbitrary()
    }

    /// Abstract power with an integer exponent.
    open spec fn sp_powi(self, exponent: int) -> Self {
        arbitrary()
    }

    /// Abstract equality test of the representation.
    open spec fn sp_eq(self, other: Self) -> bool {
        arbitrary()
    }

    /// Abstract strict order.
    open spec fn sp_lt(self, other: Self) -> bool {
        arbitrary()
    }

    /// Abstract non-strict order.
    open spec fn sp_le(self, other: Self) -> bool {
        arbitrary()
    }

    /// Abstract value of the ratio of two integers.
    open spec fn sp_ratio(num: int, den: int) -> Self {
        arbitrary()
    }

    /// Abstract machine epsilon.
    open spec fn sp_epsilon() -> Self {
        arbitrary()
    }

    /// Abstract positive infinity.
    open spec fn sp_infinity() -> Self {
        arbitrary()
    }

    fn zero() -> (r: Self)
        ensures
            r == Self::sp_zero(),
    ;

    fn one() -> (r: Self)
        ensures
            r == Self::sp_one(),
    ;

    fn add(self, other: Self) -> (r: Self)
        ensures
            r == self.sp_add(other),
    ;

    fn sub(self, other: Self) -> (r: Self)
        ensures
            r == self.sp_sub(other),
    ;

    fn mul(self, other: Self) -> (r: Self)
        ensures
            r == self.sp_mul(other),
    ;

    fn div(self, other: Self) -> (r: Self)
        ensures
            r == self.sp_div(other),
    ;

    fn neg(self) -> (r: Self)
        ensures
            r == self.sp_neg(),
    ;

    fn abs(self) -> (r: Self)
        ensures
            r == self.sp_abs(),
    ;

    fn sqrt(self) -> (r: Self)
        ensures
            r == self.sp_sqrt(),
    ;

    /// Power with a scalar exponent.
    fn pow(self, exponent: Self) -> (r: Self)
        ensures
            r == self.sp_pow(exponent),
    ;

    /// Integer power.
    fn powi(self, exponent: i32) -> (r: Self)
        ensures
            r == self.sp_powi(exponent as int),
    ;

    fn eq_val(self, other: Self) -> (r: bool)
        ensures
            r == self.sp_eq(other),
    ;

    fn lt(self, other: Self) -> (r: bool)
        ensures
            r == self.sp_lt(other),
    ;

    fn le(self, other: Self) -> (r: bool)
        ensures
            r == self.sp_le(other),
    ;

    /// The scalar closest to the ratio `num / den` of two integers. This is
    /// how the solver obtains its numeric constants.
    fn ratio(num: i64, den: i64) -> (r: Self)
        requires
            den != 0,
        ensures
            r == Self::sp_ratio(num as int, den as int),
    ;

    /// The scalar for a small machine-size integer.
    fn from_index(value: usize) -> (r: Self)
        ensures
            r == Self::sp_ratio(value as int, 1),
    ;

    /// The machine epsilon of the representation.
    fn epsilon() -> (r: Self)
        ensures
            r == Self::sp_epsilon(),
    ;

    /// Positive infinity (an element larger than every finite scalar).
    fn infinity() -> (r: Self)
        ensures
            r == Self::sp_infinity(),
    ;
}

} // verus!
