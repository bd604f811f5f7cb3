//! Amounts of the currency.
use vstd::prelude::*;

verus! {

/// An unsigned number that amounts of the currency are counted in.
pub trait Balance: Sized + Copy {
    /// The number that a value stands for.
    spec fn value(self) -> nat;

    /// The largest number that the type can hold.
    spec fn max() -> nat;

    /// Values within `max` stand for one number each.
    proof fn value_identifies(a: Self, b: Self)
        ensures
            a.value() <= Self::max(),
            a.value() == b.value() ==> a == b,
    ;

    /// Nothing.
    fn zero() -> (nothing: Self)
        ensures
            nothing.value() == 0,
    ;

    /// Whether this is nothing.
    fn is_zero(self) -> (empty: bool)
        ensures
            empty == (self.value() == 0),
    ;

    /// The sum, or the largest value where the sum does not fit.
    fn saturating_add(self, other: Self) -> (sum: Self)
        ensures
            sum.value() == if self.value() + other.value() <= Self::max() {
                self.value() + other.value()
            } else {
                Self::max()
            },
    ;

    /// The difference, or nothing where `other` is the larger.
    fn saturating_sub(self, other: Self) -> (difference: Self)
        ensures
            difference.value() == if self.value() >= other.value() {
                (self.value() - other.value()) as nat
            } else {
                0
            },
    ;

    /// The product, or the largest value where the product does not fit.
    fn saturating_mul(self, factor: u32) -> (product: Self)
        ensures
            product.value() == if self.value() * factor as nat <= Self::max() {
                self.value() * factor as nat
            } else {
                Self::max()
            },
    ;

    /// The quotient, rounded down.
    fn div(self, divisor: u32) -> (quotient: Self)
        requires
            divisor != 0,
        ensures
            quotient.value() == self.value() / divisor as nat,
    ;
}

/// Calls `sp_runtime`'s `Saturating::saturating_sub` on `u64`.
///
/// Claimed of it: the difference, and zero where there is none.
#[verifier::external_body]
fn saturating_sub_u64(a: u64, b: u64) -> (difference: u64)
    ensures
        difference == if a >= b { a - b } else { 0 },
{
    sp_runtime::Saturating::saturating_sub(a, b)
}

/// Calls `sp_runtime`'s `Saturating::saturating_sub` on `u128`.
///
/// Claimed of it: the difference, and zero where there is none.
#[verifier::external_body]
fn saturating_sub_u128(a: u128, b: u128) -> (difference: u128)
    ensures
        difference == if a >= b { a - b } else { 0 },
{
    sp_runtime::Saturating::saturating_sub(a, b)
}

impl Balance for u64 {
    open spec fn value(self) -> nat {
        self as nat
    }

    open spec fn max() -> nat {
        u64::MAX as nat
    }

    proof fn value_identifies(a: u64, b: u64) {
    }

    fn zero() -> (nothing: u64) {
        0
    }

    fn is_zero(self) -> (empty: bool) {
        self == 0
    }

    fn saturating_add(self, other: u64) -> (sum: u64) {
        u64::saturating_add(self, other)
    }

    fn saturating_sub(self, other: u64) -> (difference: u64) {
        saturating_sub_u64(self, other)
    }

    fn saturating_mul(self, factor: u32) -> (product: u64) {
        match self.checked_mul(factor as u64) {
            Some(product) => product,
            None => u64::MAX,
        }
    }

    fn div(self, divisor: u32) -> (quotient: u64) {
        self / (divisor as u64)
    }
}

impl Balance for u128 {
    open spec fn value(self) -> nat {
        self as nat
    }

    open spec fn max() -> nat {
        u128::MAX as nat
    }

    proof fn value_identifies(a: u128, b: u128) {
    }

    fn zero() -> (nothing: u128) {
        0
    }

    fn is_zero(self) -> (empty: bool) {
        self == 0
    }

    fn saturating_add(self, other: u128) -> (sum: u128) {
        u128::saturating_add(self, other)
    }

    fn saturating_sub(self, other: u128) -> (difference: u128) {
        saturating_sub_u128(self, other)
    }

    fn saturating_mul(self, factor: u32) -> (product: u128) {
        match self.checked_mul(factor as u128) {
            Some(product) => product,
            None => u128::MAX,
        }
    }

    fn div(self, divisor: u32) -> (quotient: u128) {
        self / (divisor as u128)
    }
}

} // verus!
