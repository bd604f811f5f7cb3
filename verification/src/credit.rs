//! Funds that have left one account and not yet reached another.
use crate::balance::Balance;
use vstd::prelude::*;

verus! {

/// Funds on their way. A credit that is dropped is burned, so it can be neither copied nor
/// cloned: it is split, merged and handed on.
#[derive(Debug)]
pub struct Credit<B> {
    pub amount: B,
}

impl<B: Balance> Credit<B> {
    /// How much the credit is worth.
    pub open spec fn value(self) -> nat {
        self.amount.value()
    }

    /// What `first` parts out of `total` make of `amount`, rounded down, where an intermediate
    /// product cannot exceed what a balance can hold.
    pub open spec fn share(amount: nat, first: nat, total: nat) -> nat {
        if amount * first <= B::max() {
            amount * first / total
        } else {
            B::max() / total
        }
    }

    /// How many parts `first` and `second` make together, as a `u32`.
    pub open spec fn parts(first: u32, second: u32) -> nat {
        if first + second <= u32::MAX {
            (first + second) as nat
        } else {
            u32::MAX as nat
        }
    }

    /// A share is at most the whole.
    pub proof fn share_is_at_most_whole(amount: nat, first: nat, total: nat)
        requires
            first <= total,
            0 < total,
        ensures
            Self::share(amount, first, total) <= amount,
    {
        assert(amount * first / total <= amount) by (nonlinear_arith)
            requires
                first <= total,
                0 < total,
        ;
        if B::max() < amount * first {
            assert(B::max() / total <= amount * first / total) by (nonlinear_arith)
                requires
                    B::max() < amount * first,
                    0 < total,
            ;
        }
    }

    /// How much the credit is worth.
    pub fn peek(&self) -> (amount: B)
        ensures
            amount == self.amount,
    {
        self.amount
    }

    /// Takes `amount` off the credit, or all of it where it is worth less; what is left is second.
    pub fn split(self, amount: B) -> (parts: (Credit<B>, Credit<B>))
        ensures
            parts.0.value() == if self.value() <= amount.value() {
                self.value()
            } else {
                amount.value()
            },
            parts.0.value() + parts.1.value() == self.value(),
    {
        let rest = self.amount.saturating_sub(amount);
        let taken = self.amount.saturating_sub(rest);
        (Credit { amount: taken }, Credit { amount: rest })
    }

    /// Parts the credit in the ratio `first` to `second`. What does not divide evenly goes to
    /// the second part. Where both are zero there is no ratio: both parts are empty and the
    /// credit is lost.
    pub fn ration(self, first: u32, second: u32) -> (parts: (Credit<B>, Credit<B>))
        ensures
            first == 0 && second == 0 ==> parts.0.value() == 0 && parts.1.value() == 0,
            first != 0 || second != 0 ==> {
                &&& parts.0.value() == Self::share(
                    self.value(),
                    first as nat,
                    Self::parts(first, second),
                )
                &&& parts.0.value() + parts.1.value() == self.value()
            },
    {
        let total: u32 = first.saturating_add(second);
        if total == 0 {
            return (Credit { amount: B::zero() }, Credit { amount: B::zero() });
        }
        let taken = self.amount.saturating_mul(first).div(total);
        proof {
            Self::share_is_at_most_whole(self.value(), first as nat, total as nat);
        }
        self.split(taken)
    }

    /// Adds this credit to `other`.
    pub fn merge_into(self, other: &mut Credit<B>)
        ensures
            final(other).value() == if old(other).value() + self.value() <= B::max() {
                old(other).value() + self.value()
            } else {
                B::max()
            },
    {
        other.amount = other.amount.saturating_add(self.amount);
    }

    /// Lets go of the credit if it is worth nothing, and gives it back otherwise.
    pub fn try_drop(self) -> (outcome: Result<(), Credit<B>>)
        ensures
            self.value() == 0 ==> outcome == Ok::<(), Credit<B>>(()),
            self.value() != 0 ==> outcome == Err::<(), Credit<B>>(self),
    {
        if self.amount.is_zero() {
            Ok(())
        } else {
            Err(self)
        }
    }
}

} // verus!
