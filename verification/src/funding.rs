//! Where funds go that are to leave circulation: destroyed outright, or into a sink for reuse.
//!
//! A sink is a plan and touches no ledger. It settles what the runtime is asked to do, as a value
//! that the runtime carries out.
use crate::balance::Balance;
use crate::requests::BurnFrom;
use crate::tokens::{Fortitude, Precision, Preservation};
use core::marker::PhantomData;
use vstd::prelude::*;

verus! {

/// What becomes of funds that have already been taken out of an account to be burned.
///
/// In contrast to `FundingSink::fill`, the account has been debited by the time this is asked.
/// Asking cannot fail.
pub trait BurnHandler<AccountId, Balance>: Sized {
    /// What the runtime has to do.
    type Effect;

    /// Settles what follows once `amount` was taken from `who` to be burned.
    fn on_burned(who: &AccountId, amount: Balance) -> Self::Effect;
}

/// Takes funds out of an account and into a buffer, or destroys them.
///
/// Asking cannot fail; where the runtime refuses, the funds stay where they are.
pub trait FundingSink<AccountId, Balance>: Sized {
    /// What the runtime is asked to do first.
    type Request;

    /// Settles how `amount` is taken from `from`, which `preservation` may keep alive.
    fn fill(from: &AccountId, amount: Balance, preservation: Preservation) -> Self::Request;
}

/// The total issuance is to go down by `amount`.
#[derive(Debug)]
pub struct ReduceIssuance<B> {
    pub amount: B,
}

impl<B: Balance> ReduceIssuance<B> {
    /// The issuance that is left of `total`; there is never less than none.
    pub open spec fn left_of(self, total: nat) -> nat {
        if total >= self.amount.value() {
            (total - self.amount.value()) as nat
        } else {
            0
        }
    }

    /// The total issuance to set, given the one that was read.
    pub fn apply(self, total_issuance: B) -> (left: B)
        ensures
            left.value() == self.left_of(total_issuance.value()),
    {
        total_issuance.saturating_sub(self.amount)
    }
}

/// Burns outright: the funds are gone and the total issuance goes down with them.
pub struct DirectBurn<B, AccountId>(PhantomData<(B, AccountId)>);

impl<B: Balance, AccountId> BurnHandler<AccountId, B> for DirectBurn<B, AccountId> {
    type Effect = ReduceIssuance<B>;

    fn on_burned(_who: &AccountId, amount: B) -> (effect: ReduceIssuance<B>)
        ensures
            effect.amount == amount,
    {
        ReduceIssuance { amount }
    }
}

impl<B: Balance, AccountId: Copy> FundingSink<AccountId, B> for DirectBurn<B, AccountId> {
    type Request = BurnFrom<AccountId, B>;

    /// All of `amount` or none of it, within the limits that the owner's funds are under.
    fn fill(from: &AccountId, amount: B, preservation: Preservation) -> (request: BurnFrom<
        AccountId,
        B,
    >)
        ensures
            request == (BurnFrom {
                who: *from,
                amount,
                preservation,
                precision: Precision::Exact,
                fortitude: Fortitude::Polite,
            }),
    {
        BurnFrom {
            who: *from,
            amount,
            preservation,
            precision: Precision::Exact,
            fortitude: Fortitude::Polite,
        }
    }
}

/// Nothing becomes of the funds.
impl<AccountId, Balance> BurnHandler<AccountId, Balance> for () {
    type Effect = ();

    fn on_burned(_who: &AccountId, _amount: Balance) -> (effect: ())
        ensures
            effect == (),
    {
    }
}

/// No funds are taken.
impl<AccountId, Balance> FundingSink<AccountId, Balance> for () {
    type Request = ();

    fn fill(_from: &AccountId, _amount: Balance, _preservation: Preservation) -> (request: ())
        ensures
            request == (),
    {
    }
}

} // verus!
