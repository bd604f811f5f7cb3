//! What the handlers ask of the runtime: each request is one call on the currency or on the
//! account registry, with every argument settled.
use crate::balance::Balance;
use crate::credit::Credit;
use crate::tokens::{Fortitude, Precision, Preservation};
use vstd::prelude::*;

verus! {

/// Take `amount` out of the account `who`; the reply is the credit taken, or a refusal that
/// left everything as it was.
#[derive(Debug)]
pub struct Withdraw<A, B> {
    pub who: A,
    pub amount: B,
    pub precision: Precision,
    pub preservation: Preservation,
    pub fortitude: Fortitude,
}

/// Put `credit` into the account `who`; the reply is a success, or a refusal that gives the
/// credit back.
#[derive(Debug)]
pub struct Resolve<A, B> {
    pub who: A,
    pub credit: Credit<B>,
}

impl<A, B: Balance> Resolve<A, B> {
    /// What is asked for `credit` to reach the account `who`: nothing if it is empty.
    pub open spec fn to(who: A, credit: Credit<B>) -> Option<Self> {
        if credit.value() == 0 {
            None
        } else {
            Some(Resolve { who, credit })
        }
    }
}

/// Put up to `credit` into the account `who`, which is created if need be; the rest is dropped, and
/// there is no reply.
#[derive(Debug)]
pub struct ResolveCreating<A, B> {
    pub who: A,
    pub credit: Credit<B>,
}

impl<A, B: Balance> ResolveCreating<A, B> {
    /// What is asked for `credit` to reach the account `who`: nothing if it is empty.
    pub open spec fn to(who: A, credit: Credit<B>) -> Option<Self> {
        if credit.value() == 0 {
            None
        } else {
            Some(ResolveCreating { who, credit })
        }
    }
}

/// Destroy `amount` held by the account `who`; what comes of it changes nothing that follows.
#[derive(Debug)]
pub struct BurnFrom<A, B> {
    pub who: A,
    pub amount: B,
    pub preservation: Preservation,
    pub precision: Precision,
    pub fortitude: Fortitude,
}

/// Add a provider reference to the account `who`.
#[derive(Debug)]
pub struct IncProviders<A> {
    pub who: A,
}

} // verus!
