//! The accounts that the handlers act on, as far as their promises speak of them, and what every
//! request does to them once the runtime has replied.
//!
//! What a currency may do on top of what it was asked is part of its reply: it may reap an account
//! that is left with less than the minimum balance, and an event is recorded or it is not.
use crate::balance::Balance;
use crate::credit::Credit;
use crate::handlers::Withdrawing;
use crate::pallet::Event;
use crate::requests::{BurnFrom, IncProviders, Resolve, ResolveCreating, Withdraw};
use crate::tokens::{Precision, Preservation};
use vstd::prelude::*;

verus! {

/// The state of the accounts.
#[verifier::ext_equal]
#[verifier::reject_recursive_types(A)]
pub struct Books<A, B> {
    /// What is in each account.
    pub balances: Map<A, int>,
    /// The least that an account may be left with.
    pub minimum: nat,
    /// How much is issued.
    pub issuance: nat,
    /// What was reaped from accounts and handed to the currency's handler of dust.
    pub dust: nat,
    /// The events of the satellite that were recorded.
    pub events: Seq<Event<A, B>>,
}

/// What the runtime replied in the course of a fill.
pub struct FillReplies<B, E> {
    /// The reply to the withdrawal.
    pub withdrawn: Result<Credit<B>, E>,
    /// What was reaped from the account on top of the credit.
    pub dust: nat,
    /// The reply to the deposit.
    pub resolved: Result<(), Credit<B>>,
    /// Whether the event was recorded. In block zero none is, nor in a block that is full of them.
    pub recorded: bool,
}

/// `total` without `amount`, and nothing where that is more.
pub open spec fn less(total: nat, amount: nat) -> nat {
    if total >= amount {
        (total - amount) as nat
    } else {
        0
    }
}

impl<A, B: Balance> Books<A, B> {
    /// What `who` holds.
    pub open spec fn balance(self, who: A) -> int {
        if self.balances.dom().contains(who) {
            self.balances[who]
        } else {
            0
        }
    }

    /// The same books, but for `amount` more in the account `who`.
    pub open spec fn add_to(self, who: A, amount: int) -> Self {
        Books { balances: self.balances.insert(who, self.balance(who) + amount), ..self }
    }

    /// The same books, but for `amount` taken out of the account `who`, and `dust` reaped with it.
    pub open spec fn take_from(self, who: A, amount: nat, dust: nat) -> Self {
        Books { dust: self.dust + dust, ..self.add_to(who, -(amount + dust)) }
    }

    /// Whether taking `amount` out of the account `who` may have `dust` reaped: nothing, or all
    /// that is left where that is less than the minimum.
    pub open spec fn may_reap(self, who: A, amount: nat, dust: nat) -> bool {
        dust == 0 || (dust == self.balance(who) - amount && dust < self.minimum)
    }

    /// Whether a currency keeps to `preservation` if it takes `amount` out of the account `who` and
    /// reaps `dust` with it: it takes no more than there is, reaps only what it may, and an account
    /// that is to be preserved keeps the minimum.
    pub open spec fn may_take(
        self,
        who: A,
        amount: nat,
        preservation: Preservation,
        dust: nat,
    ) -> bool {
        &&& amount <= self.balance(who)
        &&& self.may_reap(who, amount, dust)
        &&& preservation == Preservation::Preserve && self.minimum <= self.balance(who)
            ==> self.minimum <= self.balance(who) - amount
    }

    /// Whether a currency keeps to `precision` if it takes `amount` out of the account `who` where
    /// it was asked for `asked`: no less if that is to be exact, and no more, unless what more there
    /// is empties the account and is less than the minimum.
    pub open spec fn may_yield(
        self,
        who: A,
        asked: nat,
        precision: Precision,
        amount: nat,
    ) -> bool {
        &&& precision == Precision::Exact ==> asked <= amount
        &&& asked < amount ==> amount == self.balance(who) && amount - asked < self.minimum
    }

    /// Whether a currency keeps to what it was asked by this reply to a withdrawal.
    pub open spec fn honours<E>(
        self,
        request: Withdraw<A, B>,
        reply: Result<Credit<B>, E>,
        dust: nat,
    ) -> bool {
        reply matches Ok(credit) ==> {
            &&& self.may_take(request.who, credit.value(), request.preservation, dust)
            &&& self.may_yield(
                request.who,
                request.amount.value(),
                request.precision,
                credit.value(),
            )
        }
    }

    /// Whether a currency keeps to what it was asked by this reply to a burn: it burns no more than
    /// was issued or asked for, and no less if that is to be exact.
    pub open spec fn honours_burn<E>(
        self,
        request: BurnFrom<A, B>,
        reply: Result<B, E>,
        dust: nat,
    ) -> bool {
        reply matches Ok(burned) ==> {
            &&& self.may_take(request.who, burned.value(), request.preservation, dust)
            &&& burned.value() <= self.issuance
            &&& burned.value() <= request.amount.value()
            &&& request.precision == Precision::Exact ==> burned.value()
                == request.amount.value()
        }
    }

    /// A withdrawal takes its credit out of the account; a refused one does nothing.
    pub open spec fn withdraw<E>(
        self,
        request: Withdraw<A, B>,
        reply: Result<Credit<B>, E>,
        dust: nat,
    ) -> Self {
        match reply {
            Ok(credit) => self.take_from(request.who, credit.value(), dust),
            Err(_) => self,
        }
    }

    /// A deposit puts its credit into the account; a refused one does nothing.
    pub open spec fn resolve(self, request: Resolve<A, B>, reply: Result<(), Credit<B>>) -> Self {
        match reply {
            Ok(_) => self.add_to(request.who, request.credit.value() as int),
            Err(_) => self,
        }
    }

    /// A deposit that creates the account puts in up to its credit; the rest, which is all of it
    /// where the account cannot be created or cannot hold it, is dropped.
    pub open spec fn resolve_creating(
        self,
        request: ResolveCreating<A, B>,
        deposited: nat,
    ) -> Self {
        let after = self.add_to(request.who, deposited as int);
        Books { issuance: less(self.issuance, less(request.credit.value(), deposited)), ..after }
    }

    /// A burn takes what was burned out of the account and out of the issuance; a refused one does
    /// nothing.
    pub open spec fn burn_from<E>(
        self,
        request: BurnFrom<A, B>,
        reply: Result<B, E>,
        dust: nat,
    ) -> Self {
        match reply {
            Ok(burned) => {
                let after = self.take_from(request.who, burned.value(), dust);
                Books { issuance: less(self.issuance, burned.value()), ..after }
            },
            Err(_) => self,
        }
    }

    /// A credit that is dropped is no longer issued.
    pub open spec fn let_go(self, credit: Option<Credit<B>>) -> Self {
        match credit {
            Some(credit) => Books { issuance: less(self.issuance, credit.value()), ..self },
            None => self,
        }
    }

    /// A handler of dust that drops what it was handed takes it out of the issuance.
    pub open spec fn sweep(self) -> Self {
        Books { issuance: less(self.issuance, self.dust), dust: 0, ..self }
    }

    /// An event that is recorded comes last.
    pub open spec fn announce(self, event: Event<A, B>, recorded: bool) -> Self {
        if recorded {
            Books { events: self.events.push(event), ..self }
        } else {
            self
        }
    }

    /// A whole fill.
    pub open spec fn fill<E>(
        self,
        pending: Withdrawing<A, B>,
        replies: FillReplies<B, E>,
    ) -> Self {
        let after = self.withdraw(pending.request, replies.withdrawn, replies.dust);
        match pending.next(replies.withdrawn) {
            Some(pending) => {
                let end = pending.next(replies.resolved);
                after.resolve(pending.request, replies.resolved).let_go(end.burned).announce(
                    end.event,
                    replies.recorded,
                )
            },
            None => after,
        }
    }

    /// A whole slash, given what the runtime replied to its deposit, if there was one.
    pub open spec fn slash(
        self,
        request: Option<Resolve<A, B>>,
        resolved: Result<(), Credit<B>>,
    ) -> Self {
        match request {
            Some(request) => self.resolve(request, resolved).let_go(
                match resolved {
                    Ok(_) => None,
                    Err(credit) => Some(credit),
                },
            ),
            None => self,
        }
    }

    /// A whole deposit by way of the older currency interface, of which `deposited` arrived.
    pub open spec fn sink(self, request: Option<ResolveCreating<A, B>>, deposited: nat) -> Self {
        match request {
            Some(request) => self.resolve_creating(request, deposited),
            None => self,
        }
    }
}

/// The accounts that exist, each with its provider references, after one was added.
pub open spec fn inc_providers<A>(
    providers: Map<A, nat>,
    request: IncProviders<A>,
) -> Map<A, nat> {
    if !providers.dom().contains(request.who) {
        providers.insert(request.who, 1)
    } else if providers[request.who] < u32::MAX {
        providers.insert(request.who, providers[request.who] + 1)
    } else {
        providers
    }
}

} // verus!
