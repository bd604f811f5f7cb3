//! The handlers that lead funds to the satellite account instead of letting them burn.
use crate::balance::Balance;
use crate::credit::Credit;
use crate::funding::FundingSink;
use crate::pallet::{Config, Event, Pallet};
use crate::requests::{Resolve, ResolveCreating, Withdraw};
use crate::tokens::{Fortitude, Precision, Preservation};
use core::marker::PhantomData;
use vstd::prelude::*;

verus! {

/// The sink that gathers funds in the satellite account.
///
/// The funds are withdrawn from the source, put into the satellite account, and an event tells of
/// it. Where the withdrawal is refused nothing happens. Where the satellite account refuses them,
/// which should not happen once it exists, they are burned.
pub struct AccumulateInSatellite<T>(PhantomData<T>);

/// A fill that waits for what becomes of its withdrawal.
#[derive(Debug)]
pub struct Withdrawing<A, B> {
    pub request: Withdraw<A, B>,
    pub satellite: A,
}

/// A fill that waits for what becomes of its deposit, and the event that it ends with.
#[derive(Debug)]
pub struct Depositing<A, B> {
    pub request: Resolve<A, B>,
    pub event: Event<A, B>,
}

/// The end of a fill that took funds: the event to deposit, and the credit that nobody took.
#[derive(Debug)]
pub struct Filled<A, B> {
    pub event: Event<A, B>,
    pub burned: Option<Credit<B>>,
}

impl<T: Config> FundingSink<T::AccountId, T::Balance> for AccumulateInSatellite<T> {
    type Request = Withdrawing<T::AccountId, T::Balance>;

    /// Asks for all of `amount` or none of it, within the limits that the owner's funds are under.
    fn fill(
        source: &T::AccountId,
        amount: T::Balance,
        preservation: Preservation,
    ) -> (pending: Withdrawing<T::AccountId, T::Balance>)
        ensures
            Pallet::<T>::is_satellite(pending.satellite),
            pending == Withdrawing::of(pending.satellite, *source, amount, preservation),
            pending.request.fortitude == Fortitude::Polite,
    {
        Withdrawing {
            request: Withdraw {
                who: *source,
                amount,
                precision: Precision::Exact,
                preservation,
                fortitude: Fortitude::Polite,
            },
            satellite: Pallet::<T>::satellite_account(),
        }
    }
}

impl<A, B> Withdrawing<A, B> {
    /// How a fill of `satellite` begins.
    pub open spec fn of(satellite: A, source: A, amount: B, preservation: Preservation) -> Self {
        Withdrawing {
            request: Withdraw {
                who: source,
                amount,
                precision: Precision::Exact,
                preservation,
                fortitude: Fortitude::Polite,
            },
            satellite,
        }
    }

    /// What follows from the reply to the withdrawal.
    pub open spec fn next<E>(self, reply: Result<Credit<B>, E>) -> Option<Depositing<A, B>> {
        match reply {
            Ok(credit) => Some(
                Depositing {
                    request: Resolve { who: self.satellite, credit },
                    event: Event::FundsAccumulated {
                        from: self.request.who,
                        amount: self.request.amount,
                    },
                },
            ),
            Err(_) => None,
        }
    }

    /// A refused withdrawal ends the fill. Otherwise the whole credit goes to the satellite account.
    pub fn withdrawn<E>(self, reply: Result<Credit<B>, E>) -> (pending: Option<Depositing<A, B>>)
        ensures
            pending == self.next(reply),
    {
        match reply {
            Ok(credit) => Some(
                Depositing {
                    request: Resolve { who: self.satellite, credit },
                    event: Event::FundsAccumulated {
                        from: self.request.who,
                        amount: self.request.amount,
                    },
                },
            ),
            Err(_) => None,
        }
    }
}

impl<A, B> Depositing<A, B> {
    /// How the fill ends.
    pub open spec fn next(self, reply: Result<(), Credit<B>>) -> Filled<A, B> {
        Filled {
            event: self.event,
            burned: match reply {
                Ok(_) => None,
                Err(credit) => Some(credit),
            },
        }
    }

    /// The event is deposited whatever the reply was; a credit that came back is burned.
    pub fn resolved(self, reply: Result<(), Credit<B>>) -> (end: Filled<A, B>)
        ensures
            end == self.next(reply),
    {
        let burned = match reply {
            Ok(_) => None,
            Err(credit) => Some(credit),
        };
        Filled { event: self.event, burned }
    }
}

/// The handler that leads imbalances, such as slashes, to the satellite account.
///
/// No event tells of it, for it may be called for every transaction that pays a fee.
pub struct SlashToSatellite<T>(PhantomData<T>);

impl<T: Config> SlashToSatellite<T> {
    /// An empty credit is let go of; any other goes to the satellite account.
    pub fn on_unbalanced(amount: Credit<T::Balance>) -> (request: Option<
        Resolve<T::AccountId, T::Balance>,
    >)
        ensures
            request is None <==> amount.value() == 0,
            request matches Some(resolve) ==> {
                &&& Pallet::<T>::is_satellite(resolve.who)
                &&& request == Resolve::to(resolve.who, amount)
            },
    {
        match amount.try_drop() {
            Ok(_) => None,
            Err(amount) => Some(Self::on_nonzero_unbalanced(amount)),
        }
    }

    /// All of `amount` goes to the satellite account.
    pub fn on_nonzero_unbalanced(amount: Credit<T::Balance>) -> (request: Resolve<
        T::AccountId,
        T::Balance,
    >)
        ensures
            Pallet::<T>::is_satellite(request.who),
            request.credit == amount,
    {
        Resolve { who: Pallet::<T>::satellite_account(), credit: amount }
    }

    /// What will be burned, if the deposit did not succeed in full.
    pub fn resolved(reply: Result<(), Credit<T::Balance>>) -> (burned: Option<Credit<T::Balance>>)
        ensures
            burned == match reply {
                Err(remaining) if remaining.value() != 0 => Some(remaining),
                _ => None,
            },
    {
        match reply {
            Ok(_) => None,
            Err(remaining) => match remaining.try_drop() {
                Ok(_) => None,
                Err(remaining) => Some(remaining),
            },
        }
    }
}

/// The handler that parts fees between the satellite account and another handler.
///
/// Tips go to the other handler in full.
pub struct DealWithFeesSplit<T>(PhantomData<T>);

/// How fees and tips were parted.
#[derive(Debug)]
pub struct FeeSplit<A, B> {
    /// What is asked for the satellite account's share, if it has one.
    pub satellite: Option<Resolve<A, B>>,
    /// What the other handler is given.
    pub other: Credit<B>,
}

/// The satellite account's share of `fees`: `dap_percent` parts out of a hundred, or out of
/// `dap_percent` where that is more than a hundred.
pub open spec fn satellite_share<B: Balance>(dap_percent: u32, fees: nat) -> nat {
    if dap_percent <= 100 {
        Credit::<B>::share(fees, dap_percent as nat, 100)
    } else {
        Credit::<B>::share(fees, dap_percent as nat, dap_percent as nat)
    }
}

/// The other handler's part: what is left of `fees`, and the `tips`.
pub open spec fn other_part<B: Balance>(dap_percent: u32, fees: nat, tips: nat) -> nat {
    let part = fees - satellite_share::<B>(dap_percent, fees) + tips;
    if part <= B::max() {
        part as nat
    } else {
        B::max()
    }
}

/// What the credit at `index` is worth, and nothing where there is none.
pub open spec fn value_at<B: Balance>(credits: Seq<Credit<B>>, index: int) -> nat {
    if 0 <= index < credits.len() {
        credits[index].value()
    } else {
        0
    }
}

impl<T: Config> DealWithFeesSplit<T> {
    /// Parts the fees, which come first, by `dap_percent`, and adds the tips, which come second,
    /// to the other handler's part. Nothing else is looked at.
    pub fn on_unbalanceds(
        dap_percent: u32,
        fees_then_tips: Vec<Credit<T::Balance>>,
    ) -> (split: Option<FeeSplit<T::AccountId, T::Balance>>)
        ensures
            split is None <==> fees_then_tips@.len() == 0,
            split matches Some(split) ==> {
                let fees = value_at(fees_then_tips@, 0);
                let tips = value_at(fees_then_tips@, 1);
                let share = satellite_share::<T::Balance>(dap_percent, fees);
                &&& split.satellite is Some <==> share != 0
                &&& split.satellite matches Some(deposit) ==> {
                    &&& Pallet::<T>::is_satellite(deposit.who)
                    &&& deposit.credit.value() == share
                }
                &&& split.other.value() == other_part::<T::Balance>(dap_percent, fees, tips)
            },
    {
        let mut credits = fees_then_tips;
        if credits.len() == 0 {
            return None;
        }
        let fees = credits.remove(0);
        let other_percent: u32 = 100u32.saturating_sub(dap_percent);
        proof {
            Credit::<T::Balance>::share_is_at_most_whole(
                fees.value(),
                dap_percent as nat,
                Credit::<T::Balance>::parts(dap_percent, other_percent),
            );
            T::Balance::value_identifies(fees.amount, fees.amount);
        }
        let ghost total = Credit::<T::Balance>::parts(dap_percent, other_percent);
        let ghost share = satellite_share::<T::Balance>(dap_percent, fees.value());
        assert(total == if dap_percent <= 100 {
            100
        } else {
            dap_percent as nat
        });
        assert(share == Credit::<T::Balance>::share(fees.value(), dap_percent as nat, total));
        assert(dap_percent == 0 ==> share == 0) by {
            assert(fees.value() * 0 == 0);
            assert(0nat / 100nat == 0);
        }
        let (dap, mut other) = fees.ration(dap_percent, other_percent);
        assert(dap.value() == share);
        if credits.len() > 0 {
            let tips = credits.remove(0);
            tips.merge_into(&mut other);
        }
        let satellite = if dap_percent > 0 {
            SlashToSatellite::<T>::on_unbalanced(dap)
        } else {
            None
        };
        Some(FeeSplit { satellite, other })
    }
}

/// The handler that leads imbalances of the older currency interface to the satellite account,
/// such as fees or treasury burns.
///
/// No event tells of it, for it may be called for every transaction that pays a fee.
pub struct SinkToSatellite<T, B>(PhantomData<(T, B)>);

impl<T: Config, B: Balance> SinkToSatellite<T, B> {
    /// An empty credit is let go of; any other goes to the satellite account.
    pub fn on_unbalanced(amount: Credit<B>) -> (request: Option<ResolveCreating<T::AccountId, B>>)
        ensures
            request is None <==> amount.value() == 0,
            request matches Some(resolve) ==> {
                &&& Pallet::<T>::is_satellite(resolve.who)
                &&& request == ResolveCreating::to(resolve.who, amount)
            },
    {
        match amount.try_drop() {
            Ok(_) => None,
            Err(amount) => Some(Self::on_nonzero_unbalanced(amount)),
        }
    }

    /// All of `amount` goes to the satellite account.
    pub fn on_nonzero_unbalanced(amount: Credit<B>) -> (request: ResolveCreating<T::AccountId, B>)
        ensures
            Pallet::<T>::is_satellite(request.who),
            request.credit == amount,
    {
        ResolveCreating { who: Pallet::<T>::satellite_account(), credit: amount }
    }
}

} // verus!
