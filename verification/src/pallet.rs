//! The pallet: its configuration, its account and its event.
use crate::account::{AccountId, PalletId};
use crate::balance::Balance;
use crate::requests::IncProviders;
use crate::weights::{DbWeight, Weight};
use core::marker::PhantomData;
use vstd::prelude::*;

verus! {

/// What a runtime chooses.
pub trait Config: Sized {
    /// What names an account.
    type AccountId: AccountId;

    /// What the currency is counted in.
    type Balance: Balance;

    /// The identifier that the satellite account is derived from.
    ///
    /// Each runtime should choose one of its own, so that several satellites do not share an
    /// account.
    fn pallet_id() -> PalletId;
}

/// The satellite of a runtime.
pub struct Pallet<T>(PhantomData<T>);

/// What happened.
#[derive(Debug)]
pub enum Event<A, B> {
    /// Funds were gathered in the satellite account.
    FundsAccumulated { from: A, amount: B },
}

/// Asks whether the account `who` exists.
#[derive(Debug)]
pub struct ExistenceCheck<A> {
    pub who: A,
}

impl<A> ExistenceCheck<A> {
    /// What follows from the answer.
    pub open spec fn follow_up(self, exists: bool) -> Option<IncProviders<A>> {
        if exists {
            None
        } else {
            Some(IncProviders { who: self.who })
        }
    }

    /// An account that does not exist is given a provider reference; one that does is left alone.
    pub fn answered(self, exists: bool) -> (request: Option<IncProviders<A>>)
        ensures
            request == self.follow_up(exists),
    {
        if exists {
            None
        } else {
            Some(IncProviders { who: self.who })
        }
    }
}

impl<T: Config> Pallet<T> {
    /// Whether funds are gathered in `account`: it is the one derived from an identifier that the
    /// configuration gave.
    pub open spec fn is_satellite(account: T::AccountId) -> bool {
        exists|id: PalletId| #[trigger]
            call_ensures(T::pallet_id, (), id) && account.encoded() == id.account_bytes(
                T::AccountId::width(),
            )
    }

    /// The account that funds are gathered in before they are sent on, derived from the pallet's
    /// identifier.
    pub fn satellite_account() -> (account: T::AccountId)
        ensures
            Self::is_satellite(account),
    {
        T::AccountId::of_pallet(T::pallet_id())
    }

    /// Makes sure that the satellite account exists, by a provider reference if it does not.
    ///
    /// Called at genesis and on a runtime upgrade. Calling it again changes nothing.
    pub fn ensure_satellite_account_exists() -> (check: ExistenceCheck<T::AccountId>)
        ensures
            Self::is_satellite(check.who),
    {
        ExistenceCheck { who: Self::satellite_account() }
    }

    /// Makes sure that the satellite account exists on a chain that is upgraded, at the cost of
    /// one read and one write.
    pub fn on_runtime_upgrade(db: DbWeight) -> (upgrade: (ExistenceCheck<T::AccountId>, Weight))
        ensures
            Self::is_satellite(upgrade.0.who),
            upgrade.1.ref_time as nat == crate::weights::at_most_u64(
                db.read as nat + db.write as nat,
            ),
            db.read + db.write <= u64::MAX ==> upgrade.1.ref_time == db.read + db.write,
            upgrade.1.proof_size == 0,
    {
        (Self::ensure_satellite_account_exists(), db.reads_writes(1, 1))
    }
}

/// The satellite at genesis.
pub struct GenesisConfig<T>(pub PhantomData<T>);

impl<T: Config> Default for GenesisConfig<T> {
    fn default() -> (config: Self)
        ensures
            config == GenesisConfig::<T>(PhantomData),
    {
        GenesisConfig(PhantomData)
    }
}

impl<T: Config> GenesisConfig<T> {
    /// Makes sure that the satellite account exists from the start.
    pub fn build(&self) -> (check: ExistenceCheck<T::AccountId>)
        ensures
            Pallet::<T>::is_satellite(check.who),
    {
        Pallet::<T>::ensure_satellite_account_exists()
    }
}

} // verus!
