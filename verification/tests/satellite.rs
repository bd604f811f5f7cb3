//! The satellite at work on a runtime with the system and balances pallets.
use dap_satellite::handlers::{FeeSplit, Withdrawing};
use dap_satellite::pallet::ExistenceCheck;
use dap_satellite::requests::{Resolve, ResolveCreating};
use dap_satellite::{
    AccumulateInSatellite, BurnHandler, Config, Credit, DbWeight, DealWithFeesSplit, DirectBurn,
    Event, Fortitude, FundingSink, GenesisConfig, Pallet, PalletId, Precision, Preservation,
    SinkToSatellite, SlashToSatellite, Weight,
};
use frame_support::dispatch::{DispatchInfo, GetDispatchInfo, PostDispatchInfo, RawOrigin};
use frame_support::traits::fungible::{Balanced, Mutate, Unbalanced};
use frame_support::traits::{
    tokens, Authorize, CallerTrait, ConstU32, ConstU64, CrateVersion, Currency, Everything,
    ExistenceRequirement, Get, Imbalance, OriginTrait, PalletInfo, WithdrawReasons,
};
use parity_scale_codec::{
    Decode, DecodeWithMemTracking, Encode, EncodeLike, Error, Input, MaxEncodedLen, Output,
};
use scale_info::{build::Fields, Path, Type, TypeInfo};
use sp_runtime::traits::{
    AccountIdConversion, AsTransactionAuthorizedOrigin, BlakeTwo256, Dispatchable, IdentityLookup,
};
use sp_runtime::transaction_validity::{
    TransactionSource, TransactionValidityError, ValidTransaction,
};
use sp_runtime::BuildStorage;
use std::any::TypeId;

type System = frame_system::Pallet<Test>;
type Balances = pallet_balances::Pallet<Test>;
type BalancesCredit = frame_support::traits::fungible::Credit<u64, Balances>;
type DapSatellite = Pallet<Test>;

#[derive(Clone, Debug, PartialEq, Eq)]
struct Test;

impl Config for Test {
    type AccountId = u64;
    type Balance = u64;

    fn pallet_id() -> PalletId {
        PalletId(*b"dap/satl")
    }
}

// ===== runtime =====

/// The runtime takes no calls.
#[derive(Clone, Debug, PartialEq, Eq)]
struct NoCall;

impl Encode for NoCall {
    fn encode_to<T: Output + ?Sized>(&self, _dest: &mut T) {}
}

impl EncodeLike for NoCall {}

impl Decode for NoCall {
    fn decode<I: Input>(_input: &mut I) -> Result<Self, Error> {
        Ok(NoCall)
    }
}

impl DecodeWithMemTracking for NoCall {}

impl TypeInfo for NoCall {
    type Identity = Self;

    fn type_info() -> Type {
        Type::builder().path(Path::new("NoCall", "satellite")).composite(Fields::unit())
    }
}

impl From<frame_system::Call<Test>> for NoCall {
    fn from(_call: frame_system::Call<Test>) -> Self {
        NoCall
    }
}

impl Dispatchable for NoCall {
    type RuntimeOrigin = Origin;
    type Config = Test;
    type Info = DispatchInfo;
    type PostInfo = PostDispatchInfo;

    fn dispatch(
        self,
        _origin: Origin,
    ) -> sp_runtime::DispatchResultWithInfo<PostDispatchInfo> {
        Ok(().into())
    }
}

impl GetDispatchInfo for NoCall {
    fn get_dispatch_info(&self) -> DispatchInfo {
        DispatchInfo::default()
    }
}

impl Authorize for NoCall {
    fn authorize(
        &self,
        _source: TransactionSource,
    ) -> Option<Result<(ValidTransaction, frame_support::weights::Weight), TransactionValidityError>>
    {
        None
    }

    fn weight_of_authorize(&self) -> frame_support::weights::Weight {
        frame_support::weights::Weight::zero()
    }
}

#[derive(Clone, Debug, PartialEq, Eq)]
struct Origin(RawOrigin<u64>);

impl Encode for Origin {
    fn encode_to<T: Output + ?Sized>(&self, dest: &mut T) {
        self.0.encode_to(dest)
    }
}

impl EncodeLike for Origin {}

impl Decode for Origin {
    fn decode<I: Input>(input: &mut I) -> Result<Self, Error> {
        RawOrigin::decode(input).map(Origin)
    }
}

impl DecodeWithMemTracking for Origin {}

impl MaxEncodedLen for Origin {
    fn max_encoded_len() -> usize {
        RawOrigin::<u64>::max_encoded_len()
    }
}

impl TypeInfo for Origin {
    type Identity = Self;

    fn type_info() -> Type {
        Type::builder()
            .path(Path::new("Origin", "satellite"))
            .composite(Fields::unnamed().field(|f| f.ty::<RawOrigin<u64>>()))
    }
}

impl From<RawOrigin<u64>> for Origin {
    fn from(origin: RawOrigin<u64>) -> Self {
        Origin(origin)
    }
}

impl From<Origin> for Result<RawOrigin<u64>, Origin> {
    fn from(origin: Origin) -> Self {
        Ok(origin.0)
    }
}

impl AsTransactionAuthorizedOrigin for Origin {
    fn is_transaction_authorized(&self) -> bool {
        self.0 != RawOrigin::None
    }
}

impl CallerTrait<u64> for Origin {
    fn into_system(self) -> Option<RawOrigin<u64>> {
        Some(self.0)
    }

    fn as_system_ref(&self) -> Option<&RawOrigin<u64>> {
        Some(&self.0)
    }
}

impl OriginTrait for Origin {
    type Call = NoCall;
    type PalletsOrigin = Origin;
    type AccountId = u64;

    fn add_filter(&mut self, _filter: impl Fn(&NoCall) -> bool + 'static) {}

    fn reset_filter(&mut self) {}

    fn set_caller_from(&mut self, other: impl Into<Self>) {
        *self = other.into();
    }

    fn set_caller(&mut self, caller: Origin) {
        *self = caller;
    }

    fn filter_call(&self, _call: &NoCall) -> bool {
        true
    }

    fn caller(&self) -> &Origin {
        self
    }

    fn into_caller(self) -> Origin {
        self
    }

    fn try_with_caller<R>(
        self,
        f: impl FnOnce(Origin) -> Result<R, Origin>,
    ) -> Result<R, Self> {
        f(self)
    }

    fn none() -> Self {
        Origin(RawOrigin::None)
    }

    fn root() -> Self {
        Origin(RawOrigin::Root)
    }

    fn signed(by: u64) -> Self {
        Origin(RawOrigin::Signed(by))
    }
}

#[derive(Clone, Debug, PartialEq, Eq)]
enum RuntimeEvent {
    System(frame_system::Event<Test>),
    Balances(pallet_balances::Event<Test>),
    FundsAccumulated(u64, u64),
}

impl Encode for RuntimeEvent {
    fn encode_to<T: Output + ?Sized>(&self, dest: &mut T) {
        match self {
            RuntimeEvent::System(event) => {
                dest.push_byte(0);
                event.encode_to(dest);
            },
            RuntimeEvent::Balances(event) => {
                dest.push_byte(1);
                event.encode_to(dest);
            },
            RuntimeEvent::FundsAccumulated(from, amount) => {
                dest.push_byte(2);
                (from, amount).encode_to(dest);
            },
        }
    }
}

impl EncodeLike for RuntimeEvent {}

impl Decode for RuntimeEvent {
    fn decode<I: Input>(input: &mut I) -> Result<Self, Error> {
        match input.read_byte()? {
            0 => Decode::decode(input).map(RuntimeEvent::System),
            1 => Decode::decode(input).map(RuntimeEvent::Balances),
            2 => <(u64, u64)>::decode(input)
                .map(|(from, amount)| RuntimeEvent::FundsAccumulated(from, amount)),
            _ => Err("unknown event".into()),
        }
    }
}

impl DecodeWithMemTracking for RuntimeEvent {}

impl TypeInfo for RuntimeEvent {
    type Identity = Self;

    fn type_info() -> Type {
        Type::builder().path(Path::new("RuntimeEvent", "satellite")).composite(Fields::unit())
    }
}

impl From<frame_system::Event<Test>> for RuntimeEvent {
    fn from(event: frame_system::Event<Test>) -> Self {
        RuntimeEvent::System(event)
    }
}

impl From<pallet_balances::Event<Test>> for RuntimeEvent {
    fn from(event: pallet_balances::Event<Test>) -> Self {
        RuntimeEvent::Balances(event)
    }
}

impl From<Event<u64, u64>> for RuntimeEvent {
    fn from(event: Event<u64, u64>) -> Self {
        match event {
            Event::FundsAccumulated { from, amount } => {
                RuntimeEvent::FundsAccumulated(from, amount)
            },
        }
    }
}

struct Pallets;

impl Pallets {
    fn of<P: 'static>() -> Option<(usize, &'static str)> {
        let pallet = TypeId::of::<P>();
        if pallet == TypeId::of::<System>() {
            Some((0, "System"))
        } else if pallet == TypeId::of::<Balances>() {
            Some((1, "Balances"))
        } else {
            None
        }
    }
}

impl PalletInfo for Pallets {
    fn index<P: 'static>() -> Option<usize> {
        Pallets::of::<P>().map(|pallet| pallet.0)
    }

    fn name<P: 'static>() -> Option<&'static str> {
        Pallets::of::<P>().map(|pallet| pallet.1)
    }

    fn name_hash<P: 'static>() -> Option<[u8; 16]> {
        Pallets::of::<P>().map(|pallet| sp_io::hashing::twox_128(pallet.1.as_bytes()))
    }

    fn module_name<P: 'static>() -> Option<&'static str> {
        Pallets::of::<P>().map(|pallet| pallet.1)
    }

    fn crate_version<P: 'static>() -> Option<CrateVersion> {
        Some(CrateVersion { major: 1, minor: 0, patch: 0 })
    }
}

impl frame_system::Config for Test {
    type RuntimeEvent = RuntimeEvent;
    type BaseCallFilter = Everything;
    type BlockWeights = ();
    type BlockLength = ();
    type RuntimeOrigin = Origin;
    type RuntimeCall = NoCall;
    type RuntimeTask = ();
    type Nonce = u32;
    type Hash = <BlakeTwo256 as sp_runtime::traits::Hash>::Output;
    type Hashing = BlakeTwo256;
    type AccountId = u64;
    type Lookup = IdentityLookup<u64>;
    type Block = frame_system::mocking::MockBlock<Test>;
    type BlockHashCount = ConstU64<10>;
    type DbWeight = ();
    type Version = ();
    type PalletInfo = Pallets;
    type AccountData = pallet_balances::AccountData<u64>;
    type OnNewAccount = ();
    type OnKilledAccount = ();
    type SystemWeightInfo = ();
    type ExtensionsWeightInfo = ();
    type SS58Prefix = ();
    type OnSetCode = ();
    type MaxConsumers = ConstU32<16>;
    type SingleBlockMigrations = ();
    type MultiBlockMigrator = ();
    type PreInherents = ();
    type PostInherents = ();
    type PostTransactions = ();
}

/// The existential deposit: one, unless a test has raised it.
struct Deposit;

impl Deposit {
    fn raise_to(deposit: u64) {
        frame_support::storage::unhashed::put(b"deposit", &deposit);
    }
}

impl Get<u64> for Deposit {
    fn get() -> u64 {
        frame_support::storage::unhashed::get_or(b"deposit", 1)
    }
}

impl pallet_balances::Config for Test {
    type RuntimeEvent = RuntimeEvent;
    type RuntimeHoldReason = ();
    type RuntimeFreezeReason = ();
    type WeightInfo = ();
    type Balance = u64;
    type DustRemoval = ();
    type ExistentialDeposit = Deposit;
    type AccountStore = System;
    type ReserveIdentifier = ();
    type FreezeIdentifier = ();
    type MaxLocks = ConstU32<100>;
    type MaxReserves = ConstU32<100>;
    type MaxFreezes = ConstU32<100>;
    type DoneSlashHandler = ();
}

// ===== carrying out what the satellite asks for =====

fn preservation_of(preservation: Preservation) -> tokens::Preservation {
    match preservation {
        Preservation::Expendable => tokens::Preservation::Expendable,
        Preservation::Protect => tokens::Preservation::Protect,
        Preservation::Preserve => tokens::Preservation::Preserve,
    }
}

fn precision_of(precision: Precision) -> tokens::Precision {
    match precision {
        Precision::Exact => tokens::Precision::Exact,
        Precision::BestEffort => tokens::Precision::BestEffort,
    }
}

fn fortitude_of(fortitude: Fortitude) -> tokens::Fortitude {
    match fortitude {
        Fortitude::Polite => tokens::Fortitude::Polite,
        Fortitude::Force => tokens::Fortitude::Force,
    }
}

fn carry_out_check(check: ExistenceCheck<u64>) {
    let exists = System::account_exists(&check.who);
    if let Some(request) = check.answered(exists) {
        let _ = System::inc_providers(&request.who);
    }
}

fn carry_out_fill(pending: Withdrawing<u64, u64>) {
    let request = &pending.request;
    let withdrawn = <Balances as Balanced<u64>>::withdraw(
        &request.who,
        request.amount,
        precision_of(request.precision),
        preservation_of(request.preservation),
        fortitude_of(request.fortitude),
    );
    match withdrawn {
        Err(error) => assert!(pending.withdrawn(Err(error)).is_none()),
        Ok(credit) => {
            let reply: Result<Credit<u64>, ()> = Ok(Credit { amount: credit.peek() });
            let pending = pending.withdrawn(reply).expect("the funds were withdrawn");
            assert_eq!(pending.request.credit.peek(), credit.peek());
            let resolved = Balances::resolve(&pending.request.who, credit)
                .map_err(|credit| Credit { amount: credit.peek() });
            let end = pending.resolved(resolved);
            System::deposit_event(end.event);
        },
    }
}

fn fill(source: &u64, amount: u64, preservation: Preservation) {
    carry_out_fill(AccumulateInSatellite::<Test>::fill(source, amount, preservation));
}

fn carry_out_resolve(request: Resolve<u64, u64>, credit: BalancesCredit) -> Option<u64> {
    assert_eq!(request.credit.peek(), credit.peek());
    let resolved = Balances::resolve(&request.who, credit)
        .map_err(|credit| Credit { amount: credit.peek() });
    SlashToSatellite::<Test>::resolved(resolved).map(|burned| burned.peek())
}

fn slash(credit: BalancesCredit) {
    let amount = Credit { amount: credit.peek() };
    if let Some(request) = SlashToSatellite::<Test>::on_unbalanced(amount) {
        assert_eq!(carry_out_resolve(request, credit), None);
    }
}

fn sink(imbalance: <Balances as Currency<u64>>::NegativeImbalance) {
    let amount = Credit { amount: imbalance.peek() };
    if let Some(request) = SinkToSatellite::<Test, u64>::on_unbalanced(amount) {
        let ResolveCreating { who, credit } = request;
        assert_eq!(credit.peek(), imbalance.peek());
        Balances::resolve_creating(&who, imbalance);
    }
}

/// Hands out the parts of fees and tips; returns what the other handler received.
fn deal_with_fees(dap_percent: u32, fees_then_tips: Vec<BalancesCredit>) -> u64 {
    let amounts: Vec<Credit<u64>> =
        fees_then_tips.iter().map(|credit| Credit { amount: credit.peek() }).collect();
    let split = DealWithFeesSplit::<Test>::on_unbalanceds(dap_percent, amounts);
    let mut pool = BalancesCredit::zero();
    for credit in fees_then_tips {
        credit.merge_into(&mut pool);
    }
    match split {
        None => 0,
        Some(FeeSplit { satellite, other }) => {
            if let Some(request) = satellite {
                let credit = pool.extract(request.credit.peek());
                assert_eq!(carry_out_resolve(request, credit), None);
            }
            assert_eq!(pool.peek(), other.peek());
            other.peek()
        },
    }
}

fn new_test_ext() -> sp_io::TestExternalities {
    let mut storage = frame_system::GenesisConfig::<Test>::default().build_storage().unwrap();
    pallet_balances::GenesisConfig::<Test> {
        balances: vec![(1, 100), (2, 200), (3, 300)],
        ..Default::default()
    }
    .assimilate_storage(&mut storage)
    .unwrap();
    let mut ext: sp_io::TestExternalities = storage.into();
    ext.execute_with(|| carry_out_check(GenesisConfig::<Test>::default().build()));
    ext
}

fn assert_has_event(event: RuntimeEvent) {
    assert!(System::events().iter().any(|record| record.event == event));
}

#[test]
fn satellite_account_is_derived_from_pallet_id() {
    new_test_ext().execute_with(|| {
        let satellite = DapSatellite::satellite_account();
        let expected: u64 = frame_support::PalletId(*b"dap/satl").into_account_truncating();
        assert_eq!(satellite, expected);
    });
}

#[test]
fn genesis_creates_satellite_account() {
    new_test_ext().execute_with(|| {
        let satellite = DapSatellite::satellite_account();
        // Satellite account should exist after genesis (created via inc_providers)
        assert!(System::account_exists(&satellite));
    });
}

// ===== fill tests =====

#[test]
fn fill_accumulates_from_multiple_sources() {
    new_test_ext().execute_with(|| {
        System::set_block_number(1);
        let satellite = DapSatellite::satellite_account();

        // Given: accounts have balances, satellite is empty
        assert_eq!(Balances::free_balance(satellite), 0);

        // When: fill from multiple accounts
        fill(&1, 20, Preservation::Preserve);
        fill(&2, 50, Preservation::Preserve);
        fill(&3, 100, Preservation::Preserve);

        // Then: satellite has accumulated all funds
        assert_eq!(Balances::free_balance(satellite), 170);
        // ... accounts have their balance correctly updated
        assert_eq!(Balances::free_balance(1), 80);
        assert_eq!(Balances::free_balance(2), 150);
        assert_eq!(Balances::free_balance(3), 200);
        // ... and events are emitted
        assert_has_event(Event::FundsAccumulated { from: 1, amount: 20 }.into());
        assert_has_event(Event::FundsAccumulated { from: 2, amount: 50 }.into());
        assert_has_event(Event::FundsAccumulated { from: 3, amount: 100 }.into());
    });
}

#[test]
fn fill_with_insufficient_balance_is_noop() {
    new_test_ext().execute_with(|| {
        let satellite = DapSatellite::satellite_account();

        // Given: account 1 has 100, satellite has 0
        assert_eq!(Balances::free_balance(1), 100);
        assert_eq!(Balances::free_balance(satellite), 0);

        // When: try to fill 150 (more than balance)
        fill(&1, 150, Preservation::Preserve);

        // Then: balances unchanged (infallible no-op)
        assert_eq!(Balances::free_balance(1), 100);
        assert_eq!(Balances::free_balance(satellite), 0);
    });
}

#[test]
fn fill_with_zero_amount_succeeds() {
    new_test_ext().execute_with(|| {
        let satellite = DapSatellite::satellite_account();

        // Given: account 1 has 100, satellite has 0
        assert_eq!(Balances::free_balance(1), 100);
        assert_eq!(Balances::free_balance(satellite), 0);

        // When: fill 0 from account 1
        fill(&1, 0, Preservation::Preserve);

        // Then: balances unchanged (no-op)
        assert_eq!(Balances::free_balance(1), 100);
        assert_eq!(Balances::free_balance(satellite), 0);
    });
}

#[test]
fn fill_with_expendable_allows_full_drain() {
    new_test_ext().execute_with(|| {
        System::set_block_number(1);
        let satellite = DapSatellite::satellite_account();

        // Given: account 1 has 100
        assert_eq!(Balances::free_balance(1), 100);

        // When: fill full balance with Expendable (allows going to 0)
        fill(&1, 100, Preservation::Expendable);

        // Then: account 1 is empty, satellite has 100
        assert_eq!(Balances::free_balance(1), 0);
        assert_eq!(Balances::free_balance(satellite), 100);
    });
}

#[test]
fn fill_with_preserve_respects_existential_deposit() {
    new_test_ext().execute_with(|| {
        let satellite = DapSatellite::satellite_account();

        // Given: account 1 has 100, ED is 1
        assert_eq!(Balances::free_balance(1), 100);
        assert_eq!(Balances::free_balance(satellite), 0);

        // When: try to fill 100 with Preserve (would go below ED)
        fill(&1, 100, Preservation::Preserve);

        // Then: balances unchanged (infallible - would have killed account)
        assert_eq!(Balances::free_balance(1), 100);
        assert_eq!(Balances::free_balance(satellite), 0);

        // But filling 99 works (leaves 1 for ED)
        fill(&1, 99, Preservation::Preserve);
        assert_eq!(Balances::free_balance(1), 1);
        assert_eq!(Balances::free_balance(satellite), 99);
    });
}

// ===== SlashToSatellite tests =====

#[test]
fn slash_to_satellite_deposits_to_satellite() {
    new_test_ext().execute_with(|| {
        let satellite = DapSatellite::satellite_account();

        // Given: satellite has 0
        assert_eq!(Balances::free_balance(satellite), 0);

        // When: multiple slashes occur
        slash(<Balances as Balanced<u64>>::issue(30));
        slash(<Balances as Balanced<u64>>::issue(20));
        slash(<Balances as Balanced<u64>>::issue(50));

        // Then: satellite has accumulated all slashes (30 + 20 + 50 = 100)
        assert_eq!(Balances::free_balance(satellite), 100);
    });
}

#[test]
fn slash_to_satellite_handles_zero_amount() {
    new_test_ext().execute_with(|| {
        let satellite = DapSatellite::satellite_account();

        // Given: satellite has 0
        assert_eq!(Balances::free_balance(satellite), 0);

        // When: slash with zero amount
        slash(<Balances as Balanced<u64>>::issue(0));

        // Then: satellite still has 0 (no-op)
        assert_eq!(Balances::free_balance(satellite), 0);
    });
}

// ===== SinkToSatellite tests =====

#[test]
fn sink_to_satellite_deposits_to_satellite() {
    new_test_ext().execute_with(|| {
        let satellite = DapSatellite::satellite_account();

        // Given: accounts have balances, satellite has 0
        assert_eq!(Balances::free_balance(satellite), 0);

        // When: multiple sinks occur from different accounts
        let imbalance1 = <Balances as Currency<u64>>::withdraw(
            &1,
            30,
            WithdrawReasons::FEE,
            ExistenceRequirement::KeepAlive,
        )
        .unwrap();
        sink(imbalance1);

        let imbalance2 = <Balances as Currency<u64>>::withdraw(
            &2,
            50,
            WithdrawReasons::FEE,
            ExistenceRequirement::KeepAlive,
        )
        .unwrap();
        sink(imbalance2);

        // Then: satellite has accumulated all sinks (30 + 50 = 80)
        assert_eq!(Balances::free_balance(satellite), 80);
        assert_eq!(Balances::free_balance(1), 70);
        assert_eq!(Balances::free_balance(2), 150);
    });
}

// ===== DealWithFeesSplit tests =====

#[test]
fn deal_with_fees_split_zero_percent_to_dap() {
    new_test_ext().execute_with(|| {
        let satellite = DapSatellite::satellite_account();

        // Given: satellite has 0
        assert_eq!(Balances::free_balance(satellite), 0);

        // When: fees of 100 with 0% to DAP (all to other handler) + tips of 50
        // Tips should ALWAYS go to other handler, regardless of DAP percent
        let fees = <Balances as Balanced<u64>>::issue(100);
        let tips = <Balances as Balanced<u64>>::issue(50);
        let received = deal_with_fees(0, vec![fees, tips]);

        // Then: satellite gets 0, other handler gets 150 (100% fees + tips)
        assert_eq!(Balances::free_balance(satellite), 0);
        assert_eq!(received, 150);
    });
}

#[test]
fn deal_with_fees_split_hundred_percent_to_dap() {
    new_test_ext().execute_with(|| {
        let satellite = DapSatellite::satellite_account();

        // Given: satellite has 0
        assert_eq!(Balances::free_balance(satellite), 0);

        // When: fees of 100 with 100% to DAP + tips of 50
        // Tips should ALWAYS go to other handler, regardless of DAP percent
        let fees = <Balances as Balanced<u64>>::issue(100);
        let tips = <Balances as Balanced<u64>>::issue(50);
        let received = deal_with_fees(100, vec![fees, tips]);

        // Then: satellite gets 100 (fees), other handler gets 50 (tips)
        assert_eq!(Balances::free_balance(satellite), 100);
        assert_eq!(received, 50);
    });
}

#[test]
fn deal_with_fees_split_fifty_percent() {
    new_test_ext().execute_with(|| {
        let satellite = DapSatellite::satellite_account();

        // Given: satellite has 0
        assert_eq!(Balances::free_balance(satellite), 0);

        // When: fees of 100 with 50% to DAP + tips of 40
        // Fees split 50/50, tips 100% to other handler
        let fees = <Balances as Balanced<u64>>::issue(100);
        let tips = <Balances as Balanced<u64>>::issue(40);
        let received = deal_with_fees(50, vec![fees, tips]);

        // Then: satellite gets 50 (half of fees), other handler gets 90 (half of fees + tips)
        assert_eq!(Balances::free_balance(satellite), 50);
        assert_eq!(received, 90);
    });
}

#[test]
fn deal_with_fees_split_handles_empty_iterator() {
    new_test_ext().execute_with(|| {
        let satellite = DapSatellite::satellite_account();

        // Given: satellite has 0
        assert_eq!(Balances::free_balance(satellite), 0);

        // When: no fees, no tips
        let received = deal_with_fees(50, vec![]);

        // Then: nothing happens
        assert_eq!(Balances::free_balance(satellite), 0);
        assert_eq!(received, 0);
    });
}

// ===== the accounts as a whole =====

#[test]
fn ensuring_the_account_again_adds_no_provider() {
    new_test_ext().execute_with(|| {
        let satellite = DapSatellite::satellite_account();
        assert_eq!(System::providers(&satellite), 1);
        carry_out_check(DapSatellite::ensure_satellite_account_exists());
        carry_out_check(DapSatellite::ensure_satellite_account_exists());
        assert_eq!(System::providers(&satellite), 1);
    });
}

#[test]
fn runtime_upgrade_creates_the_account() {
    sp_io::TestExternalities::default().execute_with(|| {
        let satellite = DapSatellite::satellite_account();
        assert!(!System::account_exists(&satellite));
        let (check, weight) = DapSatellite::on_runtime_upgrade(DbWeight { read: 25, write: 100 });
        carry_out_check(check);
        assert!(System::account_exists(&satellite));
        assert_eq!(weight, Weight { ref_time: 125, proof_size: 0 });
    });
}

#[test]
fn fill_keeps_the_issuance() {
    new_test_ext().execute_with(|| {
        fill(&1, 20, Preservation::Preserve);
        fill(&1, 500, Preservation::Expendable);
        assert_eq!(Balances::total_issuance(), 600);
    });
}

/// A runtime whose satellite account is too full for another fifty, and an account with a hundred.
fn full_satellite() -> sp_io::TestExternalities {
    let mut ext = sp_io::TestExternalities::default();
    ext.execute_with(|| {
        System::set_block_number(1);
        let satellite = DapSatellite::satellite_account();
        assert_eq!(Balances::mint_into(&satellite, u64::MAX - 10), Ok(u64::MAX - 10));
        assert_eq!(Balances::write_balance(&1, 100), Ok(None));
    });
    ext
}

#[test]
fn fill_without_a_taker_burns() {
    full_satellite().execute_with(|| {
        let satellite = DapSatellite::satellite_account();
        fill(&1, 50, Preservation::Preserve);
        assert_eq!(Balances::free_balance(1), 50);
        assert_eq!(Balances::free_balance(satellite), u64::MAX - 10);
        assert_eq!(Balances::total_issuance(), u64::MAX - 60);
        assert_has_event(Event::FundsAccumulated { from: 1, amount: 50 }.into());
    });
}

#[test]
fn slash_without_a_taker_burns() {
    full_satellite().execute_with(|| {
        let satellite = DapSatellite::satellite_account();
        let credit = <Balances as Balanced<u64>>::withdraw(
            &1,
            50,
            tokens::Precision::Exact,
            tokens::Preservation::Preserve,
            tokens::Fortitude::Polite,
        )
        .unwrap();
        let request =
            SlashToSatellite::<Test>::on_nonzero_unbalanced(Credit { amount: credit.peek() });
        assert_eq!(carry_out_resolve(request, credit), Some(50));
        assert_eq!(Balances::free_balance(satellite), u64::MAX - 10);
        assert_eq!(Balances::total_issuance(), u64::MAX - 60);
    });
}

#[test]
fn refused_fill_deposits_no_event() {
    new_test_ext().execute_with(|| {
        System::set_block_number(1);
        fill(&1, 150, Preservation::Expendable);
        assert!(System::events().is_empty());
        assert_eq!(Balances::total_issuance(), 600);
    });
}

#[test]
fn slash_deposits_no_event_of_the_satellite() {
    new_test_ext().execute_with(|| {
        System::set_block_number(1);
        slash(<Balances as Balanced<u64>>::issue(30));
        assert!(!System::events()
            .iter()
            .any(|record| matches!(record.event, RuntimeEvent::FundsAccumulated(_, _))));
    });
}

/// The sources and amounts of the satellite's events, in order.
fn recorded() -> Vec<(u64, u64)> {
    let mut recorded = Vec::new();
    for record in System::events() {
        if let RuntimeEvent::FundsAccumulated(from, amount) = record.event {
            recorded.push((from, amount));
        }
    }
    recorded
}

#[test]
fn fills_are_recorded_in_order() {
    new_test_ext().execute_with(|| {
        System::set_block_number(1);
        fill(&2, 50, Preservation::Preserve);
        fill(&1, 150, Preservation::Preserve);
        fill(&1, 20, Preservation::Preserve);
        fill(&2, 10, Preservation::Preserve);
        assert_eq!(recorded(), vec![(2, 50), (1, 20), (2, 10)]);
    });
}

#[test]
fn fills_deliver_what_they_tell() {
    new_test_ext().execute_with(|| {
        System::set_block_number(1);
        Deposit::raise_to(10);
        fill(&2, 195, Preservation::Expendable);
        fill(&1, 95, Preservation::Preserve);
        fill(&1, 90, Preservation::Preserve);
        fill(&3, 300, Preservation::Expendable);
        let told: u64 = recorded().iter().map(|(_, amount)| *amount).sum();
        assert_eq!(told, 585);
        assert_eq!(Balances::free_balance(DapSatellite::satellite_account()), 585);
    });
}

#[test]
fn fill_in_block_zero_moves_funds_unrecorded() {
    new_test_ext().execute_with(|| {
        assert_eq!(System::block_number(), 0);
        fill(&1, 20, Preservation::Preserve);
        assert_eq!(Balances::free_balance(1), 80);
        assert_eq!(Balances::free_balance(DapSatellite::satellite_account()), 20);
        assert!(recorded().is_empty());
    });
}

#[test]
fn fill_below_the_minimum_reaps_the_source() {
    new_test_ext().execute_with(|| {
        System::set_block_number(1);
        Deposit::raise_to(10);
        fill(&1, 95, Preservation::Expendable);
        assert_eq!(Balances::free_balance(1), 0);
        assert_eq!(Balances::free_balance(DapSatellite::satellite_account()), 95);
        // The five that were left went to a handler of dust that drops them.
        assert_eq!(Balances::total_issuance(), 595);
        assert_eq!(recorded(), vec![(1, 95)]);
    });
}

#[test]
fn fill_down_to_the_minimum_reaps_nothing() {
    new_test_ext().execute_with(|| {
        Deposit::raise_to(10);
        fill(&1, 90, Preservation::Expendable);
        assert_eq!(Balances::free_balance(1), 10);
        assert_eq!(Balances::free_balance(DapSatellite::satellite_account()), 90);
        assert_eq!(Balances::total_issuance(), 600);
    });
}

#[test]
fn preserved_source_keeps_the_minimum() {
    new_test_ext().execute_with(|| {
        Deposit::raise_to(10);
        fill(&1, 95, Preservation::Preserve);
        assert_eq!(Balances::free_balance(1), 100);
        fill(&1, 90, Preservation::Preserve);
        assert_eq!(Balances::free_balance(1), 10);
        fill(&1, 1, Preservation::Preserve);
        assert_eq!(Balances::free_balance(1), 10);
        assert_eq!(Balances::free_balance(DapSatellite::satellite_account()), 90);
        assert_eq!(Balances::total_issuance(), 600);
    });
}

fn fee(who: &u64, amount: u64) -> <Balances as Currency<u64>>::NegativeImbalance {
    <Balances as Currency<u64>>::withdraw(
        who,
        amount,
        WithdrawReasons::FEE,
        ExistenceRequirement::KeepAlive,
    )
    .unwrap()
}

#[test]
fn sink_below_the_minimum_burns() {
    new_test_ext().execute_with(|| {
        let satellite = DapSatellite::satellite_account();
        Deposit::raise_to(10);
        sink(fee(&1, 5));
        assert_eq!(Balances::free_balance(1), 95);
        assert_eq!(Balances::free_balance(satellite), 0);
        assert_eq!(Balances::total_issuance(), 595);
    });
}

#[test]
fn sinks_add_up_to_what_arrived() {
    new_test_ext().execute_with(|| {
        System::set_block_number(1);
        let satellite = DapSatellite::satellite_account();
        Deposit::raise_to(10);
        sink(fee(&1, 5));
        sink(fee(&2, 30));
        sink(fee(&1, 5));
        assert_eq!(Balances::free_balance(satellite), 35);
        assert_eq!(Balances::free_balance(3), 300);
        assert_eq!(Balances::total_issuance(), 595);
        assert!(recorded().is_empty());
    });
}

#[test]
fn direct_burn_takes_funds_and_issuance() {
    new_test_ext().execute_with(|| {
        let request = DirectBurn::<u64, u64>::fill(&1, 40, Preservation::Preserve);
        let burned = Balances::burn_from(
            &request.who,
            request.amount,
            preservation_of(request.preservation),
            precision_of(request.precision),
            fortitude_of(request.fortitude),
        );
        assert_eq!(burned, Ok(40));
        assert_eq!(Balances::free_balance(1), 60);
        assert_eq!(Balances::total_issuance(), 560);
    });
}

#[test]
fn direct_burn_beyond_the_balance_leaves_the_funds() {
    new_test_ext().execute_with(|| {
        let request = DirectBurn::<u64, u64>::fill(&1, 101, Preservation::Expendable);
        let burned = Balances::burn_from(
            &request.who,
            request.amount,
            preservation_of(request.preservation),
            precision_of(request.precision),
            fortitude_of(request.fortitude),
        );
        assert!(burned.is_err());
        assert_eq!(Balances::free_balance(1), 100);
        assert_eq!(Balances::total_issuance(), 600);
    });
}

#[test]
fn burned_funds_leave_the_issuance() {
    new_test_ext().execute_with(|| {
        let effect = DirectBurn::<u64, u64>::on_burned(&1, 40);
        Balances::set_total_issuance(effect.apply(Balances::total_issuance()));
        assert_eq!(Balances::total_issuance(), 560);
    });
}

#[test]
fn direct_burn_below_the_minimum_reaps_the_account() {
    new_test_ext().execute_with(|| {
        Deposit::raise_to(10);
        let request = DirectBurn::<u64, u64>::fill(&1, 95, Preservation::Expendable);
        let burned = Balances::burn_from(
            &request.who,
            request.amount,
            preservation_of(request.preservation),
            precision_of(request.precision),
            fortitude_of(request.fortitude),
        );
        assert_eq!(burned, Ok(95));
        assert_eq!(Balances::free_balance(1), 0);
        assert_eq!(Balances::total_issuance(), 500);
    });
}

#[test]
fn ensuring_an_account_with_providers_keeps_them() {
    sp_io::TestExternalities::default().execute_with(|| {
        let satellite = DapSatellite::satellite_account();
        let _ = System::inc_providers(&satellite);
        let _ = System::inc_providers(&satellite);
        carry_out_check(DapSatellite::ensure_satellite_account_exists());
        assert_eq!(System::providers(&satellite), 2);
        assert!(!System::account_exists(&1));
    });
}

#[test]
fn direct_burn_that_preserves_keeps_the_minimum() {
    new_test_ext().execute_with(|| {
        Deposit::raise_to(10);
        let request = DirectBurn::<u64, u64>::fill(&1, 95, Preservation::Preserve);
        let burned = Balances::burn_from(
            &request.who,
            request.amount,
            preservation_of(request.preservation),
            precision_of(request.precision),
            fortitude_of(request.fortitude),
        );
        assert!(burned.is_err());
        assert_eq!(Balances::free_balance(1), 100);
        assert_eq!(Balances::total_issuance(), 600);
    });
}

#[test]
fn fill_too_small_for_an_empty_satellite_burns() {
    new_test_ext().execute_with(|| {
        System::set_block_number(1);
        Deposit::raise_to(10);
        fill(&1, 5, Preservation::Preserve);
        assert_eq!(Balances::free_balance(1), 95);
        assert_eq!(Balances::free_balance(DapSatellite::satellite_account()), 0);
        assert_eq!(Balances::total_issuance(), 595);
        assert_eq!(recorded(), vec![(1, 5)]);
    });
}

#[test]
fn direct_burn_of_everything_reaps_nothing() {
    new_test_ext().execute_with(|| {
        Deposit::raise_to(10);
        let request = DirectBurn::<u64, u64>::fill(&1, 100, Preservation::Expendable);
        let burned = Balances::burn_from(
            &request.who,
            request.amount,
            preservation_of(request.preservation),
            precision_of(request.precision),
            fortitude_of(request.fortitude),
        );
        assert_eq!(burned, Ok(100));
        assert_eq!(Balances::free_balance(1), 0);
        assert_eq!(Balances::total_issuance(), 500);
    });
}
