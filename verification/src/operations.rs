//! What each operation does, stated of what goes into a call and what comes out of it.
//!
//! `call_ensures(f, arguments, result)` reads: a call of `f` with `arguments` may give `result`.
use crate::account::{AccountId, PalletId};
use crate::balance::Balance;
use crate::books::{Books, FillReplies};
use crate::credit::Credit;
use crate::funding::{BurnHandler, DirectBurn, FundingSink, ReduceIssuance};
use crate::handlers::{
    AccumulateInSatellite, DealWithFeesSplit, Depositing, FeeSplit, Filled, SinkToSatellite,
    SlashToSatellite, Withdrawing,
};
use crate::pallet::{Config, Event, ExistenceCheck, GenesisConfig, Pallet};
use crate::requests::{BurnFrom, IncProviders, Resolve, ResolveCreating};
use crate::tokens::{Fortitude, Precision, Preservation};
use crate::weights::{DbWeight, Weight};
use vstd::prelude::*;

verus! {

// Amounts and accounts as numbers and bytes.

/// A `u64` and a `u128` each count for the number that they are, and hold what such a number can.
pub proof fn amounts_count_for_themselves(small: u64, large: u128)
    ensures
        small.value() == small,
        <u64 as Balance>::max() == 0xffff_ffff_ffff_ffff,
        large.value() == large,
        <u128 as Balance>::max() == 0xffff_ffff_ffff_ffff_ffff_ffff_ffff_ffff,
{
}

/// An account that is a `u64` is written in its eight bytes, the lowest first; one of thirty-two
/// bytes is written as it stands.
pub proof fn accounts_are_written_in_their_bytes(small: u64, large: [u8; 32])
    ensures
        <u64 as AccountId>::width() == 8,
        small.encoded().len() == 8,
        vstd::bytes::spec_u64_from_le_bytes(small.encoded()) == small,
        <[u8; 32] as AccountId>::width() == 32,
        large.encoded().len() == 32,
        forall|i: int| 0 <= i < 32 ==> #[trigger] large.encoded()[i] == large@[i],
{
    vstd::bytes::lemma_auto_spec_u64_to_from_le_bytes();
}

/// The account of a pallet is written as `modl`, then the eight bytes of the identifier, then
/// zeros, up to the width of an account.
pub proof fn pallet_account_is_made_of_the_identifier<A: AccountId>(id: PalletId, account: A)
    requires
        call_ensures(A::of_pallet, (id,), account),
    ensures
        account.encoded().len() == A::width(),
        A::width() > 0 ==> account.encoded()[0] == 0x6d,
        A::width() > 1 ==> account.encoded()[1] == 0x6f,
        A::width() > 2 ==> account.encoded()[2] == 0x64,
        A::width() > 3 ==> account.encoded()[3] == 0x6c,
        forall|i: int|
            4 <= i < 12 && i < A::width() ==> #[trigger] account.encoded()[i] == id.0@[i - 4],
        forall|i: int| 12 <= i < A::width() ==> #[trigger] account.encoded()[i] == 0,
{
}

// The satellite account.

/// The satellite account is the one that is made of the identifier that the runtime configures:
/// where that is always `id`, an account is the satellite if and only if it is written as `modl`,
/// the eight bytes of `id`, then zeros, up to the width of an account.
pub proof fn satellite_is_made_of_the_configured_identifier<T: Config>(
    id: PalletId,
    account: T::AccountId,
)
    requires
        call_ensures(T::pallet_id, (), id),
        forall|other: PalletId| #[trigger]
            call_ensures(T::pallet_id, (), other) ==> other == id,
    ensures
        ({
            let width = T::AccountId::width();
            let bytes = account.encoded();
            Pallet::<T>::is_satellite(account) <==> {
                &&& width > 0 ==> bytes[0] == 0x6d
                &&& width > 1 ==> bytes[1] == 0x6f
                &&& width > 2 ==> bytes[2] == 0x64
                &&& width > 3 ==> bytes[3] == 0x6c
                &&& forall|i: int|
                    4 <= i < 12 && i < width ==> #[trigger] bytes[i] == id.0@[i - 4]
                &&& forall|i: int| 12 <= i < width ==> #[trigger] bytes[i] == 0
            }
        }),
{
    let width = T::AccountId::width();
    let bytes = account.encoded();
    let derived = id.account_bytes(width);
    T::AccountId::encoding_identifies(account, account);
    if Pallet::<T>::is_satellite(account) {
        assert(bytes == derived);
    }
    if {
        &&& width > 0 ==> bytes[0] == 0x6d
        &&& width > 1 ==> bytes[1] == 0x6f
        &&& width > 2 ==> bytes[2] == 0x64
        &&& width > 3 ==> bytes[3] == 0x6c
        &&& forall|i: int| 4 <= i < 12 && i < width ==> #[trigger] bytes[i] == id.0@[i - 4]
        &&& forall|i: int| 12 <= i < width ==> #[trigger] bytes[i] == 0
    } {
        assert forall|i: int| 0 <= i < width implies #[trigger] bytes[i] == derived[i] by {
            if i < 4 {
                assert(i == 0 || i == 1 || i == 2 || i == 3);
            } else if i < 12 {
                assert(bytes[i] == id.0@[i - 4]);
            }
        }
        assert(bytes =~= derived);
    }
}

/// `satellite_account` gives the account that is made of the identifier that the runtime
/// configures, where that is always `id`.
pub proof fn satellite_account_is_made_of_the_configured_identifier<T: Config>(
    id: PalletId,
    account: T::AccountId,
)
    requires
        call_ensures(Pallet::<T>::satellite_account, (), account),
        forall|other: PalletId| #[trigger]
            call_ensures(T::pallet_id, (), other) ==> other == id,
    ensures
        ({
            let width = T::AccountId::width();
            let bytes = account.encoded();
            &&& bytes.len() == width
            &&& width > 0 ==> bytes[0] == 0x6d
            &&& width > 1 ==> bytes[1] == 0x6f
            &&& width > 2 ==> bytes[2] == 0x64
            &&& width > 3 ==> bytes[3] == 0x6c
            &&& forall|i: int| 4 <= i < 12 && i < width ==> #[trigger] bytes[i] == id.0@[i - 4]
            &&& forall|i: int| 12 <= i < width ==> #[trigger] bytes[i] == 0
        }),
{
    assert(account.encoded() == id.account_bytes(T::AccountId::width()));
}

/// Two configurations with different identifiers have satellite accounts that are written
/// differently, as long as all of an identifier fits into an account.
pub proof fn different_identifiers_have_different_satellites<T: Config, U: Config>(
    first: PalletId,
    second: PalletId,
    a: T::AccountId,
    b: U::AccountId,
)
    requires
        call_ensures(Pallet::<T>::satellite_account, (), a),
        call_ensures(Pallet::<U>::satellite_account, (), b),
        forall|id: PalletId| #[trigger] call_ensures(T::pallet_id, (), id) ==> id == first,
        forall|id: PalletId| #[trigger] call_ensures(U::pallet_id, (), id) ==> id == second,
        T::AccountId::width() >= 12,
        U::AccountId::width() >= 12,
        exists|i: int| 0 <= i < 8 && first.0@[i] != second.0@[i],
    ensures
        a.encoded() != b.encoded(),
{
    satellite_account_is_made_of_the_configured_identifier::<T>(first, a);
    satellite_account_is_made_of_the_configured_identifier::<U>(second, b);
    let i = choose|i: int| 0 <= i < 8 && first.0@[i] != second.0@[i];
    assert(a.encoded()[i + 4] == first.0@[i]);
    assert(b.encoded()[i + 4] == second.0@[i]);
}

/// Whatever the satellite is asked for is about one account, the one that `satellite_account`
/// gives, as long as the configuration gives one identifier: what is made sure to exist at any
/// time, at genesis and on an upgrade, and what fills, slashes, sinks and fees lead to.
pub proof fn all_lead_to_the_satellite_account<T: Config>(
    id: PalletId,
    account: T::AccountId,
    ensured: ExistenceCheck<T::AccountId>,
    at_genesis: ExistenceCheck<T::AccountId>,
    genesis: GenesisConfig<T>,
    db: DbWeight,
    upgrade: (ExistenceCheck<T::AccountId>, Weight),
    source: T::AccountId,
    amount: T::Balance,
    preservation: Preservation,
    fill: Withdrawing<T::AccountId, T::Balance>,
    credit: Credit<T::Balance>,
    slash: Resolve<T::AccountId, T::Balance>,
    sink: ResolveCreating<T::AccountId, T::Balance>,
    dap_percent: u32,
    fees_then_tips: Vec<Credit<T::Balance>>,
    split: Option<FeeSplit<T::AccountId, T::Balance>>,
)
    requires
        forall|other: PalletId| #[trigger]
            call_ensures(T::pallet_id, (), other) ==> other == id,
        call_ensures(Pallet::<T>::satellite_account, (), account),
        call_ensures(Pallet::<T>::ensure_satellite_account_exists, (), ensured),
        call_ensures(GenesisConfig::<T>::build, (&genesis,), at_genesis),
        call_ensures(Pallet::<T>::on_runtime_upgrade, (db,), upgrade),
        call_ensures(
            <AccumulateInSatellite<T> as FundingSink<T::AccountId, T::Balance>>::fill,
            (&source, amount, preservation),
            fill,
        ),
        call_ensures(SlashToSatellite::<T>::on_nonzero_unbalanced, (credit,), slash),
        call_ensures(SinkToSatellite::<T, T::Balance>::on_nonzero_unbalanced, (credit,), sink),
        call_ensures(
            DealWithFeesSplit::<T>::on_unbalanceds,
            (dap_percent, fees_then_tips),
            split,
        ),
    ensures
        ensured.who == account,
        at_genesis.who == account,
        upgrade.0.who == account,
        fill.satellite == account,
        slash.who == account,
        sink.who == account,
        split matches Some(split) ==> (split.satellite matches Some(deposit) ==> deposit.who
            == account),
{
    T::AccountId::encoding_identifies(ensured.who, account);
    T::AccountId::encoding_identifies(at_genesis.who, account);
    T::AccountId::encoding_identifies(upgrade.0.who, account);
    T::AccountId::encoding_identifies(fill.satellite, account);
    T::AccountId::encoding_identifies(slash.who, account);
    T::AccountId::encoding_identifies(sink.who, account);
    if let Some(split) = split {
        if let Some(deposit) = split.satellite {
            T::AccountId::encoding_identifies(deposit.who, account);
        }
    }
}

/// Making sure that the satellite account exists asks for a provider reference for it exactly when
/// it does not exist.
pub proof fn only_a_missing_satellite_is_provided_for<T: Config>(
    check: ExistenceCheck<T::AccountId>,
    exists: bool,
    request: Option<IncProviders<T::AccountId>>,
)
    requires
        call_ensures(Pallet::<T>::ensure_satellite_account_exists, (), check),
        call_ensures(ExistenceCheck::<T::AccountId>::answered, (check, exists), request),
    ensures
        Pallet::<T>::is_satellite(check.who),
        request is None <==> exists,
        request matches Some(request) ==> request.who == check.who,
{
}

/// An upgrade costs exactly one read and one write, and no proof size. Only where their sum is more
/// than a `u64` can hold is the cost the largest there is.
pub proof fn upgrade_costs_one_read_and_one_write<T: Config>(
    db: DbWeight,
    upgrade: (ExistenceCheck<T::AccountId>, Weight),
)
    requires
        call_ensures(Pallet::<T>::on_runtime_upgrade, (db,), upgrade),
    ensures
        db.read + db.write <= u64::MAX ==> upgrade.1.ref_time == db.read + db.write,
        db.read + db.write > u64::MAX ==> upgrade.1.ref_time == u64::MAX,
        upgrade.1.proof_size == 0,
{
}

/// A number up to the largest `u64` is kept as it is, and any other becomes that.
pub proof fn numbers_are_cut_at_the_largest_u64(n: nat)
    ensures
        n <= u64::MAX ==> crate::weights::at_most_u64(n) == n,
        n > u64::MAX ==> crate::weights::at_most_u64(n) == u64::MAX,
{
}

// Fills.

/// A fill asks for exactly the amount, of the source and of nobody else, with the preservation that
/// it was given, and politely: it never overrides restrictions on the source.
pub proof fn fill_asks_politely_for_the_exact_amount<T: Config>(
    source: T::AccountId,
    amount: T::Balance,
    preservation: Preservation,
    pending: Withdrawing<T::AccountId, T::Balance>,
)
    requires
        call_ensures(
            <AccumulateInSatellite<T> as FundingSink<T::AccountId, T::Balance>>::fill,
            (&source, amount, preservation),
            pending,
        ),
    ensures
        pending.request.who == source,
        pending.request.amount == amount,
        pending.request.precision == Precision::Exact,
        pending.request.preservation == preservation,
        pending.request.fortitude == Fortitude::Polite,
        Pallet::<T>::is_satellite(pending.satellite),
{
}

/// A fill never takes what is frozen: with a currency that, when it is asked politely, takes
/// nothing of what is frozen in an account and does not reap it either, the source is left with all
/// that is frozen in it, or with all that it held.
pub proof fn fill_leaves_what_is_frozen<T: Config, E>(
    books: Books<T::AccountId, T::Balance>,
    frozen: nat,
    source: T::AccountId,
    amount: T::Balance,
    preservation: Preservation,
    pending: Withdrawing<T::AccountId, T::Balance>,
    replies: FillReplies<T::Balance, E>,
)
    requires
        call_ensures(
            <AccumulateInSatellite<T> as FundingSink<T::AccountId, T::Balance>>::fill,
            (&source, amount, preservation),
            pending,
        ),
        pending.request.fortitude == Fortitude::Polite ==> (replies.withdrawn matches Ok(credit)
            ==> replies.dust == 0 && (credit.amount.value() == 0 || credit.amount.value() + frozen
            <= books.balance(source))),
    ensures
        ({
            let after = books.fill(pending, replies);
            after.balance(source) >= frozen || after.balance(source) >= books.balance(source)
        }),
{
}

/// What a fill took goes to the satellite account whole, or is burned whole if that does not take
/// it, and the event tells of the source and the amount of the fill. Where nothing was taken,
/// nothing follows.
pub proof fn fill_hands_on_what_it_took<T: Config, E>(
    source: T::AccountId,
    amount: T::Balance,
    preservation: Preservation,
    pending: Withdrawing<T::AccountId, T::Balance>,
    withdrawn: Result<Credit<T::Balance>, E>,
    depositing: Option<Depositing<T::AccountId, T::Balance>>,
    resolved: Result<(), Credit<T::Balance>>,
    end: Filled<T::AccountId, T::Balance>,
)
    requires
        call_ensures(
            <AccumulateInSatellite<T> as FundingSink<T::AccountId, T::Balance>>::fill,
            (&source, amount, preservation),
            pending,
        ),
        call_ensures(
            Withdrawing::<T::AccountId, T::Balance>::withdrawn::<E>,
            (pending, withdrawn),
            depositing,
        ),
        depositing matches Some(depositing) ==> call_ensures(
            Depositing::<T::AccountId, T::Balance>::resolved,
            (depositing, resolved),
            end,
        ),
    ensures
        depositing is None <==> withdrawn is Err,
        depositing matches Some(depositing) ==> {
            &&& Pallet::<T>::is_satellite(depositing.request.who)
            &&& withdrawn == Ok::<Credit<T::Balance>, E>(depositing.request.credit)
            &&& end.event == Event::FundsAccumulated { from: source, amount }
            &&& end.burned is None <==> resolved is Ok
            &&& end.burned matches Some(burned) ==> resolved == Err::<(), Credit<T::Balance>>(
                burned,
            )
        },
{
}

/// Each step of a fill on its own: what was withdrawn is put into the account that is being filled,
/// and the event tells of whom it came from and how much was asked for.
pub proof fn steps_of_a_fill_keep_its_terms<A, B, E>(
    pending: Withdrawing<A, B>,
    withdrawn: Result<Credit<B>, E>,
    depositing: Option<Depositing<A, B>>,
)
    requires
        call_ensures(Withdrawing::<A, B>::withdrawn::<E>, (pending, withdrawn), depositing),
    ensures
        depositing is None <==> withdrawn is Err,
        depositing matches Some(depositing) ==> {
            &&& depositing.request.who == pending.satellite
            &&& withdrawn == Ok::<Credit<B>, E>(depositing.request.credit)
            &&& depositing.event == Event::FundsAccumulated {
                from: pending.request.who,
                amount: pending.request.amount,
            }
        },
{
}

/// The last step of a fill keeps its event, and burns exactly what came back.
pub proof fn end_of_a_fill_burns_what_came_back<A, B>(
    depositing: Depositing<A, B>,
    resolved: Result<(), Credit<B>>,
    end: Filled<A, B>,
)
    requires
        call_ensures(Depositing::<A, B>::resolved, (depositing, resolved), end),
    ensures
        end.event == depositing.event,
        end.burned is None <==> resolved is Ok,
        end.burned matches Some(burned) ==> resolved == Err::<(), Credit<B>>(burned),
{
}

// Slashes and sinks.

/// A slash leads all of the credit to the satellite account, and an empty one nowhere. What is
/// burned is all that came back, if anything did.
pub proof fn slash_leads_the_credit_to_the_satellite<T: Config>(
    credit: Credit<T::Balance>,
    request: Option<Resolve<T::AccountId, T::Balance>>,
    sure: Resolve<T::AccountId, T::Balance>,
    reply: Result<(), Credit<T::Balance>>,
    burned: Option<Credit<T::Balance>>,
)
    requires
        call_ensures(SlashToSatellite::<T>::on_unbalanced, (credit,), request),
        call_ensures(SlashToSatellite::<T>::on_nonzero_unbalanced, (credit,), sure),
        call_ensures(SlashToSatellite::<T>::resolved, (reply,), burned),
    ensures
        request is None <==> credit.amount.value() == 0,
        request matches Some(request) ==> Pallet::<T>::is_satellite(request.who) && request.credit
            == credit,
        Pallet::<T>::is_satellite(sure.who) && sure.credit == credit,
        reply is Ok ==> burned is None,
        reply matches Err(remaining) ==> {
            &&& remaining.amount.value() == 0 ==> burned is None
            &&& remaining.amount.value() != 0 ==> burned == Some(remaining)
        },
{
}

/// A sink leads all of the credit to the satellite account, and an empty one nowhere.
pub proof fn sink_leads_the_credit_to_the_satellite<T: Config, B: Balance>(
    credit: Credit<B>,
    request: Option<ResolveCreating<T::AccountId, B>>,
    sure: ResolveCreating<T::AccountId, B>,
)
    requires
        call_ensures(SinkToSatellite::<T, B>::on_unbalanced, (credit,), request),
        call_ensures(SinkToSatellite::<T, B>::on_nonzero_unbalanced, (credit,), sure),
    ensures
        request is None <==> credit.amount.value() == 0,
        request matches Some(request) ==> Pallet::<T>::is_satellite(request.who) && request.credit
            == credit,
        Pallet::<T>::is_satellite(sure.who) && sure.credit == credit,
{
}

// Fees and tips.

/// What a place in a list of credits is worth is what the credit in that place is, whatever the
/// others are.
pub proof fn worth_goes_by_place<B: Balance>(credits: Seq<Credit<B>>, index: int)
    ensures
        0 <= index < credits.len() ==> crate::handlers::value_at(credits, index)
            == credits[index].amount.value(),
        !(0 <= index < credits.len()) ==> crate::handlers::value_at(credits, index) == 0,
{
}

/// The satellite account's deposit is the percentage of the first credit of the list, rounded down,
/// whatever the credits are worth and whatever follows; from a hundred percent on it is all of the
/// first credit. Where credit times percent is more than a balance can hold, the most that it can
/// hold stands in for the product. Only an empty list is not split, and nothing is deposited
/// exactly where there is nothing to deposit.
pub proof fn satellite_gets_its_percentage_of_the_first_credit<T: Config>(
    dap_percent: u32,
    fees_then_tips: Vec<Credit<T::Balance>>,
    split: Option<FeeSplit<T::AccountId, T::Balance>>,
)
    requires
        call_ensures(
            DealWithFeesSplit::<T>::on_unbalanceds,
            (dap_percent, fees_then_tips),
            split,
        ),
    ensures
        split is None <==> fees_then_tips@.len() == 0,
        split matches Some(split) ==> {
            let fees = fees_then_tips@[0].amount.value();
            let product = fees * (dap_percent as nat);
            let max = T::Balance::max();
            let share = match split.satellite {
                Some(deposit) => deposit.credit.amount.value(),
                None => 0,
            };
            &&& split.satellite matches Some(deposit) ==> Pallet::<T>::is_satellite(deposit.who)
            &&& split.satellite is Some <==> share != 0
            &&& share <= fees
            &&& dap_percent <= 100 && product <= max ==> 100 * share <= product
                && product < 100 * (share + 1)
            &&& dap_percent >= 100 && product <= max ==> share == fees
            &&& dap_percent <= 100 && product > max ==> 100 * share <= max
                && max < 100 * (share + 1)
            &&& dap_percent >= 100 && product > max ==> dap_percent * share <= max && max
                < dap_percent * (share + 1)
        },
{
    if let Some(split) = split {
        let fees = fees_then_tips@[0].amount.value();
        let percent = dap_percent as nat;
        let product = fees * percent;
        let max = T::Balance::max();
        let share = match split.satellite {
            Some(deposit) => deposit.credit.amount.value(),
            None => 0,
        };
        let total: nat = if dap_percent <= 100 {
            100
        } else {
            percent
        };
        let kept = if product <= max {
            product
        } else {
            max
        };
        assert(share == crate::handlers::satellite_share::<T::Balance>(dap_percent, fees));
        assert(share == kept / total);
        Credit::<T::Balance>::share_is_at_most_whole(fees, percent, total);
        assert(total * share <= kept && kept < total * (share + 1)) by (nonlinear_arith)
            requires
                share == kept / total,
                0 < total,
        ;
        if dap_percent >= 100 && product <= max {
            assert(share == fees) by (nonlinear_arith)
                requires
                    share == (fees * total) / total,
                    0 < total,
            ;
        }
    }
}

/// The other handler gets what the satellite account's deposit leaves of the first credit, and all
/// of the second credit if there is one, whatever the credits are worth and whatever follows; only
/// what does not fit into a balance is cut off.
pub proof fn other_handler_gets_the_rest_and_the_second_credit<T: Config>(
    dap_percent: u32,
    fees_then_tips: Vec<Credit<T::Balance>>,
    split: Option<FeeSplit<T::AccountId, T::Balance>>,
)
    requires
        call_ensures(
            DealWithFeesSplit::<T>::on_unbalanceds,
            (dap_percent, fees_then_tips),
            split,
        ),
    ensures
        split matches Some(split) ==> {
            let fees = fees_then_tips@[0].amount.value();
            let share = match split.satellite {
                Some(deposit) => deposit.credit.amount.value(),
                None => 0,
            };
            let due = if fees_then_tips@.len() >= 2 {
                fees - share + fees_then_tips@[1].amount.value()
            } else {
                fees - share
            };
            &&& due <= T::Balance::max() ==> split.other.amount.value() == due
            &&& due > T::Balance::max() ==> split.other.amount.value() == T::Balance::max()
        },
{
    if let Some(split) = split {
        let fees = fees_then_tips@[0].amount.value();
        let tips = if fees_then_tips@.len() >= 2 {
            fees_then_tips@[1].amount.value()
        } else {
            0
        };
        let share = match split.satellite {
            Some(deposit) => deposit.credit.amount.value(),
            None => 0,
        };
        satellite_gets_its_percentage_of_the_first_credit::<T>(
            dap_percent,
            fees_then_tips,
            Some(split),
        );
        assert(share == crate::handlers::satellite_share::<T::Balance>(dap_percent, fees));
        assert(split.other.value() == crate::handlers::other_part::<T::Balance>(
            dap_percent,
            fees,
            tips,
        ));
    }
}

/// The satellite account's deposit goes by the first credit and the percentage alone, and the other
/// handler's part by the first two credits and the percentage: two lists that agree there are split
/// alike.
pub proof fn split_goes_by_the_first_two_credits<T: Config>(
    dap_percent: u32,
    first: Vec<Credit<T::Balance>>,
    second: Vec<Credit<T::Balance>>,
    a: FeeSplit<T::AccountId, T::Balance>,
    b: FeeSplit<T::AccountId, T::Balance>,
)
    requires
        call_ensures(DealWithFeesSplit::<T>::on_unbalanceds, (dap_percent, first), Some(a)),
        call_ensures(DealWithFeesSplit::<T>::on_unbalanceds, (dap_percent, second), Some(b)),
        first@.len() > 0,
        second@.len() > 0,
        first@[0].amount.value() == second@[0].amount.value(),
    ensures
        a.satellite is Some <==> b.satellite is Some,
        a.satellite is Some ==> a.satellite->Some_0.credit.amount
            == b.satellite->Some_0.credit.amount,
        first@.len() >= 2 && second@.len() >= 2 && first@[1].amount.value()
            == second@[1].amount.value() ==> a.other.amount == b.other.amount,
        first@.len() == 1 && second@.len() == 1 ==> a.other.amount == b.other.amount,
{
    T::Balance::value_identifies(a.other.amount, b.other.amount);
    if a.satellite is Some {
        T::Balance::value_identifies(
            a.satellite->Some_0.credit.amount,
            b.satellite->Some_0.credit.amount,
        );
    }
}

// Burning.

/// A direct burn asks for exactly the amount, of the source and of nobody else, with the
/// preservation that it was given, and politely.
pub proof fn direct_burn_asks_politely_for_the_exact_amount<A: Copy, B: Balance>(
    from: A,
    amount: B,
    preservation: Preservation,
    request: BurnFrom<A, B>,
)
    requires
        call_ensures(
            <DirectBurn<B, A> as FundingSink<A, B>>::fill,
            (&from, amount, preservation),
            request,
        ),
    ensures
        request.who == from,
        request.amount == amount,
        request.precision == Precision::Exact,
        request.preservation == preservation,
        request.fortitude == Fortitude::Polite,
{
}

/// A direct burn never destroys what is frozen: with a currency that, when it is asked politely,
/// takes nothing of what is frozen in an account and does not reap it either, the source is left
/// with all that is frozen in it, or with all that it held.
pub proof fn direct_burn_leaves_what_is_frozen<A: Copy, B: Balance, E>(
    books: Books<A, B>,
    frozen: nat,
    from: A,
    amount: B,
    preservation: Preservation,
    request: BurnFrom<A, B>,
    reply: Result<B, E>,
    dust: nat,
)
    requires
        call_ensures(
            <DirectBurn<B, A> as FundingSink<A, B>>::fill,
            (&from, amount, preservation),
            request,
        ),
        request.fortitude == Fortitude::Polite ==> (reply matches Ok(burned) ==> dust == 0 && (
        burned.value() == 0 || burned.value() + frozen <= books.balance(from))),
    ensures
        ({
            let after = books.burn_from(request, reply, dust);
            after.balance(from) >= frozen || after.balance(from) >= books.balance(from)
        }),
{
}

/// Handling `amount` as burned takes exactly that out of the issuance, and all of the issuance
/// where there is less.
pub proof fn handling_burned_funds_takes_the_amount<A, B: Balance>(
    who: A,
    amount: B,
    effect: ReduceIssuance<B>,
    total: B,
    left: B,
)
    requires
        call_ensures(<DirectBurn<B, A> as BurnHandler<A, B>>::on_burned, (&who, amount), effect),
        call_ensures(ReduceIssuance::<B>::apply, (effect, total), left),
    ensures
        amount.value() <= total.value() ==> left.value() + amount.value() == total.value(),
        amount.value() > total.value() ==> left.value() == 0,
{
}

// Credits.

/// Splitting a credit loses nothing, and takes off what was asked for as far as there is so much.
pub proof fn split_takes_off_what_was_asked_for<B: Balance>(
    credit: Credit<B>,
    amount: B,
    parts: (Credit<B>, Credit<B>),
)
    requires
        call_ensures(Credit::<B>::split, (credit, amount), parts),
    ensures
        parts.0.amount.value() + parts.1.amount.value() == credit.amount.value(),
        amount.value() <= credit.amount.value() ==> parts.0.amount == amount,
        amount.value() >= credit.amount.value() ==> parts.1.amount.value() == 0,
{
    B::value_identifies(parts.0.amount, amount);
}

/// Rationing a credit loses nothing, and the first part is in the ratio that was asked for, rounded
/// down. Where credit times first is more than a balance can hold, the most that it can hold stands
/// in for the product; where first and second together are more than a `u32` can hold, the most
/// that it can hold stands in for the sum. Without a ratio both parts are empty.
pub proof fn ration_keeps_the_ratio<B: Balance>(
    credit: Credit<B>,
    first: u32,
    second: u32,
    parts: (Credit<B>, Credit<B>),
)
    requires
        call_ensures(Credit::<B>::ration, (credit, first, second), parts),
    ensures
        first == 0 && second == 0 ==> parts.0.amount.value() == 0 && parts.1.amount.value() == 0,
        first != 0 || second != 0 ==> {
            let product = credit.amount.value() * (first as nat);
            let sum = first + second;
            let total = if sum <= u32::MAX {
                sum
            } else {
                u32::MAX as int
            };
            let kept = if product <= B::max() {
                product
            } else {
                B::max()
            };
            let taken = parts.0.amount.value();
            &&& taken + parts.1.amount.value() == credit.amount.value()
            &&& total * taken <= kept
            &&& kept < total * (taken + 1)
        },
{
    if first != 0 || second != 0 {
        let product = credit.amount.value() * (first as nat);
        let total: nat = if first + second <= u32::MAX {
            (first + second) as nat
        } else {
            u32::MAX as nat
        };
        let kept = if product <= B::max() {
            product
        } else {
            B::max()
        };
        let taken = parts.0.amount.value();
        assert(taken == kept / total);
        assert(total * taken <= kept && kept < total * (taken + 1)) by (nonlinear_arith)
            requires
                taken == kept / total,
                0 < total,
        ;
    }
}

/// Looking at a credit gives its amount. Trying to drop it succeeds exactly where it is worth
/// nothing, and gives it back as it was otherwise.
pub proof fn only_an_empty_credit_is_dropped<B: Balance>(
    credit: Credit<B>,
    amount: B,
    outcome: Result<(), Credit<B>>,
)
    requires
        call_ensures(Credit::<B>::peek, (&credit,), amount),
        call_ensures(Credit::<B>::try_drop, (credit,), outcome),
    ensures
        amount == credit.amount,
        outcome is Ok <==> credit.amount.value() == 0,
        outcome matches Err(back) ==> back == credit,
{
}

} // verus!
