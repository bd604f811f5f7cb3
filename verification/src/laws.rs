//! What holds of the satellite as a whole.
use crate::account::{AccountId, PalletId};
use crate::balance::Balance;
use crate::books::{Books, FillReplies};
use crate::credit::Credit;
use crate::funding::ReduceIssuance;
use crate::handlers::Withdrawing;
use crate::pallet::{Config, Event, ExistenceCheck, Pallet};
use crate::requests::{BurnFrom, Resolve, ResolveCreating};
use crate::tokens::{Precision, Preservation};
use vstd::prelude::*;

verus! {

/// A fill whose withdrawal is refused changes nothing at all.
pub proof fn refused_fill_changes_nothing<A, B: Balance, E>(
    books: Books<A, B>,
    satellite: A,
    source: A,
    amount: B,
    preservation: Preservation,
    replies: FillReplies<B, E>,
)
    requires
        replies.withdrawn is Err,
    ensures
        books.fill(Withdrawing::of(satellite, source, amount, preservation), replies) == books,
{
}

/// A fill that succeeds moves the credit from the source to the satellite account, and leaves
/// every other account and the issuance alone. What is reaped from the source goes to the handler
/// of dust. One event, if it is recorded, tells of the amount that was asked for.
pub proof fn fill_moves_funds_to_the_satellite<A, B: Balance, E>(
    books: Books<A, B>,
    satellite: A,
    source: A,
    amount: B,
    preservation: Preservation,
    replies: FillReplies<B, E>,
)
    requires
        replies.withdrawn is Ok,
        replies.resolved is Ok,
    ensures
        ({
            let credit = replies.withdrawn->Ok_0.value();
            let after = books.fill(
                Withdrawing::of(satellite, source, amount, preservation),
                replies,
            );
            &&& source != satellite ==> {
                &&& after.balance(source) == books.balance(source) - credit - replies.dust
                &&& after.balance(satellite) == books.balance(satellite) + credit
            }
            &&& source == satellite ==> after.balance(satellite) == books.balance(satellite)
                - replies.dust
            &&& forall|who: A|
                who != source && who != satellite ==> #[trigger] after.balance(who)
                    == books.balance(who)
            &&& after.issuance == books.issuance
            &&& after.dust == books.dust + replies.dust
            &&& after.minimum == books.minimum
            &&& after.events == if replies.recorded {
                books.events.push(Event::FundsAccumulated { from: source, amount })
            } else {
                books.events
            }
        }),
{
}

/// The amount that a fill tells of reaches the satellite account, as long as the currency keeps to
/// what it was asked: never less, and more only by what would have been left of the source below
/// the minimum. It is exactly the amount where the credit is worth that, where the source keeps the
/// minimum, and where the source is alive and preserved.
pub proof fn fill_delivers_the_amount<A, B: Balance, E>(
    books: Books<A, B>,
    satellite: A,
    source: A,
    amount: B,
    preservation: Preservation,
    replies: FillReplies<B, E>,
)
    requires
        source != satellite,
        replies.withdrawn is Ok,
        replies.resolved is Ok,
        books.honours(
            Withdrawing::of(satellite, source, amount, preservation).request,
            replies.withdrawn,
            replies.dust,
        ),
    ensures
        ({
            let credit = replies.withdrawn->Ok_0.value();
            let after = books.fill(
                Withdrawing::of(satellite, source, amount, preservation),
                replies,
            );
            let due = books.balance(satellite) + amount.value();
            &&& after.balance(satellite) >= due
            &&& after.balance(satellite) == due || after.balance(satellite) < due + books.minimum
            &&& credit == amount.value() ==> after.balance(satellite) == due
            &&& books.minimum <= books.balance(source) - amount.value() ==> after.balance(satellite)
                == due
            &&& preservation == Preservation::Preserve && books.minimum <= books.balance(source)
                ==> after.balance(satellite) == due
        }),
{
}

/// A fill leaves no dust where at least the minimum stays in the source. Where dust is reaped, the
/// source ends up empty.
pub proof fn fill_reaps_only_below_the_minimum<A, B: Balance, E>(
    books: Books<A, B>,
    satellite: A,
    source: A,
    amount: B,
    preservation: Preservation,
    replies: FillReplies<B, E>,
)
    requires
        source != satellite,
        replies.withdrawn is Ok,
        books.honours(
            Withdrawing::of(satellite, source, amount, preservation).request,
            replies.withdrawn,
            replies.dust,
        ),
    ensures
        ({
            let credit = replies.withdrawn->Ok_0.value();
            let after = books.fill(
                Withdrawing::of(satellite, source, amount, preservation),
                replies,
            );
            &&& books.balance(source) - credit >= books.minimum ==> after.dust == books.dust
            &&& after.dust != books.dust ==> {
                &&& after.balance(source) == 0
                &&& after.dust == books.dust + books.balance(source) - credit
            }
        }),
{
}

/// Where the handler of dust drops what it is handed, a fill that succeeds takes exactly the dust
/// out of the issuance.
pub proof fn dropped_dust_leaves_the_issuance<A, B: Balance, E>(
    books: Books<A, B>,
    satellite: A,
    source: A,
    amount: B,
    preservation: Preservation,
    replies: FillReplies<B, E>,
)
    requires
        replies.withdrawn is Ok,
        replies.resolved is Ok,
        books.dust == 0,
    ensures
        ({
            let after = books.fill(
                Withdrawing::of(satellite, source, amount, preservation),
                replies,
            ).sweep();
            &&& after.issuance == crate::books::less(books.issuance, replies.dust)
            &&& after.dust == 0
        }),
{
}

/// A fill that preserves its source never kills it: a source with at least the minimum keeps at
/// least the minimum and has nothing reaped, whatever amount is asked for and whatever becomes of
/// it, as long as the currency keeps to what it was asked.
pub proof fn preserved_source_stays_alive<A, B: Balance, E>(
    books: Books<A, B>,
    satellite: A,
    source: A,
    amount: B,
    replies: FillReplies<B, E>,
)
    requires
        books.minimum <= books.balance(source),
        books.honours(
            Withdrawing::of(satellite, source, amount, Preservation::Preserve).request,
            replies.withdrawn,
            replies.dust,
        ),
    ensures
        ({
            let after = books.fill(
                Withdrawing::of(satellite, source, amount, Preservation::Preserve),
                replies,
            );
            &&& after.balance(source) >= after.minimum
            &&& after.minimum == books.minimum
            &&& after.dust == books.dust
        }),
{
}

/// Where the satellite account does not take the credit of a fill, it is gone from the source and
/// from the issuance alike, no account gains, and the event is announced all the same.
pub proof fn fill_without_a_taker_burns<A, B: Balance, E>(
    books: Books<A, B>,
    satellite: A,
    source: A,
    amount: B,
    preservation: Preservation,
    replies: FillReplies<B, E>,
)
    requires
        replies.withdrawn is Ok,
        replies.resolved == Err::<(), Credit<B>>(replies.withdrawn->Ok_0),
    ensures
        ({
            let credit = replies.withdrawn->Ok_0.value();
            let after = books.fill(
                Withdrawing::of(satellite, source, amount, preservation),
                replies,
            );
            &&& after.balance(source) == books.balance(source) - credit - replies.dust
            &&& forall|who: A|
                who != source ==> #[trigger] after.balance(who) == books.balance(who)
            &&& after.issuance == crate::books::less(books.issuance, credit)
            &&& after.dust == books.dust + replies.dust
            &&& after.events == if replies.recorded {
                books.events.push(Event::FundsAccumulated { from: source, amount })
            } else {
                books.events
            }
        }),
{
}

/// A fill that succeeded.
pub struct Fill<A, B> {
    pub source: A,
    pub amount: B,
    pub preservation: Preservation,
    pub credit: Credit<B>,
    pub dust: nat,
    pub recorded: bool,
}

impl<A, B: Balance> Fill<A, B> {
    /// What the runtime replied in its course.
    pub open spec fn replies(self) -> FillReplies<B, ()> {
        FillReplies {
            withdrawn: Ok(self.credit),
            dust: self.dust,
            resolved: Ok(()),
            recorded: self.recorded,
        }
    }

    /// The event that tells of it.
    pub open spec fn event(self) -> Event<A, B> {
        Event::FundsAccumulated { from: self.source, amount: self.amount }
    }
}

/// The books after one successful fill after another.
pub open spec fn after_fills<A, B: Balance>(
    books: Books<A, B>,
    satellite: A,
    fills: Seq<Fill<A, B>>,
) -> Books<A, B>
    decreases fills.len(),
{
    if fills.len() == 0 {
        books
    } else {
        let fill = fills.last();
        after_fills(books, satellite, fills.drop_last()).fill(
            Withdrawing::of(satellite, fill.source, fill.amount, fill.preservation),
            fill.replies(),
        )
    }
}

/// What `who` gave in all those fills.
pub open spec fn given_by<A, B: Balance>(who: A, fills: Seq<Fill<A, B>>) -> nat
    decreases fills.len(),
{
    if fills.len() == 0 {
        0
    } else {
        given_by(who, fills.drop_last()) + if fills.last().source == who {
            fills.last().credit.value()
        } else {
            0
        }
    }
}

/// What was reaped from `who` in all those fills.
pub open spec fn reaped_from<A, B: Balance>(who: A, fills: Seq<Fill<A, B>>) -> nat
    decreases fills.len(),
{
    if fills.len() == 0 {
        0
    } else {
        reaped_from(who, fills.drop_last()) + if fills.last().source == who {
            fills.last().dust
        } else {
            0
        }
    }
}

/// What was given in all those fills.
pub open spec fn given<A, B: Balance>(fills: Seq<Fill<A, B>>) -> nat
    decreases fills.len(),
{
    if fills.len() == 0 {
        0
    } else {
        given(fills.drop_last()) + fills.last().credit.value()
    }
}

/// What was reaped in all those fills.
pub open spec fn reaped<A, B: Balance>(fills: Seq<Fill<A, B>>) -> nat
    decreases fills.len(),
{
    if fills.len() == 0 {
        0
    } else {
        reaped(fills.drop_last()) + fills.last().dust
    }
}

/// The events of those fills that were recorded, in order.
pub open spec fn recorded_events<A, B: Balance>(fills: Seq<Fill<A, B>>) -> Seq<Event<A, B>>
    decreases fills.len(),
{
    if fills.len() == 0 {
        Seq::empty()
    } else if fills.last().recorded {
        recorded_events(fills.drop_last()).push(fills.last().event())
    } else {
        recorded_events(fills.drop_last())
    }
}

/// Fills accumulate: after any number of them the satellite account has gained what all of them
/// gave but for what came from itself, every other account has lost what it gave and what was
/// reaped from it, the issuance is what it was, and the events that were recorded came in order.
pub proof fn fills_accumulate<A, B: Balance>(
    books: Books<A, B>,
    satellite: A,
    fills: Seq<Fill<A, B>>,
)
    ensures
        ({
            let after = after_fills(books, satellite, fills);
            &&& after.balance(satellite) == books.balance(satellite) + given(fills) - given_by(
                satellite,
                fills,
            ) - reaped_from(satellite, fills)
            &&& forall|who: A|
                who != satellite ==> #[trigger] after.balance(who) == books.balance(who)
                    - given_by(who, fills) - reaped_from(who, fills)
            &&& after.issuance == books.issuance
            &&& after.dust == books.dust + reaped(fills)
            &&& after.events == books.events + recorded_events(fills)
        }),
    decreases fills.len(),
{
    if fills.len() > 0 {
        let fill = fills.last();
        let before = after_fills(books, satellite, fills.drop_last());
        fills_accumulate(books, satellite, fills.drop_last());
        fill_moves_funds_to_the_satellite(
            before,
            satellite,
            fill.source,
            fill.amount,
            fill.preservation,
            fill.replies(),
        );
    }
}

/// Whether each of those fills came from elsewhere than the satellite account, by a currency that
/// kept to what it was asked.
pub open spec fn all_honoured<A, B: Balance>(
    books: Books<A, B>,
    satellite: A,
    fills: Seq<Fill<A, B>>,
) -> bool
    decreases fills.len(),
{
    fills.len() > 0 ==> {
        let fill = fills.last();
        &&& all_honoured(books, satellite, fills.drop_last())
        &&& fill.source != satellite
        &&& after_fills(books, satellite, fills.drop_last()).honours(
            Withdrawing::of(satellite, fill.source, fill.amount, fill.preservation).request,
            fill.replies().withdrawn,
            fill.dust,
        )
    }
}

/// What those fills tell of together.
pub open spec fn told<A, B: Balance>(fills: Seq<Fill<A, B>>) -> nat
    decreases fills.len(),
{
    if fills.len() == 0 {
        0
    } else {
        told(fills.drop_last()) + fills.last().amount.value()
    }
}

/// After any number of fills the satellite account has gained at least the amounts that they tell
/// of, and exactly those where each credit is worth its amount, as long as the currency keeps to
/// what it was asked.
pub proof fn fills_deliver_what_they_tell<A, B: Balance>(
    books: Books<A, B>,
    satellite: A,
    fills: Seq<Fill<A, B>>,
)
    requires
        all_honoured(books, satellite, fills),
    ensures
        ({
            let after = after_fills(books, satellite, fills);
            &&& after.balance(satellite) >= books.balance(satellite) + told(fills)
            &&& (forall|i: int|
                0 <= i < fills.len() ==> (#[trigger] fills[i]).credit.value()
                    == fills[i].amount.value()) ==> after.balance(satellite) == books.balance(
                satellite,
            ) + told(fills)
        }),
    decreases fills.len(),
{
    if fills.len() > 0 {
        let fill = fills.last();
        let rest = fills.drop_last();
        fills_deliver_what_they_tell(books, satellite, rest);
        fill_delivers_the_amount(
            after_fills(books, satellite, rest),
            satellite,
            fill.source,
            fill.amount,
            fill.preservation,
            fill.replies(),
        );
        assert(fill == fills[fills.len() - 1]);
        assert(forall|i: int| 0 <= i < rest.len() ==> (#[trigger] rest[i]) == fills[i]);
    }
}

/// Where every event is recorded, there is one for each fill, with its source and its amount.
pub proof fn every_fill_is_told_of<A, B: Balance>(fills: Seq<Fill<A, B>>)
    requires
        forall|i: int| 0 <= i < fills.len() ==> (#[trigger] fills[i]).recorded,
    ensures
        recorded_events(fills) == fills.map_values(|fill: Fill<A, B>| fill.event()),
    decreases fills.len(),
{
    if fills.len() > 0 {
        assert forall|i: int| 0 <= i < fills.drop_last().len() implies (
        #[trigger] fills.drop_last()[i]).recorded by {
            assert(fills.drop_last()[i] == fills[i]);
        }
        every_fill_is_told_of(fills.drop_last());
        assert(fills.last() == fills[fills.len() - 1]);
    }
    assert(recorded_events(fills) =~= fills.map_values(|fill: Fill<A, B>| fill.event()));
}

/// A slash that the satellite account takes adds all of the credit to it; it changes no other
/// account and not the issuance, and deposits no event.
pub proof fn slash_reaches_the_satellite<A, B: Balance>(
    books: Books<A, B>,
    satellite: A,
    credit: Credit<B>,
)
    ensures
        ({
            let after = books.slash(Resolve::to(satellite, credit), Ok(()));
            &&& after.balance(satellite) == books.balance(satellite) + credit.value()
            &&& forall|who: A|
                who != satellite ==> #[trigger] after.balance(who) == books.balance(who)
            &&& after.issuance == books.issuance
            &&& after.events == books.events
        }),
{
}

/// A slash that the satellite account does not take is burned: no account changes, the issuance
/// goes down by the credit, though not below nothing, and no event is deposited.
pub proof fn slash_without_a_taker_burns<A, B: Balance>(
    books: Books<A, B>,
    satellite: A,
    credit: Credit<B>,
)
    ensures
        books.slash(Resolve::to(satellite, credit), Err(credit)) == (Books {
            issuance: crate::books::less(books.issuance, credit.value()),
            ..books
        }),
{
}

/// The books after one slash after another, all of them taken by the satellite account.
pub open spec fn after_slashes<A, B: Balance>(
    books: Books<A, B>,
    satellite: A,
    credits: Seq<Credit<B>>,
) -> Books<A, B>
    decreases credits.len(),
{
    if credits.len() == 0 {
        books
    } else {
        after_slashes::<A, B>(books, satellite, credits.drop_last()).slash(
            Resolve::to(satellite, credits.last()),
            Ok(()),
        )
    }
}

/// What credits are worth together.
pub open spec fn worth<B: Balance>(credits: Seq<Credit<B>>) -> nat
    decreases credits.len(),
{
    if credits.len() == 0 {
        0
    } else {
        worth(credits.drop_last()) + credits.last().value()
    }
}

/// Slashes accumulate: after any number of them the satellite account has gained what they were
/// worth together and no other account has changed.
pub proof fn slashes_accumulate<A, B: Balance>(
    books: Books<A, B>,
    satellite: A,
    credits: Seq<Credit<B>>,
)
    ensures
        ({
            let after = after_slashes::<A, B>(books, satellite, credits);
            &&& after.balance(satellite) == books.balance(satellite) + worth(credits)
            &&& forall|who: A|
                who != satellite ==> #[trigger] after.balance(who) == books.balance(who)
            &&& after.issuance == books.issuance
            &&& after.events == books.events
        }),
    decreases credits.len(),
{
    if credits.len() > 0 {
        slashes_accumulate::<A, B>(books, satellite, credits.drop_last());
        slash_reaches_the_satellite::<A, B>(
            after_slashes::<A, B>(books, satellite, credits.drop_last()),
            satellite,
            credits.last(),
        );
    }
}

/// A sink adds what arrives of the credit to the satellite account and burns the rest; it changes
/// no other account and deposits no event. Where all of it arrives, the issuance is what it was.
pub proof fn sink_reaches_the_satellite<A, B: Balance>(
    books: Books<A, B>,
    satellite: A,
    credit: Credit<B>,
    deposited: nat,
)
    requires
        deposited <= credit.value(),
    ensures
        ({
            let after = books.sink(ResolveCreating::to(satellite, credit), deposited);
            &&& after.balance(satellite) == books.balance(satellite) + deposited
            &&& forall|who: A|
                who != satellite ==> #[trigger] after.balance(who) == books.balance(who)
            &&& after.issuance == crate::books::less(
                books.issuance,
                (credit.value() - deposited) as nat,
            )
            &&& deposited == credit.value() ==> after.issuance == books.issuance
            &&& after.dust == books.dust
            &&& after.events == books.events
        }),
{
}

/// A sink of which nothing arrives burns all of the credit: no account holds more or less than
/// before, and the rest is as if the credit had been let go of.
pub proof fn sink_without_a_taker_burns<A, B: Balance>(
    books: Books<A, B>,
    satellite: A,
    credit: Credit<B>,
)
    ensures
        ({
            let after = books.sink(ResolveCreating::to(satellite, credit), 0);
            let dropped = books.let_go(Some(credit));
            &&& forall|who: A| #[trigger] after.balance(who) == dropped.balance(who)
            &&& after == (Books { balances: after.balances, ..dropped })
        }),
{
}

/// The books after one sink after another, each with what arrived of it.
pub open spec fn after_sinks<A, B: Balance>(
    books: Books<A, B>,
    satellite: A,
    sinks: Seq<(Credit<B>, nat)>,
) -> Books<A, B>
    decreases sinks.len(),
{
    if sinks.len() == 0 {
        books
    } else {
        let (credit, deposited) = sinks.last();
        after_sinks(books, satellite, sinks.drop_last()).sink(
            ResolveCreating::to(satellite, credit),
            deposited,
        )
    }
}

/// What arrived in all those sinks.
pub open spec fn arrived<B: Balance>(sinks: Seq<(Credit<B>, nat)>) -> nat
    decreases sinks.len(),
{
    if sinks.len() == 0 {
        0
    } else {
        arrived(sinks.drop_last()) + sinks.last().1
    }
}

/// What did not arrive in all those sinks.
pub open spec fn missed<B: Balance>(sinks: Seq<(Credit<B>, nat)>) -> nat
    decreases sinks.len(),
{
    if sinks.len() == 0 {
        0
    } else {
        missed(sinks.drop_last()) + crate::books::less(
            sinks.last().0.value(),
            sinks.last().1,
        )
    }
}

/// Sinks accumulate: after any number of them the satellite account has gained what arrived
/// together, what did not is gone from the issuance, and no other account has changed.
pub proof fn sinks_accumulate<A, B: Balance>(
    books: Books<A, B>,
    satellite: A,
    sinks: Seq<(Credit<B>, nat)>,
)
    requires
        forall|i: int| 0 <= i < sinks.len() ==> (#[trigger] sinks[i]).1 <= sinks[i].0.value(),
    ensures
        ({
            let after = after_sinks(books, satellite, sinks);
            &&& after.balance(satellite) == books.balance(satellite) + arrived(sinks)
            &&& forall|who: A|
                who != satellite ==> #[trigger] after.balance(who) == books.balance(who)
            &&& after.issuance == crate::books::less(books.issuance, missed(sinks))
            &&& after.dust == books.dust
            &&& after.events == books.events
        }),
    decreases sinks.len(),
{
    if sinks.len() > 0 {
        let before = after_sinks(books, satellite, sinks.drop_last());
        let (credit, deposited) = sinks.last();
        assert(sinks.last() == sinks[sinks.len() - 1]);
        assert forall|i: int| 0 <= i < sinks.drop_last().len() implies (
        #[trigger] sinks.drop_last()[i]).1 <= sinks.drop_last()[i].0.value() by {
            assert(sinks.drop_last()[i] == sinks[i]);
        }
        sinks_accumulate(books, satellite, sinks.drop_last());
        sink_reaches_the_satellite(before, satellite, credit, deposited);
    }
}

/// Fees and tips are parted without loss or gain: as long as they fit together, what goes to the
/// satellite account and what goes to the other handler make up both, and the satellite account
/// never gets more than the fees.
pub proof fn fees_and_tips_are_kept<B: Balance>(dap_percent: u32, fees: B, tips: nat)
    requires
        fees.value() + tips <= B::max(),
    ensures
        crate::handlers::satellite_share::<B>(dap_percent, fees.value()) <= fees.value(),
        crate::handlers::satellite_share::<B>(dap_percent, fees.value())
            + crate::handlers::other_part::<B>(dap_percent, fees.value(), tips) == fees.value()
            + tips,
{
    Credit::<B>::share_is_at_most_whole(
        fees.value(),
        dap_percent as nat,
        if dap_percent <= 100 {
            100
        } else {
            dap_percent as nat
        },
    );
}

/// Tips go to the other handler in full: as long as they fit, it gets the tips on top of what it
/// would get of the fees alone.
pub proof fn tips_go_to_the_other_handler<B: Balance>(dap_percent: u32, fees: B, tips: nat)
    requires
        fees.value() + tips <= B::max(),
    ensures
        crate::handlers::other_part::<B>(dap_percent, fees.value(), tips)
            == crate::handlers::other_part::<B>(dap_percent, fees.value(), 0) + tips,
{
    fees_and_tips_are_kept::<B>(dap_percent, fees, tips);
}

/// At zero percent the satellite account gets nothing of the fees.
pub proof fn zero_percent_leaves_the_fees<B: Balance>(fees: nat)
    ensures
        crate::handlers::satellite_share::<B>(0, fees) == 0,
{
    assert(fees * 0 == 0);
    assert(0nat / 100nat == 0);
}

/// At a hundred percent or more the satellite account gets all of the fees, as long as fees times
/// percent fits into a balance.
pub proof fn full_percent_takes_the_fees<B: Balance>(dap_percent: u32, fees: nat)
    requires
        dap_percent >= 100,
        fees * dap_percent as nat <= B::max(),
    ensures
        crate::handlers::satellite_share::<B>(dap_percent, fees) == fees,
{
    let parts = dap_percent as nat;
    assert(fees * parts / parts == fees) by (nonlinear_arith)
        requires
            parts > 0,
    ;
}

/// Up to a hundred percent the satellite account's share is the percentage of the fees rounded
/// down, as long as fees times percent fits into a balance.
pub proof fn share_is_the_percentage_rounded_down<B: Balance>(dap_percent: u32, fees: nat)
    requires
        dap_percent <= 100,
        fees * dap_percent as nat <= B::max(),
    ensures
        ({
            let share = crate::handlers::satellite_share::<B>(dap_percent, fees);
            100 * share <= fees * (dap_percent as nat) < 100 * (share + 1)
        }),
{
    let product = fees * (dap_percent as nat);
    assert(crate::handlers::satellite_share::<B>(dap_percent, fees) == product / 100);
}

/// Up to a hundred percent, a larger percentage never gives the satellite account less.
pub proof fn share_grows_with_the_percentage<B: Balance>(lower: u32, higher: u32, fees: nat)
    requires
        lower <= higher <= 100,
    ensures
        crate::handlers::satellite_share::<B>(lower, fees)
            <= crate::handlers::satellite_share::<B>(higher, fees),
{
    let low = fees * (lower as nat);
    let high = fees * (higher as nat);
    let max = B::max();
    assert(low <= high) by (nonlinear_arith)
        requires
            low == fees * (lower as nat),
            high == fees * (higher as nat),
            lower <= higher,
    ;
    assert(crate::handlers::satellite_share::<B>(lower, fees) == if low <= max {
        low / 100
    } else {
        max / 100
    });
    assert(crate::handlers::satellite_share::<B>(higher, fees) == if high <= max {
        high / 100
    } else {
        max / 100
    });
}

/// The accounts that exist, each with its provider references, after it was made sure that the
/// satellite account does.
pub open spec fn after_ensuring<A>(
    providers: Map<A, nat>,
    check: ExistenceCheck<A>,
) -> Map<A, nat> {
    match check.follow_up(providers.dom().contains(check.who)) {
        Some(request) => crate::books::inc_providers(providers, request),
        None => providers,
    }
}

/// Once it was made sure that the satellite account exists, it does: with one provider reference
/// if it did not before, and with as many as it had if it did. No other account has changed. Making
/// sure again changes nothing and asks for no provider reference.
pub proof fn ensuring_is_idempotent<A>(providers: Map<A, nat>, check: ExistenceCheck<A>)
    ensures
        ({
            let after = after_ensuring(providers, check);
            &&& after.dom() == providers.dom().insert(check.who)
            &&& after == if providers.dom().contains(check.who) {
                providers
            } else {
                providers.insert(check.who, 1)
            }
            &&& after_ensuring(after, check) == after
            &&& check.follow_up(after.dom().contains(check.who)) is None
        }),
{
    if providers.dom().contains(check.who) {
        assert(providers.dom().insert(check.who) =~= providers.dom());
    }
}

/// Two pallets share an account if and only if their identifiers agree in the bytes that fit into
/// the account behind the four bytes of the type identifier.
pub proof fn accounts_coincide_where_the_fitting_bytes_do<A: AccountId>(
    first: PalletId,
    second: PalletId,
    a: A,
    b: A,
)
    requires
        a.encoded() == first.account_bytes(A::width()),
        b.encoded() == second.account_bytes(A::width()),
    ensures
        a == b <==> forall|i: int|
            0 <= i < 8 && i + 4 < A::width() ==> #[trigger] first.0@[i] == second.0@[i],
{
    A::encoding_identifies(a, b);
    if a == b {
        assert forall|i: int| 0 <= i < 8 && i + 4 < A::width() implies #[trigger] first.0@[i]
            == second.0@[i] by {
            assert(first.account_bytes(A::width())[i + 4] == first.0@[i]);
            assert(second.account_bytes(A::width())[i + 4] == second.0@[i]);
        }
    }
    if forall|i: int| 0 <= i < 8 && i + 4 < A::width() ==> #[trigger] first.0@[i] == second.0@[i] {
        assert forall|j: int| 0 <= j < A::width() implies #[trigger] first.account_bytes(A::width())[j]
            == second.account_bytes(A::width())[j] by {
            if 4 <= j < 12 {
                assert(first.0@[j - 4] == second.0@[j - 4]);
            }
        }
        assert(a.encoded() =~= b.encoded());
    }
}

/// In accounts of twelve bytes or more, pallets with different identifiers have different
/// accounts.
pub proof fn unique_identifiers_have_unique_accounts<A: AccountId>(
    first: PalletId,
    second: PalletId,
    a: A,
    b: A,
)
    requires
        A::width() >= 12,
        a.encoded() == first.account_bytes(A::width()),
        b.encoded() == second.account_bytes(A::width()),
        first != second,
    ensures
        a != b,
{
    accounts_coincide_where_the_fitting_bytes_do(first, second, a, b);
    if a == b {
        assert(first.0 =~= second.0);
    }
}

/// A satellite has one account, as long as its configuration gives one identifier.
pub proof fn satellite_account_is_one<T: Config>(a: T::AccountId, b: T::AccountId)
    requires
        forall|i: PalletId, j: PalletId| #[trigger]
            call_ensures(T::pallet_id, (), i) && #[trigger] call_ensures(T::pallet_id, (), j)
                ==> i == j,
        Pallet::<T>::is_satellite(a),
        Pallet::<T>::is_satellite(b),
    ensures
        a == b,
{
    T::AccountId::encoding_identifies(a, b);
}

/// A burn that is refused changes nothing. One that is not takes what it burned from the account
/// and from the issuance, hands what is reaped from the account to the handler of dust, changes no
/// other account, and deposits no event.
pub proof fn direct_burn_takes_funds_and_issuance<A, B: Balance, E>(
    books: Books<A, B>,
    request: BurnFrom<A, B>,
    burned: B,
    dust: nat,
    error: E,
)
    ensures
        books.burn_from(request, Err::<B, E>(error), dust) == books,
        ({
            let after = books.burn_from(request, Ok::<B, E>(burned), dust);
            &&& after.balance(request.who) == books.balance(request.who) - burned.value() - dust
            &&& forall|who: A|
                who != request.who ==> #[trigger] after.balance(who) == books.balance(who)
            &&& after.issuance == crate::books::less(books.issuance, burned.value())
            &&& after.dust == books.dust + dust
            &&& after.events == books.events
        }),
{
}

/// An exact burn is all or nothing, as long as the currency keeps to what it was asked: either
/// nothing changes, or exactly the amount leaves the issuance and the account. On top of that the
/// account loses what is reaped from it, which is nothing where it keeps the minimum or is emptied
/// by the amount itself.
pub proof fn exact_burn_is_all_or_nothing<A, B: Balance, E>(
    books: Books<A, B>,
    request: BurnFrom<A, B>,
    reply: Result<B, E>,
    dust: nat,
)
    requires
        request.precision == Precision::Exact,
        books.honours_burn(request, reply, dust),
    ensures
        ({
            let amount = request.amount.value();
            let left = books.balance(request.who) - amount;
            let after = books.burn_from(request, reply, dust);
            &&& reply is Err ==> after == books
            &&& reply is Ok ==> {
                &&& after.issuance == books.issuance - amount
                &&& after.balance(request.who) == left - dust
                &&& after.dust == books.dust + dust
                &&& left >= books.minimum || left == 0 ==> after.balance(request.who) == left
                &&& forall|who: A|
                    who != request.who ==> #[trigger] after.balance(who) == books.balance(who)
                &&& after.events == books.events
            }
        }),
{
}

/// A burn that preserves its account never kills it: an account with at least the minimum keeps at
/// least the minimum and has nothing reaped, as long as the currency keeps to what it was asked.
pub proof fn preserved_account_survives_a_burn<A, B: Balance, E>(
    books: Books<A, B>,
    request: BurnFrom<A, B>,
    reply: Result<B, E>,
    dust: nat,
)
    requires
        request.preservation == Preservation::Preserve,
        books.minimum <= books.balance(request.who),
        reply matches Ok(burned) ==> books.may_take(
            request.who,
            burned.value(),
            request.preservation,
            dust,
        ),
    ensures
        ({
            let after = books.burn_from(request, reply, dust);
            &&& after.balance(request.who) >= after.minimum
            &&& after.minimum == books.minimum
            &&& after.dust == books.dust
        }),
{
}

/// Funds that were taken out of an account and are then handled as burned are gone as if they had
/// been burned from the account at once.
pub proof fn handling_burned_funds_completes_a_burn<A, B: Balance, E>(
    books: Books<A, B>,
    request: BurnFrom<A, B>,
    effect: ReduceIssuance<B>,
    dust: nat,
)
    ensures
        ({
            let taken = books.take_from(request.who, effect.amount.value(), dust);
            Books { issuance: effect.left_of(taken.issuance), ..taken }
        }) == books.burn_from(request, Ok::<B, E>(effect.amount), dust),
{
}

/// Burning never adds to the issuance.
pub proof fn burning_never_issues<B: Balance>(burn: ReduceIssuance<B>, total: nat)
    ensures
        burn.left_of(total) <= total,
{
}

/// Burning twice leaves what burning both amounts at once leaves, in either order.
pub proof fn burns_add_up<B: Balance>(
    first: ReduceIssuance<B>,
    second: ReduceIssuance<B>,
    total: nat,
)
    ensures
        second.left_of(first.left_of(total)) == if total >= first.amount.value()
            + second.amount.value() {
            (total - first.amount.value() - second.amount.value()) as nat
        } else {
            0
        },
        second.left_of(first.left_of(total)) == first.left_of(second.left_of(total)),
{
}

} // verus!
