//! What holds of the operations taken together, stated over the outcomes
//! and final contexts that the operations' contracts name.

use crate::accounts::{fee_of, BuyListing, CancelListing, CreateListing};
use crate::constants::BASIS_POINTS;
use crate::state::{listing_open, slot_consistent, ErrorCode, Marketplace};
use vstd::prelude::*;

verus! {

/// The fee never exceeds the price while the rate is at most one whole.
pub proof fn fee_within_price(price: nat, fee_rate: nat)
    requires
        fee_rate <= BASIS_POINTS,
    ensures
        fee_of(price, fee_rate) <= price,
{
    assert(price * fee_rate / 10000 <= price) by (nonlinear_arith)
        requires
            fee_rate <= 10000,
    ;
}

/// Conservation: in a successful purchase the buyer is debited exactly the
/// price, the treasury is credited exactly the fee, the price times the rate
/// over 10000 rounded down, and the seller exactly the rest, so that the
/// debit equals the two credits together.
pub proof fn purchase_conserves_funds(ctx: BuyListing)
    requires
        ctx.marketplace.wf(),
        ctx.outcome() is Ok,
    ensures
        ctx.buyer.lamports - ctx.after().buyer.lamports == ctx.price(),
        ctx.after().treasury.lamports - ctx.treasury.lamports == ctx.price()
            * ctx.marketplace.fee_rate / 10000,
        ctx.after().seller.lamports - ctx.seller.lamports == ctx.price() - ctx.price()
            * ctx.marketplace.fee_rate / 10000,
        ctx.buyer.lamports - ctx.after().buyer.lamports == (ctx.after().treasury.lamports
            - ctx.treasury.lamports) + (ctx.after().seller.lamports - ctx.seller.lamports),
{
    fee_within_price(ctx.price(), ctx.marketplace.fee_rate as nat);
}

/// Exclusivity, after a purchase: once a purchase has succeeded the listing
/// is gone, and every later purchase or cancellation aimed at it fails with
/// `ListingNotActive`, whoever attempts it.
pub proof fn closed_by_purchase(first: BuyListing, later_buy: BuyListing, later_cancel: CancelListing)
    requires
        first.outcome() is Ok,
        later_buy.listing == first.after().listing,
        later_cancel.listing == first.after().listing,
    ensures
        first.after().listing is None,
        later_buy.outcome() == Err::<(), ErrorCode>(ErrorCode::ListingNotActive),
        later_cancel.outcome() == Err::<(), ErrorCode>(ErrorCode::ListingNotActive),
{
}

/// Exclusivity, after a cancellation: once a cancellation has succeeded the
/// listing is gone, and every later purchase or cancellation aimed at it
/// fails with `ListingNotActive`, whoever attempts it.
pub proof fn closed_by_cancellation(
    first: CancelListing,
    later_buy: BuyListing,
    later_cancel: CancelListing,
)
    requires
        first.outcome() is Ok,
        later_buy.listing == first.after().listing,
        later_cancel.listing == first.after().listing,
    ensures
        first.after().listing is None,
        later_buy.outcome() == Err::<(), ErrorCode>(ErrorCode::ListingNotActive),
        later_cancel.outcome() == Err::<(), ErrorCode>(ErrorCode::ListingNotActive),
{
}

/// No self-trade: a purchase of an open listing by its own seller fails
/// with `CannotBuyOwnListing`, whatever the balances, the fee rate and the
/// trade counter are, and changes nothing.
pub proof fn no_self_trade(ctx: BuyListing)
    requires
        listing_open(ctx.listing),
        ctx.listing->Some_0.seller == ctx.buyer.key,
    ensures
        ctx.outcome() == Err::<(), ErrorCode>(ErrorCode::CannotBuyOwnListing),
        ctx.after() == ctx,
{
}

/// Authorization: a cancellation of an open listing by anyone but its
/// seller fails with `Unauthorized` and changes nothing. Being the authority
/// of the marketplace makes no difference.
pub proof fn only_seller_cancels(ctx: CancelListing, marketplace: Marketplace)
    requires
        listing_open(ctx.listing),
        ctx.listing->Some_0.seller != ctx.seller.key,
    ensures
        ctx.outcome() == Err::<(), ErrorCode>(ErrorCode::Unauthorized),
        ctx.after() == ctx,
{
}

/// Existence and activity go together: an operation that is handed a slot
/// that is empty or holds an active listing leaves it empty or holding an
/// active listing, whether it succeeds or fails. A listing that was created
/// is active, and one that was bought or cancelled is gone.
pub proof fn slots_stay_consistent(
    create: CreateListing,
    price: u64,
    buy: BuyListing,
    cancel: CancelListing,
)
    requires
        slot_consistent(create.listing),
        slot_consistent(buy.listing),
        slot_consistent(cancel.listing),
    ensures
        slot_consistent(create.after(price).listing),
        slot_consistent(buy.after().listing),
        slot_consistent(cancel.after().listing),
        create.outcome() is Ok ==> listing_open(create.after(price).listing),
        buy.outcome() is Ok ==> buy.after().listing is None,
        cancel.outcome() is Ok ==> cancel.after().listing is None,
{
}

/// The marketplace record after a run of purchase attempts, each made on
/// the record as the attempt before it left it.
pub open spec fn marketplace_after(start: Marketplace, attempts: Seq<BuyListing>) -> Marketplace
    decreases attempts.len(),
{
    if attempts.len() == 0 {
        start
    } else {
        let before = marketplace_after(start, attempts.drop_last());
        attempts.last().with_marketplace(before).after().marketplace
    }
}

/// How many attempts of such a run succeed.
pub open spec fn purchases_made(start: Marketplace, attempts: Seq<BuyListing>) -> nat
    decreases attempts.len(),
{
    if attempts.len() == 0 {
        0
    } else {
        let before = marketplace_after(start, attempts.drop_last());
        let made = purchases_made(start, attempts.drop_last());
        if attempts.last().with_marketplace(before).outcome() is Ok {
            made + 1
        } else {
            made
        }
    }
}

/// Counter monotonicity: after any run of purchase attempts the trade
/// counter has grown by exactly the number of attempts that succeeded, so it
/// never falls and a failed attempt never moves it. The authority and the
/// fee rate stay as they were.
pub proof fn counter_counts_purchases(start: Marketplace, attempts: Seq<BuyListing>)
    ensures
        marketplace_after(start, attempts).total_trades == start.total_trades + purchases_made(
            start,
            attempts,
        ),
        marketplace_after(start, attempts).total_trades >= start.total_trades,
        purchases_made(start, attempts) <= attempts.len(),
        marketplace_after(start, attempts).authority == start.authority,
        marketplace_after(start, attempts).fee_rate == start.fee_rate,
    decreases attempts.len(),
{
    if attempts.len() > 0 {
        counter_counts_purchases(start, attempts.drop_last());
    }
}

} // verus!
