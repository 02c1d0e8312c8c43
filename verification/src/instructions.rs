//! The four operations of the marketplace. Each either succeeds and leaves
//! the context as its contract says, or fails with the error that its
//! outcome names and leaves the context untouched.

use crate::accounts::{fee_of, BuyListing, CancelListing, CreateListing, Initialize};
use crate::constants::{BASIS_POINTS, DEFAULT_FEE_RATE};
use crate::keys::same_key;
use crate::state::{ErrorCode, Listing, Marketplace};
use vstd::prelude::*;

verus! {

/// The fee on `price` at `fee_rate` basis points, rounded down. The
/// product is taken in 128 bits, so no price is too large.
pub fn fee_for(price: u64, fee_rate: u64) -> (fee: u64)
    requires
        fee_rate <= BASIS_POINTS,
    ensures
        fee == fee_of(price as nat, fee_rate as nat),
        fee <= price,
{
    assert(price * fee_rate <= u64::MAX * 10000) by (nonlinear_arith)
        requires
            price <= u64::MAX,
            fee_rate <= 10000,
    ;
    let product: u128 = (price as u128) * (fee_rate as u128);
    let fee: u128 = product / (BASIS_POINTS as u128);
    assert(fee <= price) by (nonlinear_arith)
        requires
            fee == (price as int * fee_rate as int) / 10000,
            fee_rate <= 10000,
    ;
    fee as u64
}

/// Creates the marketplace record with the caller as its authority, the
/// default fee rate and no trades.
pub fn initialize(ctx: &mut Initialize) -> (result: Result<(), ErrorCode>)
    ensures
        result == old(ctx).outcome(),
        result is Ok ==> final(ctx).marketplace == Some(old(ctx).created()),
        result is Ok ==> final(ctx).marketplace->Some_0.wf(),
        result is Err ==> final(ctx).marketplace == old(ctx).marketplace,
        final(ctx).authority == old(ctx).authority,
        *final(ctx) == old(ctx).after(),
{
    if ctx.marketplace.is_some() {
        return Err(ErrorCode::AlreadyInitialized);
    }
    ctx.marketplace = Some(
        Marketplace { authority: ctx.authority.key, fee_rate: DEFAULT_FEE_RATE, total_trades: 0 },
    );
    Ok(())
}

/// Posts the seller's listing at `price`. Any price is taken: the bounds
/// `MIN_PRICE` and `MAX_PRICE` are not enforced here.
pub fn create_listing(ctx: &mut CreateListing, price: u64) -> (result: Result<(), ErrorCode>)
    ensures
        result == old(ctx).outcome(),
        result is Ok ==> final(ctx).listing == Some(old(ctx).created(price)),
        result is Err ==> final(ctx).listing == old(ctx).listing,
        final(ctx).seller == old(ctx).seller,
        *final(ctx) == old(ctx).after(price),
{
    if ctx.listing.is_some() {
        return Err(ErrorCode::AlreadyInitialized);
    }
    ctx.listing = Some(Listing { seller: ctx.seller.key, price, is_active: true });
    Ok(())
}

/// Executes a purchase: the buyer pays the price, the treasury receives the
/// fee and the seller the rest, the listing is destroyed and the trade is
/// counted. All of it happens, or nothing does: the transfers are made on
/// copies of the wallets, which replace the wallets only once every step has
/// succeeded. The marketplace record must be well formed, as `initialize`
/// makes it and every purchase leaves it.
pub fn buy_listing(ctx: &mut BuyListing) -> (result: Result<(), ErrorCode>)
    requires
        old(ctx).marketplace.wf(),
    ensures
        result == old(ctx).outcome(),
        result is Ok ==> *final(ctx) == old(ctx).settled(),
        result is Err ==> *final(ctx) == *old(ctx),
        *final(ctx) == old(ctx).after(),
        final(ctx).marketplace.wf(),
{
    let listing = match ctx.listing {
        Some(listing) => listing,
        None => {
            return Err(ErrorCode::ListingNotActive);
        },
    };
    if !listing.is_active {
        return Err(ErrorCode::ListingNotActive);
    }
    if same_key(&listing.seller, &ctx.buyer.key) {
        return Err(ErrorCode::CannotBuyOwnListing);
    }
    let price: u64 = listing.price;
    let fee: u64 = fee_for(price, ctx.marketplace.fee_rate);
    let seller_amount: u64 = price - fee;
    let mut buyer = ctx.buyer;
    let mut seller = ctx.seller;
    let mut treasury = ctx.treasury;
    match buyer.debit(price) {
        Ok(()) => {},
        Err(refusal) => {
            return Err(refusal);
        },
    }
    match seller.credit(seller_amount) {
        Ok(()) => {},
        Err(refusal) => {
            return Err(refusal);
        },
    }
    match treasury.credit(fee) {
        Ok(()) => {},
        Err(refusal) => {
            return Err(refusal);
        },
    }
    if ctx.marketplace.total_trades == u64::MAX {
        return Err(ErrorCode::Overflow);
    }
    ctx.buyer = buyer;
    ctx.seller = seller;
    ctx.treasury = treasury;
    ctx.listing = None;
    ctx.marketplace.total_trades = ctx.marketplace.total_trades + 1;
    Ok(())
}

/// Withdraws an unsold listing: the listing is destroyed and no funds move.
pub fn cancel_listing(ctx: &mut CancelListing) -> (result: Result<(), ErrorCode>)
    ensures
        result == old(ctx).outcome(),
        result is Ok ==> final(ctx).listing is None,
        result is Err ==> final(ctx).listing == old(ctx).listing,
        final(ctx).seller == old(ctx).seller,
        *final(ctx) == old(ctx).after(),
{
    let listing = match ctx.listing {
        Some(listing) => listing,
        None => {
            return Err(ErrorCode::ListingNotActive);
        },
    };
    if !listing.is_active {
        return Err(ErrorCode::ListingNotActive);
    }
    if !same_key(&listing.seller, &ctx.seller.key) {
        return Err(ErrorCode::Unauthorized);
    }
    ctx.listing = None;
    Ok(())
}

} // verus!
