//! The persistent records, the balances that operations move funds between,
//! and the errors that operations fail with.

use crate::constants::MAX_FEE_RATE;
use anchor_lang::prelude::Pubkey;
use vstd::prelude::*;

verus! {

/// The single marketplace record: who set it up, the fee taken from each
/// purchase, and how many purchases have completed.
#[derive(Clone, Copy, Debug, PartialEq, Eq)]
pub struct Marketplace {
    pub authority: Pubkey,
    pub fee_rate: u64,
    pub total_trades: u64,
}

impl Marketplace {
    /// The fee rate never exceeds `MAX_FEE_RATE`.
    pub open spec fn wf(&self) -> bool {
        self.fee_rate <= MAX_FEE_RATE
    }
}

/// One seller's open offer to sell at a fixed price.
#[derive(Clone, Copy, Debug, PartialEq, Eq)]
pub struct Listing {
    pub seller: Pubkey,
    pub price: u64,
    pub is_active: bool,
}

/// An identity together with the funds it holds, in lamports.
#[derive(Clone, Copy, Debug, PartialEq, Eq)]
pub struct Wallet {
    pub key: Pubkey,
    pub lamports: u64,
}

impl Wallet {
    /// Takes `amount` out of the wallet. A wallet that holds less refuses
    /// with `InsufficientFunds` and stays as it was.
    pub fn debit(&mut self, amount: u64) -> (result: Result<(), ErrorCode>)
        ensures
            result == (if old(self).lamports < amount {
                Err::<(), ErrorCode>(ErrorCode::InsufficientFunds)
            } else {
                Ok::<(), ErrorCode>(())
            }),
            result is Ok ==> final(self).lamports == old(self).lamports - amount,
            result is Err ==> final(self).lamports == old(self).lamports,
            final(self).key == old(self).key,
    {
        if self.lamports < amount {
            return Err(ErrorCode::InsufficientFunds);
        }
        self.lamports = self.lamports - amount;
        Ok(())
    }

    /// Puts `amount` into the wallet. Where the sum would exceed `u64::MAX`
    /// the wallet refuses with `Overflow` and stays as it was.
    pub fn credit(&mut self, amount: u64) -> (result: Result<(), ErrorCode>)
        ensures
            result == (if old(self).lamports + amount > u64::MAX {
                Err::<(), ErrorCode>(ErrorCode::Overflow)
            } else {
                Ok::<(), ErrorCode>(())
            }),
            result is Ok ==> final(self).lamports == old(self).lamports + amount,
            result is Err ==> final(self).lamports == old(self).lamports,
            final(self).key == old(self).key,
    {
        if amount > u64::MAX - self.lamports {
            return Err(ErrorCode::Overflow);
        }
        self.lamports = self.lamports + amount;
        Ok(())
    }
}

/// Why an operation was refused. A refused operation changes nothing.
#[derive(Clone, Copy, Debug, PartialEq, Eq, Structural)]
pub enum ErrorCode {
    /// The listing was already bought or cancelled.
    ListingNotActive,
    /// The buyer is the listing's seller.
    CannotBuyOwnListing,
    /// The caller is not the listing's seller.
    Unauthorized,
    /// The record to create already exists.
    AlreadyInitialized,
    /// The buyer holds less than the price.
    InsufficientFunds,
    /// A balance or the trade counter would exceed `u64::MAX`.
    Overflow,
}

/// A listing slot holds a listing that can still be bought or cancelled.
pub open spec fn listing_open(slot: Option<Listing>) -> bool {
    slot matches Some(listing) && listing.is_active
}

/// A listing slot is either empty or holds an active listing: a listing
/// that is no longer active does not linger in storage.
pub open spec fn slot_consistent(slot: Option<Listing>) -> bool {
    slot matches Some(listing) ==> listing.is_active
}

} // verus!
