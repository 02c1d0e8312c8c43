//! What each operation is handed: the records it may create, change or
//! destroy, and the wallets of the parties. A record slot is `None` while the
//! record does not exist in storage. Beside each context stand the spec
//! functions that say how the operation ends on it.

use crate::constants::{BASIS_POINTS, DEFAULT_FEE_RATE};
use crate::state::{listing_open, ErrorCode, Listing, Marketplace, Wallet};
use vstd::prelude::*;

verus! {

/// The fee taken from a purchase at `price`: the price times the rate in
/// basis points, rounded down.
pub open spec fn fee_of(price: nat, fee_rate: nat) -> nat {
    price * fee_rate / (BASIS_POINTS as nat)
}

/// Context of `initialize`.
#[derive(Clone, Copy, Debug, PartialEq, Eq)]
pub struct Initialize {
    /// The slot of the one marketplace record.
    pub marketplace: Option<Marketplace>,
    /// Who sets the marketplace up.
    pub authority: Wallet,
}

impl Initialize {
    /// Fails exactly when the marketplace record already exists.
    pub open spec fn outcome(self) -> Result<(), ErrorCode> {
        if self.marketplace is Some {
            Err(ErrorCode::AlreadyInitialized)
        } else {
            Ok(())
        }
    }

    /// The record that a successful `initialize` creates.
    pub open spec fn created(self) -> Marketplace {
        Marketplace {
            authority: self.authority.key,
            fee_rate: DEFAULT_FEE_RATE,
            total_trades: 0,
        }
    }

    /// The context as `initialize` leaves it: with the new record where the
    /// slot was empty, untouched where it was not.
    pub open spec fn after(self) -> Initialize {
        if self.outcome() is Ok {
            Initialize { marketplace: Some(self.created()), authority: self.authority }
        } else {
            self
        }
    }
}

/// Context of `create_listing`. The slot is the one record that belongs to
/// the seller's identity, so a seller has at most one listing at a time.
#[derive(Clone, Copy, Debug, PartialEq, Eq)]
pub struct CreateListing {
    /// The slot of the seller's listing record.
    pub listing: Option<Listing>,
    /// Who posts the listing.
    pub seller: Wallet,
}

impl CreateListing {
    /// Fails exactly when the seller's listing record already exists.
    pub open spec fn outcome(self) -> Result<(), ErrorCode> {
        if self.listing is Some {
            Err(ErrorCode::AlreadyInitialized)
        } else {
            Ok(())
        }
    }

    /// The record that a successful `create_listing` creates.
    pub open spec fn created(self, price: u64) -> Listing {
        Listing { seller: self.seller.key, price, is_active: true }
    }

    /// The context as `create_listing` leaves it: with the new listing where
    /// the slot was empty, untouched where it was not.
    pub open spec fn after(self, price: u64) -> CreateListing {
        if self.outcome() is Ok {
            CreateListing { listing: Some(self.created(price)), seller: self.seller }
        } else {
            self
        }
    }
}

/// Context of `buy_listing`.
#[derive(Clone, Copy, Debug, PartialEq, Eq)]
pub struct BuyListing {
    /// The marketplace record, whose fee rate applies and whose counter
    /// counts the purchase.
    pub marketplace: Marketplace,
    /// The listing to buy.
    pub listing: Option<Listing>,
    /// Who pays the price.
    pub buyer: Wallet,
    /// The wallet that receives the price less the fee. The caller names it:
    /// the purchase does not compare its key with the listing's seller.
    pub seller: Wallet,
    /// The wallet that receives the fee.
    pub treasury: Wallet,
}

impl BuyListing {
    /// The listed price; 0 where there is no listing.
    pub open spec fn price(self) -> nat {
        match self.listing {
            Some(listing) => listing.price as nat,
            None => 0,
        }
    }

    /// The part of the price that goes to the treasury.
    pub open spec fn fee(self) -> nat {
        fee_of(self.price(), self.marketplace.fee_rate as nat)
    }

    /// The part of the price that goes to the seller.
    pub open spec fn seller_amount(self) -> int {
        self.price() - self.fee()
    }

    /// A credit or the counter's increment would not fit in a `u64`.
    pub open spec fn overflows(self) -> bool {
        ||| self.seller.lamports + self.seller_amount() > u64::MAX
        ||| self.treasury.lamports + self.fee() > u64::MAX
        ||| self.marketplace.total_trades == u64::MAX
    }

    /// How a purchase on this context ends. The conditions are tested in
    /// this order, and the first that fails names the error.
    pub open spec fn outcome(self) -> Result<(), ErrorCode> {
        if !listing_open(self.listing) {
            Err(ErrorCode::ListingNotActive)
        } else if self.listing->Some_0.seller == self.buyer.key {
            Err(ErrorCode::CannotBuyOwnListing)
        } else if self.buyer.lamports < self.price() {
            Err(ErrorCode::InsufficientFunds)
        } else if self.overflows() {
            Err(ErrorCode::Overflow)
        } else {
            Ok(())
        }
    }

    /// The context after a successful purchase: the buyer has paid the
    /// price, the seller and the treasury have received their parts, the
    /// listing is gone and one more trade is counted.
    pub open spec fn settled(self) -> BuyListing {
        BuyListing {
            marketplace: Marketplace {
                authority: self.marketplace.authority,
                fee_rate: self.marketplace.fee_rate,
                total_trades: (self.marketplace.total_trades + 1) as u64,
            },
            listing: None,
            buyer: Wallet {
                key: self.buyer.key,
                lamports: (self.buyer.lamports - self.price()) as u64,
            },
            seller: Wallet {
                key: self.seller.key,
                lamports: (self.seller.lamports + self.seller_amount()) as u64,
            },
            treasury: Wallet {
                key: self.treasury.key,
                lamports: (self.treasury.lamports + self.fee()) as u64,
            },
        }
    }

    /// The context as `buy_listing` leaves it: settled where the purchase
    /// succeeds, untouched where it fails.
    pub open spec fn after(self) -> BuyListing {
        if self.outcome() is Ok {
            self.settled()
        } else {
            self
        }
    }

    /// This context with another marketplace record in it.
    pub open spec fn with_marketplace(self, marketplace: Marketplace) -> BuyListing {
        BuyListing {
            marketplace,
            listing: self.listing,
            buyer: self.buyer,
            seller: self.seller,
            treasury: self.treasury,
        }
    }
}

/// Context of `cancel_listing`.
#[derive(Clone, Copy, Debug, PartialEq, Eq)]
pub struct CancelListing {
    /// The listing to withdraw.
    pub listing: Option<Listing>,
    /// Who asks for the withdrawal.
    pub seller: Wallet,
}

impl CancelListing {
    /// How a cancellation on this context ends. The conditions are tested
    /// in this order, and the first that fails names the error.
    pub open spec fn outcome(self) -> Result<(), ErrorCode> {
        if !listing_open(self.listing) {
            Err(ErrorCode::ListingNotActive)
        } else if self.listing->Some_0.seller != self.seller.key {
            Err(ErrorCode::Unauthorized)
        } else {
            Ok(())
        }
    }

    /// The context as `cancel_listing` leaves it: without the listing where
    /// the cancellation succeeds, untouched where it fails.
    pub open spec fn after(self) -> CancelListing {
        if self.outcome() is Ok {
            CancelListing { listing: None, seller: self.seller }
        } else {
            self
        }
    }
}

} // verus!
