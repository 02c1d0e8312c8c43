//! A fixed-price peer-to-peer marketplace: sellers post listings, buyers pay
//! the listed price, which is split between the seller and the marketplace
//! treasury, and sellers may withdraw listings that nobody bought.
//!
//! Every operation works on a context of plain records and balances, and its
//! contract says which error comes on which input and what the context holds
//! afterwards.

pub mod constants;
pub mod keys;
pub mod state;
pub mod accounts;
pub mod instructions;
pub mod laws;

pub use accounts::{BuyListing, CancelListing, CreateListing, Initialize};
pub use instructions::{buy_listing, cancel_listing, create_listing, fee_for, initialize};
pub use state::{ErrorCode, Listing, Marketplace, Wallet};
