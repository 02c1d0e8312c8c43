//! The amounts and rates that the marketplace is configured with.

use vstd::prelude::*;

verus! {

/// Fee rate of a new marketplace, in basis points (2.5%).
pub const DEFAULT_FEE_RATE: u64 = 250;

/// Largest fee rate a marketplace may carry, in basis points (10%).
pub const MAX_FEE_RATE: u64 = 1000;

/// One whole, in basis points.
pub const BASIS_POINTS: u64 = 10000;

/// Smallest price a listing is meant to carry, in lamports.
pub const MIN_PRICE: u64 = 1_000_000;

/// Largest price a listing is meant to carry, in lamports.
pub const MAX_PRICE: u64 = 1_000_000_000_000;

} // verus!
