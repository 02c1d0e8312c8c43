//! Identities are `Pubkey` values of `anchor_lang`. The marketplace never
//! looks inside one: it stores them and asks whether two are the same.

use anchor_lang::prelude::Pubkey;
use vstd::prelude::*;

verus! {

/// `anchor_lang::prelude::Pubkey`, taken as an opaque value. Nothing is
/// assumed about what it holds.
#[verifier::external_type_specification]
#[verifier::external_body]
pub struct ExPubkey(anchor_lang::prelude::Pubkey);

/// Compares two keys with `Pubkey`'s own `==`. Trusted: the derived
/// `PartialEq` of `Pubkey` compares the 32 bytes that make up a key, so the
/// result is `true` exactly when the two keys are the same value.
#[verifier::external_body]
pub(crate) fn same_key(a: &Pubkey, b: &Pubkey) -> (same: bool)
    ensures
        same == (*a == *b),
{
    a == b
}

} // verus!
