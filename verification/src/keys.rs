//! Participant identities.
//!
//! Every creator, bettor and authority is named by an on-chain address. The
//! engine never looks inside an address; it only asks whether two of them are
//! the same.

use anchor_lang::prelude::Pubkey;
use vstd::prelude::*;

verus! {

/// `anchor_lang::prelude::Pubkey`, carried through the engine as an opaque value.
#[verifier::external_type_specification]
#[verifier::external_body]
pub struct ExPubkey(anchor_lang::prelude::Pubkey);

/// The thirty-two bytes that an address wraps, as `Pubkey::to_bytes` gives them.
pub uninterp spec fn key_bytes(key: Pubkey) -> Seq<u8>;

/// Whether two addresses name the same participant.
pub open spec fn is_same_key(a: Pubkey, b: Pubkey) -> bool {
    key_bytes(a) == key_bytes(b)
}

/// Compares two addresses with `Pubkey`'s own `==`.
///
/// Trusted: `Pubkey` is a wrapper around a `[u8; 32]` with a derived
/// `PartialEq`, so `==` holds exactly when the two byte arrays are equal.
#[verifier::external_body]
pub(crate) fn same_key(a: &Pubkey, b: &Pubkey) -> (same: bool)
    ensures
        same == (key_bytes(*a) == key_bytes(*b)),
{
    a == b
}

} // verus!
