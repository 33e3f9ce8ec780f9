//! Content commitment and deterministic address derivation.
//!
//! A committed intent is stored at an address derived from the protocol
//! identity, the owner and the Keccak-256 digest of the intent's canonical
//! byte encoding, so the storage location itself commits to the content.
//! The digest and the derivation are computed by outside cryptographic code;
//! their results are pure functions of the inputs, named here so that
//! contracts can speak about them exactly.

use crate::order::Pubkey;
use vstd::prelude::*;

verus! {

/// The Keccak-256 digest of a byte string (32 bytes).
pub uninterp spec fn keccak256_of(data: Seq<u8>) -> Seq<u8>;

/// The storage address that the platform derives for an order of `owner`
/// with content commitment `commitment`, under the protocol `program_id`.
pub uninterp spec fn derived_order_address(
    program_id: Seq<u8>,
    owner: Seq<u8>,
    commitment: Seq<u8>,
) -> Seq<u8>;

/// The discriminator byte found alongside [`derived_order_address`] that
/// makes the derivation land outside the platform's signing namespace.
pub uninterp spec fn derived_order_bump(
    program_id: Seq<u8>,
    owner: Seq<u8>,
    commitment: Seq<u8>,
) -> u8;

/// Whether the platform's search finds any viable discriminator for these
/// inputs. The search is deterministic, so viability too depends on the
/// inputs alone; it fails only for statistically improbable inputs.
pub uninterp spec fn derivation_viable(
    program_id: Seq<u8>,
    owner: Seq<u8>,
    commitment: Seq<u8>,
) -> bool;

/// Relies on `light_hasher::Keccak::hashv`: the Keccak-256 digest of the
/// concatenated inputs, a 32-byte value depending on the input bytes alone.
/// With the hashing backend compiled in, the call is infallible.
#[verifier::external_body]
pub fn commitment_hash(data: &[u8]) -> (r: [u8; 32])
    ensures
        r@ == keccak256_of(data@),
        r@.len() == 32,
{
    <light_hasher::Keccak as light_hasher::Hasher>::hashv(&[data]).unwrap()
}

/// Relies on `solana_pubkey::Pubkey::try_find_program_address` with the
/// seeds `["order", owner, commitment]`: a deterministic search (highest
/// viable discriminator first) whose result is a function of the seeds and
/// the program identity alone. `None` only in the statistically improbable
/// case that no discriminator is viable.
#[verifier::external_body]
pub fn find_order_address(program_id: &Pubkey, owner: &Pubkey, commitment: &Pubkey) -> (r: Option<
    (Pubkey, u8),
>)
    ensures
        r is Some <==> derivation_viable(program_id@, owner@, commitment@),
        r matches Some(p) ==> {
            &&& p.0@ == derived_order_address(program_id@, owner@, commitment@)
            &&& p.1 == derived_order_bump(program_id@, owner@, commitment@)
        },
{
    let pid = solana_pubkey::Pubkey::from(*program_id);
    let seeds: [&[u8]; 3] = [b"order", owner, commitment];
    solana_pubkey::Pubkey::try_find_program_address(&seeds, &pid).map(
        |found: (solana_pubkey::Pubkey, u8)| (found.0.to_bytes(), found.1),
    )
}

} // verus!
