//! The derived authority of an order: the address that only the program can
//! sign for, and the bump seed that completes its derivation.

use vstd::prelude::*;
use vstd::utf8::encode_utf8;
use anchor_lang::prelude::Pubkey;
use crate::identity::Identity;

verus! {

/// The address and bump seed that `Pubkey::try_find_program_address` derives
/// from a list of seeds and the bytes of a program's address, if it derives
/// any.
pub uninterp spec fn program_address(seeds: Seq<Seq<u8>>, program_id: Seq<u8>) -> Option<
    (Seq<u8>, u8),
>;

/// The bytes of each seed, in order.
pub open spec fn seed_bytes(seeds: Seq<Vec<u8>>) -> Seq<Seq<u8>> {
    Seq::new(seeds.len(), |i: int| seeds[i]@)
}

/// Calls `Pubkey::try_find_program_address` of `solana_program`, as
/// `anchor_lang` hands it on, with the seeds in their order and the program's
/// address. Nothing is claimed of the outcome but that it is the one the
/// derivation gives for these bytes: the address and bump seed it finds, or
/// none.
#[verifier::external_body]
fn find_program_address(seeds: &Vec<Vec<u8>>, program_id: &Identity) -> (r: Option<(Identity, u8)>)
    ensures
        match r {
            Some((address, bump)) => program_address(seed_bytes(seeds@), program_id.bytes@)
                == Some((address.bytes@, bump)),
            None => program_address(seed_bytes(seeds@), program_id.bytes@) is None,
        },
{
    let parts: Vec<&[u8]> = seeds.iter().map(|s| s.as_slice()).collect();
    match Pubkey::try_find_program_address(&parts, &Pubkey::new_from_array(program_id.bytes)) {
        Some((key, bump)) => Some((Identity { bytes: key.to_bytes() }, bump)),
        None => None,
    }
}

/// The seeds of an order's address: the word `escrow`, then the order's
/// identifier, both as UTF-8.
pub open spec fn order_seeds(order_id: Seq<char>) -> Seq<Seq<u8>> {
    seq![encode_utf8("escrow"@), encode_utf8(order_id)]
}

/// The bump seed of an order's address under a program, if the address can be
/// derived.
pub open spec fn order_bump(order_id: Seq<char>, program_id: Identity) -> Option<u8> {
    match program_address(order_seeds(order_id), program_id.bytes@) {
        Some((_, bump)) => Some(bump),
        None => None,
    }
}

/// Derives the bump seed of an order's address from its identifier.
pub fn find_order_bump(order_id: &str, program_id: &Identity) -> (r: Option<u8>)
    ensures
        r == order_bump(order_id@, *program_id),
{
    let mut seeds: Vec<Vec<u8>> = Vec::new();
    seeds.push("escrow".as_bytes_vec());
    seeds.push(order_id.as_bytes_vec());
    assert(seed_bytes(seeds@) =~= order_seeds(order_id@));
    match find_program_address(&seeds, program_id) {
        Some((_, bump)) => Some(bump),
        None => None,
    }
}

} // verus!
