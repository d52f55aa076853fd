use vstd::prelude::*;
use crate::address::Address;
use std::str::FromStr;

verus! {

/// The 32 bytes that a base-58 address string decodes to, or `None` when the
/// text is not a well-formed address (wrong length or an invalid character).
/// A fixed function of the text alone.
pub uninterp spec fn base58_decoded_address(s: Seq<char>) -> Option<Seq<u8>>;

/// The program-derived address and bump byte that the ledger's canonical
/// hash-based derivation assigns to a seed list under a namespace address,
/// or `None` when the search over bump bytes 255 down to 1 finds no
/// off-curve hash (or a seed breaks the derivation's length limits).
/// A fixed function of the seeds and the namespace alone.
pub uninterp spec fn pda_derivation(seeds: Seq<Seq<u8>>, program: Seq<u8>) -> Option<(Seq<u8>, u8)>;

/// Whether 32 bytes form a valid point of the ed25519 signing curve.
/// An address off the curve can have no private key.
pub uninterp spec fn on_curve(addr: Seq<u8>) -> bool;

/// Relies on solana_sdk::pubkey::Pubkey::from_str: it decodes base-58 text
/// into exactly 32 bytes, failing on any other input; the result depends on
/// the text alone.
#[verifier::external_body]
pub(crate) fn parse_address(s: &str) -> (r: Option<Address>)
    ensures
        r is Some <==> base58_decoded_address(s@) is Some,
        r matches Some(a) ==> Some(a@) == base58_decoded_address(s@),
{
    match solana_sdk::pubkey::Pubkey::from_str(s) {
        Ok(pk) => Some(Address { bytes: pk.to_bytes() }),
        Err(_) => None,
    }
}

/// Relies on solana_sdk::pubkey::Pubkey::try_find_program_address: it searches
/// bump bytes 255 down to 1 for the first whose hash of
/// `seeds ++ [bump] ++ program` falls off the ed25519 curve, returning that
/// hash and bump; the result
/// depends on the seeds and the namespace alone, and a returned address is
/// never on the curve (an on-curve hash is rejected and the search goes on).
#[verifier::external_body]
pub(crate) fn find_program_address(seeds: &Vec<Vec<u8>>, program: &Address) -> (r: Option<(
    Address,
    u8,
)>)
    ensures
        r is Some <==> pda_derivation(seeds.deep_view(), program@) is Some,
        r matches Some(p) ==> Some((p.0@, p.1)) == pda_derivation(seeds.deep_view(), program@),
        r matches Some(p) ==> !on_curve(p.0@),
{
    let seed_refs: Vec<&[u8]> = seeds.iter().map(|s| s.as_slice()).collect();
    let program_id = solana_sdk::pubkey::Pubkey::new_from_array(program.bytes);
    match solana_sdk::pubkey::Pubkey::try_find_program_address(&seed_refs, &program_id) {
        Some((pk, bump)) => Some((Address { bytes: pk.to_bytes() }, bump)),
        None => None,
    }
}

} // verus!
