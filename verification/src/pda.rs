//! Custody addressing: deterministic derivation of capability-bound
//! addresses from seed lists. A derived address has no private key; authority
//! over it is proven by re-presenting the same seeds (plus the bump byte) at
//! execution time. The engine never trusts a caller-supplied custody address:
//! it always re-derives the expected address from the operation's own seeds
//! and rejects the request on a mismatch.

use vstd::prelude::*;
use crate::addr::Address;

verus! {

/// The address and bump byte that the runtime's derivation yields for a seed
/// list and program identity, or `None` in the statistically improbable case
/// that no bump byte yields an address outside the key-controlled space.
pub uninterp spec fn pda_of(seeds: Seq<Seq<u8>>, program_id: Seq<u8>) -> Option<(Seq<u8>, u8)>;

/// The byte strings of a list of address seeds.
pub open spec fn seed_bytes(seeds: Seq<Address>) -> Seq<Seq<u8>> {
    seeds.map(|i: int, a: Address| a@)
}

/// Relies on Pubkey::try_find_program_address: the result is a deterministic
/// function of the seed list and the program identity alone (a hash of both
/// with the highest bump byte that lands off the curve), and it is `None`
/// only when no bump byte does.
#[verifier::external_body]
pub(crate) fn try_derive_address(seeds: &Vec<Address>, program_id: &Address) -> (r: Option<
    (Address, u8),
>)
    ensures
        (match r {
            Some(p) => pda_of(seed_bytes(seeds@), program_id@) == Some((p.0@, p.1)),
            None => pda_of(seed_bytes(seeds@), program_id@) is None,
        }),
{
    let seed_refs: Vec<&[u8]> = seeds.iter().map(|a| &a.bytes[..]).collect();
    let pid = solana_program::pubkey::Pubkey::new_from_array(program_id.bytes);
    solana_program::pubkey::Pubkey::try_find_program_address(&seed_refs, &pid).map(
        |p: (solana_program::pubkey::Pubkey, u8)|
            (Address { bytes: p.0.to_bytes() }, p.1),
    )
}

/// Derivation law: the custody address is a function of the seed list and
/// the program identity alone, so re-deriving it from the same seeds at any
/// later call yields the identical address and bump.
pub proof fn lemma_derivation_deterministic(
    first: Option<(Seq<u8>, u8)>,
    second: Option<(Seq<u8>, u8)>,
    seeds: Seq<Seq<u8>>,
    program_id: Seq<u8>,
)
    requires
        first == pda_of(seeds, program_id),
        second == pda_of(seeds, program_id),
    ensures
        first == second,
{
}

} // verus!
