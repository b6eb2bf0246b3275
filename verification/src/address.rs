//! Where a metadata record lives: an address derived from its asset.

use vstd::prelude::*;
use vstd::slice::slice_to_vec;
use crate::pubkey::Pubkey;

verus! {

/// The metadata program, under which metadata records are addressed.
pub const METADATA_PROGRAM_ID: [u8; 32] = [
    11, 112, 101, 177, 227, 209, 124, 69, 56, 157, 82, 127, 107, 4, 195, 205,
    88, 184, 108, 115, 26, 160, 253, 181, 73, 182, 209, 188, 3, 248, 41, 70,
];

/// The tag that opens the seeds of every metadata record: `metadata` in ASCII.
pub const METADATA_TAG: [u8; 8] = [109, 101, 116, 97, 100, 97, 116, 97];

/// The address and bump seed that the ledger derives from `seeds` under
/// `program_id`, or `None` where no bump seed gives an address that no key
/// pair can own.
pub uninterp spec fn program_address(seeds: Seq<Seq<u8>>, program_id: Seq<u8>) -> Option<(Seq<u8>, u8)>;

/// A derived address and its bump seed, by their bytes.
pub open spec fn address_view(found: Option<(Pubkey, u8)>) -> Option<(Seq<u8>, u8)> {
    match found {
        Some((address, bump)) => Some((address@, bump)),
        None => None,
    }
}

/// A list of seeds, each by its bytes.
pub open spec fn seeds_view(seeds: &Vec<Vec<u8>>) -> Seq<Seq<u8>> {
    Seq::new(seeds@.len(), |i: int| seeds@[i]@)
}

/// Calls `anchor_lang::prelude::Pubkey::try_find_program_address`. Its result
/// depends on the seeds and the program alone: it tries the bump seeds from
/// 255 down and hashes nothing but them, the seeds and the program. Nothing
/// more is claimed of it: not which address comes out, nor that one does.
#[verifier::external_body]
fn try_find_program_address(seeds: &Vec<Vec<u8>>, program_id: &Pubkey) -> (found: Option<(Pubkey, u8)>)
    ensures
        address_view(found) == program_address(seeds_view(seeds), program_id@),
{
    let slices: Vec<&[u8]> = seeds.iter().map(|seed| seed.as_slice()).collect();
    let id = anchor_lang::prelude::Pubkey::new_from_array(program_id.bytes);
    anchor_lang::prelude::Pubkey::try_find_program_address(&slices, &id)
        .map(|(address, bump)| (Pubkey { bytes: address.to_bytes() }, bump))
}

/// Reads `mpl_token_metadata::ID`, the address that the metadata crate
/// declares for its program.
#[verifier::external_body]
fn metadata_program_id() -> (id: Pubkey)
    ensures
        id@ == METADATA_PROGRAM_ID@,
{
    Pubkey { bytes: mpl_token_metadata::ID.to_bytes() }
}

/// The seeds of an asset's metadata record: the tag, the metadata program,
/// the asset.
pub open spec fn metadata_seeds(mint: Seq<u8>) -> Seq<Seq<u8>> {
    seq![METADATA_TAG@, METADATA_PROGRAM_ID@, mint]
}

/// Address and bump seed of the metadata record of the asset `mint`.
pub open spec fn metadata_address(mint: Seq<u8>) -> Option<(Seq<u8>, u8)> {
    program_address(metadata_seeds(mint), METADATA_PROGRAM_ID@)
}

/// Address of the metadata record of the asset `mint`, where one can be
/// derived.
pub open spec fn metadata_key(mint: Seq<u8>) -> Seq<u8>
    recommends
        metadata_address(mint) is Some,
{
    match metadata_address(mint) {
        Some((address, _)) => address,
        None => Seq::empty(),
    }
}

/// Derives where the metadata record of `mint` lives. The address is computed
/// from the asset, never chosen, so a record cannot be passed off as that of
/// another asset. `None` only where the search for a bump seed is exhausted.
pub fn find_metadata_address(mint: &Pubkey) -> (found: Option<(Pubkey, u8)>)
    ensures
        address_view(found) == metadata_address(mint@),
{
    let program_id = metadata_program_id();
    let mut seeds: Vec<Vec<u8>> = Vec::new();
    seeds.push(slice_to_vec(METADATA_TAG.as_slice()));
    seeds.push(program_id.to_vec());
    seeds.push(mint.to_vec());
    assert(seeds_view(&seeds) =~= metadata_seeds(mint@));
    try_find_program_address(&seeds, &program_id)
}

/// Derivation is deterministic: whatever two derivations for one asset
/// return, they return the same address and the same bump seed.
pub proof fn lemma_derivation_deterministic(
    mint: Pubkey,
    first: Option<(Pubkey, u8)>,
    second: Option<(Pubkey, u8)>,
)
    requires
        address_view(first) == metadata_address(mint@),
        address_view(second) == metadata_address(mint@),
    ensures
        first == second,
{
    if let Some((a, _)) = first {
        if let Some((b, _)) = second {
            Pubkey::lemma_view_injective(a, b);
        }
    }
}

} // verus!
