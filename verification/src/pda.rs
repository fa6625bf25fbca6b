//! Program derived addresses of the two roles that the program derives: the
//! mint authority of a campaign and the record of one user in a campaign.

use vstd::prelude::*;
use solana_program::pubkey::Pubkey;
use crate::address::Address;

verus! {

/// The program derived address for `seeds` under `program_id`, with the bump
/// seed that produced it; `None` when no bump seed yields an address.
pub uninterp spec fn program_address(seeds: Seq<Seq<u8>>, program_id: Seq<u8>) -> Option<
    (Seq<u8>, u8),
>;

/// The bytes of each seed, in order.
pub open spec fn seed_bytes(seeds: Seq<&[u8]>) -> Seq<Seq<u8>> {
    Seq::new(seeds.len(), |i: int| seeds[i]@)
}

/// An address and bump seed as plain values.
pub open spec fn derived_view(found: Option<(Address, u8)>) -> Option<(Seq<u8>, u8)> {
    match found {
        Some((address, bump)) => Some((address@, bump)),
        None => None,
    }
}

/// The address of the mint authority that belongs to the campaign `config`.
pub open spec fn spec_mint_authority(config: Seq<u8>, program_id: Seq<u8>) -> Option<
    (Seq<u8>, u8),
> {
    program_address(seq![config], program_id)
}

/// The address of the record that `user` has in the campaign `config`.
pub open spec fn spec_airdrop_user_data(
    config: Seq<u8>,
    user: Seq<u8>,
    program_id: Seq<u8>,
) -> Option<(Seq<u8>, u8)> {
    program_address(seq![config, user], program_id)
}

/// Calls `Pubkey::try_find_program_address` of `solana_program`.
///
/// Trusted: the search depends on the seeds and the program id alone, so its
/// outcome is `program_address` of them. Nothing else is claimed of it. The
/// call returns `None` instead of panicking when the seeds are too many or
/// too long, or when no bump seed is found.
#[verifier::external_body]
fn try_find_program_address(seeds: &[&[u8]], program_id: &Address) -> (found: Option<(Address, u8)>)
    ensures
        derived_view(found) == program_address(seed_bytes(seeds@), program_id@),
{
    Pubkey::try_find_program_address(seeds, &Pubkey::new_from_array(program_id.bytes)).map(
        |(key, bump)| (Address { bytes: key.to_bytes() }, bump),
    )
}

/// Derives the mint authority of the campaign whose config account is `config`.
pub fn find_mint_authority(config: &Address, program_id: &Address) -> (found: Option<(Address, u8)>)
    ensures
        derived_view(found) == spec_mint_authority(config@, program_id@),
{
    let parts: [&[u8]; 1] = [config.bytes.as_slice()];
    let seeds: &[&[u8]] = parts.as_slice();
    assert(seed_bytes(seeds@) =~= seq![config@]);
    try_find_program_address(seeds, program_id)
}

/// Derives the record of `user` in the campaign whose config account is `config`.
pub fn find_airdrop_user_data(config: &Address, user: &Address, program_id: &Address) -> (found:
    Option<(Address, u8)>)
    ensures
        derived_view(found) == spec_airdrop_user_data(config@, user@, program_id@),
{
    let parts: [&[u8]; 2] = [config.bytes.as_slice(), user.bytes.as_slice()];
    let seeds: &[&[u8]] = parts.as_slice();
    assert(seed_bytes(seeds@) =~= seq![config@, user@]);
    try_find_program_address(seeds, program_id)
}

} // verus!
