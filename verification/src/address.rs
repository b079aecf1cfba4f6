use vstd::prelude::*;

use anchor_lang::prelude::Pubkey;

verus! {

/// An account address: thirty-two bytes.
pub type Address = [u8; 32];

/// The address under which this program is deployed.
pub const ID: Address = [
    35, 174, 123, 244, 239, 189, 148, 84, 103, 218, 71, 135, 183, 204, 73, 233,
    190, 117, 25, 209, 47, 52, 207, 47, 134, 32, 150, 176, 225, 193, 50, 131,
];

/// The domain tag that starts the seeds of every marker address: the bytes
/// of the word "snipe".
pub const SNIPE_SEED: [u8; 5] = [115, 110, 105, 112, 101];

/// What `Pubkey::try_find_program_address` returns for given seeds and a
/// given program: the derived address with its bump, or nothing where no
/// bump gives a valid address. Not proved: the derivation hashes the seeds
/// and tests the digest against a curve, and is taken as it is. It depends
/// on its two arguments only.
pub uninterp spec fn program_address(seeds: Seq<Seq<u8>>, program_id: Seq<u8>) -> Option<
    (Seq<u8>, u8),
>;

/// The bytes of each seed, in order.
pub open spec fn seeds_view(seeds: &[&[u8]]) -> Seq<Seq<u8>> {
    Seq::new(seeds@.len(), |i: int| seeds@[i]@)
}

/// Calls `Pubkey::try_find_program_address`. Trusted: the result is
/// `program_address` of the seeds' bytes and the program's bytes. That
/// function searches the bumps from 255 downwards and returns `None`, without
/// panicking, where none fits or a seed is too long.
#[verifier::external_body]
fn try_find_program_address(seeds: &[&[u8]], program_id: &Address) -> (found: Option<
    (Address, u8),
>)
    ensures
        program_address(seeds_view(seeds), program_id@) == match found {
            Some((address, bump)) => Some((address@, bump)),
            None => None,
        },
{
    match Pubkey::try_find_program_address(seeds, &Pubkey::new_from_array(*program_id)) {
        Some((address, bump)) => Some((address.to_bytes(), bump)),
        None => None,
    }
}

/// The address of the marker record of a payer and a mint, with its bump:
/// derived under this program from the tag, the payer and the mint.
pub open spec fn snipe_address(payer: Seq<u8>, mint: Seq<u8>) -> Option<(Seq<u8>, u8)> {
    program_address(seq![SNIPE_SEED@, payer, mint], ID@)
}

/// Derives the address of the marker record of `payer` and
/// `sniped_token_mint`, and the bump that makes it valid.
pub fn find_snipe_address(payer: &Address, sniped_token_mint: &Address) -> (found: Option<
    (Address, u8),
>)
    ensures
        snipe_address(payer@, sniped_token_mint@) == match found {
            Some((address, bump)) => Some((address@, bump)),
            None => None,
        },
{
    let parts: [&[u8]; 3] = [SNIPE_SEED.as_slice(), payer.as_slice(), sniped_token_mint.as_slice()];
    let seeds: &[&[u8]] = parts.as_slice();
    assert(seeds_view(seeds) =~= seq![SNIPE_SEED@, payer@, sniped_token_mint@]);
    try_find_program_address(seeds, &ID)
}

/// The derived address and bump are a function of the payer and the mint:
/// deriving again from the same two gives the same address and bump.
pub proof fn lemma_derivation_is_deterministic(
    payer: Seq<u8>,
    mint: Seq<u8>,
    payer_again: Seq<u8>,
    mint_again: Seq<u8>,
)
    requires
        payer == payer_again,
        mint == mint_again,
    ensures
        snipe_address(payer, mint) == snipe_address(payer_again, mint_again),
{
}

} // verus!
