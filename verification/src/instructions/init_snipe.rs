use vstd::prelude::*;

use crate::address::{find_snipe_address, snipe_address, Address};
use crate::instructions::errors::InitSnipeError;
use crate::instructions::state::Snipe;
use crate::marker_store::MarkerStore;

verus! {

/// An account that has authorised the request, with the funds it holds.
#[derive(Clone, Copy, Debug)]
pub struct Signer {
    pub key: Address,
    pub lamports: u64,
}

/// Accounts of the instruction that creates a marker record.
#[derive(Clone, Copy, Debug)]
pub struct InitSnipe {
    /// Who snipes, and pays for the record.
    pub payer: Signer,
    /// The mint that is sniped. Any address is accepted: it is a key only.
    pub sniped_token_mint: Address,
}

/// A derived address and bump as plain values.
pub open spec fn derived_view(derived: Option<(Address, u8)>) -> Option<(Seq<u8>, u8)> {
    match derived {
        Some((address, bump)) => Some((address@, bump)),
        None => None,
    }
}

/// What creating a marker yields, given the records that exist, the address
/// and bump that were derived, the payer's funds and the cost of the record.
///
/// An occupied address is reported before a lack of funds.
pub open spec fn create_marker_result(
    markers: Map<Seq<u8>, Snipe>,
    derived: Option<(Seq<u8>, u8)>,
    lamports: u64,
    rent: u64,
) -> Result<Snipe, InitSnipeError> {
    match derived {
        None => Err(InitSnipeError::InvalidSeeds),
        Some((address, bump)) => if markers.contains_key(address) {
            Err(InitSnipeError::AccountAlreadyInitialized)
        } else if lamports < rent {
            Err(InitSnipeError::InsufficientFunds)
        } else {
            Ok(Snipe { bump })
        },
    }
}

/// The records that exist after creating a marker was attempted.
pub open spec fn markers_after(
    markers: Map<Seq<u8>, Snipe>,
    derived: Option<(Seq<u8>, u8)>,
    lamports: u64,
    rent: u64,
) -> Map<Seq<u8>, Snipe> {
    match (derived, create_marker_result(markers, derived, lamports, rent)) {
        (Some((address, _)), Ok(snipe)) => markers.insert(address, snipe),
        _ => markers,
    }
}

/// The payer's funds after creating a marker was attempted.
pub open spec fn lamports_after(
    markers: Map<Seq<u8>, Snipe>,
    derived: Option<(Seq<u8>, u8)>,
    lamports: u64,
    rent: u64,
) -> int {
    if create_marker_result(markers, derived, lamports, rent) is Ok {
        lamports - rent
    } else {
        lamports as int
    }
}

/// Creates the marker record at an address that was derived beforehand.
///
/// On success the record holds the derived bump, stands in `store` under
/// the derived address, and `rent` has left the payer. On failure nothing
/// has changed.
pub fn create_marker(
    store: &mut MarkerStore,
    derived: Option<(Address, u8)>,
    payer: &mut Signer,
    rent: u64,
) -> (result: Result<Snipe, InitSnipeError>)
    ensures
        result == create_marker_result(
            old(store)@,
            derived_view(derived),
            old(payer).lamports,
            rent,
        ),
        final(store)@ == markers_after(
            old(store)@,
            derived_view(derived),
            old(payer).lamports,
            rent,
        ),
        final(payer).lamports == lamports_after(
            old(store)@,
            derived_view(derived),
            old(payer).lamports,
            rent,
        ),
        final(payer).key == old(payer).key,
{
    match derived {
        None => Err(InitSnipeError::InvalidSeeds),
        Some((address, bump)) => {
            if store.contains(&address) {
                return Err(InitSnipeError::AccountAlreadyInitialized);
            }
            if payer.lamports < rent {
                return Err(InitSnipeError::InsufficientFunds);
            }
            let snipe = Snipe { bump };
            store.insert_if_absent(address, snipe);
            payer.lamports = payer.lamports - rent;
            Ok(snipe)
        },
    }
}

/// Creates the marker record of `ctx.payer` and `ctx.sniped_token_mint`,
/// at the address derived from the two, paid for by the payer.
///
/// Fails when a record already exists there, which is what keeps a payer
/// from sniping one mint twice, and when the payer holds less than `rent`.
pub fn handler(store: &mut MarkerStore, ctx: &mut InitSnipe, rent: u64) -> (result: Result<
    Snipe,
    InitSnipeError,
>)
    ensures
        result == create_marker_result(
            old(store)@,
            snipe_address(old(ctx).payer.key@, old(ctx).sniped_token_mint@),
            old(ctx).payer.lamports,
            rent,
        ),
        final(store)@ == markers_after(
            old(store)@,
            snipe_address(old(ctx).payer.key@, old(ctx).sniped_token_mint@),
            old(ctx).payer.lamports,
            rent,
        ),
        final(ctx).payer.lamports == lamports_after(
            old(store)@,
            snipe_address(old(ctx).payer.key@, old(ctx).sniped_token_mint@),
            old(ctx).payer.lamports,
            rent,
        ),
        final(ctx).payer.key == old(ctx).payer.key,
        final(ctx).sniped_token_mint == old(ctx).sniped_token_mint,
{
    let derived = find_snipe_address(&ctx.payer.key, &ctx.sniped_token_mint);
    create_marker(store, derived, &mut ctx.payer, rent)
}

/// A marker is created once. Where the address of a payer and a mint is
/// free and the payer can pay, the first request succeeds with the derived
/// bump; a second request for the same payer and mint then fails because
/// the address is occupied, whatever funds and cost it comes with.
pub proof fn lemma_marker_is_created_once(
    markers: Map<Seq<u8>, Snipe>,
    payer: Seq<u8>,
    mint: Seq<u8>,
    lamports: u64,
    rent: u64,
    lamports_again: u64,
    rent_again: u64,
    address: Seq<u8>,
    bump: u8,
)
    requires
        snipe_address(payer, mint) == Some((address, bump)),
        !markers.contains_key(address),
        lamports >= rent,
    ensures
        create_marker_result(markers, snipe_address(payer, mint), lamports, rent) == Ok::<
            Snipe,
            InitSnipeError,
        >(Snipe { bump }),
        create_marker_result(
            markers_after(markers, snipe_address(payer, mint), lamports, rent),
            snipe_address(payer, mint),
            lamports_again,
            rent_again,
        ) == Err::<Snipe, InitSnipeError>(InitSnipeError::AccountAlreadyInitialized),
{
}

/// Whenever a request succeeds, the same request made again fails because
/// the address is occupied.
pub proof fn lemma_repeated_request_fails(
    markers: Map<Seq<u8>, Snipe>,
    derived: Option<(Seq<u8>, u8)>,
    lamports: u64,
    rent: u64,
    lamports_again: u64,
    rent_again: u64,
)
    requires
        create_marker_result(markers, derived, lamports, rent) is Ok,
    ensures
        create_marker_result(
            markers_after(markers, derived, lamports, rent),
            derived,
            lamports_again,
            rent_again,
        ) == Err::<Snipe, InitSnipeError>(InitSnipeError::AccountAlreadyInitialized),
{
}

/// Records are never changed or removed: whatever a request does, every
/// record that existed before it exists after it, unchanged, and at most
/// the derived address is new.
pub proof fn lemma_existing_markers_persist(
    markers: Map<Seq<u8>, Snipe>,
    derived: Option<(Seq<u8>, u8)>,
    lamports: u64,
    rent: u64,
    address: Seq<u8>,
)
    ensures
        markers.contains_key(address) ==> markers_after(
            markers,
            derived,
            lamports,
            rent,
        ).contains_key(address) && markers_after(markers, derived, lamports, rent)[address]
            == markers[address],
        markers_after(markers, derived, lamports, rent).contains_key(address) && !markers.contains_key(
            address,
        ) ==> (derived matches Some((created, _)) && created == address),
{
}

} // verus!
