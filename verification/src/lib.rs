//! Guards for a token-sniping workflow: a one-time marker per (payer, mint)
//! pair and a range gate on a token balance.

use vstd::prelude::*;

pub mod address;
pub mod instructions;
pub mod marker_store;

use crate::instructions::check_token_amount::{range_check, CheckTokenAmount};
use crate::address::snipe_address;
use crate::instructions::errors::{InitSnipeError, SnipeHelperErrorCode};
use crate::instructions::init_snipe::{
    create_marker_result, lamports_after, markers_after, InitSnipe,
};
use crate::instructions::state::Snipe;
use crate::marker_store::MarkerStore;

verus! {

/// Creates the marker record of `ctx.payer` and `ctx.sniped_token_mint`,
/// once: a second request for the same pair finds the address occupied.
pub fn init_snipe(store: &mut MarkerStore, ctx: &mut InitSnipe, rent: u64) -> (result: Result<
    Snipe,
    InitSnipeError,
>)
    ensures
        result == create_marker_result(
            old(store)@,
            snipe_address(old(ctx).payer.key@, old(ctx).sniped_token_mint@),
            old(ctx).payer.lamports,
            rent,
        ),
        final(store)@ == markers_after(
            old(store)@,
            snipe_address(old(ctx).payer.key@, old(ctx).sniped_token_mint@),
            old(ctx).payer.lamports,
            rent,
        ),
        final(ctx).payer.lamports == lamports_after(
            old(store)@,
            snipe_address(old(ctx).payer.key@, old(ctx).sniped_token_mint@),
            old(ctx).payer.lamports,
            rent,
        ),
        final(ctx).payer.key == old(ctx).payer.key,
        final(ctx).sniped_token_mint == old(ctx).sniped_token_mint,
{
    crate::instructions::init_snipe::handler(store, ctx, rent)
}

/// Range gate: succeeds exactly when the balance held by `ctx.token_account`
/// lies in the inclusive window `[min_amount, max_amount]`.
pub fn check_token_amount(ctx: &CheckTokenAmount, min_amount: u64, max_amount: u64) -> (result:
    Result<(), SnipeHelperErrorCode>)
    ensures
        result == range_check(ctx.token_account.amount, min_amount, max_amount),
{
    crate::instructions::check_token_amount::handler(ctx, min_amount, max_amount)
}

} // verus!
