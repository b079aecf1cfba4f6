use vstd::prelude::*;

use crate::instructions::errors::SnipeHelperErrorCode;

verus! {

/// The part of a token-balance record that the range gate reads.
#[derive(Clone, Copy, Debug, PartialEq, Eq, Structural)]
pub struct TokenAccount {
    pub amount: u64,
}

/// Accounts of the range-gate instruction.
#[derive(Clone, Copy, Debug, PartialEq, Eq, Structural)]
pub struct CheckTokenAmount {
    pub token_account: TokenAccount,
}

/// Outcome of the range gate for a balance and a window.
///
/// The window itself is validated first: an inverted window is reported as
/// such whatever the balance is.
pub open spec fn range_check(amount: u64, min_amount: u64, max_amount: u64) -> Result<
    (),
    SnipeHelperErrorCode,
> {
    if min_amount > max_amount {
        Err(SnipeHelperErrorCode::InvalidTokenAmountCheckingInput)
    } else if amount < min_amount || amount > max_amount {
        Err(SnipeHelperErrorCode::InvalidTokenAmount)
    } else {
        Ok(())
    }
}

/// Checks that the balance of `ctx.token_account` lies in
/// `[min_amount, max_amount]`. Reads the balance only; changes nothing.
pub fn handler(ctx: &CheckTokenAmount, min_amount: u64, max_amount: u64) -> (result: Result<
    (),
    SnipeHelperErrorCode,
>)
    ensures
        result == range_check(ctx.token_account.amount, min_amount, max_amount),
        result is Ok <==> min_amount <= ctx.token_account.amount <= max_amount,
        result == Err::<(), SnipeHelperErrorCode>(
            SnipeHelperErrorCode::InvalidTokenAmountCheckingInput,
        ) <==> min_amount > max_amount,
        result == Err::<(), SnipeHelperErrorCode>(SnipeHelperErrorCode::InvalidTokenAmount) <==> (
        min_amount <= max_amount && !(min_amount <= ctx.token_account.amount <= max_amount)),
{
    if min_amount > max_amount {
        return Err(SnipeHelperErrorCode::InvalidTokenAmountCheckingInput);
    }
    let amount: u64 = ctx.token_account.amount;
    if amount < min_amount || amount > max_amount {
        return Err(SnipeHelperErrorCode::InvalidTokenAmount);
    }
    Ok(())
}

/// With a window that is in order, exactly the balances inside it are
/// accepted; an inverted window is rejected as such, whatever the balance.
pub proof fn lemma_range_check_decides(amount: u64, min_amount: u64, max_amount: u64)
    ensures
        min_amount <= max_amount ==> (range_check(amount, min_amount, max_amount) is Ok <==> min_amount
            <= amount <= max_amount),
        min_amount > max_amount ==> range_check(amount, min_amount, max_amount) == Err::<
            (),
            SnipeHelperErrorCode,
        >(SnipeHelperErrorCode::InvalidTokenAmountCheckingInput),
{
}

/// Both ends of a window that is in order belong to it.
pub proof fn lemma_window_includes_its_bounds(min_amount: u64, max_amount: u64)
    requires
        min_amount <= max_amount,
    ensures
        range_check(min_amount, min_amount, max_amount) is Ok,
        range_check(max_amount, min_amount, max_amount) is Ok,
{
}

/// The balances next to a window, one below its lower end and one above
/// its upper end, are rejected.
pub proof fn lemma_window_excludes_its_neighbours(min_amount: u64, max_amount: u64)
    ensures
        min_amount > 0 ==> range_check((min_amount - 1) as u64, min_amount, max_amount) is Err,
        max_amount < u64::MAX ==> range_check((max_amount + 1) as u64, min_amount, max_amount) is Err,
        min_amount > 0 && min_amount <= max_amount ==> range_check(
            (min_amount - 1) as u64,
            min_amount,
            max_amount,
        ) == Err::<(), SnipeHelperErrorCode>(SnipeHelperErrorCode::InvalidTokenAmount),
        max_amount < u64::MAX && min_amount <= max_amount ==> range_check(
            (max_amount + 1) as u64,
            min_amount,
            max_amount,
        ) == Err::<(), SnipeHelperErrorCode>(SnipeHelperErrorCode::InvalidTokenAmount),
{
}

} // verus!
