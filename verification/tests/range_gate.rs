use sniper_helper::check_token_amount;
use sniper_helper::instructions::check_token_amount::{handler, CheckTokenAmount, TokenAccount};
use sniper_helper::instructions::errors::SnipeHelperErrorCode;

fn accounts(amount: u64) -> CheckTokenAmount {
    CheckTokenAmount { token_account: TokenAccount { amount } }
}

#[test]
fn balance_inside_window_passes() {
    assert_eq!(check_token_amount(&accounts(100), 50, 150), Ok(()));
}

#[test]
fn balance_below_window_is_rejected() {
    assert_eq!(
        check_token_amount(&accounts(40), 50, 150),
        Err(SnipeHelperErrorCode::InvalidTokenAmount)
    );
}

#[test]
fn balance_above_window_is_rejected() {
    assert_eq!(
        check_token_amount(&accounts(151), 50, 150),
        Err(SnipeHelperErrorCode::InvalidTokenAmount)
    );
}

#[test]
fn inverted_window_is_rejected() {
    assert_eq!(
        check_token_amount(&accounts(100), 150, 50),
        Err(SnipeHelperErrorCode::InvalidTokenAmountCheckingInput)
    );
}

#[test]
fn inverted_window_is_reported_before_the_balance() {
    for amount in [0u64, 49, 50, 100, 150, 151, u64::MAX] {
        assert_eq!(
            check_token_amount(&accounts(amount), 150, 50),
            Err(SnipeHelperErrorCode::InvalidTokenAmountCheckingInput)
        );
    }
}

#[test]
fn both_bounds_are_inside() {
    assert_eq!(check_token_amount(&accounts(50), 50, 150), Ok(()));
    assert_eq!(check_token_amount(&accounts(150), 50, 150), Ok(()));
}

#[test]
fn neighbours_of_the_bounds_are_outside() {
    assert_eq!(
        check_token_amount(&accounts(49), 50, 150),
        Err(SnipeHelperErrorCode::InvalidTokenAmount)
    );
    assert_eq!(
        check_token_amount(&accounts(151), 50, 150),
        Err(SnipeHelperErrorCode::InvalidTokenAmount)
    );
}

#[test]
fn window_of_one_value() {
    assert_eq!(check_token_amount(&accounts(7), 7, 7), Ok(()));
    assert_eq!(
        check_token_amount(&accounts(6), 7, 7),
        Err(SnipeHelperErrorCode::InvalidTokenAmount)
    );
    assert_eq!(
        check_token_amount(&accounts(8), 7, 7),
        Err(SnipeHelperErrorCode::InvalidTokenAmount)
    );
}

#[test]
fn extreme_windows() {
    assert_eq!(check_token_amount(&accounts(0), 0, 0), Ok(()));
    assert_eq!(check_token_amount(&accounts(0), 0, u64::MAX), Ok(()));
    assert_eq!(check_token_amount(&accounts(u64::MAX), 0, u64::MAX), Ok(()));
    assert_eq!(check_token_amount(&accounts(u64::MAX), u64::MAX, u64::MAX), Ok(()));
    assert_eq!(
        check_token_amount(&accounts(u64::MAX - 1), u64::MAX, u64::MAX),
        Err(SnipeHelperErrorCode::InvalidTokenAmount)
    );
    assert_eq!(
        check_token_amount(&accounts(1), 0, 0),
        Err(SnipeHelperErrorCode::InvalidTokenAmount)
    );
}

#[test]
fn gate_agrees_with_the_window_on_a_grid() {
    let values = [0u64, 1, 2, 3, 4, 5, u64::MAX - 1, u64::MAX];
    for &min in &values {
        for &max in &values {
            for &amount in &values {
                let expected = if min > max {
                    Err(SnipeHelperErrorCode::InvalidTokenAmountCheckingInput)
                } else if min <= amount && amount <= max {
                    Ok(())
                } else {
                    Err(SnipeHelperErrorCode::InvalidTokenAmount)
                };
                assert_eq!(check_token_amount(&accounts(amount), min, max), expected);
            }
        }
    }
}

#[test]
fn handler_and_entry_point_agree() {
    for (amount, min, max) in [(100u64, 50u64, 150u64), (40, 50, 150), (100, 150, 50)] {
        assert_eq!(
            handler(&accounts(amount), min, max),
            check_token_amount(&accounts(amount), min, max)
        );
    }
}

#[test]
fn gate_leaves_the_accounts_as_they_were() {
    let ctx = accounts(100);
    let _ = check_token_amount(&ctx, 50, 150);
    let _ = check_token_amount(&ctx, 150, 50);
    assert_eq!(ctx, accounts(100));
}
