use sniper_helper::instructions::errors::{InitSnipeError, SnipeHelperErrorCode, ERROR_CODE_OFFSET};

#[test]
fn code_offset_is_the_frameworks() {
    assert_eq!(ERROR_CODE_OFFSET, anchor_lang::error::ERROR_CODE_OFFSET);
    assert_eq!(ERROR_CODE_OFFSET, 6000);
}

#[test]
fn codes_are_numbered_from_the_offset() {
    assert_eq!(u32::from(SnipeHelperErrorCode::InvalidTokenAmountCheckingInput), 6000);
    assert_eq!(u32::from(SnipeHelperErrorCode::InvalidTokenAmount), 6001);
}

#[test]
fn codes_have_their_names() {
    assert_eq!(
        SnipeHelperErrorCode::InvalidTokenAmountCheckingInput.name(),
        "InvalidTokenAmountCheckingInput"
    );
    assert_eq!(SnipeHelperErrorCode::InvalidTokenAmount.name(), "InvalidTokenAmount");
}

#[test]
fn codes_have_their_messages() {
    assert_eq!(
        SnipeHelperErrorCode::InvalidTokenAmountCheckingInput.message(),
        "invalid token amount checking input"
    );
    assert_eq!(SnipeHelperErrorCode::InvalidTokenAmount.message(), "invalid token amount");
}

#[test]
fn error_kinds_are_distinct() {
    assert_ne!(
        SnipeHelperErrorCode::InvalidTokenAmountCheckingInput,
        SnipeHelperErrorCode::InvalidTokenAmount
    );
    assert_ne!(InitSnipeError::AccountAlreadyInitialized, InitSnipeError::InsufficientFunds);
    assert_ne!(InitSnipeError::AccountAlreadyInitialized, InitSnipeError::InvalidSeeds);
    assert_ne!(InitSnipeError::InsufficientFunds, InitSnipeError::InvalidSeeds);
}
