use vstd::prelude::*;

verus! {

/// Why the range gate rejected a request.
#[derive(Clone, Copy, Debug, PartialEq, Eq, Structural)]
pub enum SnipeHelperErrorCode {
    /// The caller supplied a window whose lower bound exceeds its upper bound.
    InvalidTokenAmountCheckingInput,
    /// The inspected balance lies outside the supplied window.
    InvalidTokenAmount,
}

/// Where the numbers of this program's error codes start.
pub const ERROR_CODE_OFFSET: u32 = 6000;

impl SnipeHelperErrorCode {
    /// The number under which the host reports a code: the offset of this
    /// program's codes plus the code's place in the list.
    pub open spec fn number(self) -> u32 {
        match self {
            SnipeHelperErrorCode::InvalidTokenAmountCheckingInput => ERROR_CODE_OFFSET,
            SnipeHelperErrorCode::InvalidTokenAmount => (ERROR_CODE_OFFSET + 1) as u32,
        }
    }

    /// The code's name, as it is written.
    pub open spec fn name_text(self) -> Seq<char> {
        match self {
            SnipeHelperErrorCode::InvalidTokenAmountCheckingInput => "InvalidTokenAmountCheckingInput"@,
            SnipeHelperErrorCode::InvalidTokenAmount => "InvalidTokenAmount"@,
        }
    }

    /// The sentence that explains a code to the caller.
    pub open spec fn message_text(self) -> Seq<char> {
        match self {
            SnipeHelperErrorCode::InvalidTokenAmountCheckingInput => "invalid token amount checking input"@,
            SnipeHelperErrorCode::InvalidTokenAmount => "invalid token amount"@,
        }
    }

    /// The code's name.
    pub fn name(&self) -> (name: String)
        ensures
            name@ == self.name_text(),
    {
        match self {
            SnipeHelperErrorCode::InvalidTokenAmountCheckingInput => "InvalidTokenAmountCheckingInput".to_owned(),
            SnipeHelperErrorCode::InvalidTokenAmount => "InvalidTokenAmount".to_owned(),
        }
    }

    /// The sentence that explains the code.
    pub fn message(&self) -> (message: String)
        ensures
            message@ == self.message_text(),
    {
        match self {
            SnipeHelperErrorCode::InvalidTokenAmountCheckingInput => "invalid token amount checking input".to_owned(),
            SnipeHelperErrorCode::InvalidTokenAmount => "invalid token amount".to_owned(),
        }
    }
}

impl From<SnipeHelperErrorCode> for u32 {
    fn from(code: SnipeHelperErrorCode) -> (number: u32) {
        match code {
            SnipeHelperErrorCode::InvalidTokenAmountCheckingInput => ERROR_CODE_OFFSET,
            SnipeHelperErrorCode::InvalidTokenAmount => ERROR_CODE_OFFSET + 1,
        }
    }
}

impl vstd::std_specs::convert::FromSpecImpl<SnipeHelperErrorCode> for u32 {
    open spec fn obeys_from_spec() -> bool {
        true
    }

    open spec fn from_spec(code: SnipeHelperErrorCode) -> u32 {
        code.number()
    }
}

/// Why a marker record could not be created. These are failures of the
/// host platform, not codes of this program.
#[derive(Clone, Copy, Debug, PartialEq, Eq, Structural)]
pub enum InitSnipeError {
    /// The seeds give no valid address under any bump.
    InvalidSeeds,
    /// A record already exists at the derived address.
    AccountAlreadyInitialized,
    /// The payer cannot cover the cost of the new record.
    InsufficientFunds,
}

} // verus!
