use vstd::prelude::*;

verus! {

/// The errors that this program declares.
///
/// Only `UnauthorizedMint` is ever raised here: the other two are part
/// of the declared set and stay unreachable, since the token program does its
/// own balance and account checks.
#[derive(Clone, Copy, Debug, PartialEq, Eq, Structural)]
pub enum MockUsdcError {
    UnauthorizedMint,
    InsufficientBalance,
    InvalidTokenAccount,
}

/// The text that goes with each error.
pub open spec fn message_text(e: MockUsdcError) -> Seq<char> {
    match e {
        MockUsdcError::UnauthorizedMint => "Unauthorized mint operation"@,
        MockUsdcError::InsufficientBalance => "Insufficient balance"@,
        MockUsdcError::InvalidTokenAccount => "Invalid token account"@,
    }
}

impl MockUsdcError {
    /// The text that goes with this error.
    pub fn message(&self) -> (r: &'static str)
        ensures
            r@ == message_text(*self),
    {
        match self {
            MockUsdcError::UnauthorizedMint => "Unauthorized mint operation",
            MockUsdcError::InsufficientBalance => "Insufficient balance",
            MockUsdcError::InvalidTokenAccount => "Invalid token account",
        }
    }
}

/// Why an instruction failed as a whole: the authority check refused it, or the token
/// program refused the request it was handed (its error code, unchanged).
#[derive(Clone, Copy, Debug, PartialEq, Eq, Structural)]
pub enum InstructionError {
    Program(MockUsdcError),
    Service(u64),
}

/// What an instruction returns once its request has gone to the token
/// program: the token program's own verdict, passed on without translation.
pub open spec fn settled(forwarded: Result<(), u64>) -> Result<(), InstructionError> {
    match forwarded {
        Ok(()) => Ok(()),
        Err(code) => Err(InstructionError::Service(code)),
    }
}

/// Ends an instruction whose request was forwarded, with the token program's
/// answer to it.
pub fn settle(forwarded: Result<(), u64>) -> (r: Result<(), InstructionError>)
    ensures
        r == settled(forwarded),
{
    match forwarded {
        Ok(()) => Ok(()),
        Err(code) => Err(InstructionError::Service(code)),
    }
}

} // verus!
