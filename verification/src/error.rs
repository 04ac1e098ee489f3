//! The ways in which an invocation fails.

use vstd::prelude::*;

verus! {

/// Why an invocation was refused.
#[derive(Debug)]
pub enum ProgramError {
    /// No account was supplied.
    NotEnoughAccountKeys,
    /// The account is owned by another program.
    IncorrectProgramId,
    /// The codec could not read or write the stored record; its own error is
    /// handed on as it came.
    BorshIoError(std::io::Error),
}

impl From<std::io::Error> for ProgramError {
    /// A failure of the codec becomes a failure of the invocation.
    fn from(error: std::io::Error) -> (wrapped: ProgramError) {
        ProgramError::BorshIoError(error)
    }
}

impl vstd::std_specs::convert::FromSpecImpl<std::io::Error> for ProgramError {
    open spec fn obeys_from_spec() -> bool {
        true
    }

    open spec fn from_spec(error: std::io::Error) -> ProgramError {
        ProgramError::BorshIoError(error)
    }
}

} // verus!
