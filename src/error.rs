use crate::host::error_code;
use pinocchio::program_error::ProgramError;
use pinocchio::ProgramResult;
use vstd::prelude::*;

verus! {

/// Why an inbound call or a persisted record was rejected.
#[derive(Clone, Copy, Debug, PartialEq, Eq, Structural)]
pub enum CpmmError {
    /// The account list does not hold exactly the operation's roles.
    AccountCount,
    /// The instruction payload is not exactly the operation's width.
    DataLength,
    /// The leading opcode byte is absent or names no operation.
    UnknownOpcode,
    /// A persisted record is not owned by the downstream program.
    InvalidOwner,
    /// A persisted record has the wrong length, tag or field encoding.
    InvalidAccountData,
    /// A persisted record's data is already mutably borrowed.
    AccountBorrowFailed,
    /// The cross-program call was refused by the checks made before it is
    /// handed to the runtime; carries the runtime error's code.
    Invocation(u64),
}

/// Code of the runtime's `InvalidArgument` error.
pub const INVALID_ARGUMENT_CODE: u64 = 0x2_0000_0000;

/// Code of the runtime's `AccountBorrowFailed` error.
pub const ACCOUNT_BORROW_FAILED_CODE: u64 = 0xC_0000_0000;

/// Whether `e` is an error that a forwarded cross-program call can end in.
pub open spec fn is_call_refusal(e: CpmmError) -> bool {
    e == CpmmError::Invocation(INVALID_ARGUMENT_CODE) || e == CpmmError::Invocation(
        ACCOUNT_BORROW_FAILED_CODE,
    )
}

/// Whether `e` is an error of the runtime's checks before a cross-program call.
pub open spec fn is_invoke_error(e: ProgramError) -> bool {
    e is InvalidArgument || e is AccountBorrowFailed
}

/// The library's form of a cross-program call's outcome: `Ok` stays `Ok`, and
/// an error becomes `Invocation` with its code.
pub fn forward(outcome: ProgramResult) -> (r: Result<(), CpmmError>)
    ensures
        outcome is Ok <==> r is Ok,
        outcome matches Err(e) ==> (r is Err && r->Err_0 is Invocation),
        outcome matches Err(e) && is_invoke_error(e) ==> (r matches Err(f) && is_call_refusal(f)),
{
    match outcome {
        Ok(()) => Ok(()),
        Err(e) => Err(CpmmError::Invocation(error_code(e))),
    }
}

} // verus!
