//! The runtime surface this library relies on: pinocchio's account handle,
//! account metadata, signer seeds, error type and cross-program invocation.
use pinocchio::account_info::AccountInfo;
use pinocchio::instruction::{AccountMeta, Instruction, Signer};
use pinocchio::program_error::ProgramError;
use crate::error::{ACCOUNT_BORROW_FAILED_CODE, INVALID_ARGUMENT_CODE};
use pinocchio::pubkey::Pubkey;
use vstd::prelude::*;

verus! {

/// An account handed to the program by the runtime.
#[verifier::external_type_specification]
#[verifier::external_body]
pub struct ExAccountInfo(AccountInfo);

/// Key and access flags of one account of an outbound instruction; its fields are public.
#[verifier::external_type_specification]
pub struct ExAccountMeta<'a>(AccountMeta<'a>);

/// Seeds that sign for a program-derived address.
#[verifier::external_type_specification]
#[verifier::external_body]
pub struct ExSigner<'a, 'b>(Signer<'a, 'b>);

/// The runtime's error type; its variants are public.
#[verifier::external_type_specification]
pub struct ExProgramError(ProgramError);

/// Relies on AccountInfo::key: the address of the account.
pub assume_specification[ AccountInfo::key ](account: &AccountInfo) -> &Pubkey;

/// Relies on AccountInfo::is_owned_by: whether the account's owner is `program`.
pub assume_specification[ AccountInfo::is_owned_by ](
    account: &AccountInfo,
    program: &Pubkey,
) -> bool;

/// Relies on pinocchio::cpi::slice_invoke_signed: checks the accounts against
/// the metadata and hands the instruction to the runtime. It fails only in its
/// own checks: fewer metadata than accounts, more than 64 accounts or a key
/// mismatch, or a borrow conflict. Once the instruction is handed over it
/// returns `Ok`; a failing callee aborts the whole transaction.
#[verifier::external_body]
pub(crate) fn invoke_instruction(
    program_id: &Pubkey,
    metas: &[AccountMeta],
    data: &[u8],
    infos: &[&AccountInfo],
    signers: &[Signer],
) -> (r: Result<(), ProgramError>)
    ensures
        r matches Err(e) ==> {
            ||| e is NotEnoughAccountKeys && metas@.len() < infos@.len()
            ||| e is InvalidArgument
            ||| e is AccountBorrowFailed
        },
{
    let instruction = Instruction { program_id, accounts: metas, data };
    pinocchio::cpi::slice_invoke_signed(&instruction, infos, signers)
}

/// Relies on pinocchio's `From<ProgramError> for u64`: the numeric code of an
/// error; builtin errors have their number in the high 32 bits.
#[verifier::external_body]
pub(crate) fn error_code(error: ProgramError) -> (r: u64)
    ensures
        error is InvalidArgument ==> r == INVALID_ARGUMENT_CODE,
        error is AccountBorrowFailed ==> r == ACCOUNT_BORROW_FAILED_CODE,
{
    u64::from(error)
}

/// Relies on AccountInfo::try_borrow_data: a copy of the account's data, or
/// `AccountBorrowFailed` when the data is already mutably borrowed or borrowed
/// too often. The borrow ends with the copy.
#[verifier::external_body]
pub(crate) fn account_data(account: &AccountInfo) -> (r: Result<Vec<u8>, ProgramError>)
    ensures
        r matches Err(e) ==> e is AccountBorrowFailed,
{
    account.try_borrow_data().map(|data| data.to_vec())
}

} // verus!
