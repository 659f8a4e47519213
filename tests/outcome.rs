use pinocchio::program_error::ProgramError;
use raydium_cpmm_cpi::error::{
    forward, CpmmError, ACCOUNT_BORROW_FAILED_CODE, INVALID_ARGUMENT_CODE,
};

#[test]
fn forward_keeps_success() {
    assert_eq!(forward(Ok(())), Ok(()));
}

#[test]
fn forward_carries_the_runtime_code() {
    assert_eq!(
        forward(Err(ProgramError::InvalidArgument)),
        Err(CpmmError::Invocation(INVALID_ARGUMENT_CODE))
    );
    assert_eq!(
        forward(Err(ProgramError::AccountBorrowFailed)),
        Err(CpmmError::Invocation(ACCOUNT_BORROW_FAILED_CODE))
    );
    assert_eq!(INVALID_ARGUMENT_CODE, 2u64 << 32);
    assert_eq!(
        forward(Err(ProgramError::NotEnoughAccountKeys)),
        Err(CpmmError::Invocation(11u64 << 32))
    );
    assert_eq!(forward(Err(ProgramError::Custom(7))), Err(CpmmError::Invocation(7)));
}
