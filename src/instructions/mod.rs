//! Outbound instructions of the downstream AMM program: for each operation
//! its discriminator, the access class of each account position, the payload
//! layout, and the cross-program call that carries them.
use pinocchio::account_info::AccountInfo;
use pinocchio::instruction::AccountMeta;
use vstd::prelude::*;

pub mod deposit;
pub mod initialize;
pub mod swap_base_input;
pub mod swap_base_output;
pub mod withdraw;

pub use deposit::{deposit_data, deposit_payload, Deposit, DEPOSIT_ACCESS, DEPOSIT_DISCRIMINATOR};
pub use initialize::{initialize_data, initialize_payload, Initialize, INITIALIZE_ACCESS, INITIALIZE_DISCRIMINATOR};
pub use swap_base_input::{
    swap_base_input_data, swap_base_input_payload, SwapBaseInput, SWAP_BASE_INPUT_ACCESS, SWAP_BASE_INPUT_DISCRIMINATOR,
};
pub use swap_base_output::{
    swap_base_output_data, swap_base_output_payload, SwapBaseOutput, SWAP_BASE_OUTPUT_ACCESS, SWAP_BASE_OUTPUT_DISCRIMINATOR,
};
pub use withdraw::{withdraw_data, withdraw_payload, Withdraw, WITHDRAW_ACCESS, WITHDRAW_DISCRIMINATOR};

verus! {

/// Access class that the downstream program requires of an account position.
#[derive(Clone, Copy, Debug, PartialEq, Eq, Structural)]
pub enum Access {
    /// Read-only, not a signer.
    ReadOnly,
    /// Read-only, must sign.
    ReadOnlySigner,
    /// Writable, not a signer.
    Writable,
    /// Writable, must sign.
    WritableSigner,
}

impl Access {
    pub open spec fn spec_is_writable(self) -> bool {
        self is Writable || self is WritableSigner
    }

    pub open spec fn spec_is_signer(self) -> bool {
        self is ReadOnlySigner || self is WritableSigner
    }

    /// Whether the account may be written.
    #[verifier::when_used_as_spec(spec_is_writable)]
    pub fn is_writable(self) -> (r: bool)
        ensures
            r == self.spec_is_writable(),
    {
        match self {
            Access::Writable | Access::WritableSigner => true,
            _ => false,
        }
    }

    /// Whether the account must sign.
    #[verifier::when_used_as_spec(spec_is_signer)]
    pub fn is_signer(self) -> (r: bool)
        ensures
            r == self.spec_is_signer(),
    {
        match self {
            Access::ReadOnlySigner | Access::WritableSigner => true,
            _ => false,
        }
    }
}

/// Whether each metadata entry carries the flags of the access class at its position.
pub open spec fn metas_match(metas: Seq<AccountMeta>, access: Seq<Access>) -> bool {
    &&& metas.len() == access.len()
    &&& forall|i: int|
        0 <= i < metas.len() ==> {
            &&& (#[trigger] metas[i]).is_writable == access[i].is_writable()
            &&& metas[i].is_signer == access[i].is_signer()
        }
}

/// Tags each account, in order, with the access class at its position.
pub fn account_metas<'a>(accounts: &[&'a AccountInfo], access: &[Access]) -> (r: Vec<
    AccountMeta<'a>,
>)
    requires
        accounts@.len() == access@.len(),
    ensures
        metas_match(r@, access@),
{
    let mut metas: Vec<AccountMeta<'a>> = Vec::with_capacity(accounts.len());
    for i in 0..accounts.len()
        invariant
            accounts@.len() == access@.len(),
            metas_match(metas@, access@.subrange(0, i as int)),
    {
        let class = access[i];
        metas.push(
            AccountMeta {
                pubkey: accounts[i].key(),
                is_writable: class.is_writable(),
                is_signer: class.is_signer(),
            },
        );
        assert(metas_match(metas@, access@.subrange(0, i + 1)));
    }
    assert(access@.subrange(0, access@.len() as int) =~= access@);
    metas
}

} // verus!
