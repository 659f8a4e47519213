use crate::codec::{encode_payload, payload};
use crate::error::is_invoke_error;
use crate::host::invoke_instruction;
use crate::instructions::{account_metas, metas_match, Access};
use crate::ID;
use pinocchio::account_info::AccountInfo;
use pinocchio::instruction::{AccountMeta, Signer};
use pinocchio::ProgramResult;
use vstd::prelude::*;

verus! {

/// Discriminator of the downstream `swap_base_input` instruction.
pub const SWAP_BASE_INPUT_DISCRIMINATOR: [u8; 8] = [143, 190, 90, 218, 196, 30, 51, 222];

/// Access class of each `swap_base_input` account, in order.
pub const SWAP_BASE_INPUT_ACCESS: [Access; 13] = [
    Access::WritableSigner,
    Access::ReadOnly,
    Access::ReadOnly,
    Access::Writable,
    Access::Writable,
    Access::Writable,
    Access::Writable,
    Access::Writable,
    Access::ReadOnly,
    Access::ReadOnly,
    Access::ReadOnly,
    Access::ReadOnly,
    Access::Writable,
];

/// The `swap_base_input` payload: discriminator, then the two fields.
pub open spec fn swap_base_input_payload(amount_in: u64, minimum_amount_out: u64) -> Seq<u8> {
    payload(SWAP_BASE_INPUT_DISCRIMINATOR, seq![amount_in, minimum_amount_out])
}

/// Builds the 24-byte `swap_base_input` payload.
pub fn swap_base_input_data(amount_in: u64, minimum_amount_out: u64) -> (r: Vec<u8>)
    ensures
        r@ == swap_base_input_payload(amount_in, minimum_amount_out),
        r@.len() == 24,
{
    encode_payload(&SWAP_BASE_INPUT_DISCRIMINATOR, &[amount_in, minimum_amount_out])
}

/// Swaps tokens in the pool, fixing the input amount.
///
/// Accounts, in order: payer (writable, signer), authority, amm_config,
/// pool_state (writable), input_token_account (writable), output_token_account
/// (writable), input_vault (writable), output_vault (writable),
/// input_token_program, output_token_program, input_token_mint,
/// output_token_mint, observation_state (writable).
pub struct SwapBaseInput<'a> {
    /// The user performing the swap
    pub payer: &'a AccountInfo,
    /// Pool vault and lp mint authority
    pub authority: &'a AccountInfo,
    /// The factory state to read protocol fees
    pub amm_config: &'a AccountInfo,
    /// The program account of the pool in which the swap will be performed
    pub pool_state: &'a AccountInfo,
    /// The user token account for input token
    pub input_token_account: &'a AccountInfo,
    /// The user token account for output token
    pub output_token_account: &'a AccountInfo,
    /// The vault token account for input token
    pub input_vault: &'a AccountInfo,
    /// The vault token account for output token
    pub output_vault: &'a AccountInfo,
    /// SPL program for input token transfers
    pub input_token_program: &'a AccountInfo,
    /// SPL program for output token transfers
    pub output_token_program: &'a AccountInfo,
    /// The mint of input token
    pub input_token_mint: &'a AccountInfo,
    /// The mint of output token
    pub output_token_mint: &'a AccountInfo,
    /// The program account for the most recent oracle observation
    pub observation_state: &'a AccountInfo,
    /// Exact amount of input token
    pub amount_in: u64,
    /// Least amount of output token accepted
    pub minimum_amount_out: u64,
}

impl<'a> SwapBaseInput<'a> {
    /// The accounts in the order the downstream program expects them.
    pub open spec fn accounts_view(&self) -> Seq<AccountInfo> {
        seq![
            *self.payer,
            *self.authority,
            *self.amm_config,
            *self.pool_state,
            *self.input_token_account,
            *self.output_token_account,
            *self.input_vault,
            *self.output_vault,
            *self.input_token_program,
            *self.output_token_program,
            *self.input_token_mint,
            *self.output_token_mint,
            *self.observation_state,
        ]
    }

    /// The accounts in the order the downstream program expects them.
    pub fn account_infos(&self) -> (r: [&'a AccountInfo; 13])
        ensures
            r@.len() == 13,
            forall|i: int| 0 <= i < 13 ==> *r@[i] == self.accounts_view()[i],
    {
        let r = [
            self.payer,
            self.authority,
            self.amm_config,
            self.pool_state,
            self.input_token_account,
            self.output_token_account,
            self.input_vault,
            self.output_vault,
            self.input_token_program,
            self.output_token_program,
            self.input_token_mint,
            self.output_token_mint,
            self.observation_state,
        ];
        r
    }

    /// The metadata of each account, tagged with its access class.
    pub fn account_metas(&self) -> (r: Vec<AccountMeta<'a>>)
        ensures
            metas_match(r@, SWAP_BASE_INPUT_ACCESS@),
    {
        let infos = self.account_infos();
        account_metas(infos.as_slice(), SWAP_BASE_INPUT_ACCESS.as_slice())
    }

    /// The payload of this instruction.
    pub fn instruction_data(&self) -> (r: Vec<u8>)
        ensures
            r@ == swap_base_input_payload(self.amount_in, self.minimum_amount_out),
    {
        swap_base_input_data(self.amount_in, self.minimum_amount_out)
    }

    /// Calls the downstream program with no program-derived signers. It fails
    /// only in the runtime's checks before the call: a key mismatch or a
    /// borrow conflict.
    pub fn invoke(&self) -> (r: ProgramResult)
        ensures
            r matches Err(e) ==> is_invoke_error(e),
    {
        self.invoke_signed(&[])
    }

    /// Calls the downstream program, signing with `signers`: the accounts in
    /// `account_infos` order, tagged as `account_metas` says, with the payload
    /// of `instruction_data`. It fails only in the runtime's checks before the
    /// call: a key mismatch or a borrow conflict.
    pub fn invoke_signed(&self, signers: &[Signer]) -> (r: ProgramResult)
        ensures
            r matches Err(e) ==> is_invoke_error(e),
    {
        let infos = self.account_infos();
        let metas = self.account_metas();
        let data = self.instruction_data();
        invoke_instruction(&ID, metas.as_slice(), data.as_slice(), infos.as_slice(), signers)
    }
}

} // verus!
