use crate::codec::{encode_payload, payload};
use crate::error::is_invoke_error;
use crate::host::invoke_instruction;
use crate::instructions::{account_metas, metas_match, Access};
use crate::ID;
use pinocchio::account_info::AccountInfo;
use pinocchio::instruction::{AccountMeta, Signer};
use pinocchio::ProgramResult;
use vstd::prelude::*;

verus! {

/// Discriminator of the downstream `withdraw` instruction.
pub const WITHDRAW_DISCRIMINATOR: [u8; 8] = [183, 18, 70, 156, 148, 109, 161, 34];

/// Access class of each `withdraw` account, in order.
pub const WITHDRAW_ACCESS: [Access; 14] = [
    Access::ReadOnlySigner,
    Access::ReadOnly,
    Access::Writable,
    Access::Writable,
    Access::Writable,
    Access::Writable,
    Access::Writable,
    Access::Writable,
    Access::ReadOnly,
    Access::ReadOnly,
    Access::ReadOnly,
    Access::ReadOnly,
    Access::Writable,
    Access::ReadOnly,
];

/// The `withdraw` payload: discriminator, then the three fields.
pub open spec fn withdraw_payload(lp_token_amount: u64, minimum_token_0_amount: u64, minimum_token_1_amount: u64) -> Seq<u8> {
    payload(WITHDRAW_DISCRIMINATOR, seq![lp_token_amount, minimum_token_0_amount, minimum_token_1_amount])
}

/// Builds the 32-byte `withdraw` payload.
pub fn withdraw_data(lp_token_amount: u64, minimum_token_0_amount: u64, minimum_token_1_amount: u64) -> (r: Vec<u8>)
    ensures
        r@ == withdraw_payload(lp_token_amount, minimum_token_0_amount, minimum_token_1_amount),
        r@.len() == 32,
{
    encode_payload(&WITHDRAW_DISCRIMINATOR, &[lp_token_amount, minimum_token_0_amount, minimum_token_1_amount])
}

/// Withdraws liquidity from the pool.
///
/// Accounts, in order: owner (signer), authority, pool_state (writable),
/// owner_lp_token (writable), token_0_account (writable), token_1_account
/// (writable), token_0_vault (writable), token_1_vault (writable),
/// token_program, token_program_2022, vault_0_mint, vault_1_mint, lp_mint
/// (writable), memo_program.
pub struct Withdraw<'a> {
    /// Owner of the liquidity
    pub owner: &'a AccountInfo,
    /// Pool vault and lp mint authority
    pub authority: &'a AccountInfo,
    /// Pool state account
    pub pool_state: &'a AccountInfo,
    /// Owner lp token account
    pub owner_lp_token: &'a AccountInfo,
    /// The owner's token account for token_0
    pub token_0_account: &'a AccountInfo,
    /// The owner's token account for token_1
    pub token_1_account: &'a AccountInfo,
    /// The address that holds pool tokens for token_0
    pub token_0_vault: &'a AccountInfo,
    /// The address that holds pool tokens for token_1
    pub token_1_vault: &'a AccountInfo,
    /// token Program
    pub token_program: &'a AccountInfo,
    /// Token program 2022
    pub token_program_2022: &'a AccountInfo,
    /// The mint of token_0 vault
    pub vault_0_mint: &'a AccountInfo,
    /// The mint of token_1 vault
    pub vault_1_mint: &'a AccountInfo,
    /// Lp token mint
    pub lp_mint: &'a AccountInfo,
    /// Memo program
    pub memo_program: &'a AccountInfo,
    /// Lp tokens to burn
    pub lp_token_amount: u64,
    /// Least token_0 to receive
    pub minimum_token_0_amount: u64,
    /// Least token_1 to receive
    pub minimum_token_1_amount: u64,
}

impl<'a> Withdraw<'a> {
    /// The accounts in the order the downstream program expects them.
    pub open spec fn accounts_view(&self) -> Seq<AccountInfo> {
        seq![
            *self.owner,
            *self.authority,
            *self.pool_state,
            *self.owner_lp_token,
            *self.token_0_account,
            *self.token_1_account,
            *self.token_0_vault,
            *self.token_1_vault,
            *self.token_program,
            *self.token_program_2022,
            *self.vault_0_mint,
            *self.vault_1_mint,
            *self.lp_mint,
            *self.memo_program,
        ]
    }

    /// The accounts in the order the downstream program expects them.
    pub fn account_infos(&self) -> (r: [&'a AccountInfo; 14])
        ensures
            r@.len() == 14,
            forall|i: int| 0 <= i < 14 ==> *r@[i] == self.accounts_view()[i],
    {
        let r = [
            self.owner,
            self.authority,
            self.pool_state,
            self.owner_lp_token,
            self.token_0_account,
            self.token_1_account,
            self.token_0_vault,
            self.token_1_vault,
            self.token_program,
            self.token_program_2022,
            self.vault_0_mint,
            self.vault_1_mint,
            self.lp_mint,
            self.memo_program,
        ];
        r
    }

    /// The metadata of each account, tagged with its access class.
    pub fn account_metas(&self) -> (r: Vec<AccountMeta<'a>>)
        ensures
            metas_match(r@, WITHDRAW_ACCESS@),
    {
        let infos = self.account_infos();
        account_metas(infos.as_slice(), WITHDRAW_ACCESS.as_slice())
    }

    /// The payload of this instruction.
    pub fn instruction_data(&self) -> (r: Vec<u8>)
        ensures
            r@ == withdraw_payload(self.lp_token_amount, self.minimum_token_0_amount, self.minimum_token_1_amount),
    {
        withdraw_data(self.lp_token_amount, self.minimum_token_0_amount, self.minimum_token_1_amount)
    }

    /// Calls the downstream program with no program-derived signers. It fails
    /// only in the runtime's checks before the call: a key mismatch or a
    /// borrow conflict.
    pub fn invoke(&self) -> (r: ProgramResult)
        ensures
            r matches Err(e) ==> is_invoke_error(e),
    {
        self.invoke_signed(&[])
    }

    /// Calls the downstream program, signing with `signers`: the accounts in
    /// `account_infos` order, tagged as `account_metas` says, with the payload
    /// of `instruction_data`. It fails only in the runtime's checks before the
    /// call: a key mismatch or a borrow conflict.
    pub fn invoke_signed(&self, signers: &[Signer]) -> (r: ProgramResult)
        ensures
            r matches Err(e) ==> is_invoke_error(e),
    {
        let infos = self.account_infos();
        let metas = self.account_metas();
        let data = self.instruction_data();
        invoke_instruction(&ID, metas.as_slice(), data.as_slice(), infos.as_slice(), signers)
    }
}

} // verus!
