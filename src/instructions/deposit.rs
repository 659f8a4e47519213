use crate::codec::{encode_payload, payload};
use crate::error::is_invoke_error;
use crate::host::invoke_instruction;
use crate::instructions::{account_metas, metas_match, Access};
use crate::ID;
use pinocchio::account_info::AccountInfo;
use pinocchio::instruction::{AccountMeta, Signer};
use pinocchio::ProgramResult;
use vstd::prelude::*;

verus! {

/// Discriminator of the downstream `deposit` instruction.
pub const DEPOSIT_DISCRIMINATOR: [u8; 8] = [242, 35, 198, 137, 82, 225, 242, 182];

/// Access class of each `deposit` account, in order.
pub const DEPOSIT_ACCESS: [Access; 13] = [
    Access::ReadOnlySigner,
    Access::ReadOnly,
    Access::Writable,
    Access::Writable,
    Access::Writable,
    Access::Writable,
    Access::Writable,
    Access::Writable,
    Access::ReadOnly,
    Access::ReadOnly,
    Access::ReadOnly,
    Access::ReadOnly,
    Access::Writable,
];

/// The `deposit` payload: discriminator, then the three fields.
pub open spec fn deposit_payload(
    lp_token_amount: u64,
    maximum_token_0_amount: u64,
    maximum_token_1_amount: u64,
) -> Seq<u8> {
    payload(
        DEPOSIT_DISCRIMINATOR,
        seq![lp_token_amount, maximum_token_0_amount, maximum_token_1_amount],
    )
}

/// Builds the 32-byte `deposit` payload.
pub fn deposit_data(
    lp_token_amount: u64,
    maximum_token_0_amount: u64,
    maximum_token_1_amount: u64,
) -> (r: Vec<u8>)
    ensures
        r@ == deposit_payload(lp_token_amount, maximum_token_0_amount, maximum_token_1_amount),
        r@.len() == 32,
{
    encode_payload(
        &DEPOSIT_DISCRIMINATOR,
        &[lp_token_amount, maximum_token_0_amount, maximum_token_1_amount],
    )
}

/// Deposits liquidity into the pool.
///
/// Accounts, in order: owner (signer), authority, pool_state (writable),
/// owner_lp_token (writable), token_0_account (writable), token_1_account
/// (writable), token_0_vault (writable), token_1_vault (writable),
/// token_program, token_program_2022, vault_0_mint, vault_1_mint,
/// lp_mint (writable).
pub struct Deposit<'a> {
    /// Pays to mint the position
    pub owner: &'a AccountInfo,
    /// Pool vault and lp mint authority
    pub authority: &'a AccountInfo,
    /// Pool state account
    pub pool_state: &'a AccountInfo,
    /// Owner lp token account
    pub owner_lp_token: &'a AccountInfo,
    /// The payer's token account for token_0
    pub token_0_account: &'a AccountInfo,
    /// The payer's token account for token_1
    pub token_1_account: &'a AccountInfo,
    /// The address that holds pool tokens for token_0
    pub token_0_vault: &'a AccountInfo,
    /// The address that holds pool tokens for token_1
    pub token_1_vault: &'a AccountInfo,
    /// token Program
    pub token_program: &'a AccountInfo,
    /// Token program 2022
    pub token_program_2022: &'a AccountInfo,
    /// The mint of token_0 vault
    pub vault_0_mint: &'a AccountInfo,
    /// The mint of token_1 vault
    pub vault_1_mint: &'a AccountInfo,
    /// Lp token mint
    pub lp_mint: &'a AccountInfo,
    /// Lp tokens to mint
    pub lp_token_amount: u64,
    /// Most token_0 to deposit
    pub maximum_token_0_amount: u64,
    /// Most token_1 to deposit
    pub maximum_token_1_amount: u64,
}

impl<'a> Deposit<'a> {
    /// The accounts in the order the downstream program expects them.
    pub open spec fn accounts_view(&self) -> Seq<AccountInfo> {
        seq![
            *self.owner,
            *self.authority,
            *self.pool_state,
            *self.owner_lp_token,
            *self.token_0_account,
            *self.token_1_account,
            *self.token_0_vault,
            *self.token_1_vault,
            *self.token_program,
            *self.token_program_2022,
            *self.vault_0_mint,
            *self.vault_1_mint,
            *self.lp_mint,
        ]
    }

    /// The accounts in the order the downstream program expects them.
    pub fn account_infos(&self) -> (r: [&'a AccountInfo; 13])
        ensures
            r@.len() == 13,
            forall|i: int| 0 <= i < 13 ==> *r@[i] == self.accounts_view()[i],
    {
        let r = [
            self.owner,
            self.authority,
            self.pool_state,
            self.owner_lp_token,
            self.token_0_account,
            self.token_1_account,
            self.token_0_vault,
            self.token_1_vault,
            self.token_program,
            self.token_program_2022,
            self.vault_0_mint,
            self.vault_1_mint,
            self.lp_mint,
        ];
        r
    }

    /// The metadata of each account, tagged with its access class.
    pub fn account_metas(&self) -> (r: Vec<AccountMeta<'a>>)
        ensures
            metas_match(r@, DEPOSIT_ACCESS@),
    {
        let infos = self.account_infos();
        account_metas(infos.as_slice(), DEPOSIT_ACCESS.as_slice())
    }

    /// The payload of this instruction.
    pub fn instruction_data(&self) -> (r: Vec<u8>)
        ensures
            r@ == deposit_payload(
                self.lp_token_amount,
                self.maximum_token_0_amount,
                self.maximum_token_1_amount,
            ),
    {
        deposit_data(self.lp_token_amount, self.maximum_token_0_amount, self.maximum_token_1_amount)
    }

    /// Calls the downstream program with no program-derived signers. It fails
    /// only in the runtime's checks before the call: a key mismatch or a
    /// borrow conflict.
    pub fn invoke(&self) -> (r: ProgramResult)
        ensures
            r matches Err(e) ==> is_invoke_error(e),
    {
        self.invoke_signed(&[])
    }

    /// Calls the downstream program, signing with `signers`: the accounts in
    /// `account_infos` order, tagged as `account_metas` says, with the payload
    /// of `instruction_data`. It fails only in the runtime's checks before the
    /// call: a key mismatch or a borrow conflict.
    pub fn invoke_signed(&self, signers: &[Signer]) -> (r: ProgramResult)
        ensures
            r matches Err(e) ==> is_invoke_error(e),
    {
        let infos = self.account_infos();
        let metas = self.account_metas();
        let data = self.instruction_data();
        invoke_instruction(&ID, metas.as_slice(), data.as_slice(), infos.as_slice(), signers)
    }
}

} // verus!
