use crate::codec::{encode_payload, payload};
use crate::error::is_invoke_error;
use crate::host::invoke_instruction;
use crate::instructions::{account_metas, metas_match, Access};
use crate::ID;
use pinocchio::account_info::AccountInfo;
use pinocchio::instruction::{AccountMeta, Signer};
use pinocchio::ProgramResult;
use vstd::prelude::*;

verus! {

/// Discriminator of the downstream `initialize` instruction.
pub const INITIALIZE_DISCRIMINATOR: [u8; 8] = [175, 175, 109, 31, 13, 152, 155, 237];

/// Access class of each `initialize` account, in order.
pub const INITIALIZE_ACCESS: [Access; 20] = [
    Access::WritableSigner,
    Access::ReadOnly,
    Access::ReadOnly,
    Access::Writable,
    Access::ReadOnly,
    Access::ReadOnly,
    Access::Writable,
    Access::Writable,
    Access::Writable,
    Access::Writable,
    Access::Writable,
    Access::Writable,
    Access::Writable,
    Access::Writable,
    Access::ReadOnly,
    Access::ReadOnly,
    Access::ReadOnly,
    Access::ReadOnly,
    Access::ReadOnly,
    Access::ReadOnly,
];

/// The `initialize` payload: discriminator, then the three fields.
pub open spec fn initialize_payload(init_amount_0: u64, init_amount_1: u64, open_time: u64) -> Seq<u8> {
    payload(INITIALIZE_DISCRIMINATOR, seq![init_amount_0, init_amount_1, open_time])
}

/// Builds the 32-byte `initialize` payload.
pub fn initialize_data(init_amount_0: u64, init_amount_1: u64, open_time: u64) -> (r: Vec<u8>)
    ensures
        r@ == initialize_payload(init_amount_0, init_amount_1, open_time),
        r@.len() == 32,
{
    encode_payload(&INITIALIZE_DISCRIMINATOR, &[init_amount_0, init_amount_1, open_time])
}

/// Creates a pool for the given token pair and the initial price.
///
/// Accounts, in order: creator (writable, signer), amm_config, authority,
/// pool_state (writable), token_0_mint, token_1_mint, lp_mint (writable),
/// creator_token_0 (writable), creator_token_1 (writable), creator_lp_token
/// (writable), token_0_vault (writable), token_1_vault (writable),
/// create_pool_fee (writable), observation_state (writable), token_program,
/// token_0_program, token_1_program, associated_token_program, system_program,
/// rent.
pub struct Initialize<'a> {
    /// Address paying to create the pool. Can be anyone
    pub creator: &'a AccountInfo,
    /// Which config the pool belongs to
    pub amm_config: &'a AccountInfo,
    /// Pool vault and lp mint authority
    pub authority: &'a AccountInfo,
    /// Account to store the pool state
    pub pool_state: &'a AccountInfo,
    /// Token_0 mint, the key must be smaller than token_1 mint
    pub token_0_mint: &'a AccountInfo,
    /// Token_1 mint, the key must be greater than token_0 mint
    pub token_1_mint: &'a AccountInfo,
    /// Pool lp mint
    pub lp_mint: &'a AccountInfo,
    /// Creator token0 account
    pub creator_token_0: &'a AccountInfo,
    /// Creator token1 account
    pub creator_token_1: &'a AccountInfo,
    /// Creator lp token account
    pub creator_lp_token: &'a AccountInfo,
    /// Token_0 vault for the pool
    pub token_0_vault: &'a AccountInfo,
    /// Token_1 vault for the pool
    pub token_1_vault: &'a AccountInfo,
    /// Create pool fee account
    pub create_pool_fee: &'a AccountInfo,
    /// Account to store oracle observations
    pub observation_state: &'a AccountInfo,
    /// Program to create mint account and mint tokens
    pub token_program: &'a AccountInfo,
    /// Spl token program or token program 2022
    pub token_0_program: &'a AccountInfo,
    /// Spl token program or token program 2022
    pub token_1_program: &'a AccountInfo,
    /// Program to create an ATA for receiving position NFT
    pub associated_token_program: &'a AccountInfo,
    /// To create a new program account
    pub system_program: &'a AccountInfo,
    /// Sysvar for program account
    pub rent: &'a AccountInfo,
    /// Initial token_0 amount
    pub init_amount_0: u64,
    /// Initial token_1 amount
    pub init_amount_1: u64,
    /// Time from which the pool accepts trades
    pub open_time: u64,
}

impl<'a> Initialize<'a> {
    /// The accounts in the order the downstream program expects them.
    pub open spec fn accounts_view(&self) -> Seq<AccountInfo> {
        seq![
            *self.creator,
            *self.amm_config,
            *self.authority,
            *self.pool_state,
            *self.token_0_mint,
            *self.token_1_mint,
            *self.lp_mint,
            *self.creator_token_0,
            *self.creator_token_1,
            *self.creator_lp_token,
            *self.token_0_vault,
            *self.token_1_vault,
            *self.create_pool_fee,
            *self.observation_state,
            *self.token_program,
            *self.token_0_program,
            *self.token_1_program,
            *self.associated_token_program,
            *self.system_program,
            *self.rent,
        ]
    }

    /// The accounts in the order the downstream program expects them.
    pub fn account_infos(&self) -> (r: [&'a AccountInfo; 20])
        ensures
            r@.len() == 20,
            forall|i: int| 0 <= i < 20 ==> *r@[i] == self.accounts_view()[i],
    {
        let r = [
            self.creator,
            self.amm_config,
            self.authority,
            self.pool_state,
            self.token_0_mint,
            self.token_1_mint,
            self.lp_mint,
            self.creator_token_0,
            self.creator_token_1,
            self.creator_lp_token,
            self.token_0_vault,
            self.token_1_vault,
            self.create_pool_fee,
            self.observation_state,
            self.token_program,
            self.token_0_program,
            self.token_1_program,
            self.associated_token_program,
            self.system_program,
            self.rent,
        ];
        r
    }

    /// The metadata of each account, tagged with its access class.
    pub fn account_metas(&self) -> (r: Vec<AccountMeta<'a>>)
        ensures
            metas_match(r@, INITIALIZE_ACCESS@),
    {
        let infos = self.account_infos();
        account_metas(infos.as_slice(), INITIALIZE_ACCESS.as_slice())
    }

    /// The payload of this instruction.
    pub fn instruction_data(&self) -> (r: Vec<u8>)
        ensures
            r@ == initialize_payload(self.init_amount_0, self.init_amount_1, self.open_time),
    {
        initialize_data(self.init_amount_0, self.init_amount_1, self.open_time)
    }

    /// Calls the downstream program with no program-derived signers. It fails
    /// only in the runtime's checks before the call: a key mismatch or a
    /// borrow conflict.
    pub fn invoke(&self) -> (r: ProgramResult)
        ensures
            r matches Err(e) ==> is_invoke_error(e),
    {
        self.invoke_signed(&[])
    }

    /// Calls the downstream program, signing with `signers`: the accounts in
    /// `account_infos` order, tagged as `account_metas` says, with the payload
    /// of `instruction_data`. It fails only in the runtime's checks before the
    /// call: a key mismatch or a borrow conflict.
    pub fn invoke_signed(&self, signers: &[Signer]) -> (r: ProgramResult)
        ensures
            r matches Err(e) ==> is_invoke_error(e),
    {
        let infos = self.account_infos();
        let metas = self.account_metas();
        let data = self.instruction_data();
        invoke_instruction(&ID, metas.as_slice(), data.as_slice(), infos.as_slice(), signers)
    }
}

} // verus!
