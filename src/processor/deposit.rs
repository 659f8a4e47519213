use crate::codec::{decode_fields, read_u64, u64_at};
use crate::error::{forward, is_call_refusal, CpmmError};
use crate::instructions::Deposit;
use pinocchio::account_info::AccountInfo;
use vstd::prelude::*;

verus! {

/// The accounts of a deposit, by role, in the order the caller lists them.
pub struct DepositCPMMAccounts<'a, A> {
    pub owner: &'a A,
    pub authority: &'a A,
    pub pool_state: &'a A,
    pub owner_lp_token: &'a A,
    pub token_0_account: &'a A,
    pub token_1_account: &'a A,
    pub token_0_vault: &'a A,
    pub token_1_vault: &'a A,
    pub token_program: &'a A,
    pub token_program_2022: &'a A,
    pub vault_0_mint: &'a A,
    pub vault_1_mint: &'a A,
    pub lp_mint: &'a A,
}

impl<'a, A> DepositCPMMAccounts<'a, A> {
    /// The accounts in positional order.
    pub open spec fn handles(&self) -> Seq<A> {
        seq![
            *self.owner,
            *self.authority,
            *self.pool_state,
            *self.owner_lp_token,
            *self.token_0_account,
            *self.token_1_account,
            *self.token_0_vault,
            *self.token_1_vault,
            *self.token_program,
            *self.token_program_2022,
            *self.vault_0_mint,
            *self.vault_1_mint,
            *self.lp_mint,
        ]
    }

    /// Names the accounts by position; `value` must hold exactly the 13 roles.
    pub fn try_from(value: &'a [A]) -> (r: Result<Self, CpmmError>)
        ensures
            value@.len() == 13 ==> (r matches Ok(accounts) && accounts.handles() == value@),
            value@.len() != 13 ==> r == Err::<Self, CpmmError>(CpmmError::AccountCount),
    {
        if value.len() != 13 {
            return Err(CpmmError::AccountCount);
        }
        let accounts = Self {
            owner: &value[0],
            authority: &value[1],
            pool_state: &value[2],
            owner_lp_token: &value[3],
            token_0_account: &value[4],
            token_1_account: &value[5],
            token_0_vault: &value[6],
            token_1_vault: &value[7],
            token_program: &value[8],
            token_program_2022: &value[9],
            vault_0_mint: &value[10],
            vault_1_mint: &value[11],
            lp_mint: &value[12],
        };
        assert(accounts.handles() =~= value@);
        Ok(accounts)
    }
}

/// The parameters of a deposit, as read from an inbound payload.
#[derive(Clone, Copy, Debug, PartialEq, Eq, Structural)]
pub struct DepositCPMMInstructionData {
    /// Lp tokens to mint
    pub lp_token_amount: u64,
    /// Most token_0 to deposit
    pub maximum_token_0_amount: u64,
    /// Most token_1 to deposit
    pub maximum_token_1_amount: u64,
}

impl DepositCPMMInstructionData {
    /// The parameters in payload order.
    pub open spec fn fields(self) -> Seq<u64> {
        seq![self.lp_token_amount, self.maximum_token_0_amount, self.maximum_token_1_amount]
    }

    /// The parameters stored little-endian in `b`, in payload order.
    pub open spec fn spec_decode(b: Seq<u8>) -> Self {
        Self { lp_token_amount: u64_at(b, 0), maximum_token_0_amount: u64_at(b, 8), maximum_token_1_amount: u64_at(b, 16) }
    }

    /// Reads the parameters; `value` must be exactly 24 bytes.
    pub fn try_from(value: &[u8]) -> (r: Result<Self, CpmmError>)
        ensures
            value@.len() == 24 ==> r == Ok::<Self, CpmmError>(Self::spec_decode(value@)),
            value@.len() == 24 ==> Self::spec_decode(value@).fields() == decode_fields(value@, 3),
            value@.len() != 24 ==> r == Err::<Self, CpmmError>(CpmmError::DataLength),
    {
        if value.len() != 24 {
            return Err(CpmmError::DataLength);
        }
        assert(Self::spec_decode(value@).fields() =~= decode_fields(value@, 3));
        Ok(Self { lp_token_amount: read_u64(value, 0), maximum_token_0_amount: read_u64(value, 8), maximum_token_1_amount: read_u64(value, 16) })
    }
}

/// A validated inbound call for a deposit: its accounts by role and its parameters.
pub struct DepositCPMM<'a, A> {
    pub accounts: DepositCPMMAccounts<'a, A>,
    pub data: DepositCPMMInstructionData,
}

impl<'a, A> DepositCPMM<'a, A> {
    /// Whether `r` is the outcome of reading `data` and `accounts`: the account
    /// count is checked first, then the payload width.
    pub open spec fn parsed(data: Seq<u8>, accounts: Seq<A>, r: Result<Self, CpmmError>) -> bool {
        if accounts.len() != 13 {
            r == Err::<Self, CpmmError>(CpmmError::AccountCount)
        } else if data.len() != 24 {
            r == Err::<Self, CpmmError>(CpmmError::DataLength)
        } else {
            r matches Ok(call) && call.accounts.handles() == accounts && call.data
                == DepositCPMMInstructionData::spec_decode(data)
        }
    }

    /// Validates the account list, then the payload.
    pub fn try_from(value: (&'a [u8], &'a [A])) -> (r: Result<Self, CpmmError>)
        ensures
            Self::parsed(value.0@, value.1@, r),
    {
        let accounts = match DepositCPMMAccounts::try_from(value.1) {
            Ok(accounts) => accounts,
            Err(e) => return Err(e),
        };
        let data = match DepositCPMMInstructionData::try_from(value.0) {
            Ok(data) => data,
            Err(e) => return Err(e),
        };
        Ok(Self { accounts, data })
    }
}

impl<'a> DepositCPMM<'a, AccountInfo> {
    /// The downstream instruction: the same accounts in the same order, and
    /// the same parameters.
    pub fn cpi_context(&self) -> (r: Deposit<'a>)
        ensures
            r.accounts_view() == self.accounts.handles(),
            r.lp_token_amount == self.data.lp_token_amount,
            r.maximum_token_0_amount == self.data.maximum_token_0_amount,
            r.maximum_token_1_amount == self.data.maximum_token_1_amount,
    {
        let context = Deposit {
            owner: self.accounts.owner,
            authority: self.accounts.authority,
            pool_state: self.accounts.pool_state,
            owner_lp_token: self.accounts.owner_lp_token,
            token_0_account: self.accounts.token_0_account,
            token_1_account: self.accounts.token_1_account,
            token_0_vault: self.accounts.token_0_vault,
            token_1_vault: self.accounts.token_1_vault,
            token_program: self.accounts.token_program,
            token_program_2022: self.accounts.token_program_2022,
            vault_0_mint: self.accounts.vault_0_mint,
            vault_1_mint: self.accounts.vault_1_mint,
            lp_mint: self.accounts.lp_mint,
            lp_token_amount: self.data.lp_token_amount,
            maximum_token_0_amount: self.data.maximum_token_0_amount,
            maximum_token_1_amount: self.data.maximum_token_1_amount,
        };
        assert(context.accounts_view() =~= self.accounts.handles());
        context
    }

    /// Forwards the call to the downstream program once, with no signer
    /// seeds, as `cpi_context` builds it; the outcome is handed on through
    /// `forward`. The runtime's checks before the call (a key mismatch, a
    /// borrow conflict) come back as `Invocation` with their code; a failing
    /// downstream program aborts the transaction instead.
    pub fn process(&mut self) -> (r: Result<(), CpmmError>)
        ensures
            *final(self) == *old(self),
            r matches Err(e) ==> is_call_refusal(e),
    {
        let context = self.cpi_context();
        forward(context.invoke())
    }
}

} // verus!
