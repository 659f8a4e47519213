use crate::codec::{decode_fields, read_u64, u64_at};
use crate::error::{forward, is_call_refusal, CpmmError};
use crate::instructions::Initialize;
use pinocchio::account_info::AccountInfo;
use vstd::prelude::*;

verus! {

/// The accounts of pool creation, by role, in the order the caller lists them.
pub struct InitializeCPMMAccounts<'a, A> {
    pub creator: &'a A,
    pub amm_config: &'a A,
    pub authority: &'a A,
    pub pool_state: &'a A,
    pub token_0_mint: &'a A,
    pub token_1_mint: &'a A,
    pub lp_mint: &'a A,
    pub creator_token_0: &'a A,
    pub creator_token_1: &'a A,
    pub creator_lp_token: &'a A,
    pub token_0_vault: &'a A,
    pub token_1_vault: &'a A,
    pub create_pool_fee: &'a A,
    pub observation_state: &'a A,
    pub token_program: &'a A,
    pub token_0_program: &'a A,
    pub token_1_program: &'a A,
    pub associated_token_program: &'a A,
    pub system_program: &'a A,
    pub rent: &'a A,
}

impl<'a, A> InitializeCPMMAccounts<'a, A> {
    /// The accounts in positional order.
    pub open spec fn handles(&self) -> Seq<A> {
        seq![
            *self.creator,
            *self.amm_config,
            *self.authority,
            *self.pool_state,
            *self.token_0_mint,
            *self.token_1_mint,
            *self.lp_mint,
            *self.creator_token_0,
            *self.creator_token_1,
            *self.creator_lp_token,
            *self.token_0_vault,
            *self.token_1_vault,
            *self.create_pool_fee,
            *self.observation_state,
            *self.token_program,
            *self.token_0_program,
            *self.token_1_program,
            *self.associated_token_program,
            *self.system_program,
            *self.rent,
        ]
    }

    /// Names the accounts by position; `value` must hold exactly the 20 roles.
    pub fn try_from(value: &'a [A]) -> (r: Result<Self, CpmmError>)
        ensures
            value@.len() == 20 ==> (r matches Ok(accounts) && accounts.handles() == value@),
            value@.len() != 20 ==> r == Err::<Self, CpmmError>(CpmmError::AccountCount),
    {
        if value.len() != 20 {
            return Err(CpmmError::AccountCount);
        }
        let accounts = Self {
            creator: &value[0],
            amm_config: &value[1],
            authority: &value[2],
            pool_state: &value[3],
            token_0_mint: &value[4],
            token_1_mint: &value[5],
            lp_mint: &value[6],
            creator_token_0: &value[7],
            creator_token_1: &value[8],
            creator_lp_token: &value[9],
            token_0_vault: &value[10],
            token_1_vault: &value[11],
            create_pool_fee: &value[12],
            observation_state: &value[13],
            token_program: &value[14],
            token_0_program: &value[15],
            token_1_program: &value[16],
            associated_token_program: &value[17],
            system_program: &value[18],
            rent: &value[19],
        };
        assert(accounts.handles() =~= value@);
        Ok(accounts)
    }
}

/// The parameters of pool creation, as read from an inbound payload.
#[derive(Clone, Copy, Debug, PartialEq, Eq, Structural)]
pub struct InitializeCPMMInstructionData {
    /// Initial token_0 amount
    pub init_amount_0: u64,
    /// Initial token_1 amount
    pub init_amount_1: u64,
    /// Time from which the pool accepts trades
    pub open_time: u64,
}

impl InitializeCPMMInstructionData {
    /// The parameters in payload order.
    pub open spec fn fields(self) -> Seq<u64> {
        seq![self.init_amount_0, self.init_amount_1, self.open_time]
    }

    /// The parameters stored little-endian in `b`, in payload order.
    pub open spec fn spec_decode(b: Seq<u8>) -> Self {
        Self { init_amount_0: u64_at(b, 0), init_amount_1: u64_at(b, 8), open_time: u64_at(b, 16) }
    }

    /// Reads the parameters; `value` must be exactly 24 bytes.
    pub fn try_from(value: &[u8]) -> (r: Result<Self, CpmmError>)
        ensures
            value@.len() == 24 ==> r == Ok::<Self, CpmmError>(Self::spec_decode(value@)),
            value@.len() == 24 ==> Self::spec_decode(value@).fields() == decode_fields(value@, 3),
            value@.len() != 24 ==> r == Err::<Self, CpmmError>(CpmmError::DataLength),
    {
        if value.len() != 24 {
            return Err(CpmmError::DataLength);
        }
        assert(Self::spec_decode(value@).fields() =~= decode_fields(value@, 3));
        Ok(Self { init_amount_0: read_u64(value, 0), init_amount_1: read_u64(value, 8), open_time: read_u64(value, 16) })
    }
}

/// A validated inbound call for pool creation: its accounts by role and its parameters.
pub struct InitializeCPMM<'a, A> {
    pub accounts: InitializeCPMMAccounts<'a, A>,
    pub data: InitializeCPMMInstructionData,
}

impl<'a, A> InitializeCPMM<'a, A> {
    /// Whether `r` is the outcome of reading `data` and `accounts`: the account
    /// count is checked first, then the payload width.
    pub open spec fn parsed(data: Seq<u8>, accounts: Seq<A>, r: Result<Self, CpmmError>) -> bool {
        if accounts.len() != 20 {
            r == Err::<Self, CpmmError>(CpmmError::AccountCount)
        } else if data.len() != 24 {
            r == Err::<Self, CpmmError>(CpmmError::DataLength)
        } else {
            r matches Ok(call) && call.accounts.handles() == accounts && call.data
                == InitializeCPMMInstructionData::spec_decode(data)
        }
    }

    /// Validates the account list, then the payload.
    pub fn try_from(value: (&'a [u8], &'a [A])) -> (r: Result<Self, CpmmError>)
        ensures
            Self::parsed(value.0@, value.1@, r),
    {
        let accounts = match InitializeCPMMAccounts::try_from(value.1) {
            Ok(accounts) => accounts,
            Err(e) => return Err(e),
        };
        let data = match InitializeCPMMInstructionData::try_from(value.0) {
            Ok(data) => data,
            Err(e) => return Err(e),
        };
        Ok(Self { accounts, data })
    }
}

impl<'a> InitializeCPMM<'a, AccountInfo> {
    /// The downstream instruction: the same accounts in the same order, and
    /// the same parameters.
    pub fn cpi_context(&self) -> (r: Initialize<'a>)
        ensures
            r.accounts_view() == self.accounts.handles(),
            r.init_amount_0 == self.data.init_amount_0,
            r.init_amount_1 == self.data.init_amount_1,
            r.open_time == self.data.open_time,
    {
        let context = Initialize {
            creator: self.accounts.creator,
            amm_config: self.accounts.amm_config,
            authority: self.accounts.authority,
            pool_state: self.accounts.pool_state,
            token_0_mint: self.accounts.token_0_mint,
            token_1_mint: self.accounts.token_1_mint,
            lp_mint: self.accounts.lp_mint,
            creator_token_0: self.accounts.creator_token_0,
            creator_token_1: self.accounts.creator_token_1,
            creator_lp_token: self.accounts.creator_lp_token,
            token_0_vault: self.accounts.token_0_vault,
            token_1_vault: self.accounts.token_1_vault,
            create_pool_fee: self.accounts.create_pool_fee,
            observation_state: self.accounts.observation_state,
            token_program: self.accounts.token_program,
            token_0_program: self.accounts.token_0_program,
            token_1_program: self.accounts.token_1_program,
            associated_token_program: self.accounts.associated_token_program,
            system_program: self.accounts.system_program,
            rent: self.accounts.rent,
            init_amount_0: self.data.init_amount_0,
            init_amount_1: self.data.init_amount_1,
            open_time: self.data.open_time,
        };
        assert(context.accounts_view() =~= self.accounts.handles());
        context
    }

    /// Forwards the call to the downstream program once, with no signer
    /// seeds, as `cpi_context` builds it; the outcome is handed on through
    /// `forward`. The runtime's checks before the call (a key mismatch, a
    /// borrow conflict) come back as `Invocation` with their code; a failing
    /// downstream program aborts the transaction instead.
    pub fn process(&mut self) -> (r: Result<(), CpmmError>)
        ensures
            *final(self) == *old(self),
            r matches Err(e) ==> is_call_refusal(e),
    {
        let context = self.cpi_context();
        forward(context.invoke())
    }
}

} // verus!
