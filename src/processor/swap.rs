use crate::codec::{decode_fields, read_u64, u64_at};
use crate::error::{forward, is_call_refusal, CpmmError};
use crate::instructions::SwapBaseInput;
use pinocchio::account_info::AccountInfo;
use vstd::prelude::*;

verus! {

/// The accounts of a swap with a fixed input amount, by role, in the order the caller lists them.
pub struct SwapAccounts<'a, A> {
    pub payer: &'a A,
    pub authority: &'a A,
    pub amm_config: &'a A,
    pub pool_state: &'a A,
    pub input_token_account: &'a A,
    pub output_token_account: &'a A,
    pub input_vault: &'a A,
    pub output_vault: &'a A,
    pub input_token_program: &'a A,
    pub output_token_program: &'a A,
    pub input_token_mint: &'a A,
    pub output_token_mint: &'a A,
    pub observation_state: &'a A,
}

impl<'a, A> SwapAccounts<'a, A> {
    /// The accounts in positional order.
    pub open spec fn handles(&self) -> Seq<A> {
        seq![
            *self.payer,
            *self.authority,
            *self.amm_config,
            *self.pool_state,
            *self.input_token_account,
            *self.output_token_account,
            *self.input_vault,
            *self.output_vault,
            *self.input_token_program,
            *self.output_token_program,
            *self.input_token_mint,
            *self.output_token_mint,
            *self.observation_state,
        ]
    }

    /// Names the accounts by position; `value` must hold exactly the 13 roles.
    pub fn try_from(value: &'a [A]) -> (r: Result<Self, CpmmError>)
        ensures
            value@.len() == 13 ==> (r matches Ok(accounts) && accounts.handles() == value@),
            value@.len() != 13 ==> r == Err::<Self, CpmmError>(CpmmError::AccountCount),
    {
        if value.len() != 13 {
            return Err(CpmmError::AccountCount);
        }
        let accounts = Self {
            payer: &value[0],
            authority: &value[1],
            amm_config: &value[2],
            pool_state: &value[3],
            input_token_account: &value[4],
            output_token_account: &value[5],
            input_vault: &value[6],
            output_vault: &value[7],
            input_token_program: &value[8],
            output_token_program: &value[9],
            input_token_mint: &value[10],
            output_token_mint: &value[11],
            observation_state: &value[12],
        };
        assert(accounts.handles() =~= value@);
        Ok(accounts)
    }
}

/// The parameters of a swap with a fixed input amount, as read from an inbound payload.
#[derive(Clone, Copy, Debug, PartialEq, Eq, Structural)]
pub struct SwapInstructionData {
    /// Exact amount of input token
    pub amount_in: u64,
    /// Least amount of output token accepted
    pub minimum_amount_out: u64,
}

impl SwapInstructionData {
    /// The parameters in payload order.
    pub open spec fn fields(self) -> Seq<u64> {
        seq![self.amount_in, self.minimum_amount_out]
    }

    /// The parameters stored little-endian in `b`, in payload order.
    pub open spec fn spec_decode(b: Seq<u8>) -> Self {
        Self { amount_in: u64_at(b, 0), minimum_amount_out: u64_at(b, 8) }
    }

    /// Reads the parameters; `value` must be exactly 16 bytes.
    pub fn try_from(value: &[u8]) -> (r: Result<Self, CpmmError>)
        ensures
            value@.len() == 16 ==> r == Ok::<Self, CpmmError>(Self::spec_decode(value@)),
            value@.len() == 16 ==> Self::spec_decode(value@).fields() == decode_fields(value@, 2),
            value@.len() != 16 ==> r == Err::<Self, CpmmError>(CpmmError::DataLength),
    {
        if value.len() != 16 {
            return Err(CpmmError::DataLength);
        }
        assert(Self::spec_decode(value@).fields() =~= decode_fields(value@, 2));
        Ok(Self { amount_in: read_u64(value, 0), minimum_amount_out: read_u64(value, 8) })
    }
}

/// A validated inbound call for a swap with a fixed input amount: its accounts by role and its parameters.
pub struct Swap<'a, A> {
    pub accounts: SwapAccounts<'a, A>,
    pub data: SwapInstructionData,
}

impl<'a, A> Swap<'a, A> {
    /// Whether `r` is the outcome of reading `data` and `accounts`: the account
    /// count is checked first, then the payload width.
    pub open spec fn parsed(data: Seq<u8>, accounts: Seq<A>, r: Result<Self, CpmmError>) -> bool {
        if accounts.len() != 13 {
            r == Err::<Self, CpmmError>(CpmmError::AccountCount)
        } else if data.len() != 16 {
            r == Err::<Self, CpmmError>(CpmmError::DataLength)
        } else {
            r matches Ok(call) && call.accounts.handles() == accounts && call.data
                == SwapInstructionData::spec_decode(data)
        }
    }

    /// Validates the account list, then the payload.
    pub fn try_from(value: (&'a [u8], &'a [A])) -> (r: Result<Self, CpmmError>)
        ensures
            Self::parsed(value.0@, value.1@, r),
    {
        let accounts = match SwapAccounts::try_from(value.1) {
            Ok(accounts) => accounts,
            Err(e) => return Err(e),
        };
        let data = match SwapInstructionData::try_from(value.0) {
            Ok(data) => data,
            Err(e) => return Err(e),
        };
        Ok(Self { accounts, data })
    }
}

impl<'a> Swap<'a, AccountInfo> {
    /// The downstream instruction: the same accounts in the same order, and
    /// the same parameters.
    pub fn cpi_context(&self) -> (r: SwapBaseInput<'a>)
        ensures
            r.accounts_view() == self.accounts.handles(),
            r.amount_in == self.data.amount_in,
            r.minimum_amount_out == self.data.minimum_amount_out,
    {
        let context = SwapBaseInput {
            payer: self.accounts.payer,
            authority: self.accounts.authority,
            amm_config: self.accounts.amm_config,
            pool_state: self.accounts.pool_state,
            input_token_account: self.accounts.input_token_account,
            output_token_account: self.accounts.output_token_account,
            input_vault: self.accounts.input_vault,
            output_vault: self.accounts.output_vault,
            input_token_program: self.accounts.input_token_program,
            output_token_program: self.accounts.output_token_program,
            input_token_mint: self.accounts.input_token_mint,
            output_token_mint: self.accounts.output_token_mint,
            observation_state: self.accounts.observation_state,
            amount_in: self.data.amount_in,
            minimum_amount_out: self.data.minimum_amount_out,
        };
        assert(context.accounts_view() =~= self.accounts.handles());
        context
    }

    /// Forwards the call to the downstream program once, with no signer
    /// seeds, as `cpi_context` builds it; the outcome is handed on through
    /// `forward`. The runtime's checks before the call (a key mismatch, a
    /// borrow conflict) come back as `Invocation` with their code; a failing
    /// downstream program aborts the transaction instead.
    pub fn process(&mut self) -> (r: Result<(), CpmmError>)
        ensures
            *final(self) == *old(self),
            r matches Err(e) ==> is_call_refusal(e),
    {
        let context = self.cpi_context();
        forward(context.invoke())
    }
}

} // verus!
