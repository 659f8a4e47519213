//! Inbound calls: routing by the leading opcode byte, validation of the
//! account list and payload, and forwarding to the downstream program.
use crate::codec::{
    decode_fields, encode_fields, lemma_decode_encode_fields, lemma_encode_decode_fields,
    lemma_encode_fields_len, payload,
};
use crate::error::{is_call_refusal, CpmmError};
use crate::instructions::{
    deposit_payload, initialize_payload, swap_base_input_payload, swap_base_output_payload,
    withdraw_payload, DEPOSIT_DISCRIMINATOR, INITIALIZE_DISCRIMINATOR,
    SWAP_BASE_INPUT_DISCRIMINATOR, SWAP_BASE_OUTPUT_DISCRIMINATOR, WITHDRAW_DISCRIMINATOR,
};
use pinocchio::account_info::AccountInfo;
use pinocchio::pubkey::Pubkey;
use vstd::prelude::*;
use vstd::slice::slice_subrange;

pub mod deposit;
pub mod initialize;
pub mod swap;
pub mod swap_base_output;
pub mod withdraw;

pub use deposit::{DepositCPMM, DepositCPMMAccounts, DepositCPMMInstructionData};
pub use initialize::{InitializeCPMM, InitializeCPMMAccounts, InitializeCPMMInstructionData};
pub use swap::{Swap, SwapAccounts, SwapInstructionData};
pub use swap_base_output::{
    SwapBaseOutputAccounts, SwapBaseOutputCPMM, SwapBaseOutputInstructionData,
};
pub use withdraw::{WithdrawCPMM, WithdrawCPMMAccounts, WithdrawCPMMInstructionData};

verus! {

/// Opcode of pool creation.
pub const INITIALIZE_OPCODE: u8 = 0;

/// Opcode of a deposit.
pub const DEPOSIT_OPCODE: u8 = 1;

/// Opcode of a swap with a fixed input amount.
pub const SWAP_BASE_INPUT_OPCODE: u8 = 2;

/// Opcode of a swap with a fixed output amount.
pub const SWAP_BASE_OUTPUT_OPCODE: u8 = 3;

/// Opcode of a withdrawal.
pub const WITHDRAW_OPCODE: u8 = 4;

/// Number of accounts an operation takes.
pub open spec fn role_count(opcode: u8) -> nat {
    if opcode == INITIALIZE_OPCODE {
        20
    } else if opcode == WITHDRAW_OPCODE {
        14
    } else {
        13
    }
}

/// Number of `u64` parameters an operation takes.
pub open spec fn field_count(opcode: u8) -> nat {
    if opcode == SWAP_BASE_INPUT_OPCODE || opcode == SWAP_BASE_OUTPUT_OPCODE {
        2
    } else {
        3
    }
}

/// The error an inbound call is rejected with before anything is forwarded,
/// or `None` when it is well formed: the opcode is checked first, then the
/// account count, then the payload width.
pub open spec fn call_error<A>(data: Seq<u8>, accounts: Seq<A>) -> Option<CpmmError> {
    if data.len() == 0 || data[0] > WITHDRAW_OPCODE {
        Some(CpmmError::UnknownOpcode)
    } else if accounts.len() != role_count(data[0]) {
        Some(CpmmError::AccountCount)
    } else if data.len() - 1 != 8 * field_count(data[0]) {
        Some(CpmmError::DataLength)
    } else {
        None
    }
}

/// A validated inbound call of any of the five operations.
pub enum CpmmInstruction<'a, A> {
    Initialize(InitializeCPMM<'a, A>),
    Deposit(DepositCPMM<'a, A>),
    SwapBaseInput(Swap<'a, A>),
    SwapBaseOutput(SwapBaseOutputCPMM<'a, A>),
    Withdraw(WithdrawCPMM<'a, A>),
}

impl<'a, A> CpmmInstruction<'a, A> {
    /// The opcode that routes to this operation.
    pub open spec fn opcode(&self) -> u8 {
        match self {
            CpmmInstruction::Initialize(_) => INITIALIZE_OPCODE,
            CpmmInstruction::Deposit(_) => DEPOSIT_OPCODE,
            CpmmInstruction::SwapBaseInput(_) => SWAP_BASE_INPUT_OPCODE,
            CpmmInstruction::SwapBaseOutput(_) => SWAP_BASE_OUTPUT_OPCODE,
            CpmmInstruction::Withdraw(_) => WITHDRAW_OPCODE,
        }
    }

    /// The accounts in positional order.
    pub open spec fn handles(&self) -> Seq<A> {
        match self {
            CpmmInstruction::Initialize(call) => call.accounts.handles(),
            CpmmInstruction::Deposit(call) => call.accounts.handles(),
            CpmmInstruction::SwapBaseInput(call) => call.accounts.handles(),
            CpmmInstruction::SwapBaseOutput(call) => call.accounts.handles(),
            CpmmInstruction::Withdraw(call) => call.accounts.handles(),
        }
    }

    /// The parameters in payload order.
    pub open spec fn fields(&self) -> Seq<u64> {
        match self {
            CpmmInstruction::Initialize(call) => call.data.fields(),
            CpmmInstruction::Deposit(call) => call.data.fields(),
            CpmmInstruction::SwapBaseInput(call) => call.data.fields(),
            CpmmInstruction::SwapBaseOutput(call) => call.data.fields(),
            CpmmInstruction::Withdraw(call) => call.data.fields(),
        }
    }
}

/// Routes an inbound call by its leading opcode byte and validates the rest
/// for that operation. Nothing after the opcode is read when the opcode is
/// unknown.
pub fn parse_instruction<'a, A>(data: &'a [u8], accounts: &'a [A]) -> (r: Result<
    CpmmInstruction<'a, A>,
    CpmmError,
>)
    ensures
        call_error(data@, accounts@) matches Some(e) ==> r == Err::<CpmmInstruction<'a, A>, CpmmError>(e),
        call_error(data@, accounts@) is None ==> (r matches Ok(call) && call.opcode() == data@[0]
            && call.handles() == accounts@ && call.fields() == decode_fields(
            data@.skip(1),
            field_count(data@[0]),
        )),
{
    if data.len() == 0 {
        return Err(CpmmError::UnknownOpcode);
    }
    let opcode = data[0];
    if opcode > WITHDRAW_OPCODE {
        return Err(CpmmError::UnknownOpcode);
    }
    let body = slice_subrange(data, 1, data.len());
    assert(body@ == data@.skip(1));
    if opcode == INITIALIZE_OPCODE {
        match InitializeCPMM::try_from((body, accounts)) {
            Ok(call) => Ok(CpmmInstruction::Initialize(call)),
            Err(e) => Err(e),
        }
    } else if opcode == DEPOSIT_OPCODE {
        match DepositCPMM::try_from((body, accounts)) {
            Ok(call) => Ok(CpmmInstruction::Deposit(call)),
            Err(e) => Err(e),
        }
    } else if opcode == SWAP_BASE_INPUT_OPCODE {
        match Swap::try_from((body, accounts)) {
            Ok(call) => Ok(CpmmInstruction::SwapBaseInput(call)),
            Err(e) => Err(e),
        }
    } else if opcode == SWAP_BASE_OUTPUT_OPCODE {
        match SwapBaseOutputCPMM::try_from((body, accounts)) {
            Ok(call) => Ok(CpmmInstruction::SwapBaseOutput(call)),
            Err(e) => Err(e),
        }
    } else {
        match WithdrawCPMM::try_from((body, accounts)) {
            Ok(call) => Ok(CpmmInstruction::Withdraw(call)),
            Err(e) => Err(e),
        }
    }
}

impl<'a> CpmmInstruction<'a, AccountInfo> {
    /// Forwards the call to the downstream program through the operation's
    /// own `process`.
    pub fn process(&mut self) -> (r: Result<(), CpmmError>)
        ensures
            *final(self) == *old(self),
            r matches Err(e) ==> is_call_refusal(e),
    {
        match self {
            CpmmInstruction::Initialize(call) => call.process(),
            CpmmInstruction::Deposit(call) => call.process(),
            CpmmInstruction::SwapBaseInput(call) => call.process(),
            CpmmInstruction::SwapBaseOutput(call) => call.process(),
            CpmmInstruction::Withdraw(call) => call.process(),
        }
    }
}

/// Handles one inbound call: routes it by opcode, validates its accounts and
/// payload, and forwards it downstream through the operation's `process`. A
/// malformed call is rejected with the error `call_error` names and nothing
/// is forwarded; a well-formed one fails only in the runtime's checks before
/// the cross-program call.
pub fn process_instruction(
    program_id: &Pubkey,
    accounts: &[AccountInfo],
    data: &[u8],
) -> (r: Result<(), CpmmError>)
    ensures
        call_error(data@, accounts@) matches Some(e) ==> r == Err::<(), CpmmError>(e),
        call_error(data@, accounts@) is None ==> (r matches Err(e) ==> is_call_refusal(e)),
{
    let mut call = match parse_instruction(data, accounts) {
        Ok(call) => call,
        Err(e) => return Err(e),
    };
    call.process()
}

/// The bytes after the discriminator of a payload are the encoded fields.
proof fn lemma_payload_body(discriminator: [u8; 8], fields: Seq<u64>)
    ensures
        payload(discriminator, fields).skip(8) == encode_fields(fields),
        encode_fields(fields).len() == 8 * fields.len(),
{
    lemma_encode_fields_len(fields);
    assert(payload(discriminator, fields).skip(8) =~= encode_fields(fields));
}

/// Round trip: for every operation and all `u64` parameters, the bytes that
/// follow the discriminator of the outbound payload have the inbound width,
/// and reading them back gives the parameters unchanged.
pub proof fn lemma_round_trip(a: u64, b: u64, c: u64)
    ensures
        initialize_payload(a, b, c).skip(8).len() == 24,
        InitializeCPMMInstructionData::spec_decode(initialize_payload(a, b, c).skip(8))
            == (InitializeCPMMInstructionData { init_amount_0: a, init_amount_1: b, open_time: c }),
        deposit_payload(a, b, c).skip(8).len() == 24,
        DepositCPMMInstructionData::spec_decode(deposit_payload(a, b, c).skip(8))
            == (DepositCPMMInstructionData {
            lp_token_amount: a,
            maximum_token_0_amount: b,
            maximum_token_1_amount: c,
        }),
        swap_base_input_payload(a, b).skip(8).len() == 16,
        SwapInstructionData::spec_decode(swap_base_input_payload(a, b).skip(8))
            == (SwapInstructionData { amount_in: a, minimum_amount_out: b }),
        swap_base_output_payload(a, b).skip(8).len() == 16,
        SwapBaseOutputInstructionData::spec_decode(swap_base_output_payload(a, b).skip(8))
            == (SwapBaseOutputInstructionData { max_amount_in: a, amount_out: b }),
        withdraw_payload(a, b, c).skip(8).len() == 24,
        WithdrawCPMMInstructionData::spec_decode(withdraw_payload(a, b, c).skip(8))
            == (WithdrawCPMMInstructionData {
            lp_token_amount: a,
            minimum_token_0_amount: b,
            minimum_token_1_amount: c,
        }),
{
    let three = seq![a, b, c];
    let two = seq![a, b];
    lemma_decode_encode_fields(three);
    lemma_decode_encode_fields(two);
    assert(decode_fields(encode_fields(three), 3)[1] == b);
    assert(decode_fields(encode_fields(three), 3)[2] == c);
    assert(decode_fields(encode_fields(two), 2)[1] == b);
    lemma_payload_body(INITIALIZE_DISCRIMINATOR, three);
    lemma_payload_body(DEPOSIT_DISCRIMINATOR, three);
    lemma_payload_body(SWAP_BASE_INPUT_DISCRIMINATOR, two);
    lemma_payload_body(SWAP_BASE_OUTPUT_DISCRIMINATOR, two);
    lemma_payload_body(WITHDRAW_DISCRIMINATOR, three);
}

/// Dispatch: opcode 2 followed by a 16-byte payload, with 13 accounts, is a
/// well-formed fixed-input swap, and the outbound payload built from its
/// parameters is that operation's discriminator followed by the same 16 bytes.
pub proof fn lemma_swap_base_input_dispatch<A>(data: Seq<u8>, accounts: Seq<A>)
    requires
        data.len() == 17,
        data[0] == SWAP_BASE_INPUT_OPCODE,
        accounts.len() == 13,
    ensures
        call_error(data, accounts) is None,
        ({
            let fields = decode_fields(data.skip(1), field_count(data[0]));
            swap_base_input_payload(fields[0], fields[1]) == SWAP_BASE_INPUT_DISCRIMINATOR@ + data.skip(
                1,
            )
        }),
{
    let body = data.skip(1);
    let fields = decode_fields(body, 2);
    lemma_encode_decode_fields(body, 2);
    assert(seq![fields[0], fields[1]] =~= fields);
}

/// Unknown opcode: a call whose first byte names no operation is rejected as
/// such, whatever the rest of the payload and the accounts are.
pub proof fn lemma_unknown_opcode<A>(data: Seq<u8>, accounts: Seq<A>)
    requires
        data.len() > 0,
        data[0] > WITHDRAW_OPCODE,
    ensures
        call_error(data, accounts) == Some(CpmmError::UnknownOpcode),
{
}

} // verus!
