use raydium_cpmm_cpi::error::CpmmError;
use raydium_cpmm_cpi::instructions::{swap_base_input_data, SWAP_BASE_INPUT_DISCRIMINATOR};
use raydium_cpmm_cpi::processor::{
    parse_instruction, CpmmInstruction, DepositCPMM, DepositCPMMInstructionData, Swap,
    SwapAccounts, SwapInstructionData, WithdrawCPMMAccounts,
};

fn handles(n: u32) -> Vec<u32> {
    (100..100 + n).collect()
}

#[test]
fn swap_accounts_need_exactly_thirteen() {
    assert!(matches!(SwapAccounts::try_from(&handles(12)[..]), Err(CpmmError::AccountCount)));
    assert!(matches!(SwapAccounts::try_from(&handles(14)[..]), Err(CpmmError::AccountCount)));
    let list = handles(13);
    let accounts = SwapAccounts::try_from(&list[..]).unwrap();
    assert_eq!(*accounts.payer, 100);
    assert_eq!(*accounts.amm_config, 102);
    assert_eq!(*accounts.observation_state, 112);
    let same = vec![7u32; 13];
    assert!(SwapAccounts::try_from(&same[..]).is_ok());
}

#[test]
fn withdraw_accounts_need_exactly_fourteen() {
    assert!(matches!(
        WithdrawCPMMAccounts::try_from(&handles(13)[..]),
        Err(CpmmError::AccountCount)
    ));
    let list = handles(14);
    let accounts = WithdrawCPMMAccounts::try_from(&list[..]).unwrap();
    assert_eq!(*accounts.memo_program, 113);
}

#[test]
fn deposit_payload_must_be_twenty_four_bytes() {
    assert!(matches!(DepositCPMMInstructionData::try_from(&[0u8; 23][..]), Err(CpmmError::DataLength)));
    assert!(matches!(DepositCPMMInstructionData::try_from(&[0u8; 25][..]), Err(CpmmError::DataLength)));
    let mut bytes = Vec::new();
    bytes.extend_from_slice(&1_000u64.to_le_bytes());
    bytes.extend_from_slice(&500u64.to_le_bytes());
    bytes.extend_from_slice(&500u64.to_le_bytes());
    let d = DepositCPMMInstructionData::try_from(&bytes[..]).unwrap();
    assert_eq!(d.lp_token_amount, 1_000);
    assert_eq!(d.maximum_token_0_amount, 500);
    assert_eq!(d.maximum_token_1_amount, 500);
}

#[test]
fn swap_payload_must_be_sixteen_bytes() {
    assert!(matches!(SwapInstructionData::try_from(&[0u8; 15][..]), Err(CpmmError::DataLength)));
    assert!(matches!(SwapInstructionData::try_from(&[0u8; 24][..]), Err(CpmmError::DataLength)));
}

#[test]
fn accounts_are_checked_before_payload() {
    let list = handles(3);
    let data = [0u8; 1];
    assert!(matches!(Swap::try_from((&data[..], &list[..])), Err(CpmmError::AccountCount)));
    let list = handles(13);
    assert!(matches!(DepositCPMM::try_from((&data[..], &list[..])), Err(CpmmError::DataLength)));
}

#[test]
fn opcode_two_routes_to_swap_base_input() {
    let mut data = vec![2u8];
    data.extend_from_slice(&123_456u64.to_le_bytes());
    data.extend_from_slice(&u64::MAX.to_le_bytes());
    let list = handles(13);
    match parse_instruction(&data[..], &list[..]) {
        Ok(CpmmInstruction::SwapBaseInput(call)) => {
            assert_eq!(call.data.amount_in, 123_456);
            assert_eq!(call.data.minimum_amount_out, u64::MAX);
            assert_eq!(*call.accounts.payer, 100);
            let out = swap_base_input_data(call.data.amount_in, call.data.minimum_amount_out);
            assert_eq!(&out[0..8], &SWAP_BASE_INPUT_DISCRIMINATOR);
            assert_eq!(&out[8..], &data[1..]);
        }
        _ => panic!("opcode 2 must route to the fixed-input swap"),
    }
}

#[test]
fn every_opcode_routes_to_its_operation() {
    let three = [0u8; 25];
    let two = [0u8; 17];
    let mut d = three;
    d[0] = 0;
    assert!(matches!(parse_instruction(&d[..], &handles(20)[..]), Ok(CpmmInstruction::Initialize(_))));
    d[0] = 1;
    assert!(matches!(parse_instruction(&d[..], &handles(13)[..]), Ok(CpmmInstruction::Deposit(_))));
    d[0] = 4;
    assert!(matches!(parse_instruction(&d[..], &handles(14)[..]), Ok(CpmmInstruction::Withdraw(_))));
    let mut s = two;
    s[0] = 3;
    assert!(matches!(
        parse_instruction(&s[..], &handles(13)[..]),
        Ok(CpmmInstruction::SwapBaseOutput(_))
    ));
    s[0] = 2;
    assert!(matches!(
        parse_instruction(&s[..], &handles(13)[..]),
        Ok(CpmmInstruction::SwapBaseInput(_))
    ));
}

#[test]
fn wrong_counts_after_routing() {
    let mut d = [0u8; 25];
    d[0] = 0;
    assert!(matches!(parse_instruction(&d[..], &handles(13)[..]), Err(CpmmError::AccountCount)));
    d[0] = 2;
    assert!(matches!(parse_instruction(&d[..], &handles(13)[..]), Err(CpmmError::DataLength)));
}

#[test]
fn unknown_opcode_is_rejected() {
    let list = handles(13);
    for op in [5u8, 6, 200, 255] {
        let data = [op, 1, 2, 3];
        assert!(matches!(parse_instruction(&data[..], &list[..]), Err(CpmmError::UnknownOpcode)));
        let data = [op];
        assert!(matches!(parse_instruction(&data[..], &handles(0)[..]), Err(CpmmError::UnknownOpcode)));
    }
    let empty: [u8; 0] = [];
    assert!(matches!(parse_instruction(&empty[..], &list[..]), Err(CpmmError::UnknownOpcode)));
}
