use raydium_cpmm_cpi::instructions::{
    deposit_data, initialize_data, swap_base_input_data, swap_base_output_data, withdraw_data,
    Access, DEPOSIT_ACCESS, DEPOSIT_DISCRIMINATOR, INITIALIZE_ACCESS, INITIALIZE_DISCRIMINATOR,
    SWAP_BASE_INPUT_ACCESS, SWAP_BASE_INPUT_DISCRIMINATOR, SWAP_BASE_OUTPUT_ACCESS,
    SWAP_BASE_OUTPUT_DISCRIMINATOR, WITHDRAW_ACCESS, WITHDRAW_DISCRIMINATOR,
};
use raydium_cpmm_cpi::processor::{
    DepositCPMMInstructionData, InitializeCPMMInstructionData, SwapBaseOutputInstructionData,
    SwapInstructionData, WithdrawCPMMInstructionData,
};

const VALUES: [u64; 5] = [0, 1, 0x0102_0304_0506_0708, u64::MAX - 1, u64::MAX];

#[test]
fn deposit_payload_layout() {
    let data = deposit_data(1, 2, 0x0102_0304_0506_0708);
    let mut expected = vec![242, 35, 198, 137, 82, 225, 242, 182];
    expected.extend_from_slice(&[1, 0, 0, 0, 0, 0, 0, 0]);
    expected.extend_from_slice(&[2, 0, 0, 0, 0, 0, 0, 0]);
    expected.extend_from_slice(&[8, 7, 6, 5, 4, 3, 2, 1]);
    assert_eq!(data, expected);
}

#[test]
fn swap_payload_layouts() {
    let data = swap_base_input_data(u64::MAX, 0);
    assert_eq!(data.len(), 24);
    assert_eq!(&data[0..8], &[143, 190, 90, 218, 196, 30, 51, 222]);
    assert_eq!(&data[8..16], &[255; 8]);
    assert_eq!(&data[16..24], &[0; 8]);
    let data = swap_base_output_data(0x10, 0x2000);
    assert_eq!(&data[0..8], &[55, 217, 98, 86, 163, 74, 180, 173]);
    assert_eq!(&data[8..24], &[0x10, 0, 0, 0, 0, 0, 0, 0, 0, 0x20, 0, 0, 0, 0, 0, 0]);
}

#[test]
fn initialize_and_withdraw_payload_layouts() {
    let data = initialize_data(5, 6, 7);
    assert_eq!(data.len(), 32);
    assert_eq!(&data[0..8], &INITIALIZE_DISCRIMINATOR);
    assert_eq!(&data[0..8], &[175, 175, 109, 31, 13, 152, 155, 237]);
    assert_eq!(data[8], 5);
    assert_eq!(data[16], 6);
    assert_eq!(data[24], 7);
    let data = withdraw_data(9, 10, 11);
    assert_eq!(&data[0..8], &[183, 18, 70, 156, 148, 109, 161, 34]);
    assert_eq!(&data[0..8], &WITHDRAW_DISCRIMINATOR);
    assert_eq!(data[8], 9);
    assert_eq!(data[16], 10);
    assert_eq!(data[24], 11);
}

#[test]
fn discriminators_are_distinct() {
    let all = [
        INITIALIZE_DISCRIMINATOR,
        DEPOSIT_DISCRIMINATOR,
        SWAP_BASE_INPUT_DISCRIMINATOR,
        SWAP_BASE_OUTPUT_DISCRIMINATOR,
        WITHDRAW_DISCRIMINATOR,
    ];
    for i in 0..all.len() {
        for j in 0..all.len() {
            assert_eq!(i == j, all[i] == all[j]);
        }
    }
}

#[test]
fn round_trip_every_operation() {
    for &a in VALUES.iter() {
        for &b in VALUES.iter() {
            for &c in VALUES.iter() {
                let init = initialize_data(a, b, c);
                let d = InitializeCPMMInstructionData::try_from(&init[8..]).unwrap();
                assert_eq!((d.init_amount_0, d.init_amount_1, d.open_time), (a, b, c));

                let dep = deposit_data(a, b, c);
                let d = DepositCPMMInstructionData::try_from(&dep[8..]).unwrap();
                assert_eq!(
                    (d.lp_token_amount, d.maximum_token_0_amount, d.maximum_token_1_amount),
                    (a, b, c)
                );

                let wd = withdraw_data(a, b, c);
                let d = WithdrawCPMMInstructionData::try_from(&wd[8..]).unwrap();
                assert_eq!(
                    (d.lp_token_amount, d.minimum_token_0_amount, d.minimum_token_1_amount),
                    (a, b, c)
                );
            }
            let si = swap_base_input_data(a, b);
            let d = SwapInstructionData::try_from(&si[8..]).unwrap();
            assert_eq!((d.amount_in, d.minimum_amount_out), (a, b));

            let so = swap_base_output_data(a, b);
            let d = SwapBaseOutputInstructionData::try_from(&so[8..]).unwrap();
            assert_eq!((d.max_amount_in, d.amount_out), (a, b));
        }
    }
}

#[test]
fn access_tables_match_the_downstream_layout() {
    assert_eq!(INITIALIZE_ACCESS.len(), 20);
    assert_eq!(DEPOSIT_ACCESS.len(), 13);
    assert_eq!(SWAP_BASE_INPUT_ACCESS.len(), 13);
    assert_eq!(SWAP_BASE_OUTPUT_ACCESS.len(), 13);
    assert_eq!(WITHDRAW_ACCESS.len(), 14);
    assert_eq!(INITIALIZE_ACCESS[0], Access::WritableSigner);
    assert_eq!(DEPOSIT_ACCESS[0], Access::ReadOnlySigner);
    assert_eq!(WITHDRAW_ACCESS[0], Access::ReadOnlySigner);
    assert_eq!(SWAP_BASE_INPUT_ACCESS[0], Access::WritableSigner);
    assert_eq!(SWAP_BASE_INPUT_ACCESS[12], Access::Writable);
    assert_eq!(DEPOSIT_ACCESS[12], Access::Writable);
    assert_eq!(WITHDRAW_ACCESS[13], Access::ReadOnly);
    let writable = INITIALIZE_ACCESS.iter().filter(|a| a.is_writable()).count();
    assert_eq!(writable, 10);
    let signers = INITIALIZE_ACCESS.iter().filter(|a| a.is_signer()).count();
    assert_eq!(signers, 1);
}

#[test]
fn access_flags() {
    assert!(!Access::ReadOnly.is_writable() && !Access::ReadOnly.is_signer());
    assert!(!Access::ReadOnlySigner.is_writable() && Access::ReadOnlySigner.is_signer());
    assert!(Access::Writable.is_writable() && !Access::Writable.is_signer());
    assert!(Access::WritableSigner.is_writable() && Access::WritableSigner.is_signer());
}
