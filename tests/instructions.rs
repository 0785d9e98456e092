use bond::account::Address;
use bond::error::BondError;
use bond::instruction::BondInstruction;

#[test]
fn decodes_draw() {
    let mut data = vec![3u8];
    data.extend_from_slice(&42u64.to_le_bytes());
    data.extend_from_slice(&7u64.to_le_bytes());
    assert_eq!(BondInstruction::unpack(&data), Ok(BondInstruction::Draw { receiver_seed: 42, draw_seed: 7 }));
    data.push(0);
    assert_eq!(BondInstruction::unpack(&data), Err(BondError::InvalidInstructionData));
}

#[test]
fn decodes_split_shares() {
    assert_eq!(BondInstruction::unpack(&vec![2, 0]), Ok(BondInstruction::SplitShares { amount: None }));
    let mut data = vec![2u8, 1];
    data.extend_from_slice(&1_000u64.to_le_bytes());
    assert_eq!(BondInstruction::unpack(&data), Ok(BondInstruction::SplitShares { amount: Some(1_000) }));
    assert_eq!(BondInstruction::unpack(&vec![2, 2]), Err(BondError::InvalidInstructionData));
    assert_eq!(BondInstruction::unpack(&vec![2, 1, 0]), Err(BondError::InvalidInstructionData));
}

#[test]
fn decodes_create() {
    let mut data = vec![0u8];
    data.extend_from_slice(&76u32.to_le_bytes());
    for (bump, space) in [(1u8, 43u32), (2, 34), (3, 170), (4, 42), (5, 42), (6, 42), (7, 42)] {
        data.push(bump);
        data.extend_from_slice(&space.to_le_bytes());
    }
    assert_eq!(data.len(), 40);
    assert_eq!(
        BondInstruction::unpack(&data),
        Ok(BondInstruction::Create {
            config_space: 76,
            state_bump: 1,
            state_space: 43,
            fee_bump: 2,
            fee_space: 34,
            exclusion_list_bump: 3,
            exclusion_list_space: 170,
            equity_bump: 4,
            equity_space: 42,
            treasury_bump: 5,
            treasury_space: 42,
            jackpot_bump: 6,
            jackpot_space: 42,
            stake_bump: 7,
            stake_space: 42,
        })
    );
    data.pop();
    assert_eq!(BondInstruction::unpack(&data), Err(BondError::InvalidInstructionData));
}

#[test]
fn decodes_initialize() {
    let mut data = vec![1u8, 10, 11, 12];
    data.extend_from_slice(&4u32.to_le_bytes());
    data.extend_from_slice(&2u32.to_le_bytes());
    data.extend_from_slice(&[7u8; 32]);
    data.extend_from_slice(&[8u8; 32]);
    data.extend_from_slice(&[13, 14, 15, 16]);
    assert_eq!(
        BondInstruction::unpack(&data),
        Ok(BondInstruction::Initialize {
            state_bump: 10,
            fee_bump: 11,
            exclusion_list_bump: 12,
            exclusion_list_capacity: 4,
            exclusion_list_accounts: vec![Address::new([7u8; 32]), Address::new([8u8; 32])],
            equity_bump: 13,
            treasury_bump: 14,
            jackpot_bump: 15,
            stake_bump: 16,
        })
    );
    data[8] = 3;
    assert_eq!(BondInstruction::unpack(&data), Err(BondError::InvalidInstructionData));
}

#[test]
fn decodes_test_and_refuses_unknown_tags() {
    assert_eq!(BondInstruction::unpack(&vec![4]), Ok(BondInstruction::Test));
    assert_eq!(BondInstruction::unpack(&vec![5]), Err(BondError::InvalidInstructionData));
    assert_eq!(BondInstruction::unpack(&vec![]), Err(BondError::InvalidInstructionData));
}
