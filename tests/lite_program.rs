use slot_hashes::account::{AccountView, SLOT_HASHES_ID};
use slot_hashes::error::ProgramError;
use slot_hashes::lite::instruction::Instruction;
use slot_hashes::lite::processor::{
    process_account, process_log, process_ping, process_slot_hashes_bytes,
    process_slot_hashes_get_entry, process_slot_hashes_get_hash_interpolated,
    process_slot_hashes_position_interpolated, SlotHashOp,
};

fn create_mock_slot_hashes_data(entries: &[(u64, [u8; 32])]) -> Vec<u8> {
    let mut data = (entries.len() as u64).to_le_bytes().to_vec();
    for (slot, hash) in entries {
        data.extend_from_slice(&slot.to_le_bytes());
        data.extend_from_slice(hash);
    }
    data
}

#[test]
fn test_process_slot_hashes_bytes_logic() {
    let mock_entries = [
        (100, [1u8; 32]),
        (98, [2u8; 32]),
        (95, [3u8; 32]),
        (90, [4u8; 32]),
        (85, [5u8; 32]),
    ];
    let data = create_mock_slot_hashes_data(&mock_entries);

    assert_eq!(process_slot_hashes_bytes(&data, SlotHashOp::IsEmpty), Ok(None));
    let empty_data = create_mock_slot_hashes_data(&[]);
    assert_eq!(process_slot_hashes_bytes(&empty_data, SlotHashOp::IsEmpty), Ok(None));

    assert_eq!(process_slot_hashes_bytes(&data, SlotHashOp::GetHash(98)), Ok(Some(1)));
    assert_eq!(process_slot_hashes_bytes(&data, SlotHashOp::GetPosition(90)), Ok(Some(3)));
    assert_eq!(process_slot_hashes_bytes(&data, SlotHashOp::GetHash(99)), Ok(None));
    assert_eq!(process_slot_hashes_bytes(&data, SlotHashOp::GetPosition(80)), Ok(None));

    assert!(matches!(
        process_slot_hashes_bytes(&data[0..5], SlotHashOp::IsEmpty),
        Err(ProgramError::AccountDataTooSmall)
    ));
    let short_data = create_mock_slot_hashes_data(&[(100, [1u8; 32])]);
    assert!(matches!(
        process_slot_hashes_bytes(&short_data[0..45], SlotHashOp::IsEmpty),
        Err(ProgramError::AccountDataTooSmall)
    ));
}

#[test]
fn lite_bytes_overflowing_count_is_arithmetic_overflow() {
    let mut data = u64::MAX.to_le_bytes().to_vec();
    data.extend_from_slice(&[0u8; 40]);
    assert_eq!(
        process_slot_hashes_bytes(&data, SlotHashOp::GetPosition(1)),
        Err(ProgramError::ArithmeticOverflow)
    );
}

#[test]
fn lite_processors_check_the_ledger_account() {
    let data = create_mock_slot_hashes_data(&[(10, [1u8; 32])]);
    let good = [AccountView { key: SLOT_HASHES_ID, data: &data }];
    let wrong = [AccountView { key: [1u8; 32], data: &data }];
    let short = [AccountView { key: SLOT_HASHES_ID, data: &data[0..20] }];
    assert_eq!(process_slot_hashes_get_entry(&good), Ok(()));
    assert_eq!(process_slot_hashes_get_hash_interpolated(&good), Ok(()));
    assert_eq!(process_slot_hashes_position_interpolated(&good), Ok(()));
    assert_eq!(process_slot_hashes_get_entry(&wrong), Err(ProgramError::InvalidArgument));
    assert_eq!(process_slot_hashes_get_entry(&[]), Err(ProgramError::InvalidArgument));
    assert_eq!(
        process_slot_hashes_position_interpolated(&short),
        Err(ProgramError::AccountDataTooSmall)
    );
    assert_eq!(process_ping(), Ok(()));
    assert_eq!(process_log(), Ok(()));
    assert_eq!(process_account(&good, 1), Ok(()));
    assert_eq!(process_account(&good, 3), Err(ProgramError::InvalidArgument));
}

#[test]
fn lite_unpack_reads_tags_and_count() {
    assert_eq!(Instruction::unpack(&[0]), Ok(Instruction::Ping));
    assert_eq!(Instruction::unpack(&[7]), Ok(Instruction::SlotHashesPositionInterpolated));
    let mut account = vec![2u8];
    account.extend_from_slice(&300u64.to_le_bytes());
    assert_eq!(Instruction::unpack(&account), Ok(Instruction::Account { expected: 300 }));
    assert_eq!(Instruction::unpack(&[8]), Err(ProgramError::InvalidInstructionData));
    assert_eq!(Instruction::unpack(&[]), Err(ProgramError::InvalidInstructionData));
    assert_eq!(Instruction::unpack(&[0, 0]), Err(ProgramError::InvalidInstructionData));
}
