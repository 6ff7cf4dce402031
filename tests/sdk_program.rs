use slot_hashes::account::{AccountView, SLOT_HASHES_ID};
use slot_hashes::error::ProgramError;
use slot_hashes::program::processor::{process_account, process_log, process_ping};
use slot_hashes::sdk::{
    manual_binary_search, process_slot_hashes_get_entry, process_slot_hashes_get_hash_interpolated,
    process_slot_hashes_get_hash_midpoint, process_slot_hashes_position_interpolated,
    process_slot_hashes_position_midpoint,
};

fn create_mock_slot_hashes_data(entries: &[(u64, [u8; 32])]) -> Vec<u8> {
    let num_entries = entries.len() as u64;
    let data_len = 8 + entries.len() * 40;
    let mut data = vec![0u8; data_len];
    data[0..8].copy_from_slice(&num_entries.to_le_bytes());
    let mut offset = 8;
    for (slot, hash) in entries {
        data[offset..offset + 8].copy_from_slice(&slot.to_le_bytes());
        data[offset + 8..offset + 40].copy_from_slice(hash);
        offset += 40;
    }
    data
}

fn account(key: [u8; 32], data: &[u8]) -> AccountView<'_> {
    AccountView { key, data }
}

#[test]
fn test_ping_log_account() {
    assert_eq!(process_ping(), Ok(()));
    assert_eq!(process_log(), Ok(()));

    let dummy_key = [7u8; 32];
    let accounts = vec![account(dummy_key, &[])];
    assert_eq!(process_account(&accounts, 1), Ok(()));
    assert_eq!(process_account(&accounts, 0), Err(ProgramError::InvalidArgument));
    assert_eq!(process_account(&accounts, 2), Err(ProgramError::InvalidArgument));
    assert_eq!(process_account(&[], 0), Ok(()));
}

#[test]
fn test_slot_hashes_processing() {
    let key = SLOT_HASHES_ID;
    let mock_entries_data = [
        (100, [1u8; 32]),
        (98, [2u8; 32]),
        (95, [3u8; 32]),
        (90, [4u8; 32]),
        (85, [5u8; 32]),
        (80, [6u8; 32]),
    ];
    let data = create_mock_slot_hashes_data(&mock_entries_data);
    let accounts = [account(key, &data)];

    assert_eq!(process_slot_hashes_get_entry(&accounts), Ok(()));
    assert_eq!(process_slot_hashes_get_hash_interpolated(&accounts), Ok(()));
    assert_eq!(process_slot_hashes_position_interpolated(&accounts), Ok(()));
    assert_eq!(process_slot_hashes_get_hash_midpoint(&accounts), Ok(()));
    assert_eq!(process_slot_hashes_position_midpoint(&accounts), Ok(()));

    let empty_data = create_mock_slot_hashes_data(&[]);
    let empty_accounts = [account(key, &empty_data)];
    assert_eq!(process_slot_hashes_get_entry(&empty_accounts), Ok(()));
    assert_eq!(process_slot_hashes_get_hash_interpolated(&empty_accounts), Ok(()));
    assert_eq!(process_slot_hashes_position_interpolated(&empty_accounts), Ok(()));
    assert_eq!(process_slot_hashes_get_hash_midpoint(&empty_accounts), Ok(()));
    assert_eq!(process_slot_hashes_position_midpoint(&empty_accounts), Ok(()));

    let wrong_key = [9u8; 32];
    let wrong_key_accounts = [account(wrong_key, &data)];
    assert_eq!(
        process_slot_hashes_get_entry(&wrong_key_accounts),
        Err(ProgramError::IncorrectProgramId)
    );
}

#[test]
fn test_manual_binary_search_logic() {
    let mock_entries_data = [
        (100, [1u8; 32]),
        (98, [2u8; 32]),
        (95, [3u8; 32]),
        (90, [4u8; 32]),
        (85, [5u8; 32]),
        (80, [6u8; 32]),
    ];
    let data = create_mock_slot_hashes_data(&mock_entries_data);

    assert_eq!(manual_binary_search(&data, 100), Ok(0));
    assert_eq!(manual_binary_search(&data, 95), Ok(2));
    assert_eq!(manual_binary_search(&data, 80), Ok(5));

    assert_eq!(manual_binary_search(&data, 101), Err(0));
    assert_eq!(manual_binary_search(&data, 99), Err(1));
    assert_eq!(manual_binary_search(&data, 91), Err(3));
    assert_eq!(manual_binary_search(&data, 79), Err(6));

    let empty_data = create_mock_slot_hashes_data(&[]);
    assert_eq!(manual_binary_search(&empty_data, 100), Err(0));

    assert_eq!(manual_binary_search(&data[0..5], 100), Err(0));
}

#[test]
fn sdk_processors_report_missing_and_short_accounts() {
    assert_eq!(process_slot_hashes_get_entry(&[]), Err(ProgramError::NotEnoughAccountKeys));
    assert_eq!(
        process_slot_hashes_position_midpoint(&[]),
        Err(ProgramError::NotEnoughAccountKeys)
    );
    let short = [account(SLOT_HASHES_ID, &[1, 2, 3])];
    assert_eq!(process_slot_hashes_get_entry(&short), Err(ProgramError::AccountDataTooSmall));
    assert_eq!(
        process_slot_hashes_get_hash_midpoint(&short),
        Err(ProgramError::AccountDataTooSmall)
    );
}

#[test]
fn sdk_processors_refuse_a_truncated_table() {
    let data = create_mock_slot_hashes_data(&[(100, [1u8; 32]), (98, [2u8; 32]), (95, [3u8; 32])]);
    let truncated = [account(SLOT_HASHES_ID, &data[0..90])];
    assert_eq!(process_slot_hashes_get_entry(&truncated), Err(ProgramError::AccountDataTooSmall));
    assert_eq!(
        process_slot_hashes_get_hash_interpolated(&truncated),
        Err(ProgramError::AccountDataTooSmall)
    );
    assert_eq!(
        process_slot_hashes_position_interpolated(&truncated),
        Err(ProgramError::AccountDataTooSmall)
    );
    assert_eq!(
        process_slot_hashes_get_hash_midpoint(&truncated),
        Err(ProgramError::AccountDataTooSmall)
    );
    assert_eq!(
        process_slot_hashes_position_midpoint(&truncated),
        Err(ProgramError::AccountDataTooSmall)
    );
}

#[test]
fn manual_search_refuses_a_truncated_table() {
    let data = create_mock_slot_hashes_data(&[(100, [1u8; 32]), (98, [2u8; 32]), (95, [3u8; 32])]);
    // The prefix declares three records; the buffer stops inside the third.
    assert_eq!(manual_binary_search(&data[0..90], 98), Err(0));
    assert_eq!(manual_binary_search(&data[0..90], 95), Err(0));
    assert_eq!(manual_binary_search(&data, 95), Ok(2));
}

#[test]
fn manual_search_on_overflowing_count() {
    let data = u64::MAX.to_le_bytes();
    assert_eq!(manual_binary_search(&data, 1), Err(0));
}
