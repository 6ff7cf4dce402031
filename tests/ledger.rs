use slot_hashes::error::ProgramError;
use slot_hashes::layout::{decode_entry, read_u64_le, SlotHashEntry, MAX_ENTRIES};
use slot_hashes::reader::{get_entry, get_hash, position, read_table_bounds, SlotHashes, TableBounds};
use slot_hashes::search::{
    binary_search, interpolation_search, interpolation_probe, position_interpolated,
    position_naive,
};
use slot_hashes::unchecked;

fn ledger(entries: &[(u64, u8)]) -> Vec<u8> {
    let mut data = (entries.len() as u64).to_le_bytes().to_vec();
    for (slot, fill) in entries {
        data.extend_from_slice(&slot.to_le_bytes());
        data.extend_from_slice(&[*fill; 32]);
    }
    data
}

fn five() -> Vec<u8> {
    ledger(&[(100, 0x01), (98, 0x02), (95, 0x03), (90, 0x04), (85, 0x05)])
}

fn skewed() -> Vec<u8> {
    let mut entries = vec![(1_000_000u64, 0xaa)];
    for k in 0..500u64 {
        entries.push((500 - k, (k % 251) as u8));
    }
    ledger(&entries)
}

#[test]
fn scenario_found_in_the_middle() {
    let data = five();
    let sh = SlotHashes::new(&data).unwrap();
    assert_eq!(position(&data, 95), Ok(Some(2)));
    assert_eq!(get_hash(&data, 95), Ok(Some([0x03; 32])));
    assert_eq!(sh.position(95), Some(2));
    assert_eq!(sh.get_hash(95), Some([0x03; 32]));
    assert_eq!(sh.position_midpoint(95), Some(2));
    assert_eq!(sh.get_hash_midpoint(95), Some([0x03; 32]));
}

#[test]
fn scenario_gap_is_absent() {
    let data = five();
    let sh = SlotHashes::new(&data).unwrap();
    assert_eq!(position(&data, 96), Ok(None));
    assert_eq!(sh.position(96), None);
    assert_eq!(sh.get_hash(96), None);
    assert_eq!(sh.position_midpoint(96), None);
}

#[test]
fn scenario_out_of_range_is_absent() {
    let data = five();
    let sh = SlotHashes::new(&data).unwrap();
    for target in [101u64, 84, 0, u64::MAX] {
        assert_eq!(position(&data, target), Ok(None));
        assert_eq!(sh.position(target), None);
        assert_eq!(sh.position_midpoint(target), None);
        assert_eq!(sh.get_hash(target), None);
        assert_eq!(sh.get_hash_midpoint(target), None);
        assert_eq!(position_naive(&data, 5, target), None);
        assert_eq!(position_interpolated(&data, 5, target), None);
        assert_eq!(unchecked::position(&data, target, 5), None);
        assert_eq!(unchecked::position_interpolated(&data, target, 5), None);
        assert_eq!(unchecked::get_hash(&data, target, 5), None);
    }
    assert_eq!(binary_search(&data, 5, 101), Err(0));
    assert_eq!(binary_search(&data, 5, 84), Err(5));
}

#[test]
fn scenario_empty_ledger() {
    let data = ledger(&[]);
    assert_eq!(data.len(), 8);
    assert_eq!(get_entry(&data, 0), Ok(None));
    assert_eq!(get_hash(&data, 0), Ok(None));
    assert_eq!(position(&data, 0), Ok(None));
    let sh = SlotHashes::new(&data).unwrap();
    assert!(sh.is_empty());
    assert_eq!(sh.len(), 0);
    assert_eq!(sh.get_entry(0), None);
    assert_eq!(sh.get_hash(0), None);
    assert_eq!(sh.position(0), None);
    assert_eq!(sh.position_midpoint(7), None);
    assert_eq!(unchecked::position(&data, 0, 0), None);
    assert_eq!(unchecked::position_interpolated(&data, 0, 0), None);
    assert_eq!(unchecked::get_hash(&data, 0, 0), None);
    assert_eq!(position_naive(&data, 0, 0), None);
    assert_eq!(interpolation_search(&data, 0, 0).steps, 0);
}

#[test]
fn scenario_truncated_ledger() {
    let full = five();
    let data = &full[0..8 + 3 * 40];
    assert!(matches!(SlotHashes::new(data), Err(ProgramError::AccountDataTooSmall)));
    assert_eq!(get_entry(data, 4), Err(ProgramError::AccountDataTooSmall));
    assert_eq!(get_entry(data, 0), Err(ProgramError::AccountDataTooSmall));
    assert_eq!(get_hash(data, 95), Err(ProgramError::AccountDataTooSmall));
    assert_eq!(position(data, 95), Err(ProgramError::AccountDataTooSmall));
    // The unchecked read trusts its caller; record 2 is still inside the slice.
    let entry = unchecked::get_entry(data, 2);
    assert_eq!(entry, SlotHashEntry { slot: 95, hash: [0x03; 32] });
}

#[test]
fn scenario_skewed_distribution() {
    let data = skewed();
    let n = 501usize;
    for target in [0u64, 1, 2, 250, 499, 500, 501, 999_999, 1_000_000, 1_000_001] {
        let outcome = interpolation_search(&data, n, target);
        let expected = match binary_search(&data, n, target) {
            Ok(i) => Some(i),
            Err(_) => None,
        };
        assert_eq!(outcome.position, expected);
        assert!(outcome.steps <= 18, "{} steps for {}", outcome.steps, target);
    }
    assert_eq!(interpolation_search(&data, n, 1).position, Some(500));
    assert_eq!(interpolation_search(&data, n, 1_000_000).position, Some(0));
}

#[test]
fn algorithms_agree_on_every_slot_and_gap() {
    let data = ledger(&[(1000, 1), (700, 2), (699, 3), (300, 4), (20, 5), (19, 6), (3, 7)]);
    for target in 0u64..1005 {
        let naive = position_naive(&data, 7, target);
        let interpolated = position_interpolated(&data, 7, target);
        let midpoint = binary_search(&data, 7, target).ok();
        let checked = SlotHashes::new(&data).unwrap().position(target);
        let trusted = unchecked::position(&data, target, 7);
        let trusted_interpolated = unchecked::position_interpolated(&data, target, 7);
        assert_eq!(trusted, trusted_interpolated);
        assert_eq!(naive, interpolated);
        assert_eq!(interpolated, midpoint);
        assert_eq!(midpoint, checked);
        assert_eq!(checked, trusted);
    }
}

#[test]
fn round_trip_of_every_record() {
    let data = ledger(&[(1000, 1), (700, 2), (699, 3), (300, 4), (20, 5), (19, 6), (3, 7)]);
    let sh = SlotHashes::new(&data).unwrap();
    for i in 0..7usize {
        let entry = sh.get_entry(i).unwrap();
        assert_eq!(entry, decode_entry(&data, i));
        assert_eq!(sh.position(entry.slot), Some(i));
        assert_eq!(sh.position_midpoint(entry.slot), Some(i));
        assert_eq!(sh.get_hash(entry.slot), Some(entry.hash));
        assert_eq!(sh.get_hash_midpoint(entry.slot), Some([(i + 1) as u8; 32]));
    }
    assert_eq!(sh.get_entry(7), None);
    assert_eq!(get_entry(&data, 3), Ok(Some(SlotHashEntry { slot: 300, hash: [4; 32] })));
    assert_eq!(get_entry(&data, 7), Ok(None));
}

#[test]
fn insertion_points_of_gaps() {
    let data = five();
    assert_eq!(binary_search(&data, 5, 99), Err(1));
    assert_eq!(binary_search(&data, 5, 96), Err(2));
    assert_eq!(binary_search(&data, 5, 86), Err(4));
    assert_eq!(binary_search(&data, 5, 85), Ok(4));
}

#[test]
fn table_bounds_of_a_valid_buffer() {
    let data = five();
    assert_eq!(
        read_table_bounds(&data),
        Ok(TableBounds { entry_count: 5, start: 8, end: 208 })
    );
    let mut longer = data.clone();
    longer.extend_from_slice(&[0u8; 13]);
    assert_eq!(read_table_bounds(&longer).unwrap().end, 208);
}

#[test]
fn table_bounds_errors() {
    assert_eq!(read_table_bounds(&[1, 2, 3]), Err(ProgramError::AccountDataTooSmall));
    let data = five();
    assert_eq!(read_table_bounds(&data[0..207]), Err(ProgramError::AccountDataTooSmall));
    let huge = u64::MAX.to_le_bytes();
    assert_eq!(read_table_bounds(&huge), Err(ProgramError::ArithmeticOverflow));
    let just_over = ((usize::MAX / 40) as u64 + 1).to_le_bytes();
    assert_eq!(read_table_bounds(&just_over), Err(ProgramError::ArithmeticOverflow));
}

#[test]
fn little_endian_reads() {
    let bytes = [0x11u8, 0x22, 0x33, 0x44, 0x55, 0x66, 0x77, 0x88, 0x99];
    assert_eq!(read_u64_le(&bytes, 0), 0x8877_6655_4433_2211);
    assert_eq!(read_u64_le(&bytes, 1), 0x9988_7766_5544_3322);
    assert_eq!(read_u64_le(&[0xff; 8], 0), u64::MAX);
}

#[test]
fn decoded_entry_fields() {
    let data = ledger(&[(0x0102_0304_0506_0708, 0x5a)]);
    let entry = decode_entry(&data, 0);
    assert_eq!(entry.slot, 0x0102_0304_0506_0708);
    assert_eq!(entry.hash, [0x5a; 32]);
}

#[test]
fn proportional_probe_values() {
    // Slots from 100 at index 0 to 0 at index 10, evenly spread.
    assert_eq!(interpolation_probe(100, 0, 30, 0, 11), 7);
    assert_eq!(interpolation_probe(100, 0, 100, 0, 11), 0);
    assert_eq!(interpolation_probe(100, 0, 0, 0, 11), 10);
    assert_eq!(interpolation_probe(u64::MAX, 0, 0, 5, 9), 8);
}

#[test]
fn interpolation_on_uniform_table_finds_in_one_probe() {
    let entries: Vec<(u64, u8)> = (0..100u64).map(|k| (1000 - 10 * k, k as u8)).collect();
    let data = ledger(&entries);
    let outcome = interpolation_search(&data, 100, 500);
    assert_eq!(outcome.position, Some(50));
    assert_eq!(outcome.steps, 1);
}

#[test]
fn unchecked_lookups_over_full_capacity() {
    let entries: Vec<(u64, u8)> =
        (0..MAX_ENTRIES as u64).map(|k| (2 * (MAX_ENTRIES as u64 - k), k as u8)).collect();
    let data = ledger(&entries);
    assert_eq!(unchecked::position(&data, 2, MAX_ENTRIES), Some(MAX_ENTRIES - 1));
    assert_eq!(unchecked::position(&data, 3, MAX_ENTRIES), None);
    assert_eq!(unchecked::get_hash(&data, 4, MAX_ENTRIES), Some([(MAX_ENTRIES - 2) as u8; 32]));
    assert_eq!(unchecked::get_entry(&data, 0).slot, 2 * MAX_ENTRIES as u64);
}
