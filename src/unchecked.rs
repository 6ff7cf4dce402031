//! Accessors that trust a caller-supplied entry count instead of reading and
//! validating the length prefix, with the same search strategies as the
//! checked path. Each states as its precondition what the checked path would
//! have tested: that the buffer holds the records read.
use vstd::prelude::*;

use crate::layout::{
    decode_entry, entry_offset, hash_at, is_hash_lookup, is_position, read_entry_hash, slot_at,
    strictly_descending, table_fits, Slot, SlotHashEntry, ENTRY_SIZE,
};
use crate::search::{binary_search, interpolation_search, lemma_search_result_position};

verus! {

/// Record `index`, read without consulting the length prefix.
pub fn get_entry(data: &[u8], index: usize) -> (e: SlotHashEntry)
    requires
        entry_offset(index as int) + ENTRY_SIZE <= data.len(),
    ensures
        e.decodes(data@, index as int),
{
    decode_entry(data, index)
}

/// The index of the record that holds `target` among the first
/// `entry_count` records, by midpoint binary search.
pub fn position(data: &[u8], target: Slot, entry_count: usize) -> (r: Option<usize>)
    requires
        table_fits(data@, entry_count as int),
    ensures
        entry_count == 0 ==> r is None,
        r matches Some(i) ==> i < entry_count && slot_at(data@, i as int) == target,
        strictly_descending(data@, entry_count as int) ==> is_position(
            data@,
            entry_count as int,
            target as int,
            r,
        ),
{
    if entry_count == 0 {
        return None;
    }
    let r = binary_search(data, entry_count, target);
    proof {
        if strictly_descending(data@, entry_count as int) {
            lemma_search_result_position(data@, entry_count as int, target as int, r);
        }
    }
    match r {
        Ok(i) => Some(i),
        Err(_) => None,
    }
}

/// The index of the record that holds `target` among the first
/// `entry_count` records, by interpolation search.
pub fn position_interpolated(data: &[u8], target: Slot, entry_count: usize) -> (r: Option<usize>)
    requires
        table_fits(data@, entry_count as int),
    ensures
        entry_count == 0 ==> r is None,
        r matches Some(i) ==> i < entry_count && slot_at(data@, i as int) == target,
        strictly_descending(data@, entry_count as int) ==> is_position(
            data@,
            entry_count as int,
            target as int,
            r,
        ),
{
    if entry_count == 0 {
        return None;
    }
    interpolation_search(data, entry_count, target).position
}

/// The hash of the record that holds `target` among the first
/// `entry_count` records, by midpoint binary search.
pub fn get_hash(data: &[u8], target: Slot, entry_count: usize) -> (r: Option<[u8; 32]>)
    requires
        table_fits(data@, entry_count as int),
    ensures
        entry_count == 0 ==> r is None,
        r is Some ==> is_hash_lookup(data@, entry_count as int, target as int, r),
        strictly_descending(data@, entry_count as int) ==> is_hash_lookup(
            data@,
            entry_count as int,
            target as int,
            r,
        ),
{
    match position(data, target, entry_count) {
        Some(i) => {
            let h = read_entry_hash(data, i);
            proof {
                assert(slot_at(data@, i as int) == target && h@ == hash_at(data@, i as int));
            }
            Some(h)
        },
        None => None,
    }
}

} // verus!
