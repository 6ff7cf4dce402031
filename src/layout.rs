//! The byte layout of a ledger buffer, its mathematical model, and the
//! fixed-width record codec.
use vstd::prelude::*;

verus! {

/// Width of the little-endian entry count that opens the buffer.
pub const NUM_ENTRIES_SIZE: usize = 8;

/// Width of the little-endian slot at the start of each record.
pub const SLOT_SIZE: usize = 8;

/// Width of the opaque hash that follows the slot.
pub const HASH_BYTES: usize = 32;

/// Width of one record: slot followed by hash.
pub const ENTRY_SIZE: usize = 40;

/// The largest entry count that the unchecked paths are configured to trust.
pub const MAX_ENTRIES: usize = 512;

/// A slot number.
pub type Slot = u64;

/// The little-endian value of the eight bytes of `s` that start at `off`.
pub open spec fn le_u64_at(s: Seq<u8>, off: int) -> int {
    s[off] as int + 256 * (s[off + 1] as int + 256 * (s[off + 2] as int + 256 * (
    s[off + 3] as int + 256 * (s[off + 4] as int + 256 * (s[off + 5] as int + 256 * (
    s[off + 6] as int + 256 * s[off + 7] as int))))))
}

/// The entry count that the first eight bytes of the buffer declare.
pub open spec fn declared_count(s: Seq<u8>) -> int {
    le_u64_at(s, 0)
}

/// Byte offset of record `i`.
pub open spec fn entry_offset(i: int) -> int {
    NUM_ENTRIES_SIZE + ENTRY_SIZE * i
}

/// The bytes that a table of `n` records needs, prefix included.
pub open spec fn table_end(n: int) -> int {
    entry_offset(n)
}

/// The buffer holds the prefix and `n` whole records.
pub open spec fn table_fits(s: Seq<u8>, n: int) -> bool {
    0 <= n && table_end(n) <= s.len()
}

/// The slot of record `i`.
pub open spec fn slot_at(s: Seq<u8>, i: int) -> int {
    le_u64_at(s, entry_offset(i))
}

/// The hash of record `i`.
pub open spec fn hash_at(s: Seq<u8>, i: int) -> Seq<u8> {
    s.subrange(entry_offset(i) + SLOT_SIZE, entry_offset(i) + ENTRY_SIZE)
}

/// The first `n` slots are in strictly descending order.
pub open spec fn strictly_descending(s: Seq<u8>, n: int) -> bool {
    forall|i: int, j: int| 0 <= i < j < n ==> #[trigger] slot_at(s, i) > #[trigger] slot_at(s, j)
}

/// No record among the first `n` holds `target`.
pub open spec fn absent(s: Seq<u8>, n: int, target: int) -> bool {
    forall|i: int| 0 <= i < n ==> #[trigger] slot_at(s, i) != target
}

/// `r` is where `target` stands among the first `n` records: the index of
/// the record that holds it, or `None` when no record holds it.
pub open spec fn is_position(s: Seq<u8>, n: int, target: int, r: Option<usize>) -> bool {
    match r {
        Some(i) => i < n && slot_at(s, i as int) == target,
        None => absent(s, n, target),
    }
}

/// `p` is the insertion point of `target` among the first `n` records: the
/// records before it hold larger slots, those from it on smaller ones.
pub open spec fn is_insertion_point(s: Seq<u8>, n: int, target: int, p: int) -> bool {
    &&& 0 <= p <= n
    &&& forall|i: int| 0 <= i < p ==> #[trigger] slot_at(s, i) > target
    &&& forall|i: int| p <= i < n ==> #[trigger] slot_at(s, i) < target
}

/// One decoded record.
#[derive(Clone, Copy, Debug, PartialEq, Eq)]
pub struct SlotHashEntry {
    pub slot: Slot,
    pub hash: [u8; 32],
}

impl SlotHashEntry {
    /// The record is record `i` of the buffer `s`.
    pub open spec fn decodes(&self, s: Seq<u8>, i: int) -> bool {
        &&& self.slot as int == slot_at(s, i)
        &&& self.hash@ == hash_at(s, i)
    }
}

/// Reads the little-endian `u64` that starts at `off`.
pub fn read_u64_le(data: &[u8], off: usize) -> (r: u64)
    requires
        off + 8 <= data@.len(),
    ensures
        r as int == le_u64_at(data@, off as int),
{
    let b0 = data[off] as u64;
    let b1 = data[off + 1] as u64;
    let b2 = data[off + 2] as u64;
    let b3 = data[off + 3] as u64;
    let b4 = data[off + 4] as u64;
    let b5 = data[off + 5] as u64;
    let b6 = data[off + 6] as u64;
    let b7 = data[off + 7] as u64;
    b0 + 256 * (b1 + 256 * (b2 + 256 * (b3 + 256 * (b4 + 256 * (b5 + 256 * (b6 + 256
        * b7))))))
}

} // verus!

verus! {

/// Copies the 32 hash bytes that start at `off`.
pub fn read_hash(data: &[u8], off: usize) -> (h: [u8; 32])
    requires
        off + HASH_BYTES <= data.len(),
    ensures
        h@ == data@.subrange(off as int, off + HASH_BYTES),
{
    let mut h = [0u8; 32];
    let mut k: usize = 0;
    while k < HASH_BYTES
        invariant
            k <= HASH_BYTES,
            off + HASH_BYTES <= data.len(),
            forall|j: int| 0 <= j < k ==> h@[j] == data@[off + j],
        decreases HASH_BYTES - k,
    {
        h[k] = data[off + k];
        k = k + 1;
    }
    assert(h@ =~= data@.subrange(off as int, off + HASH_BYTES));
    h
}

/// Reads the slot of record `index`.
pub fn read_slot(data: &[u8], index: usize) -> (r: Slot)
    requires
        entry_offset(index as int) + ENTRY_SIZE <= data.len(),
    ensures
        r as int == slot_at(data@, index as int),
{
    read_u64_le(data, NUM_ENTRIES_SIZE + ENTRY_SIZE * index)
}

/// Decodes record `index`, which must lie wholly inside `data`.
pub fn decode_entry(data: &[u8], index: usize) -> (e: SlotHashEntry)
    requires
        entry_offset(index as int) + ENTRY_SIZE <= data.len(),
    ensures
        e.decodes(data@, index as int),
{
    let off = NUM_ENTRIES_SIZE + ENTRY_SIZE * index;
    let slot = read_u64_le(data, off);
    let hash = read_hash(data, off + SLOT_SIZE);
    SlotHashEntry { slot, hash }
}

} // verus!

verus! {

/// `r` answers a hash lookup of `target` among the first `n` records: the
/// hash of a record that holds it, or `None` when no record holds it.
pub open spec fn is_hash_lookup(s: Seq<u8>, n: int, target: int, r: Option<[u8; 32]>) -> bool {
    match r {
        Some(h) => exists|i: int|
            0 <= i < n && #[trigger] slot_at(s, i) == target && h@ == hash_at(s, i),
        None => absent(s, n, target),
    }
}

/// Copies the hash of record `index`.
pub fn read_entry_hash(data: &[u8], index: usize) -> (h: [u8; 32])
    requires
        entry_offset(index as int) + ENTRY_SIZE <= data.len(),
    ensures
        h@ == hash_at(data@, index as int),
{
    read_hash(data, NUM_ENTRIES_SIZE + ENTRY_SIZE * index + SLOT_SIZE)
}

} // verus!
