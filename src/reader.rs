//! Validation of a ledger buffer and the checked accessors over it.
use vstd::prelude::*;

use crate::error::ProgramError;
use crate::layout::{
    declared_count, decode_entry, hash_at, is_hash_lookup, is_position, read_entry_hash,
    read_u64_le, slot_at, strictly_descending, table_end, table_fits, Slot, SlotHashEntry, ENTRY_SIZE,
    NUM_ENTRIES_SIZE,
};
use crate::search::{binary_search, lemma_search_result_position, position_interpolated};

verus! {

/// Where the record table of a validated buffer lies.
#[derive(Clone, Copy, Debug, PartialEq, Eq)]
pub struct TableBounds {
    /// The declared number of records.
    pub entry_count: u64,
    /// Offset of the first record.
    pub start: usize,
    /// Offset just past the last record.
    pub end: usize,
}

/// What validation of `s` yields: the buffer must hold the prefix, the table
/// size must fit the address space, and the buffer must hold the table.
pub open spec fn validation(s: Seq<u8>) -> Result<TableBounds, ProgramError> {
    if s.len() < NUM_ENTRIES_SIZE {
        Err(ProgramError::AccountDataTooSmall)
    } else if table_end(declared_count(s)) > usize::MAX {
        Err(ProgramError::ArithmeticOverflow)
    } else if s.len() < table_end(declared_count(s)) {
        Err(ProgramError::AccountDataTooSmall)
    } else {
        Ok(
            TableBounds {
                entry_count: declared_count(s) as u64,
                start: NUM_ENTRIES_SIZE,
                end: table_end(declared_count(s)) as usize,
            },
        )
    }
}

/// Reads the length prefix and checks that the buffer holds the whole table.
pub fn read_table_bounds(data: &[u8]) -> (r: Result<TableBounds, ProgramError>)
    ensures
        r == validation(data@),
{
    if data.len() < NUM_ENTRIES_SIZE {
        return Err(ProgramError::AccountDataTooSmall);
    }
    let entry_count = read_u64_le(data, 0);
    if entry_count > usize::MAX as u64 {
        return Err(ProgramError::ArithmeticOverflow);
    }
    let count = entry_count as usize;
    let table_size = match count.checked_mul(ENTRY_SIZE) {
        Some(v) => v,
        None => {
            return Err(ProgramError::ArithmeticOverflow);
        },
    };
    let end = match NUM_ENTRIES_SIZE.checked_add(table_size) {
        Some(v) => v,
        None => {
            return Err(ProgramError::ArithmeticOverflow);
        },
    };
    if data.len() < end {
        return Err(ProgramError::AccountDataTooSmall);
    }
    Ok(TableBounds { entry_count, start: NUM_ENTRIES_SIZE, end })
}

/// A validated view of a ledger buffer: the buffer holds every record that
/// its prefix declares.
pub struct SlotHashes<'a> {
    data: &'a [u8],
    len: usize,
}

impl<'a> SlotHashes<'a> {
    #[verifier::type_invariant]
    spec fn inv(&self) -> bool {
        &&& self.data@.len() >= NUM_ENTRIES_SIZE
        &&& self.len as int == declared_count(self.data@)
        &&& table_fits(self.data@, self.len as int)
    }

    /// The bytes of the buffer.
    pub closed spec fn bytes(&self) -> Seq<u8> {
        self.data@
    }

    /// The number of records.
    pub closed spec fn count(&self) -> int {
        self.len as int
    }

    /// Validates `data` as a ledger buffer.
    pub fn new(data: &'a [u8]) -> (r: Result<Self, ProgramError>)
        ensures
            match validation(data@) {
                Ok(_) => r matches Ok(v) && v.bytes() == data@ && v.count() == declared_count(data@),
                Err(e) => r == Err::<Self, ProgramError>(e),
            },
    {
        match read_table_bounds(data) {
            Ok(bounds) => Ok(SlotHashes { data, len: bounds.entry_count as usize }),
            Err(e) => Err(e),
        }
    }

    /// The number of records.
    pub fn len(&self) -> (r: usize)
        ensures
            r == self.count(),
    {
        self.len
    }

    /// Whether the table holds no record.
    pub fn is_empty(&self) -> (r: bool)
        ensures
            r == (self.count() == 0),
    {
        self.len == 0
    }

    /// Record `index`, or `None` past the last record.
    pub fn get_entry(&self, index: usize) -> (r: Option<SlotHashEntry>)
        ensures
            self.count() == 0 ==> r is None,
            index >= self.count() ==> r is None,
            index < self.count() ==> (r matches Some(e) && e.decodes(self.bytes(), index as int)),
    {
        proof {
            use_type_invariant(self);
        }
        if index >= self.len {
            return None;
        }
        Some(decode_entry(self.data, index))
    }

    /// The index of the record that holds `target`, by interpolation search.
    pub fn position(&self, target: Slot) -> (r: Option<usize>)
        ensures
            self.count() == 0 ==> r is None,
            r matches Some(i) ==> i < self.count() && slot_at(self.bytes(), i as int) == target,
            strictly_descending(self.bytes(), self.count()) ==> is_position(
                self.bytes(),
                self.count(),
                target as int,
                r,
            ),
    {
        proof {
            use_type_invariant(self);
        }
        if self.len == 0 {
            return None;
        }
        position_interpolated(self.data, self.len, target)
    }

    /// The index of the record that holds `target`, by midpoint binary search.
    pub fn position_midpoint(&self, target: Slot) -> (r: Option<usize>)
        ensures
            self.count() == 0 ==> r is None,
            r matches Some(i) ==> i < self.count() && slot_at(self.bytes(), i as int) == target,
            strictly_descending(self.bytes(), self.count()) ==> is_position(
                self.bytes(),
                self.count(),
                target as int,
                r,
            ),
    {
        proof {
            use_type_invariant(self);
        }
        if self.len == 0 {
            return None;
        }
        let r = binary_search(self.data, self.len, target);
        proof {
            if strictly_descending(self.data@, self.len as int) {
                lemma_search_result_position(self.data@, self.len as int, target as int, r);
            }
        }
        match r {
            Ok(i) => Some(i),
            Err(_) => None,
        }
    }

    /// The hash of the record at `position`, found for `target`.
    fn hash_for(&self, target: Slot, position: Option<usize>) -> (r: Option<[u8; 32]>)
        requires
            position matches Some(i) ==> i < self.count() && slot_at(self.bytes(), i as int) == target,
        ensures
            r matches Some(h) ==> is_hash_lookup(self.bytes(), self.count(), target as int, r),
            r is None <==> position is None,
    {
        proof {
            use_type_invariant(self);
        }
        match position {
            Some(i) => {
                let h = read_entry_hash(self.data, i);
                proof {
                    assert(slot_at(self.data@, i as int) == target && h@ == hash_at(self.data@, i as int));
                }
                Some(h)
            },
            None => None,
        }
    }

    /// The hash of the record that holds `target`, by interpolation search.
    pub fn get_hash(&self, target: Slot) -> (r: Option<[u8; 32]>)
        ensures
            self.count() == 0 ==> r is None,
            r is Some ==> is_hash_lookup(self.bytes(), self.count(), target as int, r),
            strictly_descending(self.bytes(), self.count()) ==> is_hash_lookup(
                self.bytes(),
                self.count(),
                target as int,
                r,
            ),
    {
        let position = self.position(target);
        self.hash_for(target, position)
    }

    /// The hash of the record that holds `target`, by midpoint binary search.
    pub fn get_hash_midpoint(&self, target: Slot) -> (r: Option<[u8; 32]>)
        ensures
            self.count() == 0 ==> r is None,
            r is Some ==> is_hash_lookup(self.bytes(), self.count(), target as int, r),
            strictly_descending(self.bytes(), self.count()) ==> is_hash_lookup(
                self.bytes(),
                self.count(),
                target as int,
                r,
            ),
    {
        let position = self.position_midpoint(target);
        self.hash_for(target, position)
    }
}

/// Validates `data` and reads record `index`: `Ok(None)` past the last
/// record.
pub fn get_entry(data: &[u8], index: usize) -> (r: Result<Option<SlotHashEntry>, ProgramError>)
    ensures
        match validation(data@) {
            Ok(_) => r matches Ok(e) && if index < declared_count(data@) {
                e matches Some(entry) && entry.decodes(data@, index as int)
            } else {
                e is None
            },
            Err(err) => r == Err::<Option<SlotHashEntry>, ProgramError>(err),
        },
{
    match SlotHashes::new(data) {
        Ok(slot_hashes) => Ok(slot_hashes.get_entry(index)),
        Err(e) => Err(e),
    }
}

/// Validates `data` and finds the index of the record that holds `target`,
/// by interpolation search.
pub fn position(data: &[u8], target: Slot) -> (r: Result<Option<usize>, ProgramError>)
    ensures
        match validation(data@) {
            Ok(_) => r matches Ok(p) && (p matches Some(i) ==> i < declared_count(data@)
                && slot_at(data@, i as int) == target) && (strictly_descending(
                data@,
                declared_count(data@),
            ) ==> is_position(data@, declared_count(data@), target as int, p)),
            Err(err) => r == Err::<Option<usize>, ProgramError>(err),
        },
{
    match SlotHashes::new(data) {
        Ok(slot_hashes) => Ok(slot_hashes.position(target)),
        Err(e) => Err(e),
    }
}

/// Validates `data` and finds the hash of the record that holds `target`,
/// by interpolation search.
pub fn get_hash(data: &[u8], target: Slot) -> (r: Result<Option<[u8; 32]>, ProgramError>)
    ensures
        match validation(data@) {
            Ok(_) => r matches Ok(h) && (h is Some ==> is_hash_lookup(
                data@,
                declared_count(data@),
                target as int,
                h,
            )) && (strictly_descending(data@, declared_count(data@)) ==> is_hash_lookup(
                data@,
                declared_count(data@),
                target as int,
                h,
            )),
            Err(err) => r == Err::<Option<[u8; 32]>, ProgramError>(err),
        },
{
    match SlotHashes::new(data) {
        Ok(slot_hashes) => Ok(slot_hashes.get_hash(target)),
        Err(e) => Err(e),
    }
}

/// A buffer shorter than its declared table is refused as too small,
/// unless the declared table does not even fit the address space.
pub proof fn lemma_truncated_rejected(s: Seq<u8>)
    requires
        s.len() < NUM_ENTRIES_SIZE || (table_end(declared_count(s)) <= usize::MAX && s.len()
            < table_end(declared_count(s))),
    ensures
        validation(s) == Err::<TableBounds, ProgramError>(ProgramError::AccountDataTooSmall),
{
}

} // verus!
