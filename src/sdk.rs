//! The SDK-style program: ledger lookups by a midpoint binary search over a
//! validated buffer, which reports an insertion point on a miss.
use vstd::prelude::*;

use crate::account::{is_ledger_key, is_slot_hashes_key, AccountView};
use crate::error::{ProgramError, ProgramResult};
use crate::layout::{declared_count, read_u64_le, slot_at, strictly_descending, Slot};
use crate::reader::{read_table_bounds, validation};
use crate::search::{binary_search, is_search_result};

verus! {

/// Midpoint binary search for `target_slot` over the records that the
/// prefix of `data` declares. `Ok` holds the index of the record with that
/// slot, `Err` the insertion point. A buffer that fails validation (too short
/// for its prefix or for its declared table) gives `Err(0)`.
pub fn manual_binary_search(data: &[u8], target_slot: Slot) -> (r: Result<usize, usize>)
    ensures
        validation(data@) is Err ==> r == Err::<usize, usize>(0),
        validation(data@) is Ok ==> {
            &&& r matches Ok(i) ==> i < declared_count(data@) && slot_at(data@, i as int)
                == target_slot
            &&& r matches Err(p) ==> p <= declared_count(data@)
            &&& strictly_descending(data@, declared_count(data@)) ==> is_search_result(
                data@,
                declared_count(data@),
                target_slot as int,
                r,
            )
        },
{
    match read_table_bounds(data) {
        Ok(bounds) => binary_search(data, bounds.entry_count as usize, target_slot),
        Err(_) => Err(0),
    }
}

/// The outcome of taking the first account as the ledger.
pub open spec fn ledger_check(accounts: Seq<AccountView>) -> ProgramResult {
    if accounts.len() == 0 {
        Err(ProgramError::NotEnoughAccountKeys)
    } else if !is_ledger_key(accounts[0].key@) {
        Err(ProgramError::IncorrectProgramId)
    } else {
        Ok(())
    }
}

/// The outcome of taking the first account as the ledger and validating its
/// buffer.
pub open spec fn ledger_outcome(accounts: Seq<AccountView>) -> ProgramResult {
    match ledger_check(accounts) {
        Ok(_) => match validation(accounts[0].data@) {
            Ok(_) => Ok(()),
            Err(e) => Err(e),
        },
        Err(e) => Err(e),
    }
}

/// Checks that the first account is the ledger and that its buffer holds
/// the table that its prefix declares.
fn open_ledger(accounts: &[AccountView]) -> (r: ProgramResult)
    ensures
        r == ledger_outcome(accounts@),
{
    if accounts.len() == 0 {
        return Err(ProgramError::NotEnoughAccountKeys);
    }
    if !is_slot_hashes_key(&accounts[0].key) {
        return Err(ProgramError::IncorrectProgramId);
    }
    match read_table_bounds(accounts[0].data) {
        Ok(_) => Ok(()),
        Err(e) => Err(e),
    }
}

/// Validates the ledger account and reads whether its table is empty.
pub fn process_slot_hashes_get_entry(accounts: &[AccountView]) -> (r: ProgramResult)
    ensures
        r == ledger_outcome(accounts@),
{
    match open_ledger(accounts) {
        Ok(()) => {},
        Err(e) => {
            return Err(e);
        },
    }
    let _is_empty = read_u64_le(accounts[0].data, 0) == 0;
    Ok(())
}

/// Validates the ledger account and searches it for slot 0.
pub fn process_slot_hashes_get_hash_interpolated(accounts: &[AccountView]) -> (r: ProgramResult)
    ensures
        r == ledger_outcome(accounts@),
{
    match open_ledger(accounts) {
        Ok(()) => {},
        Err(e) => {
            return Err(e);
        },
    }
    let _search_result = manual_binary_search(accounts[0].data, 0);
    Ok(())
}

/// Validates the ledger account and searches it for the position of slot 0.
pub fn process_slot_hashes_position_interpolated(accounts: &[AccountView]) -> (r: ProgramResult)
    ensures
        r == ledger_outcome(accounts@),
{
    match open_ledger(accounts) {
        Ok(()) => {},
        Err(e) => {
            return Err(e);
        },
    }
    let _search_result = manual_binary_search(accounts[0].data, 0);
    Ok(())
}

/// The hash lookup under its midpoint name.
pub fn process_slot_hashes_get_hash_midpoint(accounts: &[AccountView]) -> (r: ProgramResult)
    ensures
        r == ledger_outcome(accounts@),
{
    process_slot_hashes_get_hash_interpolated(accounts)
}

/// The position lookup under its midpoint name.
pub fn process_slot_hashes_position_midpoint(accounts: &[AccountView]) -> (r: ProgramResult)
    ensures
        r == ledger_outcome(accounts@),
{
    process_slot_hashes_position_interpolated(accounts)
}

} // verus!
