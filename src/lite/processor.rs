//! The processors of the compact program. Each ledger lookup validates the
//! buffer and answers with a midpoint binary search over its records.
use vstd::prelude::*;

use crate::account::{is_ledger_key, is_slot_hashes_key, AccountView};
use crate::error::{ProgramError, ProgramResult};
use crate::layout::{declared_count, is_position, slot_at, strictly_descending, Slot};
use crate::reader::{read_table_bounds, validation};
use crate::search::{binary_search, lemma_search_result_position};

verus! {

/// What a pass over the ledger bytes is asked to do.
#[derive(Clone, Copy, Debug, PartialEq, Eq, Structural)]
pub enum SlotHashOp {
    /// Validate the buffer only.
    IsEmpty,
    /// Find the record of a slot, for its hash.
    GetHash(Slot),
    /// Find the record of a slot, for its position.
    GetPosition(Slot),
}

/// `p` answers `op` over the validated buffer `s`.
pub open spec fn answers(s: Seq<u8>, op: SlotHashOp, p: Option<usize>) -> bool {
    match op {
        SlotHashOp::IsEmpty => p is None,
        SlotHashOp::GetHash(t) | SlotHashOp::GetPosition(t) => {
            &&& p matches Some(i) ==> i < declared_count(s) && slot_at(s, i as int) == t
            &&& strictly_descending(s, declared_count(s)) ==> is_position(
                s,
                declared_count(s),
                t as int,
                p,
            )
        },
    }
}

/// The outcome of taking the first account as the ledger.
pub open spec fn ledger_check(accounts: Seq<AccountView>) -> ProgramResult {
    if accounts.len() == 0 || !is_ledger_key(accounts[0].key@) {
        Err(ProgramError::InvalidArgument)
    } else {
        match validation(accounts[0].data@) {
            Ok(_) => Ok(()),
            Err(e) => Err(e),
        }
    }
}

/// Does nothing, successfully.
pub fn process_ping() -> (r: ProgramResult)
    ensures
        r == Ok::<(), ProgramError>(()),
{
    Ok(())
}

/// Does nothing, successfully.
pub fn process_log() -> (r: ProgramResult)
    ensures
        r == Ok::<(), ProgramError>(()),
{
    Ok(())
}

/// Succeeds when exactly `expected` accounts were passed.
pub fn process_account(accounts: &[AccountView], expected: u64) -> (r: ProgramResult)
    ensures
        r == if accounts@.len() == expected {
            Ok::<(), ProgramError>(())
        } else {
            Err(ProgramError::InvalidArgument)
        },
{
    if accounts.len() as u64 == expected {
        Ok(())
    } else {
        Err(ProgramError::InvalidArgument)
    }
}

/// Validates the ledger bytes `data` and performs `op` on them.
pub fn process_slot_hashes_bytes(data: &[u8], operation: SlotHashOp) -> (r: Result<
    Option<usize>,
    ProgramError,
>)
    ensures
        match validation(data@) {
            Ok(_) => r matches Ok(p) && answers(data@, operation, p),
            Err(e) => r == Err::<Option<usize>, ProgramError>(e),
        },
{
    let bounds = match read_table_bounds(data) {
        Ok(b) => b,
        Err(e) => {
            return Err(e);
        },
    };
    let n = bounds.entry_count as usize;
    match operation {
        SlotHashOp::IsEmpty => Ok(None),
        SlotHashOp::GetHash(target_slot) | SlotHashOp::GetPosition(target_slot) => {
            let r = binary_search(data, n, target_slot);
            proof {
                if strictly_descending(data@, n as int) {
                    lemma_search_result_position(data@, n as int, target_slot as int, r);
                }
            }
            match r {
                Ok(i) => Ok(Some(i)),
                Err(_) => Ok(None),
            }
        },
    }
}

/// Runs `op` over the first account, which must be the ledger.
fn process_ledger(accounts: &[AccountView], operation: SlotHashOp) -> (r: ProgramResult)
    ensures
        r == ledger_check(accounts@),
{
    if accounts.len() == 0 || !is_slot_hashes_key(&accounts[0].key) {
        return Err(ProgramError::InvalidArgument);
    }
    match process_slot_hashes_bytes(accounts[0].data, operation) {
        Ok(_) => Ok(()),
        Err(e) => Err(e),
    }
}

/// Validates the ledger account.
pub fn process_slot_hashes_get_entry(accounts: &[AccountView]) -> (r: ProgramResult)
    ensures
        r == ledger_check(accounts@),
{
    process_ledger(accounts, SlotHashOp::IsEmpty)
}

/// Validates the ledger account and looks up slot 0 for its hash.
pub fn process_slot_hashes_get_hash_interpolated(accounts: &[AccountView]) -> (r: ProgramResult)
    ensures
        r == ledger_check(accounts@),
{
    process_ledger(accounts, SlotHashOp::GetHash(0))
}

/// Validates the ledger account and looks up the position of slot 0.
pub fn process_slot_hashes_position_interpolated(accounts: &[AccountView]) -> (r: ProgramResult)
    ensures
        r == ledger_check(accounts@),
{
    process_ledger(accounts, SlotHashOp::GetPosition(0))
}

} // verus!
