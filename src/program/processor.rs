//! The processors of the full instruction set and the dispatch over them.
//! Processors that need the system program return the call for the host to
//! make; lookups over a trusted capacity return what they found.
use vstd::prelude::*;

use crate::account::{is_ledger_key, is_slot_hashes_key, AccountView, SystemCall};
use crate::error::{ProgramError, ProgramResult};
use crate::layout::{
    absent, declared_count, entry_offset, is_hash_lookup, is_position, slot_at,
    strictly_descending, table_fits, Slot, ENTRY_SIZE, MAX_ENTRIES,
};
use crate::program::instruction::{decode, Instruction};
use crate::reader::{validation, SlotHashes};
use crate::search::position_naive;
use crate::unchecked;

verus! {

/// Lamports that a created account receives.
pub const CREATE_ACCOUNT_LAMPORTS: u64 = 500_000_000;

/// Data bytes that a created account receives.
pub const CREATE_ACCOUNT_SPACE: u64 = 10;

/// Lamports that a transfer moves.
pub const TRANSFER_LAMPORTS: u64 = 1_000_000_000;

/// Which unchecked lookup a report comes from.
#[derive(Clone, Copy, Debug, PartialEq, Eq, Structural)]
pub enum SearchKind {
    /// Hash lookup by midpoint binary search.
    GetHash,
    /// Position lookup by midpoint binary search.
    Position,
    /// Position lookup by naive bisection.
    Naive,
}

/// What is left for the host once an instruction has been processed.
#[derive(Clone, Copy, Debug, PartialEq, Eq, Structural)]
pub enum Action {
    /// Nothing.
    Done,
    /// Make this call into the system program.
    Invoke(SystemCall),
    /// Report whether a lookup found its target.
    Report { search: SearchKind, found: bool },
}

/// The outcome of opening the first account as the ledger.
pub open spec fn ledger_check(accounts: Seq<AccountView>) -> ProgramResult {
    if accounts.len() == 0 {
        Err(ProgramError::NotEnoughAccountKeys)
    } else if !is_ledger_key(accounts[0].key@) {
        Err(ProgramError::InvalidArgument)
    } else {
        match validation(accounts[0].data@) {
            Ok(_) => Ok(()),
            Err(e) => Err(e),
        }
    }
}

/// The system call that creating an account over `n` accounts asks for.
pub open spec fn create_account_call(n: int) -> Result<SystemCall, ProgramError> {
    if n < 2 {
        Err(ProgramError::InvalidArgument)
    } else {
        Ok(
            SystemCall::CreateAccount {
                from: 0,
                to: 1,
                lamports: CREATE_ACCOUNT_LAMPORTS,
                space: CREATE_ACCOUNT_SPACE,
            },
        )
    }
}

/// The system call that a transfer over `n` accounts asks for.
pub open spec fn transfer_call(n: int) -> Result<SystemCall, ProgramError> {
    if n < 2 {
        Err(ProgramError::InvalidArgument)
    } else {
        Ok(SystemCall::Transfer { from: 0, to: 1, lamports: TRANSFER_LAMPORTS })
    }
}

/// The first account holds a whole table of `MAX_ENTRIES` records.
pub open spec fn holds_full_table(accounts: Seq<AccountView>) -> bool {
    accounts.len() >= 1 && table_fits(accounts[0].data@, MAX_ENTRIES as int)
}

/// The first account holds record 0.
pub open spec fn holds_first_entry(accounts: Seq<AccountView>) -> bool {
    accounts.len() >= 1 && entry_offset(0) + ENTRY_SIZE <= accounts[0].data@.len()
}

/// Does nothing, successfully.
pub fn process_ping() -> (r: ProgramResult)
    ensures
        r == Ok::<(), ProgramError>(()),
{
    Ok(())
}

/// Does nothing, successfully.
pub fn process_log() -> (r: ProgramResult)
    ensures
        r == Ok::<(), ProgramError>(()),
{
    Ok(())
}

/// Succeeds when exactly `expected` accounts were passed.
pub fn process_account(accounts: &[AccountView], expected: u64) -> (r: ProgramResult)
    ensures
        r == if accounts@.len() == expected {
            Ok::<(), ProgramError>(())
        } else {
            Err(ProgramError::InvalidArgument)
        },
{
    if accounts.len() as u64 == expected {
        Ok(())
    } else {
        Err(ProgramError::InvalidArgument)
    }
}

/// Asks to create the second account, paid for by the first.
pub fn process_create_account(accounts: &[AccountView]) -> (r: Result<SystemCall, ProgramError>)
    ensures
        r == create_account_call(accounts@.len() as int),
{
    if accounts.len() < 2 {
        return Err(ProgramError::InvalidArgument);
    }
    Ok(
        SystemCall::CreateAccount {
            from: 0,
            to: 1,
            lamports: CREATE_ACCOUNT_LAMPORTS,
            space: CREATE_ACCOUNT_SPACE,
        },
    )
}

/// Asks to move lamports from the first account to the second.
pub fn process_transfer(accounts: &[AccountView]) -> (r: Result<SystemCall, ProgramError>)
    ensures
        r == transfer_call(accounts@.len() as int),
{
    if accounts.len() < 2 {
        return Err(ProgramError::InvalidArgument);
    }
    Ok(SystemCall::Transfer { from: 0, to: 1, lamports: TRANSFER_LAMPORTS })
}

/// Opens the first account as a validated ledger.
fn open_ledger<'a>(accounts: &[AccountView<'a>]) -> (r: Result<SlotHashes<'a>, ProgramError>)
    ensures
        match ledger_check(accounts@) {
            Ok(_) => r matches Ok(v) && v.bytes() == accounts@[0].data@ && v.count()
                == declared_count(accounts@[0].data@),
            Err(e) => r is Err && r->Err_0 == e,
        },
{
    if accounts.len() == 0 {
        return Err(ProgramError::NotEnoughAccountKeys);
    }
    let account = &accounts[0];
    if !is_slot_hashes_key(&account.key) {
        return Err(ProgramError::InvalidArgument);
    }
    SlotHashes::new(account.data)
}

/// Opens the ledger and reads its first record.
pub fn process_slot_hashes_get_entry(accounts: &[AccountView]) -> (r: ProgramResult)
    ensures
        r == ledger_check(accounts@),
{
    match open_ledger(accounts) {
        Ok(slot_hashes) => {
            let _ = slot_hashes.get_entry(0);
            Ok(())
        },
        Err(e) => Err(e),
    }
}

/// Opens the ledger and looks up the hash of slot 0 by interpolation search.
pub fn process_slot_hashes_get_hash_interpolated(accounts: &[AccountView]) -> (r: ProgramResult)
    ensures
        r == ledger_check(accounts@),
{
    match open_ledger(accounts) {
        Ok(slot_hashes) => {
            let _ = slot_hashes.get_hash(0);
            Ok(())
        },
        Err(e) => Err(e),
    }
}

/// Opens the ledger and looks up the position of slot 0 by interpolation
/// search.
pub fn process_slot_hashes_position_interpolated(accounts: &[AccountView]) -> (r: ProgramResult)
    ensures
        r == ledger_check(accounts@),
{
    match open_ledger(accounts) {
        Ok(slot_hashes) => {
            let _ = slot_hashes.position(0);
            Ok(())
        },
        Err(e) => Err(e),
    }
}

/// Reads the first record of the first account without validating it.
pub fn process_slot_hashes_get_entry_unchecked(accounts: &[AccountView]) -> (r: ProgramResult)
    requires
        holds_first_entry(accounts@),
    ensures
        r == Ok::<(), ProgramError>(()),
{
    let _entry = unchecked::get_entry(accounts[0].data, 0);
    Ok(())
}

/// Looks up the hash of slot 0 among `MAX_ENTRIES` records of the first
/// account, trusting that it holds them.
pub fn process_slot_hashes_get_hash_interpolated_unchecked(
    accounts: &[AccountView],
) -> (r: Option<[u8; 32]>)
    requires
        holds_full_table(accounts@),
    ensures
        r is Some ==> is_hash_lookup(accounts@[0].data@, MAX_ENTRIES as int, 0, r),
        strictly_descending(accounts@[0].data@, MAX_ENTRIES as int) ==> is_hash_lookup(
            accounts@[0].data@,
            MAX_ENTRIES as int,
            0,
            r,
        ),
{
    unchecked::get_hash(accounts[0].data, 0, MAX_ENTRIES)
}

/// Looks up the position of `target_slot` among `MAX_ENTRIES` records of
/// the first account by midpoint binary search, trusting that it holds them.
pub fn process_slot_hashes_position_interpolated_unchecked(
    accounts: &[AccountView],
    target_slot: Slot,
) -> (r: Option<usize>)
    requires
        holds_full_table(accounts@),
    ensures
        r matches Some(i) ==> i < MAX_ENTRIES && slot_at(accounts@[0].data@, i as int)
            == target_slot,
        strictly_descending(accounts@[0].data@, MAX_ENTRIES as int) ==> is_position(
            accounts@[0].data@,
            MAX_ENTRIES as int,
            target_slot as int,
            r,
        ),
{
    unchecked::position(accounts[0].data, target_slot, MAX_ENTRIES)
}

/// Looks up the position of `target_slot` among `MAX_ENTRIES` records of
/// the first account by naive bisection, trusting that it holds them.
pub fn process_slot_hashes_position_naive_unchecked(
    accounts: &[AccountView],
    target_slot: Slot,
) -> (r: Option<usize>)
    requires
        holds_full_table(accounts@),
    ensures
        r matches Some(i) ==> i < MAX_ENTRIES && slot_at(accounts@[0].data@, i as int)
            == target_slot,
        strictly_descending(accounts@[0].data@, MAX_ENTRIES as int) ==> is_position(
            accounts@[0].data@,
            MAX_ENTRIES as int,
            target_slot as int,
            r,
        ),
{
    position_naive(accounts[0].data, MAX_ENTRIES, target_slot)
}

/// The accounts hold what the unchecked instruction `ins` reads.
pub open spec fn unchecked_ready(accounts: Seq<AccountView>, ins: Instruction) -> bool {
    match ins {
        Instruction::SlotHashesGetEntryUnchecked => holds_first_entry(accounts),
        Instruction::SlotHashesGetHashInterpolatedUnchecked => holds_full_table(accounts),
        Instruction::SlotHashesPositionInterpolatedUnchecked { .. } => holds_full_table(accounts),
        Instruction::SlotHashesPositionNaiveUnchecked { .. } => holds_full_table(accounts),
        _ => true,
    }
}

/// `found` reports on `target` among the `MAX_ENTRIES` records of the first
/// account: found means present, and on a strictly descending table absent
/// means not found.
pub open spec fn reports_presence(accounts: Seq<AccountView>, target: int, found: bool) -> bool {
    &&& found ==> !absent(accounts[0].data@, MAX_ENTRIES as int, target)
    &&& strictly_descending(accounts[0].data@, MAX_ENTRIES as int) ==> found == !absent(
        accounts[0].data@,
        MAX_ENTRIES as int,
        target,
    )
}

/// `r` is a report of the lookup `search` on `target`.
pub open spec fn is_report(
    accounts: Seq<AccountView>,
    search: SearchKind,
    target: int,
    r: Result<Action, ProgramError>,
) -> bool {
    r matches Ok(Action::Report { search: k, found }) && k == search && reports_presence(
        accounts,
        target,
        found,
    )
}

/// What processing `ins` over `accounts` yields.
pub open spec fn instruction_outcome(
    accounts: Seq<AccountView>,
    ins: Instruction,
    r: Result<Action, ProgramError>,
) -> bool {
    match ins {
        Instruction::Ping => r == Ok::<Action, ProgramError>(Action::Done),
        Instruction::Log => r == Ok::<Action, ProgramError>(Action::Done),
        Instruction::Account { expected } => r == if accounts.len() == expected {
            Ok::<Action, ProgramError>(Action::Done)
        } else {
            Err(ProgramError::InvalidArgument)
        },
        Instruction::CreateAccount => r == match create_account_call(accounts.len() as int) {
            Ok(c) => Ok::<Action, ProgramError>(Action::Invoke(c)),
            Err(e) => Err(e),
        },
        Instruction::Transfer => r == match transfer_call(accounts.len() as int) {
            Ok(c) => Ok::<Action, ProgramError>(Action::Invoke(c)),
            Err(e) => Err(e),
        },
        Instruction::SlotHashesGetEntry
        | Instruction::SlotHashesGetHashInterpolated
        | Instruction::SlotHashesPositionInterpolated => r == match ledger_check(accounts) {
            Ok(_) => Ok::<Action, ProgramError>(Action::Done),
            Err(e) => Err(e),
        },
        Instruction::SlotHashesGetEntryUnchecked => r == Ok::<Action, ProgramError>(Action::Done),
        Instruction::SlotHashesGetHashInterpolatedUnchecked => is_report(
            accounts,
            SearchKind::GetHash,
            0,
            r,
        ),
        Instruction::SlotHashesPositionInterpolatedUnchecked { target_slot } => is_report(
            accounts,
            SearchKind::Position,
            target_slot as int,
            r,
        ),
        Instruction::SlotHashesPositionNaiveUnchecked { target_slot } => is_report(
            accounts,
            SearchKind::Naive,
            target_slot as int,
            r,
        ),
    }
}

/// The action of a processor that only succeeds or fails.
fn action_of(r: ProgramResult) -> (a: Result<Action, ProgramError>)
    ensures
        a == match r {
            Ok(_) => Ok::<Action, ProgramError>(Action::Done),
            Err(e) => Err(e),
        },
{
    match r {
        Ok(()) => Ok(Action::Done),
        Err(e) => Err(e),
    }
}

/// The action of a processor that asks for a system call.
fn invoke_of(r: Result<SystemCall, ProgramError>) -> (a: Result<Action, ProgramError>)
    ensures
        a == match r {
            Ok(c) => Ok::<Action, ProgramError>(Action::Invoke(c)),
            Err(e) => Err(e),
        },
{
    match r {
        Ok(c) => Ok(Action::Invoke(c)),
        Err(e) => Err(e),
    }
}

/// Unpacks `instruction_data` and runs the instruction that it names over
/// `accounts`. An unchecked instruction trusts that the first account holds
/// what it reads.
pub fn process_instruction(
    _program_id: &[u8; 32],
    accounts: &[AccountView],
    instruction_data: &[u8],
) -> (r: Result<Action, ProgramError>)
    requires
        decode(instruction_data@) matches Some(ins) ==> unchecked_ready(accounts@, ins),
    ensures
        decode(instruction_data@) is None ==> r == Err::<Action, ProgramError>(
            ProgramError::InvalidInstructionData,
        ),
        decode(instruction_data@) matches Some(ins) ==> instruction_outcome(accounts@, ins, r),
{
    let instruction = match Instruction::unpack(instruction_data) {
        Ok(i) => i,
        Err(e) => {
            return Err(e);
        },
    };
    match instruction {
        Instruction::Ping => action_of(process_ping()),
        Instruction::Log => action_of(process_log()),
        Instruction::Account { expected } => action_of(process_account(accounts, expected)),
        Instruction::CreateAccount => invoke_of(process_create_account(accounts)),
        Instruction::Transfer => invoke_of(process_transfer(accounts)),
        Instruction::SlotHashesGetEntry => action_of(process_slot_hashes_get_entry(accounts)),
        Instruction::SlotHashesGetHashInterpolated => action_of(
            process_slot_hashes_get_hash_interpolated(accounts),
        ),
        Instruction::SlotHashesPositionInterpolated => action_of(
            process_slot_hashes_position_interpolated(accounts),
        ),
        Instruction::SlotHashesGetEntryUnchecked => action_of(
            process_slot_hashes_get_entry_unchecked(accounts),
        ),
        Instruction::SlotHashesGetHashInterpolatedUnchecked => {
            let hash = process_slot_hashes_get_hash_interpolated_unchecked(accounts);
            Ok(Action::Report { search: SearchKind::GetHash, found: hash.is_some() })
        },
        Instruction::SlotHashesPositionInterpolatedUnchecked { target_slot } => {
            let position = process_slot_hashes_position_interpolated_unchecked(
                accounts,
                target_slot,
            );
            proof {
                if let Some(i) = position {
                    assert(slot_at(accounts@[0].data@, i as int) == target_slot);
                }
            }
            Ok(Action::Report { search: SearchKind::Position, found: position.is_some() })
        },
        Instruction::SlotHashesPositionNaiveUnchecked { target_slot } => {
            let position = process_slot_hashes_position_naive_unchecked(accounts, target_slot);
            proof {
                if let Some(i) = position {
                    assert(slot_at(accounts@[0].data@, i as int) == target_slot);
                }
            }
            Ok(Action::Report { search: SearchKind::Naive, found: position.is_some() })
        },
    }
}

} // verus!
