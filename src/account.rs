//! The accounts that the processors read, and the system calls that they
//! ask their host to make.
use vstd::prelude::*;

verus! {

/// The address of the slot hashes ledger account.
pub const SLOT_HASHES_ID: [u8; 32] = [
    6, 167, 213, 23, 25, 47, 10, 175, 198, 242, 101, 227, 251, 119, 204, 122, 218, 130, 197, 41,
    208, 190, 59, 19, 110, 45, 0, 85, 32, 0, 0, 0,
];

/// An account as the processors see it: its address and a borrow of its
/// data.
#[derive(Clone, Copy, Debug, PartialEq, Eq)]
pub struct AccountView<'a> {
    pub key: [u8; 32],
    pub data: &'a [u8],
}

/// A call into the system program that a processor asks for. `from` and
/// `to` index the accounts that the processor was given.
#[derive(Clone, Copy, Debug, PartialEq, Eq, Structural)]
pub enum SystemCall {
    /// Create the `to` account with `lamports` and `space` bytes, owned by
    /// the calling program, paid for by `from`.
    CreateAccount { from: usize, to: usize, lamports: u64, space: u64 },
    /// Move `lamports` from `from` to `to`.
    Transfer { from: usize, to: usize, lamports: u64 },
}

/// The account is the slot hashes ledger account.
pub open spec fn is_ledger_key(key: Seq<u8>) -> bool {
    key == SLOT_HASHES_ID@
}

/// Whether `key` is the address of the slot hashes ledger account.
pub fn is_slot_hashes_key(key: &[u8; 32]) -> (r: bool)
    ensures
        r == is_ledger_key(key@),
{
    let id = SLOT_HASHES_ID;
    let mut i: usize = 0;
    while i < 32
        invariant
            i <= 32,
            id@ == SLOT_HASHES_ID@,
            forall|j: int| 0 <= j < i ==> key@[j] == id@[j],
        decreases 32 - i,
    {
        if key[i] != id[i] {
            return false;
        }
        i = i + 1;
    }
    assert(key@ =~= id@);
    true
}

} // verus!
