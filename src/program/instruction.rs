//! The instruction set and its wire format: a tag byte, followed by a
//! little-endian `u64` argument for the instructions that take one.
use vstd::prelude::*;

use crate::error::ProgramError;
use crate::layout::{le_u64_at, read_u64_le, Slot};

verus! {

/// An instruction of the full set, as its tag byte names it.
#[derive(Clone, Copy, Debug, PartialEq, Eq)]
pub enum Instruction {
    Ping,
    Log,
    Account { expected: u64 },
    CreateAccount,
    Transfer,
    SlotHashesGetEntry,
    SlotHashesGetHashInterpolated,
    SlotHashesPositionInterpolated,
    SlotHashesGetEntryUnchecked,
    SlotHashesGetHashInterpolatedUnchecked,
    SlotHashesPositionInterpolatedUnchecked { target_slot: Slot },
    SlotHashesPositionNaiveUnchecked { target_slot: Slot },
}

/// The instruction that the bytes `s` encode, if any.
pub open spec fn decode(s: Seq<u8>) -> Option<Instruction> {
    if s.len() == 1 {
        if s[0] == 0 {
            Some(Instruction::Ping)
        } else if s[0] == 1 {
            Some(Instruction::Log)
        } else if s[0] == 3 {
            Some(Instruction::CreateAccount)
        } else if s[0] == 4 {
            Some(Instruction::Transfer)
        } else if s[0] == 5 {
            Some(Instruction::SlotHashesGetEntry)
        } else if s[0] == 6 {
            Some(Instruction::SlotHashesGetHashInterpolated)
        } else if s[0] == 7 {
            Some(Instruction::SlotHashesPositionInterpolated)
        } else if s[0] == 8 {
            Some(Instruction::SlotHashesGetEntryUnchecked)
        } else if s[0] == 9 {
            Some(Instruction::SlotHashesGetHashInterpolatedUnchecked)
        } else {
            None
        }
    } else if s.len() == 9 {
        let arg = le_u64_at(s, 1) as u64;
        if s[0] == 2 {
            Some(Instruction::Account { expected: arg })
        } else if s[0] == 10 {
            Some(Instruction::SlotHashesPositionInterpolatedUnchecked { target_slot: arg })
        } else if s[0] == 11 {
            Some(Instruction::SlotHashesPositionNaiveUnchecked { target_slot: arg })
        } else {
            None
        }
    } else {
        None
    }
}

impl Instruction {
    /// Unpacks an instruction from its wire bytes.
    pub fn unpack(input: &[u8]) -> (r: Result<Self, ProgramError>)
        ensures
            r == match decode(input@) {
                Some(i) => Ok(i),
                None => Err(ProgramError::InvalidInstructionData),
            },
    {
        if input.len() == 1 {
            match input[0] {
                0 => Ok(Instruction::Ping),
                1 => Ok(Instruction::Log),
                3 => Ok(Instruction::CreateAccount),
                4 => Ok(Instruction::Transfer),
                5 => Ok(Instruction::SlotHashesGetEntry),
                6 => Ok(Instruction::SlotHashesGetHashInterpolated),
                7 => Ok(Instruction::SlotHashesPositionInterpolated),
                8 => Ok(Instruction::SlotHashesGetEntryUnchecked),
                9 => Ok(Instruction::SlotHashesGetHashInterpolatedUnchecked),
                _ => Err(ProgramError::InvalidInstructionData),
            }
        } else if input.len() == 9 {
            let arg = read_u64_le(input, 1);
            match input[0] {
                2 => Ok(Instruction::Account { expected: arg }),
                10 => Ok(Instruction::SlotHashesPositionInterpolatedUnchecked { target_slot: arg }),
                11 => Ok(Instruction::SlotHashesPositionNaiveUnchecked { target_slot: arg }),
                _ => Err(ProgramError::InvalidInstructionData),
            }
        } else {
            Err(ProgramError::InvalidInstructionData)
        }
    }
}

} // verus!
