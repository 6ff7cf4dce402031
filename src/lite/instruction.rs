//! The compact instruction set: a tag byte, followed by a little-endian
//! `u64` for the account count check.
use vstd::prelude::*;

use crate::error::ProgramError;
use crate::layout::{le_u64_at, read_u64_le};

verus! {

/// An instruction of the compact set, as its tag byte names it.
#[derive(Clone, Copy, Debug, PartialEq, Eq)]
pub enum Instruction {
    Ping,
    Log,
    Account { expected: u64 },
    CreateAccount,
    Transfer,
    SlotHashesGetEntry,
    SlotHashesGetHashInterpolated,
    SlotHashesPositionInterpolated,
}

/// The instruction that the bytes `s` encode, if any.
pub open spec fn decode(s: Seq<u8>) -> Option<Instruction> {
    if s.len() == 1 {
        if s[0] == 0 {
            Some(Instruction::Ping)
        } else if s[0] == 1 {
            Some(Instruction::Log)
        } else if s[0] == 3 {
            Some(Instruction::CreateAccount)
        } else if s[0] == 4 {
            Some(Instruction::Transfer)
        } else if s[0] == 5 {
            Some(Instruction::SlotHashesGetEntry)
        } else if s[0] == 6 {
            Some(Instruction::SlotHashesGetHashInterpolated)
        } else if s[0] == 7 {
            Some(Instruction::SlotHashesPositionInterpolated)
        } else {
            None
        }
    } else if s.len() == 9 && s[0] == 2 {
        Some(Instruction::Account { expected: le_u64_at(s, 1) as u64 })
    } else {
        None
    }
}

impl Instruction {
    /// Unpacks an instruction from its wire bytes.
    pub fn unpack(input: &[u8]) -> (r: Result<Self, ProgramError>)
        ensures
            r == match decode(input@) {
                Some(i) => Ok(i),
                None => Err(ProgramError::InvalidInstructionData),
            },
    {
        if input.len() == 1 {
            match input[0] {
                0 => Ok(Instruction::Ping),
                1 => Ok(Instruction::Log),
                3 => Ok(Instruction::CreateAccount),
                4 => Ok(Instruction::Transfer),
                5 => Ok(Instruction::SlotHashesGetEntry),
                6 => Ok(Instruction::SlotHashesGetHashInterpolated),
                7 => Ok(Instruction::SlotHashesPositionInterpolated),
                _ => Err(ProgramError::InvalidInstructionData),
            }
        } else if input.len() == 9 && input[0] == 2 {
            Ok(Instruction::Account { expected: read_u64_le(input, 1) })
        } else {
            Err(ProgramError::InvalidInstructionData)
        }
    }
}

} // verus!
