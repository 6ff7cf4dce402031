//! The program with the full instruction set: checked, unchecked and naive
//! ledger lookups, besides the baseline instructions.
pub mod instruction;
pub mod processor;
