//! A slot-indexed hash ledger: a length-prefixed table of `(slot, hash)`
//! records, kept in strictly descending slot order inside a raw byte buffer,
//! with checked and unchecked accessors and three search strategies, and the
//! instruction processors of the programs built on it.

pub mod account;
pub mod error;
pub mod layout;
pub mod lite;
pub mod program;
pub mod reader;
pub mod sdk;
pub mod search;
pub mod unchecked;
