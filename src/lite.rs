//! The compact program: the baseline instructions and the checked ledger
//! lookups, answered by a midpoint binary search over the raw bytes.
pub mod instruction;
pub mod processor;
