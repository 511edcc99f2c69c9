//! Lab-operations and proctored-assessment backend library.
//!
//! The heart of the crate is a permission-gated test-taking workflow: a
//! capability catalog with an access guard in front of every sensitive
//! operation, a registration ledger whose records move through the
//! milestones `registered -> opened -> submitted`, an exam engine that
//! samples and anonymizes questions, and a scoring engine that grades a
//! submission exactly once.  All of that state lives in plain data
//! structures here, so every rule is stated in a contract and proved;
//! the surrounding process persists the structures and speaks HTTP.

pub mod chemicals;
pub mod condense;
pub mod errors;
pub mod permissions;
pub mod search;
pub mod tests;
pub mod users;
