//! A minimal state-transition function for a ledger-style runtime: a block
//! tracker, a ledger and a claims registry, composed under one runtime that
//! executes blocks of caller-attributed calls.

pub mod balances;
pub mod proof_of_existence;
pub mod runtime;
pub mod store;
pub mod support;
pub mod system;
