//! A ledger of client accounts fed by a stream of deposits, withdrawals and
//! the dispute cycle that can follow a deposit.

pub mod types;
pub mod account;
pub mod engine;
pub mod record;
pub mod laws;
