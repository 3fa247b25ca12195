//! Accounting and allocation-state engine of a pooled-deposit stablecoin vault.

pub mod address;
pub mod constants;
pub mod error;
pub mod instructions;
pub mod ledger;
pub mod pause;
pub mod state;
