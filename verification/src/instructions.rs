//! The operations of the engine, one module each. Every operation either
//! takes effect as a whole or fails and changes nothing.

pub mod compound_rewards;
pub mod deposit;
pub mod emergency_withdraw;
pub mod initialize_protocol_adapter;
pub mod initialize_vault;
pub mod rebalance;
pub mod update_vault_config;
pub mod update_yield_data;
pub mod withdraw;
