//! The records the engine keeps: the vault, its adapters, and each
//! depositor's position.

pub mod protocol_adapter;
pub mod registry;
pub mod user_account;
pub mod vault;

pub use protocol_adapter::{ProtocolAdapter, ProtocolType};
pub use registry::ProtocolAdapterRegistry;
pub use user_account::UserAccount;
pub use vault::{ProtocolAllocation, Vault};
