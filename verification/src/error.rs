//! The flat error taxonomy shared by every operation.

use vstd::prelude::*;

verus! {

/// Why an operation was rejected. A rejected operation leaves every record
/// it was given exactly as it found it.
#[derive(Clone, Copy, Debug, PartialEq, Eq, Structural)]
pub enum VaultError {
    DepositBelowMinimum,
    VaultCapacityReached,
    InsufficientShares,
    InvalidFeeConfiguration,
    AdapterAlreadyInitialized,
    MaxAdaptersReached,
    InvalidProtocolType,
    AllocationExceedsMaximum,
    InsufficientLiquidity,
    RebalancingCooldownActive,
    NoYieldImprovement,
    Unauthorized,
    MathOverflow,
    InvalidTokenMint,
    VaultPaused,
    EmergencyWithdrawUnauthorized,
    InvalidWithdrawalAmount,
    AdapterNotFound,
    RebalancingFailed,
}

} // verus!
