//! Fixed parameters of the vault engine.

use vstd::prelude::*;

verus! {

/// Largest number of protocol adapters a single vault may allocate to.
pub const MAX_PROTOCOL_ADAPTERS: usize = 10;

/// Decimal precision of the deposit asset.
pub const USDC_DECIMALS: u8 = 6;

/// One whole unit of the deposit asset, `10^USDC_DECIMALS`; the price of a
/// share while none is outstanding.
pub const SHARE_PRICE_SCALE: u64 = 1_000_000;

/// The scale is ten to the power of the asset's decimals.
pub proof fn lemma_scale_is_power_of_ten()
    ensures
        SHARE_PRICE_SCALE as int == vstd::arithmetic::power::pow(10, USDC_DECIMALS as nat),
{
    reveal_with_fuel(vstd::arithmetic::power::pow, 7);
}

/// Seconds that must pass between two rebalances.
pub const REBALANCING_COOLDOWN: i64 = 3600;

/// Upper bound of the management fee, in basis points.
pub const MAX_MANAGEMENT_FEE: u16 = 500;

/// Upper bound of the performance fee, in basis points.
pub const MAX_PERFORMANCE_FEE: u16 = 2000;

/// Largest share of the pool, in percent, a single adapter may be allowed.
pub const MAX_REBALANCING_PERCENTAGE: u8 = 50;

/// Sum of allocation percentages that may never be exceeded.
pub const FULL_ALLOCATION_PERCENTAGE: u64 = 100;

} // verus!
