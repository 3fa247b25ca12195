//! Refreshing what is known of an adapter's yield.

use vstd::prelude::*;
use crate::state::protocol_adapter::ProtocolAdapter;

verus! {

/// Overwrites the adapter's yield and liquidity with the figures given and
/// stamps it with `now`.
pub fn handler(
    protocol_adapter: &mut ProtocolAdapter,
    current_apy: u32,
    available_liquidity: u64,
    now: i64,
)
    ensures
        *final(protocol_adapter) == (ProtocolAdapter {
            current_apy,
            available_liquidity,
            last_update_timestamp: now,
            updated_at: now,
            ..*old(protocol_adapter)
        }),
        old(protocol_adapter).wf() ==> final(protocol_adapter).wf(),
{
    protocol_adapter.update_yield_data(current_apy, available_liquidity, now);
}

} // verus!
