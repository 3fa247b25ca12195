//! Setting up the record of a new yield source.

use vstd::prelude::*;
use crate::address::Address;
use crate::constants::MAX_REBALANCING_PERCENTAGE;
use crate::error::VaultError;
use crate::state::protocol_adapter::{ProtocolAdapter, ProtocolType};

verus! {

/// Whether `adapter` is the record that `handler` makes from the values
/// given.
pub open spec fn handler_gives(
    adapter: ProtocolAdapter,
    vault_key: Address,
    protocol_program_id: Address,
    protocol_type: u8,
    max_allocation_percentage: u8,
    now: i64,
) -> bool {
    &&& adapter.vault == vault_key
    &&& adapter.protocol_program_id == protocol_program_id
    &&& adapter.protocol_type == ProtocolType::of_code(protocol_type)
    &&& adapter.current_apy == 0
    &&& adapter.available_liquidity == 0
    &&& adapter.deposited_amount == 0
    &&& adapter.last_update_timestamp == now
    &&& adapter.max_allocation_percentage == max_allocation_percentage
    &&& adapter.is_active
    &&& adapter.protocol_specific_data@ == Seq::new(64, |i: int| 0u8)
    &&& adapter.created_at == now
    &&& adapter.updated_at == now
}

/// Makes the record of an adapter of `vault_key` for the external program
/// `protocol_program_id`: switched on, with no yield, liquidity or principal
/// yet. Fails with `AllocationExceedsMaximum` exactly when the adapter asks
/// for more of the pool than any adapter may have. A `protocol_type` code
/// that names no known protocol gives `Other`.
pub fn handler(
    vault_key: Address,
    protocol_program_id: Address,
    protocol_type: u8,
    max_allocation_percentage: u8,
    now: i64,
) -> (result: Result<ProtocolAdapter, VaultError>)
    ensures
        result is Ok <==> max_allocation_percentage <= MAX_REBALANCING_PERCENTAGE,
        result matches Err(e) ==> e == VaultError::AllocationExceedsMaximum,
        result matches Ok(adapter) ==> adapter.wf() && handler_gives(
            adapter,
            vault_key,
            protocol_program_id,
            protocol_type,
            max_allocation_percentage,
            now,
        ),
{
    if max_allocation_percentage > MAX_REBALANCING_PERCENTAGE {
        return Err(VaultError::AllocationExceedsMaximum);
    }
    let adapter = ProtocolAdapter {
        vault: vault_key,
        protocol_program_id,
        protocol_type: ProtocolType::from_code(protocol_type),
        current_apy: 0,
        available_liquidity: 0,
        deposited_amount: 0,
        last_update_timestamp: now,
        max_allocation_percentage,
        is_active: true,
        protocol_specific_data: [0u8; 64],
        created_at: now,
        updated_at: now,
    };
    assert(adapter.protocol_specific_data@ =~= Seq::new(64, |i: int| 0u8));
    Ok(adapter)
}

} // verus!
