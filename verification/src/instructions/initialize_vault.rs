//! Creating a vault.

use vstd::prelude::*;
use crate::address::Address;
use crate::constants::{MAX_MANAGEMENT_FEE, MAX_PERFORMANCE_FEE, MAX_PROTOCOL_ADAPTERS};
use crate::error::VaultError;
use crate::state::vault::{ProtocolAllocation, Vault};

verus! {

/// Whether both fees are within their maxima.
pub open spec fn fees_valid(management_fee: u16, performance_fee: u16) -> bool {
    management_fee <= MAX_MANAGEMENT_FEE && performance_fee <= MAX_PERFORMANCE_FEE
}

/// Makes a vault for one deposit asset: nothing deposited, no share minted,
/// nothing allocated, not paused, both clocks set to `now`. Fails with
/// `InvalidFeeConfiguration` exactly when a fee exceeds its maximum.
pub fn handler(
    authority: Address,
    vault_bump: u8,
    stablecoin_mint: Address,
    vault_shares_mint: Address,
    management_fee: u16,
    performance_fee: u16,
    minimum_deposit: u64,
    maximum_total_deposit: u64,
    now: i64,
) -> (result: Result<Vault, VaultError>)
    ensures
        result is Ok <==> fees_valid(management_fee, performance_fee),
        result matches Err(e) ==> e == VaultError::InvalidFeeConfiguration,
        result matches Ok(vault) ==> {
            &&& vault.authority == authority
            &&& vault.vault_bump == vault_bump
            &&& vault.stablecoin_mint == stablecoin_mint
            &&& vault.vault_shares_mint == vault_shares_mint
            &&& vault.total_deposits == 0
            &&& vault.total_shares_minted == 0
            &&& vault.management_fee == management_fee
            &&& vault.performance_fee == performance_fee
            &&& vault.minimum_deposit == minimum_deposit
            &&& vault.maximum_total_deposit == maximum_total_deposit
            &&& vault.last_rebalance_timestamp == now
            &&& vault.last_compound_timestamp == now
            &&& vault.total_yield_earned == 0
            &&& forall|i: int|
                0 <= i < vault.allocation().len() ==> {
                    &&& (#[trigger] vault.allocation()[i]).protocol_adapter@ == Seq::new(
                        32,
                        |j: int| 0u8,
                    )
                    &&& vault.allocation()[i].allocated_amount == 0
                    &&& vault.allocation()[i].allocation_percentage == 0
                }
            &&& !vault.is_paused
            &&& vault.created_at == now
            &&& vault.updated_at == now
            &&& vault.wf()
            &&& vault.allocations_backed()
        },
{
    if management_fee > MAX_MANAGEMENT_FEE {
        return Err(VaultError::InvalidFeeConfiguration);
    }
    if performance_fee > MAX_PERFORMANCE_FEE {
        return Err(VaultError::InvalidFeeConfiguration);
    }
    let vault = Vault {
        authority,
        vault_bump,
        stablecoin_mint,
        vault_shares_mint,
        total_deposits: 0,
        total_shares_minted: 0,
        management_fee,
        performance_fee,
        minimum_deposit,
        maximum_total_deposit,
        last_rebalance_timestamp: now,
        last_compound_timestamp: now,
        total_yield_earned: 0,
        current_allocation: [ProtocolAllocation::empty(); MAX_PROTOCOL_ADAPTERS],
        is_paused: false,
        created_at: now,
        updated_at: now,
    };
    proof {
        crate::state::vault::lemma_no_percentage_no_total(vault.allocation());
    }
    Ok(vault)
}

} // verus!
