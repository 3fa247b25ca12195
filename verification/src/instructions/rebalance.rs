//! Committing a new allocation of the pool, at most once per cooldown.
//!
//! Which adapters to prefer, and by how much, is decided elsewhere. This
//! operation keeps to the cooldown, holds the proposal to the adapters' limits
//! and to the vault's own, and writes it down.

use vstd::prelude::*;
use crate::constants::{FULL_ALLOCATION_PERCENTAGE, MAX_PROTOCOL_ADAPTERS, REBALANCING_COOLDOWN};
use crate::error::VaultError;
use crate::state::protocol_adapter::ProtocolAdapter;
use crate::state::registry::{allowed_percentage, ProtocolAdapterRegistry};
use crate::state::vault::{amounts_within, overlay, total_percentage, ProtocolAllocation, Vault};

verus! {

/// Whether every entry of `proposed` that has a slot to go to stays within
/// what the adapter it names allows.
pub open spec fn within_adapter_limits(
    adapters: Seq<ProtocolAdapter>,
    proposed: Seq<ProtocolAllocation>,
) -> bool {
    forall|i: int|
        0 <= i < proposed.len() && i < MAX_PROTOCOL_ADAPTERS ==> (
        #[trigger] proposed[i]).allocation_percentage <= allowed_percentage(
            adapters,
            proposed[i].protocol_adapter@,
        )
}

/// Whether an allocation snapshot allocates no more than the whole pool and
/// assigns no slot more than the principal held.
pub open spec fn snapshot_sound(allocation: Seq<ProtocolAllocation>, total_deposits: nat) -> bool {
    total_percentage(allocation) <= FULL_ALLOCATION_PERCENTAGE && amounts_within(
        allocation,
        total_deposits,
    )
}

/// What a rebalance at `now` with `proposed` comes to: nothing to report, or
/// the reason it is turned down. The reasons are tried in the order given.
pub open spec fn outcome(
    vault: Vault,
    adapters: Seq<ProtocolAdapter>,
    proposed: Seq<ProtocolAllocation>,
    now: i64,
) -> Result<(), VaultError> {
    if !vault.cooldown_elapsed(now) {
        Err(VaultError::RebalancingCooldownActive)
    } else if vault.is_paused {
        Err(VaultError::VaultPaused)
    } else if !within_adapter_limits(adapters, proposed) {
        Err(VaultError::AllocationExceedsMaximum)
    } else if !snapshot_sound(overlay(vault.allocation(), proposed), vault.total_deposits as nat) {
        Err(VaultError::RebalancingFailed)
    } else {
        Ok(())
    }
}

/// Whether `after` is `before` with `proposed` committed at `now`: the
/// snapshot overlaid, both clocks advanced, all else as it was.
pub open spec fn rebalanced(
    before: Vault,
    after: Vault,
    proposed: Seq<ProtocolAllocation>,
    now: i64,
) -> bool {
    &&& after.allocation() == overlay(before.allocation(), proposed)
    &&& after == (Vault {
        current_allocation: after.current_allocation,
        last_rebalance_timestamp: now,
        updated_at: now,
        ..before
    })
}

/// The percentages of a snapshot add up slot by slot.
pub proof fn lemma_total_percentage_step(allocation: Seq<ProtocolAllocation>, i: int)
    requires
        0 <= i < allocation.len(),
    ensures
        total_percentage(allocation.take(i + 1)) == total_percentage(allocation.take(i))
            + allocation[i].allocation_percentage,
{
    assert(allocation.take(i + 1).drop_last() =~= allocation.take(i));
}

/// The cooldown between rebalances: once a rebalance has gone through at
/// `first_time`, one attempted less than `REBALANCING_COOLDOWN` seconds
/// later is turned down with `RebalancingCooldownActive`, whatever it
/// proposes; one attempted no sooner than that is not turned down for the
/// cooldown, and goes through unless something else is wrong with it.
pub proof fn lemma_cooldown_between_rebalances(
    before: Vault,
    after: Vault,
    adapters: Seq<ProtocolAdapter>,
    first: Seq<ProtocolAllocation>,
    first_time: i64,
    later_adapters: Seq<ProtocolAdapter>,
    second: Seq<ProtocolAllocation>,
    second_time: i64,
)
    requires
        outcome(before, adapters, first, first_time) is Ok,
        rebalanced(before, after, first, first_time),
    ensures
        second_time - first_time < REBALANCING_COOLDOWN ==> outcome(
            after,
            later_adapters,
            second,
            second_time,
        ) == Err::<(), VaultError>(VaultError::RebalancingCooldownActive),
        second_time - first_time >= REBALANCING_COOLDOWN ==> outcome(
            after,
            later_adapters,
            second,
            second_time,
        ) != Err::<(), VaultError>(VaultError::RebalancingCooldownActive),
        second_time - first_time >= REBALANCING_COOLDOWN && within_adapter_limits(
            later_adapters,
            second,
        ) && snapshot_sound(overlay(after.allocation(), second), after.total_deposits as nat)
            ==> outcome(after, later_adapters, second, second_time) is Ok,
{
}

/// Commits `proposed_allocation` to the vault at time `now`.
///
/// Fails with `RebalancingCooldownActive` before the cooldown since the last
/// rebalance has run out, with `VaultPaused` on a paused vault, with
/// `AllocationExceedsMaximum` when an entry gives an adapter more than the
/// adapter allows (an adapter that is not registered allows nothing), and
/// with `RebalancingFailed` when the snapshot that would result allocates
/// more than the whole pool or assigns a slot more than the principal held.
pub fn handler(
    vault: &mut Vault,
    registry: &ProtocolAdapterRegistry,
    proposed_allocation: Vec<ProtocolAllocation>,
    now: i64,
) -> (result: Result<(), VaultError>)
    ensures
        result == outcome(*old(vault), registry@, proposed_allocation@, now),
        now - old(vault).last_rebalance_timestamp < REBALANCING_COOLDOWN ==> result == Err::<
            (),
            VaultError,
        >(VaultError::RebalancingCooldownActive),
        old(vault).is_paused && old(vault).cooldown_elapsed(now) ==> result == Err::<(), VaultError>(
            VaultError::VaultPaused,
        ),
        final(vault).last_rebalance_timestamp >= old(vault).last_rebalance_timestamp,
        match result {
            Ok(()) => rebalanced(*old(vault), *final(vault), proposed_allocation@, now)
                && final(vault).allocations_backed(),
            Err(_) => *final(vault) == *old(vault),
        },
        old(vault).wf() ==> final(vault).wf(),
{
    if !vault.can_rebalance(now) {
        return Err(VaultError::RebalancingCooldownActive);
    }
    if vault.is_paused {
        return Err(VaultError::VaultPaused);
    }
    let mut i: usize = 0;
    while i < proposed_allocation.len() && i < MAX_PROTOCOL_ADAPTERS
        invariant
            i <= MAX_PROTOCOL_ADAPTERS,
            i <= proposed_allocation.len(),
            *vault == *old(vault),
            vault.cooldown_elapsed(now),
            !vault.is_paused,
            forall|j: int|
                0 <= j < i ==> (#[trigger] proposed_allocation@[j]).allocation_percentage
                    <= allowed_percentage(registry@, proposed_allocation@[j].protocol_adapter@),
        decreases MAX_PROTOCOL_ADAPTERS - i,
    {
        let entry = proposed_allocation[i];
        if entry.allocation_percentage > registry.allowed_percentage(&entry.protocol_adapter) {
            return Err(VaultError::AllocationExceedsMaximum);
        }
        i = i + 1;
    }
    assert(within_adapter_limits(registry@, proposed_allocation@));

    let mut staged = *vault;
    staged.update_allocations(proposed_allocation);
    let ghost snapshot = staged.allocation();

    let mut percentage: u64 = 0;
    let mut k: usize = 0;
    while k < MAX_PROTOCOL_ADAPTERS
        invariant
            k <= MAX_PROTOCOL_ADAPTERS,
            *vault == *old(vault),
            vault.cooldown_elapsed(now),
            !vault.is_paused,
            within_adapter_limits(registry@, proposed_allocation@),
            snapshot == overlay(vault.allocation(), proposed_allocation@),
            staged == (Vault { current_allocation: staged.current_allocation, ..*vault }),
            snapshot == staged.allocation(),
            snapshot.len() == MAX_PROTOCOL_ADAPTERS,
            percentage == total_percentage(snapshot.take(k as int)),
            percentage <= 255 * k,
            forall|j: int| 0 <= j < k ==> (#[trigger] snapshot[j]).allocated_amount <= vault.total_deposits,
        decreases MAX_PROTOCOL_ADAPTERS - k,
    {
        let slot = staged.current_allocation[k];
        if slot.allocated_amount > vault.total_deposits {
            return Err(VaultError::RebalancingFailed);
        }
        proof {
            lemma_total_percentage_step(snapshot, k as int);
        }
        percentage = percentage + slot.allocation_percentage as u64;
        k = k + 1;
    }
    assert(snapshot.take(MAX_PROTOCOL_ADAPTERS as int) =~= snapshot);
    if percentage > FULL_ALLOCATION_PERCENTAGE {
        return Err(VaultError::RebalancingFailed);
    }
    staged.last_rebalance_timestamp = now;
    staged.updated_at = now;
    *vault = staged;
    Ok(())
}

} // verus!
