//! Booking yield that was claimed, converted and reinvested elsewhere.

use vstd::prelude::*;
use crate::error::VaultError;
use crate::state::vault::Vault;

verus! {

/// What compounding `realized_yield` comes to: nothing to report, or the
/// reason it is turned down.
pub open spec fn outcome(vault: Vault, realized_yield: u64) -> Result<(), VaultError> {
    if vault.is_paused {
        Err(VaultError::VaultPaused)
    } else if vault.total_yield_earned + realized_yield > u64::MAX {
        Err(VaultError::MathOverflow)
    } else {
        Ok(())
    }
}

/// Adds `realized_yield` to the yield the vault has earned and advances the
/// compounding clock to `now`. Fails with `VaultPaused` on a paused vault
/// and with `MathOverflow` when the sum does not fit in 64 bits.
pub fn handler(vault: &mut Vault, realized_yield: u64, now: i64) -> (result: Result<(), VaultError>)
    ensures
        result == outcome(*old(vault), realized_yield),
        old(vault).is_paused ==> result == Err::<(), VaultError>(VaultError::VaultPaused),
        now >= old(vault).last_compound_timestamp ==> final(vault).last_compound_timestamp >= old(
            vault,
        ).last_compound_timestamp,
        final(vault).total_yield_earned >= old(vault).total_yield_earned,
        match result {
            Ok(()) => *final(vault) == (Vault {
                total_yield_earned: (old(vault).total_yield_earned + realized_yield) as u64,
                last_compound_timestamp: now,
                updated_at: now,
                ..*old(vault)
            }),
            Err(_) => *final(vault) == *old(vault),
        },
        old(vault).wf() ==> final(vault).wf(),
        old(vault).allocations_backed() ==> final(vault).allocations_backed(),
{
    if vault.is_paused {
        return Err(VaultError::VaultPaused);
    }
    let earned: u64 = match vault.total_yield_earned.checked_add(realized_yield) {
        Some(sum) => sum,
        None => {
            return Err(VaultError::MathOverflow);
        },
    };
    vault.total_yield_earned = earned;
    vault.last_compound_timestamp = now;
    vault.updated_at = now;
    Ok(())
}

} // verus!
