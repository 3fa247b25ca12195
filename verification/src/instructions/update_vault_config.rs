//! Changing a vault's fees and deposit limits.

use vstd::prelude::*;
use crate::constants::{MAX_MANAGEMENT_FEE, MAX_PERFORMANCE_FEE};
use crate::error::VaultError;
use crate::state::vault::Vault;

verus! {

/// Whether a fee that is to be set, if any, is at most `maximum`.
pub open spec fn fee_acceptable(fee: Option<u16>, maximum: u16) -> bool {
    fee matches Some(value) ==> value <= maximum
}

/// The value a setting has after an update: the new one where one is given,
/// else the one it had.
pub open spec fn updated<T>(current: T, new: Option<T>) -> T {
    match new {
        Some(value) => value,
        None => current,
    }
}

/// Sets each value that is given and leaves the others as they are, at time
/// `now`. Fails with `InvalidFeeConfiguration`, setting nothing, exactly
/// when a fee that is given exceeds its maximum. The deposit limits are
/// taken as they come.
pub fn handler(
    vault: &mut Vault,
    new_management_fee: Option<u16>,
    new_performance_fee: Option<u16>,
    new_minimum_deposit: Option<u64>,
    new_maximum_total_deposit: Option<u64>,
    now: i64,
) -> (result: Result<(), VaultError>)
    ensures
        result is Ok <==> fee_acceptable(new_management_fee, MAX_MANAGEMENT_FEE) && fee_acceptable(
            new_performance_fee,
            MAX_PERFORMANCE_FEE,
        ),
        match result {
            Ok(()) => *final(vault) == (Vault {
                management_fee: updated(old(vault).management_fee, new_management_fee),
                performance_fee: updated(old(vault).performance_fee, new_performance_fee),
                minimum_deposit: updated(old(vault).minimum_deposit, new_minimum_deposit),
                maximum_total_deposit: updated(
                    old(vault).maximum_total_deposit,
                    new_maximum_total_deposit,
                ),
                updated_at: now,
                ..*old(vault)
            }),
            Err(e) => e == VaultError::InvalidFeeConfiguration && *final(vault) == *old(vault),
        },
        old(vault).wf() ==> final(vault).wf(),
        old(vault).allocations_backed() ==> final(vault).allocations_backed(),
{
    if let Some(fee) = new_management_fee {
        if fee > MAX_MANAGEMENT_FEE {
            return Err(VaultError::InvalidFeeConfiguration);
        }
    }
    if let Some(fee) = new_performance_fee {
        if fee > MAX_PERFORMANCE_FEE {
            return Err(VaultError::InvalidFeeConfiguration);
        }
    }
    if let Some(fee) = new_management_fee {
        vault.management_fee = fee;
    }
    if let Some(fee) = new_performance_fee {
        vault.performance_fee = fee;
    }
    if let Some(min) = new_minimum_deposit {
        vault.minimum_deposit = min;
    }
    if let Some(max) = new_maximum_total_deposit {
        vault.maximum_total_deposit = max;
    }
    vault.updated_at = now;
    Ok(())
}

} // verus!
