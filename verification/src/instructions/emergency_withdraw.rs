//! Halting the vault.

use vstd::prelude::*;
use crate::state::vault::Vault;

verus! {

/// Pauses the vault at time `now`, whatever state it is in. From then on
/// deposits, withdrawals, rebalances and compounding are turned down until
/// the vault is unpaused.
pub fn handler(vault: &mut Vault, now: i64)
    ensures
        *final(vault) == (Vault { is_paused: true, updated_at: now, ..*old(vault) }),
        old(vault).wf() ==> final(vault).wf(),
        old(vault).allocations_backed() ==> final(vault).allocations_backed(),
{
    vault.set_paused(true, now);
}

} // verus!
