//! What a paused vault turns down.

use vstd::prelude::*;
use crate::error::VaultError;
use crate::instructions::{compound_rewards, deposit, rebalance, withdraw};
use crate::state::protocol_adapter::ProtocolAdapter;
use crate::state::vault::{ProtocolAllocation, Vault};

verus! {

/// A paused vault turns down every deposit, withdrawal and compounding with
/// `VaultPaused`, whatever else is wrong with the request. It turns down a
/// rebalance the same way once the cooldown has run out; before that, the
/// cooldown is the reason given.
pub proof fn lemma_paused_vault_rejects(
    vault: Vault,
    amount: u64,
    shares_owned: u64,
    shares_amount: u64,
    realized_yield: u64,
    adapters: Seq<ProtocolAdapter>,
    proposed: Seq<ProtocolAllocation>,
    now: i64,
)
    requires
        vault.is_paused,
    ensures
        deposit::outcome(vault, amount) == Err::<u64, VaultError>(VaultError::VaultPaused),
        withdraw::outcome(vault, shares_owned, shares_amount) == Err::<u64, VaultError>(
            VaultError::VaultPaused,
        ),
        compound_rewards::outcome(vault, realized_yield) == Err::<(), VaultError>(
            VaultError::VaultPaused,
        ),
        vault.cooldown_elapsed(now) ==> rebalance::outcome(vault, adapters, proposed, now) == Err::<
            (),
            VaultError,
        >(VaultError::VaultPaused),
        !vault.cooldown_elapsed(now) ==> rebalance::outcome(vault, adapters, proposed, now) == Err::<
            (),
            VaultError,
        >(VaultError::RebalancingCooldownActive),
{
}

} // verus!
