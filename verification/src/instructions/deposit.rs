//! Taking principal into the vault against newly minted shares.

use vstd::prelude::*;
use crate::address::Address;
use crate::error::VaultError;
use crate::ledger::LedgerOp;
use crate::state::user_account::UserAccount;
use crate::state::vault::Vault;

verus! {

/// What a deposit of `amount` comes to: the shares it mints, or the reason
/// it is turned down. The reasons are tried in the order given.
pub open spec fn outcome(vault: Vault, amount: u64) -> Result<u64, VaultError> {
    let minted = vault.ledger().shares_for(amount as nat);
    if vault.is_paused {
        Err(VaultError::VaultPaused)
    } else if amount < vault.minimum_deposit {
        Err(VaultError::DepositBelowMinimum)
    } else if vault.total_deposits + amount > vault.maximum_total_deposit {
        Err(VaultError::VaultCapacityReached)
    } else if !vault.ledger().accepts(LedgerOp::Deposit { amount: amount as nat }) {
        Err(VaultError::MathOverflow)
    } else if amount * vault.total_shares_minted > u64::MAX {
        Err(VaultError::MathOverflow)
    } else if vault.total_shares_minted + minted > u64::MAX {
        Err(VaultError::MathOverflow)
    } else {
        Ok(minted as u64)
    }
}

/// Deposits `amount` for `depositor` at time `now` and returns the shares
/// minted. The vault's totals grow by the amount and by the shares; the
/// depositor's record, opened on its first deposit, books both.
pub fn handler(
    vault: &mut Vault,
    user_account: &mut UserAccount,
    depositor: Address,
    vault_key: Address,
    amount: u64,
    now: i64,
) -> (result: Result<u64, VaultError>)
    ensures
        result == outcome(*old(vault), amount),
        old(vault).is_paused ==> result == Err::<u64, VaultError>(VaultError::VaultPaused),
        !old(vault).is_paused && amount < old(vault).minimum_deposit ==> result == Err::<
            u64,
            VaultError,
        >(VaultError::DepositBelowMinimum),
        !old(vault).is_paused && amount >= old(vault).minimum_deposit && old(vault).total_deposits
            + amount > old(vault).maximum_total_deposit ==> result == Err::<u64, VaultError>(
            VaultError::VaultCapacityReached,
        ),
        old(vault).total_shares_minted == 0 ==> (result matches Ok(shares) ==> shares == amount),
        match result {
            Ok(shares) => {
                &&& final(vault).ledger() == old(vault).ledger().apply(
                    LedgerOp::Deposit { amount: amount as nat },
                )
                &&& *final(vault) == (Vault {
                    total_deposits: (old(vault).total_deposits + amount) as u64,
                    total_shares_minted: (old(vault).total_shares_minted + shares) as u64,
                    updated_at: now,
                    ..*old(vault)
                })
                &&& *final(user_account) == old(user_account).opened(
                    depositor,
                    vault_key,
                    now,
                ).after_deposit(shares, amount, now)
            },
            Err(_) => *final(vault) == *old(vault) && *final(user_account) == *old(user_account),
        },
        old(vault).wf() ==> final(vault).wf(),
        old(vault).allocations_backed() ==> final(vault).allocations_backed(),
{
    if vault.is_paused {
        return Err(VaultError::VaultPaused);
    }
    if amount < vault.minimum_deposit {
        return Err(VaultError::DepositBelowMinimum);
    }
    let new_total: u64 = match vault.total_deposits.checked_add(amount) {
        Some(sum) => sum,
        None => {
            return Err(VaultError::VaultCapacityReached);
        },
    };
    if new_total > vault.maximum_total_deposit {
        return Err(VaultError::VaultCapacityReached);
    }
    let shares_to_mint: u64 = match vault.calculate_shares_to_mint(amount) {
        Ok(shares) => shares,
        Err(e) => {
            return Err(e);
        },
    };
    let new_shares: u64 = match vault.total_shares_minted.checked_add(shares_to_mint) {
        Some(sum) => sum,
        None => {
            return Err(VaultError::MathOverflow);
        },
    };
    vault.total_deposits = new_total;
    vault.total_shares_minted = new_shares;
    vault.updated_at = now;

    if user_account.created_at == 0 {
        user_account.owner = depositor;
        user_account.vault = vault_key;
        user_account.created_at = now;
    }
    user_account.update_deposit(shares_to_mint, amount, now);
    Ok(shares_to_mint)
}

} // verus!
