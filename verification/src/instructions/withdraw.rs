//! Burning shares against the principal they stand for.

use vstd::prelude::*;
use crate::error::VaultError;
use crate::ledger::{lemma_tokens_within_deposits, LedgerOp};
use crate::state::user_account::UserAccount;
use crate::state::vault::Vault;

verus! {

/// What a withdrawal of `shares_amount` by a holder of `shares_owned` comes
/// to: the principal paid out, or the reason it is turned down. The reasons
/// are tried in the order given.
pub open spec fn outcome(vault: Vault, shares_owned: u64, shares_amount: u64) -> Result<
    u64,
    VaultError,
> {
    if vault.is_paused {
        Err(VaultError::VaultPaused)
    } else if shares_amount == 0 {
        Err(VaultError::InvalidWithdrawalAmount)
    } else if shares_owned < shares_amount {
        Err(VaultError::InsufficientShares)
    } else if shares_amount * vault.total_deposits > u64::MAX {
        Err(VaultError::MathOverflow)
    } else if !vault.ledger().accepts(LedgerOp::Withdraw { shares: shares_amount as nat }) {
        Err(VaultError::MathOverflow)
    } else {
        Ok(vault.ledger().tokens_for(shares_amount as nat) as u64)
    }
}

/// Withdraws `shares_amount` for the holder of `user_account` at time `now`
/// and returns the principal paid out. The vault's totals shrink by the
/// payout and by the shares; the holder's record books both.
pub fn handler(
    vault: &mut Vault,
    user_account: &mut UserAccount,
    shares_amount: u64,
    now: i64,
) -> (result: Result<u64, VaultError>)
    ensures
        result == outcome(*old(vault), old(user_account).shares_owned, shares_amount),
        old(vault).is_paused ==> result == Err::<u64, VaultError>(VaultError::VaultPaused),
        !old(vault).is_paused && shares_amount == 0 ==> result == Err::<u64, VaultError>(
            VaultError::InvalidWithdrawalAmount,
        ),
        !old(vault).is_paused && shares_amount > old(user_account).shares_owned ==> result == Err::<
            u64,
            VaultError,
        >(VaultError::InsufficientShares),
        match result {
            Ok(tokens) => {
                &&& tokens <= old(vault).total_deposits
                &&& final(vault).ledger() == old(vault).ledger().apply(
                    LedgerOp::Withdraw { shares: shares_amount as nat },
                )
                &&& *final(vault) == (Vault {
                    total_deposits: (old(vault).total_deposits - tokens) as u64,
                    total_shares_minted: (old(vault).total_shares_minted - shares_amount) as u64,
                    updated_at: now,
                    ..*old(vault)
                })
                &&& *final(user_account) == old(user_account).after_withdrawal(
                    shares_amount,
                    tokens,
                    now,
                )
            },
            Err(_) => *final(vault) == *old(vault) && *final(user_account) == *old(user_account),
        },
        old(vault).wf() ==> final(vault).wf(),
{
    if vault.is_paused {
        return Err(VaultError::VaultPaused);
    }
    if shares_amount == 0 {
        return Err(VaultError::InvalidWithdrawalAmount);
    }
    if user_account.shares_owned < shares_amount {
        return Err(VaultError::InsufficientShares);
    }
    let withdrawal_amount: u64 = match vault.calculate_withdrawal_amount(shares_amount) {
        Ok(tokens) => tokens,
        Err(e) => {
            return Err(e);
        },
    };
    let remaining_shares: u64 = match vault.total_shares_minted.checked_sub(shares_amount) {
        Some(rest) => rest,
        None => {
            return Err(VaultError::MathOverflow);
        },
    };
    proof {
        lemma_tokens_within_deposits(vault.ledger(), shares_amount as nat);
    }
    let remaining_deposits: u64 = match vault.total_deposits.checked_sub(withdrawal_amount) {
        Some(rest) => rest,
        None => {
            return Err(VaultError::MathOverflow);
        },
    };
    vault.total_deposits = remaining_deposits;
    vault.total_shares_minted = remaining_shares;
    vault.updated_at = now;

    user_account.update_withdrawal(shares_amount, withdrawal_amount, now);
    Ok(withdrawal_amount)
}

} // verus!
