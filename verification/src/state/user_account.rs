//! A depositor's position in one vault.

use vstd::prelude::*;
use crate::address::Address;

verus! {

/// Shares held and the history of one owner in one vault. Its counters are
/// telemetry: they saturate at the ends of their range and never fail the
/// operation that updates them.
#[derive(Clone, Copy, Debug, PartialEq, Eq)]
pub struct UserAccount {
    pub owner: Address,
    pub vault: Address,
    pub shares_owned: u64,
    pub total_deposited: u64,
    pub total_withdrawn: u64,
    pub last_deposit_timestamp: i64,
    pub last_withdrawal_timestamp: i64,
    pub realized_gains: i64,
    pub deposit_count: u32,
    pub withdrawal_count: u32,
    pub created_at: i64,
    pub updated_at: i64,
}

/// `value` held to the range from `low` to `high`.
pub open spec fn clamp(value: int, low: int, high: int) -> int {
    if value < low {
        low
    } else if value > high {
        high
    } else {
        value
    }
}

/// What one withdrawal of `amount` adds to the realized gains of a position
/// that has deposited `total_deposited` over its life: the excess of the
/// former over the latter, if any.
pub open spec fn gain_of(amount: u64, total_deposited: u64) -> nat {
    if amount > total_deposited {
        (amount - total_deposited) as nat
    } else {
        0
    }
}

impl UserAccount {
    /// The record of an owner who has never deposited.
    pub fn new(owner: Address, vault: Address) -> (account: UserAccount)
        ensures
            account == (UserAccount {
                owner,
                vault,
                shares_owned: 0,
                total_deposited: 0,
                total_withdrawn: 0,
                last_deposit_timestamp: 0,
                last_withdrawal_timestamp: 0,
                realized_gains: 0,
                deposit_count: 0,
                withdrawal_count: 0,
                created_at: 0,
                updated_at: 0,
            }),
    {
        UserAccount {
            owner,
            vault,
            shares_owned: 0,
            total_deposited: 0,
            total_withdrawn: 0,
            last_deposit_timestamp: 0,
            last_withdrawal_timestamp: 0,
            realized_gains: 0,
            deposit_count: 0,
            withdrawal_count: 0,
            created_at: 0,
            updated_at: 0,
        }
    }

    /// The record as its first deposit finds it: one that was never opened
    /// is made out to `owner` in `vault` and dated; an open one is left as
    /// it is.
    pub open spec fn opened(self, owner: Address, vault: Address, timestamp: i64) -> UserAccount {
        if self.created_at == 0 {
            UserAccount { owner, vault, created_at: timestamp, ..self }
        } else {
            self
        }
    }

    /// The position after a deposit of `amount` that minted `shares`.
    pub open spec fn after_deposit(self, shares: u64, amount: u64, timestamp: i64) -> UserAccount {
        UserAccount {
            shares_owned: clamp(self.shares_owned + shares, 0, u64::MAX as int) as u64,
            total_deposited: clamp(self.total_deposited + amount, 0, u64::MAX as int) as u64,
            deposit_count: clamp(self.deposit_count + 1, 0, u32::MAX as int) as u32,
            last_deposit_timestamp: timestamp,
            updated_at: timestamp,
            ..self
        }
    }

    /// The position after a withdrawal of `shares` that paid out `amount`.
    pub open spec fn after_withdrawal(self, shares: u64, amount: u64, timestamp: i64) -> UserAccount {
        UserAccount {
            shares_owned: clamp(self.shares_owned - shares, 0, u64::MAX as int) as u64,
            total_withdrawn: clamp(self.total_withdrawn + amount, 0, u64::MAX as int) as u64,
            withdrawal_count: clamp(self.withdrawal_count + 1, 0, u32::MAX as int) as u32,
            last_withdrawal_timestamp: timestamp,
            updated_at: timestamp,
            realized_gains: clamp(
                self.realized_gains + gain_of(amount, self.total_deposited),
                i64::MIN as int,
                i64::MAX as int,
            ) as i64,
            ..self
        }
    }

    /// Books a deposit: adds to the shares held and to the lifetime total,
    /// counts it, and stamps the time. All sums saturate.
    pub fn update_deposit(&mut self, shares: u64, amount: u64, timestamp: i64)
        ensures
            *final(self) == old(self).after_deposit(shares, amount, timestamp),
    {
        self.shares_owned = self.shares_owned.saturating_add(shares);
        self.total_deposited = self.total_deposited.saturating_add(amount);
        self.deposit_count = self.deposit_count.saturating_add(1);
        self.last_deposit_timestamp = timestamp;
        self.updated_at = timestamp;
    }

    /// Books a withdrawal: takes from the shares held, adds to the lifetime
    /// total, counts it, stamps the time, and adds to the realized gains what
    /// `amount` exceeds everything ever deposited by. All sums saturate, so
    /// the gains never go down.
    pub fn update_withdrawal(&mut self, shares: u64, amount: u64, timestamp: i64)
        ensures
            *final(self) == old(self).after_withdrawal(shares, amount, timestamp),
            final(self).realized_gains >= old(self).realized_gains,
    {
        self.shares_owned = self.shares_owned.saturating_sub(shares);
        self.total_withdrawn = self.total_withdrawn.saturating_add(amount);
        self.withdrawal_count = self.withdrawal_count.saturating_add(1);
        self.last_withdrawal_timestamp = timestamp;
        self.updated_at = timestamp;
        if amount > self.total_deposited {
            let gain: u64 = amount - self.total_deposited;
            let headroom: i128 = i64::MAX as i128 - self.realized_gains as i128;
            if gain as i128 > headroom {
                self.realized_gains = i64::MAX;
            } else {
                self.realized_gains = (self.realized_gains as i128 + gain as i128) as i64;
            }
        }
    }
}

} // verus!
