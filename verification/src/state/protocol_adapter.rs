//! One external yield source as the vault sees it.

use vstd::prelude::*;
use crate::address::Address;
use crate::constants::MAX_REBALANCING_PERCENTAGE;
use crate::error::VaultError;

verus! {

/// The protocol behind an adapter.
#[derive(Clone, Copy, Debug, PartialEq, Eq, Structural)]
pub enum ProtocolType {
    Kamino,
    Drift,
    Meteora,
    Marinade,
    Jito,
    Sanctum,
    Other,
}

impl ProtocolType {
    /// The protocol a numeric code stands for. Codes that name no known
    /// protocol stand for `Other`.
    pub open spec fn of_code(code: u8) -> ProtocolType {
        if code == 0 {
            ProtocolType::Kamino
        } else if code == 1 {
            ProtocolType::Drift
        } else if code == 2 {
            ProtocolType::Meteora
        } else if code == 3 {
            ProtocolType::Marinade
        } else if code == 4 {
            ProtocolType::Jito
        } else if code == 5 {
            ProtocolType::Sanctum
        } else {
            ProtocolType::Other
        }
    }

    /// Decodes a protocol code; never fails.
    pub fn from_code(code: u8) -> (protocol: ProtocolType)
        ensures
            protocol == Self::of_code(code),
    {
        match code {
            0 => ProtocolType::Kamino,
            1 => ProtocolType::Drift,
            2 => ProtocolType::Meteora,
            3 => ProtocolType::Marinade,
            4 => ProtocolType::Jito,
            5 => ProtocolType::Sanctum,
            _ => ProtocolType::Other,
        }
    }
}

/// A registered yield source: where it lives, what it yields, how much of
/// the pool it may take and how much it holds.
#[derive(Clone, Copy, Debug, PartialEq, Eq)]
pub struct ProtocolAdapter {
    pub vault: Address,
    pub protocol_program_id: Address,
    pub protocol_type: ProtocolType,
    /// Yield in basis points.
    pub current_apy: u32,
    pub available_liquidity: u64,
    pub deposited_amount: u64,
    pub last_update_timestamp: i64,
    pub max_allocation_percentage: u8,
    pub is_active: bool,
    /// Reserved for the adapter's own use.
    pub protocol_specific_data: [u8; 64],
    pub created_at: i64,
    pub updated_at: i64,
}

impl ProtocolAdapter {
    /// An adapter never may take more of the pool than any adapter may.
    pub open spec fn wf(self) -> bool {
        self.max_allocation_percentage <= MAX_REBALANCING_PERCENTAGE
    }

    /// The yield a strategy should reckon with: nothing from an adapter that
    /// is switched off or has no liquidity.
    pub open spec fn effective_apy(self) -> u32 {
        if !self.is_active || self.available_liquidity == 0 {
            0
        } else {
            self.current_apy
        }
    }

    /// Overwrites the yield figures and stamps the time.
    pub fn update_yield_data(&mut self, apy: u32, liquidity: u64, timestamp: i64)
        ensures
            *final(self) == (ProtocolAdapter {
                current_apy: apy,
                available_liquidity: liquidity,
                last_update_timestamp: timestamp,
                updated_at: timestamp,
                ..*old(self)
            }),
    {
        self.current_apy = apy;
        self.available_liquidity = liquidity;
        self.last_update_timestamp = timestamp;
        self.updated_at = timestamp;
    }

    /// Books `amount` as placed with the adapter. Fails with `MathOverflow`,
    /// changing nothing, when the sum does not fit in 64 bits.
    pub fn deposit(&mut self, amount: u64) -> (r: Result<(), VaultError>)
        ensures
            r is Ok <==> old(self).deposited_amount + amount <= u64::MAX,
            r is Ok ==> *final(self) == (ProtocolAdapter {
                deposited_amount: (old(self).deposited_amount + amount) as u64,
                ..*old(self)
            }),
            r matches Err(e) ==> e == VaultError::MathOverflow && *final(self) == *old(self),
    {
        match self.deposited_amount.checked_add(amount) {
            Some(sum) => {
                self.deposited_amount = sum;
                Ok(())
            },
            None => Err(VaultError::MathOverflow),
        }
    }

    /// Books `amount` as taken back from the adapter. Fails with
    /// `MathOverflow`, changing nothing, when the adapter holds less.
    pub fn withdraw(&mut self, amount: u64) -> (r: Result<(), VaultError>)
        ensures
            r is Ok <==> amount <= old(self).deposited_amount,
            r is Ok ==> *final(self) == (ProtocolAdapter {
                deposited_amount: (old(self).deposited_amount - amount) as u64,
                ..*old(self)
            }),
            r matches Err(e) ==> e == VaultError::MathOverflow && *final(self) == *old(self),
    {
        match self.deposited_amount.checked_sub(amount) {
            Some(rest) => {
                self.deposited_amount = rest;
                Ok(())
            },
            None => Err(VaultError::MathOverflow),
        }
    }

    /// The adapter's yield in basis points, or zero while it is switched off
    /// or has no liquidity.
    pub fn get_effective_apy(&self) -> (apy: u32)
        ensures
            apy == self.effective_apy(),
    {
        if !self.is_active || self.available_liquidity == 0 {
            return 0;
        }
        self.current_apy
    }

    /// Whether the adapter is switched on and has room for `amount`.
    pub fn can_deposit(&self, amount: u64) -> (r: bool)
        ensures
            r == (self.is_active && self.available_liquidity >= amount),
    {
        self.is_active && self.available_liquidity >= amount
    }
}

} // verus!
