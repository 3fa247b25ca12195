//! The vault record: aggregate share accounting, limits, pause state and the
//! allocation snapshot.

use vstd::prelude::*;
use crate::address::Address;
use crate::constants::{
    FULL_ALLOCATION_PERCENTAGE, MAX_MANAGEMENT_FEE, MAX_PERFORMANCE_FEE, MAX_PROTOCOL_ADAPTERS,
    REBALANCING_COOLDOWN, SHARE_PRICE_SCALE,
};
use crate::error::VaultError;
use crate::ledger::Ledger;

verus! {

/// How much of the pool is assigned to one adapter.
#[derive(Clone, Copy, Debug, PartialEq, Eq)]
pub struct ProtocolAllocation {
    /// The adapter, named by the external program it was registered for.
    pub protocol_adapter: Address,
    pub allocated_amount: u64,
    pub allocation_percentage: u8,
}

/// One vault per deposit asset.
#[derive(Clone, Copy, Debug, PartialEq, Eq)]
pub struct Vault {
    pub authority: Address,
    pub vault_bump: u8,
    pub stablecoin_mint: Address,
    pub vault_shares_mint: Address,
    pub total_deposits: u64,
    pub total_shares_minted: u64,
    pub management_fee: u16,
    pub performance_fee: u16,
    pub minimum_deposit: u64,
    pub maximum_total_deposit: u64,
    pub last_rebalance_timestamp: i64,
    pub last_compound_timestamp: i64,
    pub total_yield_earned: u64,
    pub current_allocation: [ProtocolAllocation; MAX_PROTOCOL_ADAPTERS],
    pub is_paused: bool,
    pub created_at: i64,
    pub updated_at: i64,
}

/// Sum of the percentages of an allocation.
pub open spec fn total_percentage(allocation: Seq<ProtocolAllocation>) -> nat
    decreases allocation.len(),
{
    if allocation.len() == 0 {
        0
    } else {
        total_percentage(allocation.drop_last()) + allocation.last().allocation_percentage as nat
    }
}

/// Whether no entry of an allocation assigns more than `total_deposits`.
pub open spec fn amounts_within(allocation: Seq<ProtocolAllocation>, total_deposits: nat) -> bool {
    forall|i: int| 0 <= i < allocation.len() ==> (#[trigger] allocation[i]).allocated_amount <= total_deposits
}

/// `current` with its leading slots replaced, slot by slot, by `incoming`;
/// what `incoming` holds beyond the length of `current` is left out.
pub open spec fn overlay(
    current: Seq<ProtocolAllocation>,
    incoming: Seq<ProtocolAllocation>,
) -> Seq<ProtocolAllocation> {
    Seq::new(current.len(), |i: int| if i < incoming.len() { incoming[i] } else { current[i] })
}

/// An allocation whose slots all stand at zero percent allocates nothing.
pub proof fn lemma_no_percentage_no_total(allocation: Seq<ProtocolAllocation>)
    requires
        forall|i: int| 0 <= i < allocation.len() ==> (#[trigger] allocation[i]).allocation_percentage == 0,
    ensures
        total_percentage(allocation) == 0,
    decreases allocation.len(),
{
    if allocation.len() > 0 {
        lemma_no_percentage_no_total(allocation.drop_last());
    }
}

impl ProtocolAllocation {
    /// A slot that assigns nothing to nobody.
    pub fn empty() -> (a: ProtocolAllocation)
        ensures
            a.protocol_adapter@ == Seq::new(32, |i: int| 0u8),
            a.allocated_amount == 0,
            a.allocation_percentage == 0,
    {
        ProtocolAllocation {
            protocol_adapter: Address::zero(),
            allocated_amount: 0,
            allocation_percentage: 0,
        }
    }
}

impl Vault {
    /// The share ledger this vault keeps.
    pub open spec fn ledger(self) -> Ledger {
        Ledger { deposits: self.total_deposits as nat, shares: self.total_shares_minted as nat }
    }

    /// The allocation snapshot, slot by slot.
    pub open spec fn allocation(self) -> Seq<ProtocolAllocation> {
        self.current_allocation@
    }

    /// What every operation keeps true of a vault: fees within their
    /// maxima, principal held exactly while shares are outstanding, and no
    /// more than the whole pool allocated.
    pub open spec fn wf(self) -> bool {
        &&& self.management_fee <= MAX_MANAGEMENT_FEE
        &&& self.performance_fee <= MAX_PERFORMANCE_FEE
        &&& self.ledger().wf()
        &&& total_percentage(self.allocation()) <= FULL_ALLOCATION_PERCENTAGE
    }

    /// Whether every slot assigns at most the principal held.
    pub open spec fn allocations_backed(self) -> bool {
        amounts_within(self.allocation(), self.total_deposits as nat)
    }

    /// Whether the cooldown since the last rebalance has run out at `now`.
    pub open spec fn cooldown_elapsed(self, now: i64) -> bool {
        now - self.last_rebalance_timestamp >= REBALANCING_COOLDOWN
    }

    /// Price of one whole share, scaled by `SHARE_PRICE_SCALE`. Fails with
    /// `MathOverflow` when the scaled principal does not fit in 64 bits.
    pub fn calculate_share_price(&self) -> (r: Result<u64, VaultError>)
        ensures
            r is Ok <==> self.total_shares_minted == 0 || self.total_deposits * SHARE_PRICE_SCALE
                <= u64::MAX,
            r matches Ok(price) ==> price == self.ledger().share_price(),
            r matches Err(e) ==> e == VaultError::MathOverflow,
    {
        if self.total_shares_minted == 0 {
            return Ok(SHARE_PRICE_SCALE);
        }
        match self.total_deposits.checked_mul(SHARE_PRICE_SCALE) {
            Some(scaled) => Ok(scaled / self.total_shares_minted),
            None => Err(VaultError::MathOverflow),
        }
    }

    /// Shares to mint for a deposit: one per unit while none is outstanding,
    /// else pro rata, multiplying before dividing and rounding down. Fails
    /// with `MathOverflow` when the product does not fit in 64 bits or
    /// shares are outstanding against no principal.
    pub fn calculate_shares_to_mint(&self, deposit_amount: u64) -> (r: Result<u64, VaultError>)
        ensures
            r is Ok <==> self.total_shares_minted == 0 || (deposit_amount * self.total_shares_minted
                <= u64::MAX && self.total_deposits > 0),
            r matches Ok(shares) ==> shares == self.ledger().shares_for(deposit_amount as nat),
            r matches Err(e) ==> e == VaultError::MathOverflow,
    {
        if self.total_shares_minted == 0 {
            return Ok(deposit_amount);
        }
        match deposit_amount.checked_mul(self.total_shares_minted) {
            Some(product) => {
                if self.total_deposits == 0 {
                    Err(VaultError::MathOverflow)
                } else {
                    Ok(product / self.total_deposits)
                }
            },
            None => Err(VaultError::MathOverflow),
        }
    }

    /// Principal to pay out for `shares_amount`, pro rata, multiplying before
    /// dividing and rounding down. Fails with `MathOverflow` when the product
    /// does not fit in 64 bits or no share is outstanding.
    pub fn calculate_withdrawal_amount(&self, shares_amount: u64) -> (r: Result<u64, VaultError>)
        ensures
            r is Ok <==> shares_amount * self.total_deposits <= u64::MAX && self.total_shares_minted
                > 0,
            r matches Ok(tokens) ==> tokens == self.ledger().tokens_for(shares_amount as nat),
            r matches Err(e) ==> e == VaultError::MathOverflow,
    {
        match shares_amount.checked_mul(self.total_deposits) {
            Some(product) => {
                if self.total_shares_minted == 0 {
                    Err(VaultError::MathOverflow)
                } else {
                    Ok(product / self.total_shares_minted)
                }
            },
            None => Err(VaultError::MathOverflow),
        }
    }

    /// Pauses or unpauses the vault at time `now`.
    pub fn set_paused(&mut self, paused: bool, now: i64)
        ensures
            *final(self) == (Vault { is_paused: paused, updated_at: now, ..*old(self) }),
    {
        self.is_paused = paused;
        self.updated_at = now;
    }

    /// Admits a caller to an administrative operation: exactly the vault's
    /// authority is let through, everybody else is turned away with
    /// `Unauthorized`.
    pub fn authorize(&self, caller: &Address) -> (r: Result<(), VaultError>)
        ensures
            r is Ok <==> caller@ == self.authority@,
            r matches Err(e) ==> e == VaultError::Unauthorized,
    {
        if self.authority.same(caller) {
            Ok(())
        } else {
            Err(VaultError::Unauthorized)
        }
    }

    /// Admits a caller to the emergency halt: exactly the vault's authority
    /// is let through, everybody else is turned away with
    /// `EmergencyWithdrawUnauthorized`.
    pub fn authorize_emergency(&self, caller: &Address) -> (r: Result<(), VaultError>)
        ensures
            r is Ok <==> caller@ == self.authority@,
            r matches Err(e) ==> e == VaultError::EmergencyWithdrawUnauthorized,
    {
        if self.authority.same(caller) {
            Ok(())
        } else {
            Err(VaultError::EmergencyWithdrawUnauthorized)
        }
    }

    /// Whether a rebalance is due at `current_timestamp`.
    pub fn can_rebalance(&self, current_timestamp: i64) -> (r: bool)
        ensures
            r == self.cooldown_elapsed(current_timestamp),
    {
        let elapsed: i128 = current_timestamp as i128 - self.last_rebalance_timestamp as i128;
        elapsed >= REBALANCING_COOLDOWN as i128
    }

    /// Writes `new_allocations` over the snapshot, slot by slot from the
    /// first. Entries beyond the capacity are dropped; slots beyond the
    /// entries given keep what they held.
    pub fn update_allocations(&mut self, new_allocations: Vec<ProtocolAllocation>)
        ensures
            final(self).allocation() == overlay(old(self).allocation(), new_allocations@),
            *final(self) == (Vault { current_allocation: final(self).current_allocation, ..*old(self) }),
    {
        let mut i: usize = 0;
        while i < new_allocations.len() && i < MAX_PROTOCOL_ADAPTERS
            invariant
                i <= MAX_PROTOCOL_ADAPTERS,
                i <= new_allocations.len(),
                *self == (Vault { current_allocation: self.current_allocation, ..*old(self) }),
                forall|j: int| 0 <= j < i ==> self.current_allocation@[j] == new_allocations@[j],
                forall|j: int|
                    i <= j < MAX_PROTOCOL_ADAPTERS ==> self.current_allocation@[j] == old(
                        self,
                    ).current_allocation@[j],
            decreases MAX_PROTOCOL_ADAPTERS - i,
        {
            self.current_allocation[i] = new_allocations[i];
            i = i + 1;
        }
        assert(self.allocation() =~= overlay(old(self).allocation(), new_allocations@));
    }
}

} // verus!
