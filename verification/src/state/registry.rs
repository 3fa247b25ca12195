//! The adapters of one vault, at most `MAX_PROTOCOL_ADAPTERS` of them, each
//! known by the external program it stands for.

use vstd::prelude::*;
use crate::address::Address;
use crate::constants::{MAX_PROTOCOL_ADAPTERS, MAX_REBALANCING_PERCENTAGE};
use crate::error::VaultError;
use crate::instructions::initialize_protocol_adapter;
use crate::state::protocol_adapter::ProtocolAdapter;

verus! {

/// The bounded collection of a vault's adapters, in order of registration.
#[derive(Clone, Debug, PartialEq, Eq)]
pub struct ProtocolAdapterRegistry {
    pub vault: Address,
    pub adapters: Vec<ProtocolAdapter>,
}

impl View for ProtocolAdapterRegistry {
    type V = Seq<ProtocolAdapter>;

    open spec fn view(&self) -> Seq<ProtocolAdapter> {
        self.adapters@
    }
}

/// Whether `adapters[i]` is the first adapter registered for `program`.
pub open spec fn is_position_of(adapters: Seq<ProtocolAdapter>, program: Seq<u8>, i: int) -> bool {
    &&& 0 <= i < adapters.len()
    &&& adapters[i].protocol_program_id@ == program
    &&& forall|j: int| 0 <= j < i ==> (#[trigger] adapters[j]).protocol_program_id@ != program
}

/// Whether an adapter is registered for `program`.
pub open spec fn is_registered(adapters: Seq<ProtocolAdapter>, program: Seq<u8>) -> bool {
    exists|i: int| is_position_of(adapters, program, i)
}

/// Where the adapter for `program` stands, if one is registered.
pub open spec fn position_of(adapters: Seq<ProtocolAdapter>, program: Seq<u8>) -> int {
    choose|i: int| is_position_of(adapters, program, i)
}

/// The most of the pool, in percent, that may be allocated to `program`:
/// what its adapter allows, and nothing where no adapter is registered.
pub open spec fn allowed_percentage(adapters: Seq<ProtocolAdapter>, program: Seq<u8>) -> nat {
    if is_registered(adapters, program) {
        adapters[position_of(adapters, program)].max_allocation_percentage as nat
    } else {
        0
    }
}

/// An adapter stands at one position at most.
pub proof fn lemma_position_unique(adapters: Seq<ProtocolAdapter>, program: Seq<u8>, i: int, j: int)
    requires
        is_position_of(adapters, program, i),
        is_position_of(adapters, program, j),
    ensures
        i == j,
{
    if i < j {
        assert(adapters[i].protocol_program_id@ != program);
    } else if j < i {
        assert(adapters[j].protocol_program_id@ != program);
    }
}

impl ProtocolAdapterRegistry {
    /// What the registry keeps true: no more adapters than the capacity,
    /// every one of them of this vault and within the global cap, no two for
    /// the same external program.
    pub open spec fn wf(self) -> bool {
        &&& self@.len() <= MAX_PROTOCOL_ADAPTERS
        &&& forall|i: int|
            0 <= i < self@.len() ==> (#[trigger] self@[i]).wf() && self@[i].vault == self.vault
        &&& forall|i: int, j: int|
            0 <= i < j < self@.len() ==> (#[trigger] self@[i]).protocol_program_id@ != (
            #[trigger] self@[j]).protocol_program_id@
    }

    /// Why an adapter for `program` cannot be registered, if it cannot. The
    /// reasons are tried in the order given.
    pub open spec fn registration_refusal(
        self,
        program: Seq<u8>,
        max_allocation_percentage: u8,
    ) -> Option<VaultError> {
        if max_allocation_percentage > MAX_REBALANCING_PERCENTAGE {
            Some(VaultError::AllocationExceedsMaximum)
        } else if self@.len() >= MAX_PROTOCOL_ADAPTERS {
            Some(VaultError::MaxAdaptersReached)
        } else if is_registered(self@, program) {
            Some(VaultError::AdapterAlreadyInitialized)
        } else {
            None
        }
    }

    /// The registry of a vault that has no adapter yet.
    pub fn new(vault: Address) -> (registry: ProtocolAdapterRegistry)
        ensures
            registry.vault == vault,
            registry@.len() == 0,
            registry.wf(),
    {
        ProtocolAdapterRegistry { vault, adapters: Vec::new() }
    }

    /// How many adapters are registered.
    pub fn len(&self) -> (n: usize)
        ensures
            n == self@.len(),
    {
        self.adapters.len()
    }

    /// Where the adapter for `program` stands, if one is registered.
    pub fn find(&self, program: &Address) -> (r: Option<usize>)
        ensures
            r is Some <==> is_registered(self@, program@),
            r matches Some(i) ==> is_position_of(self@, program@, i as int) && i == position_of(
                self@,
                program@,
            ),
    {
        let mut i: usize = 0;
        while i < self.adapters.len()
            invariant
                i <= self.adapters.len(),
                forall|j: int| 0 <= j < i ==> (#[trigger] self@[j]).protocol_program_id@ != program@,
            decreases self.adapters.len() - i,
        {
            if self.adapters[i].protocol_program_id.same(program) {
                proof {
                    assert(is_position_of(self@, program@, i as int));
                    lemma_position_unique(self@, program@, i as int, position_of(self@, program@));
                }
                return Some(i);
            }
            i = i + 1;
        }
        assert forall|k: int| !is_position_of(self@, program@, k) by {
            if 0 <= k < self@.len() {
                assert(self@[k].protocol_program_id@ != program@);
            }
        }
        None
    }

    /// The adapter registered for `program`, if there is one.
    pub fn lookup(&self, program: &Address) -> (r: Option<ProtocolAdapter>)
        ensures
            r is Some <==> is_registered(self@, program@),
            r matches Some(adapter) ==> adapter == self@[position_of(self@, program@)],
    {
        match self.find(program) {
            Some(i) => Some(self.adapters[i]),
            None => None,
        }
    }

    /// The most of the pool, in percent, that may be allocated to `program`.
    pub fn allowed_percentage(&self, program: &Address) -> (percentage: u8)
        ensures
            percentage == allowed_percentage(self@, program@),
    {
        match self.find(program) {
            Some(i) => self.adapters[i].max_allocation_percentage,
            None => 0,
        }
    }

    /// Registers an adapter for the external program `protocol_program_id`
    /// at the end of the registry and returns its record. Fails with
    /// `AllocationExceedsMaximum` when it asks for more of the pool than any
    /// adapter may have, with `MaxAdaptersReached` when the registry is
    /// full, and with `AdapterAlreadyInitialized` when the program has an
    /// adapter already.
    pub fn register_adapter(
        &mut self,
        protocol_program_id: Address,
        protocol_type: u8,
        max_allocation_percentage: u8,
        now: i64,
    ) -> (result: Result<ProtocolAdapter, VaultError>)
        ensures
            match old(self).registration_refusal(protocol_program_id@, max_allocation_percentage) {
                Some(reason) => result == Err::<ProtocolAdapter, VaultError>(reason),
                None => result is Ok,
            },
            max_allocation_percentage > MAX_REBALANCING_PERCENTAGE ==> result == Err::<
                ProtocolAdapter,
                VaultError,
            >(VaultError::AllocationExceedsMaximum),
            max_allocation_percentage <= MAX_REBALANCING_PERCENTAGE && old(self)@.len()
                >= MAX_PROTOCOL_ADAPTERS ==> result == Err::<ProtocolAdapter, VaultError>(
                VaultError::MaxAdaptersReached,
            ),
            final(self).vault == old(self).vault,
            match result {
                Ok(adapter) => {
                    &&& final(self)@ == old(self)@.push(adapter)
                    &&& initialize_protocol_adapter::handler_gives(
                        adapter,
                        old(self).vault,
                        protocol_program_id,
                        protocol_type,
                        max_allocation_percentage,
                        now,
                    )
                },
                Err(_) => final(self)@ == old(self)@,
            },
            old(self).wf() ==> final(self).wf(),
    {
        let adapter = match initialize_protocol_adapter::handler(
            self.vault,
            protocol_program_id,
            protocol_type,
            max_allocation_percentage,
            now,
        ) {
            Ok(adapter) => adapter,
            Err(e) => {
                return Err(e);
            },
        };
        if self.adapters.len() >= MAX_PROTOCOL_ADAPTERS {
            return Err(VaultError::MaxAdaptersReached);
        }
        if self.find(&protocol_program_id).is_some() {
            return Err(VaultError::AdapterAlreadyInitialized);
        }
        self.adapters.push(adapter);
        proof {
            if old(self).wf() {
                assert forall|i: int, j: int| 0 <= i < j < self@.len() implies (#[trigger] self@[i]).protocol_program_id@
                    != (#[trigger] self@[j]).protocol_program_id@ by {
                    if j == self@.len() - 1 {
                        assert(self@[i] == old(self)@[i]);
                        if self@[i].protocol_program_id@ == protocol_program_id@ {
                            lemma_registered_somewhere(old(self)@, protocol_program_id@, i);
                        }
                    } else {
                        assert(self@[i] == old(self)@[i]);
                        assert(self@[j] == old(self)@[j]);
                    }
                }
                assert forall|i: int| 0 <= i < self@.len() implies (#[trigger] self@[i]).wf()
                    && self@[i].vault == self.vault by {
                    if i < self@.len() - 1 {
                        assert(self@[i] == old(self)@[i]);
                    }
                }
            }
        }
        Ok(adapter)
    }

    /// Refreshes the yield figures of the adapter registered for
    /// `adapter_ref` and stamps the time; every other adapter stays as it
    /// is. Fails with `AdapterNotFound` exactly when none is registered.
    pub fn update_yield_data(
        &mut self,
        adapter_ref: &Address,
        apy: u32,
        liquidity: u64,
        now: i64,
    ) -> (result: Result<(), VaultError>)
        ensures
            result is Ok <==> is_registered(old(self)@, adapter_ref@),
            result matches Err(e) ==> e == VaultError::AdapterNotFound && final(self)@ == old(self)@,
            final(self).vault == old(self).vault,
            result is Ok ==> final(self)@ == old(self)@.update(
                position_of(old(self)@, adapter_ref@),
                ProtocolAdapter {
                    current_apy: apy,
                    available_liquidity: liquidity,
                    last_update_timestamp: now,
                    updated_at: now,
                    ..old(self)@[position_of(old(self)@, adapter_ref@)]
                },
            ),
            old(self).wf() ==> final(self).wf(),
    {
        match self.find(adapter_ref) {
            Some(i) => {
                let mut adapter = self.adapters[i];
                adapter.update_yield_data(apy, liquidity, now);
                self.adapters[i] = adapter;
                proof {
                    if old(self).wf() {
                        assert forall|a: int, b: int| 0 <= a < b < self@.len() implies (
                        #[trigger] self@[a]).protocol_program_id@ != (
                        #[trigger] self@[b]).protocol_program_id@ by {
                            assert(self@[a].protocol_program_id == old(self)@[a].protocol_program_id);
                            assert(self@[b].protocol_program_id == old(self)@[b].protocol_program_id);
                        }
                        assert forall|a: int| 0 <= a < self@.len() implies (#[trigger] self@[a]).wf()
                            && self@[a].vault == self.vault by {
                            assert(self@[a].max_allocation_percentage == old(
                                self,
                            )@[a].max_allocation_percentage);
                            assert(self@[a].vault == old(self)@[a].vault);
                        }
                    }
                }
                Ok(())
            },
            None => Err(VaultError::AdapterNotFound),
        }
    }
}

/// An adapter found anywhere in the registry is registered.
pub proof fn lemma_registered_somewhere(adapters: Seq<ProtocolAdapter>, program: Seq<u8>, i: int)
    requires
        0 <= i < adapters.len(),
        adapters[i].protocol_program_id@ == program,
    ensures
        is_registered(adapters, program),
    decreases i,
{
    if forall|j: int| 0 <= j < i ==> (#[trigger] adapters[j]).protocol_program_id@ != program {
        assert(is_position_of(adapters, program, i));
    } else {
        let j = choose|j: int| 0 <= j < i && (#[trigger] adapters[j]).protocol_program_id@ == program;
        lemma_registered_somewhere(adapters, program, j);
    }
}

} // verus!
