use defi_yield_optimizer::address::Address;
use defi_yield_optimizer::constants::{MAX_PROTOCOL_ADAPTERS, MAX_REBALANCING_PERCENTAGE};
use defi_yield_optimizer::error::VaultError;
use defi_yield_optimizer::instructions::{initialize_protocol_adapter, update_yield_data};
use defi_yield_optimizer::state::{ProtocolAdapter, ProtocolAdapterRegistry, ProtocolType};

fn addr(tag: u8) -> Address {
    Address::new([tag; 32])
}

fn adapter(max_allocation_percentage: u8) -> ProtocolAdapter {
    initialize_protocol_adapter::handler(addr(1), addr(2), 0, max_allocation_percentage, 50).unwrap()
}

#[test]
fn addresses_compare_by_their_bytes() {
    let mut bytes = [7u8; 32];
    let a = Address::new(bytes);
    assert!(a.same(&Address::new([7u8; 32])));
    bytes[31] = 8;
    assert!(!a.same(&Address::new(bytes)));
    bytes[31] = 7;
    bytes[0] = 6;
    assert!(!a.same(&Address::new(bytes)));
    assert_eq!(Address::zero().bytes, [0u8; 32]);
    assert!(Address::zero().same(&Address::new([0u8; 32])));
}

#[test]
fn protocol_codes_decode() {
    assert_eq!(ProtocolType::from_code(0), ProtocolType::Kamino);
    assert_eq!(ProtocolType::from_code(1), ProtocolType::Drift);
    assert_eq!(ProtocolType::from_code(2), ProtocolType::Meteora);
    assert_eq!(ProtocolType::from_code(3), ProtocolType::Marinade);
    assert_eq!(ProtocolType::from_code(4), ProtocolType::Jito);
    assert_eq!(ProtocolType::from_code(5), ProtocolType::Sanctum);
    assert_eq!(ProtocolType::from_code(6), ProtocolType::Other);
}

#[test]
fn unknown_protocol_codes_decode_to_other() {
    for code in 6..=255u8 {
        assert_eq!(ProtocolType::from_code(code), ProtocolType::Other);
    }
}

#[test]
fn initialized_adapter_has_every_field_set() {
    let made = initialize_protocol_adapter::handler(addr(1), addr(2), 4, 35, 777).unwrap();
    assert_eq!(
        made,
        ProtocolAdapter {
            vault: addr(1),
            protocol_program_id: addr(2),
            protocol_type: ProtocolType::Jito,
            current_apy: 0,
            available_liquidity: 0,
            deposited_amount: 0,
            last_update_timestamp: 777,
            max_allocation_percentage: 35,
            is_active: true,
            protocol_specific_data: [0u8; 64],
            created_at: 777,
            updated_at: 777,
        }
    );
}

#[test]
fn adapter_cap_is_enforced_at_initialization() {
    assert!(initialize_protocol_adapter::handler(addr(1), addr(2), 0, MAX_REBALANCING_PERCENTAGE, 0)
        .is_ok());
    assert_eq!(
        initialize_protocol_adapter::handler(addr(1), addr(2), 0, MAX_REBALANCING_PERCENTAGE + 1, 0),
        Err(VaultError::AllocationExceedsMaximum)
    );
    assert_eq!(
        initialize_protocol_adapter::handler(addr(1), addr(2), 200, 255, 0),
        Err(VaultError::AllocationExceedsMaximum)
    );
}

#[test]
fn update_yield_data_overwrites_and_stamps() {
    let mut a = adapter(20);
    a.deposited_amount = 12;
    a.update_yield_data(850, 1_000_000, 99);
    assert_eq!(a.current_apy, 850);
    assert_eq!(a.available_liquidity, 1_000_000);
    assert_eq!(a.last_update_timestamp, 99);
    assert_eq!(a.updated_at, 99);
    assert_eq!(a.created_at, 50);
    assert_eq!(a.deposited_amount, 12);
    assert_eq!(a.max_allocation_percentage, 20);

    let mut b = adapter(20);
    update_yield_data::handler(&mut b, 1, 2, 3);
    assert_eq!(
        (b.current_apy, b.available_liquidity, b.last_update_timestamp, b.updated_at, b.created_at),
        (1, 2, 3, 3, 50)
    );
}

#[test]
fn adapter_deposit_and_withdraw_are_checked() {
    let mut a = adapter(20);
    assert_eq!(a.deposit(100), Ok(()));
    assert_eq!(a.deposit(u64::MAX - 99), Err(VaultError::MathOverflow));
    assert_eq!(a.deposited_amount, 100);
    assert_eq!(a.deposit(u64::MAX - 100), Ok(()));
    assert_eq!(a.deposited_amount, u64::MAX);
    assert_eq!(a.withdraw(u64::MAX - 40), Ok(()));
    assert_eq!(a.deposited_amount, 40);
    assert_eq!(a.withdraw(41), Err(VaultError::MathOverflow));
    assert_eq!(a.deposited_amount, 40);
    assert_eq!(a.withdraw(40), Ok(()));
    assert_eq!(a.deposited_amount, 0);
}

#[test]
fn effective_apy_is_zero_when_inactive_or_illiquid() {
    let mut a = adapter(20);
    a.update_yield_data(850, 0, 1);
    assert_eq!(a.get_effective_apy(), 0);
    a.update_yield_data(850, 1, 2);
    assert_eq!(a.get_effective_apy(), 850);
    a.is_active = false;
    assert_eq!(a.get_effective_apy(), 0);
}

#[test]
fn can_deposit_needs_activity_and_liquidity() {
    let mut a = adapter(20);
    a.update_yield_data(850, 500, 1);
    assert!(a.can_deposit(0));
    assert!(a.can_deposit(500));
    assert!(!a.can_deposit(501));
    a.is_active = false;
    assert!(!a.can_deposit(0));
    assert!(!a.can_deposit(500));
}

#[test]
fn registry_registers_in_order() {
    let mut registry = ProtocolAdapterRegistry::new(addr(1));
    assert_eq!(registry.len(), 0);
    let first = registry.register_adapter(addr(10), 1, 30, 5).unwrap();
    assert_eq!(
        first,
        initialize_protocol_adapter::handler(addr(1), addr(10), 1, 30, 5).unwrap()
    );
    let later = registry.register_adapter(addr(11), 9, 50, 6).unwrap();
    assert_eq!(registry.adapters, vec![first, later]);
    assert_eq!(registry.len(), 2);
    assert_eq!(registry.find(&addr(10)), Some(0));
    assert_eq!(registry.find(&addr(11)), Some(1));
    assert_eq!(registry.find(&addr(12)), None);
    let second = registry.lookup(&addr(11)).unwrap();
    assert_eq!(second.vault, addr(1));
    assert_eq!(second.protocol_type, ProtocolType::Other);
    assert_eq!(second.max_allocation_percentage, 50);
    assert_eq!(second.created_at, 6);
    assert!(second.is_active);
    assert_eq!(registry.lookup(&addr(12)), None);
    assert_eq!(registry.allowed_percentage(&addr(10)), 30);
    assert_eq!(registry.allowed_percentage(&addr(11)), 50);
    assert_eq!(registry.allowed_percentage(&addr(12)), 0);
}

#[test]
fn registry_rejects_a_cap_above_the_global_one() {
    let mut registry = ProtocolAdapterRegistry::new(addr(1));
    assert_eq!(
        registry.register_adapter(addr(10), 1, 51, 5),
        Err(VaultError::AllocationExceedsMaximum)
    );
    assert_eq!(registry.len(), 0);
}

#[test]
fn registry_rejects_a_second_adapter_for_one_program() {
    let mut registry = ProtocolAdapterRegistry::new(addr(1));
    assert!(registry.register_adapter(addr(10), 1, 30, 5).is_ok());
    let before = registry.clone();
    assert_eq!(
        registry.register_adapter(addr(10), 2, 10, 6),
        Err(VaultError::AdapterAlreadyInitialized)
    );
    assert_eq!(registry, before);
}

#[test]
fn registry_is_full_at_capacity() {
    let mut registry = ProtocolAdapterRegistry::new(addr(1));
    for i in 0..MAX_PROTOCOL_ADAPTERS {
        assert!(registry.register_adapter(addr(10 + i as u8), 0, 10, 5).is_ok());
    }
    assert_eq!(registry.len(), MAX_PROTOCOL_ADAPTERS);
    let before = registry.clone();
    assert_eq!(
        registry.register_adapter(addr(200), 0, 10, 5),
        Err(VaultError::MaxAdaptersReached)
    );
    assert_eq!(
        registry.register_adapter(addr(10), 0, 10, 5),
        Err(VaultError::MaxAdaptersReached)
    );
    assert_eq!(
        registry.register_adapter(addr(200), 0, 99, 5),
        Err(VaultError::AllocationExceedsMaximum)
    );
    assert_eq!(registry, before);
}

#[test]
fn registry_refreshes_one_entry() {
    let mut registry = ProtocolAdapterRegistry::new(addr(1));
    registry.register_adapter(addr(10), 1, 30, 5).unwrap();
    registry.register_adapter(addr(11), 2, 40, 6).unwrap();
    let untouched = registry.lookup(&addr(10)).unwrap();
    assert_eq!(registry.update_yield_data(&addr(11), 900, 12_345, 77), Ok(()));
    let refreshed = registry.lookup(&addr(11)).unwrap();
    assert_eq!(refreshed.current_apy, 900);
    assert_eq!(refreshed.available_liquidity, 12_345);
    assert_eq!(refreshed.last_update_timestamp, 77);
    assert_eq!(refreshed.updated_at, 77);
    assert_eq!(refreshed.created_at, 6);
    assert_eq!(refreshed.max_allocation_percentage, 40);
    assert_eq!(registry.lookup(&addr(10)).unwrap(), untouched);
    assert_eq!(registry.len(), 2);
}

#[test]
fn registry_reports_an_unknown_adapter() {
    let mut registry = ProtocolAdapterRegistry::new(addr(1));
    registry.register_adapter(addr(10), 1, 30, 5).unwrap();
    let before = registry.clone();
    assert_eq!(
        registry.update_yield_data(&addr(11), 900, 12_345, 77),
        Err(VaultError::AdapterNotFound)
    );
    assert_eq!(registry, before);
}
