use defi_yield_optimizer::address::Address;
use defi_yield_optimizer::state::UserAccount;

fn addr(tag: u8) -> Address {
    Address::new([tag; 32])
}

#[test]
fn new_record_is_blank() {
    let user = UserAccount::new(addr(1), addr(2));
    assert_eq!(user.owner, addr(1));
    assert_eq!(user.vault, addr(2));
    assert_eq!(
        (user.shares_owned, user.total_deposited, user.total_withdrawn, user.realized_gains),
        (0, 0, 0, 0)
    );
    assert_eq!((user.deposit_count, user.withdrawal_count), (0, 0));
    assert_eq!(
        (
            user.last_deposit_timestamp,
            user.last_withdrawal_timestamp,
            user.created_at,
            user.updated_at
        ),
        (0, 0, 0, 0)
    );
}

#[test]
fn update_deposit_books_shares_amount_and_time() {
    let mut user = UserAccount::new(addr(1), addr(2));
    user.update_deposit(40, 50, 1234);
    user.update_deposit(2, 3, 1240);
    assert_eq!(user.shares_owned, 42);
    assert_eq!(user.total_deposited, 53);
    assert_eq!(user.deposit_count, 2);
    assert_eq!(user.last_deposit_timestamp, 1240);
    assert_eq!(user.updated_at, 1240);
    assert_eq!(user.total_withdrawn, 0);
    assert_eq!(user.withdrawal_count, 0);
    assert_eq!(user.last_withdrawal_timestamp, 0);
    assert_eq!(user.created_at, 0);
}

#[test]
fn update_deposit_saturates() {
    let mut user = UserAccount::new(addr(1), addr(2));
    user.shares_owned = u64::MAX - 1;
    user.total_deposited = u64::MAX;
    user.deposit_count = u32::MAX;
    user.update_deposit(5, 5, 9);
    assert_eq!(user.shares_owned, u64::MAX);
    assert_eq!(user.total_deposited, u64::MAX);
    assert_eq!(user.deposit_count, u32::MAX);
}

#[test]
fn update_withdrawal_books_shares_amount_and_time() {
    let mut user = UserAccount::new(addr(1), addr(2));
    user.update_deposit(100, 100, 10);
    user.update_withdrawal(30, 31, 20);
    assert_eq!(user.shares_owned, 70);
    assert_eq!(user.total_withdrawn, 31);
    assert_eq!(user.withdrawal_count, 1);
    assert_eq!(user.last_withdrawal_timestamp, 20);
    assert_eq!(user.updated_at, 20);
    assert_eq!(user.total_deposited, 100);
    assert_eq!(user.deposit_count, 1);
    assert_eq!(user.last_deposit_timestamp, 10);
    assert_eq!(user.realized_gains, 0);
}

#[test]
fn update_withdrawal_saturates() {
    let mut user = UserAccount::new(addr(1), addr(2));
    user.shares_owned = 3;
    user.total_withdrawn = u64::MAX - 2;
    user.withdrawal_count = u32::MAX;
    user.update_withdrawal(5, 7, 9);
    assert_eq!(user.shares_owned, 0);
    assert_eq!(user.total_withdrawn, u64::MAX);
    assert_eq!(user.withdrawal_count, u32::MAX);
}

#[test]
fn realized_gains_take_the_excess_over_lifetime_deposits() {
    let mut user = UserAccount::new(addr(1), addr(2));
    user.total_deposited = 1000;
    user.shares_owned = 1000;
    user.update_withdrawal(10, 1000, 1);
    assert_eq!(user.realized_gains, 0);
    user.update_withdrawal(10, 1001, 2);
    assert_eq!(user.realized_gains, 1);
    user.update_withdrawal(10, 1500, 3);
    assert_eq!(user.realized_gains, 501);
    user.update_withdrawal(10, 5, 4);
    assert_eq!(user.realized_gains, 501);
}

#[test]
fn realized_gains_saturate_and_never_fall() {
    let mut user = UserAccount::new(addr(1), addr(2));
    user.realized_gains = i64::MAX - 10;
    user.update_withdrawal(0, 10, 1);
    assert_eq!(user.realized_gains, i64::MAX);
    user.update_withdrawal(0, 1, 2);
    assert_eq!(user.realized_gains, i64::MAX);

    let mut far = UserAccount::new(addr(1), addr(2));
    far.realized_gains = -5;
    far.update_withdrawal(0, u64::MAX, 1);
    assert_eq!(far.realized_gains, i64::MAX);

    let mut negative = UserAccount::new(addr(1), addr(2));
    negative.realized_gains = i64::MIN;
    negative.total_deposited = 1;
    negative.update_withdrawal(0, u64::MAX, 1);
    assert_eq!(negative.realized_gains, i64::MAX - 1);
}
