use castpay_paymaster::address::Address;
use castpay_paymaster::error::PaymasterError;
use castpay_paymaster::ledger::BalanceLedger;
use castpay_paymaster::uint::U256;

fn n(value: u64) -> U256 {
    U256::from_u64(value)
}

fn account(tag: u8) -> Address {
    Address::new([tag; 20])
}

#[test]
fn new_ledger_holds_nothing() {
    let ledger = BalanceLedger::new();
    assert_eq!(ledger.balance_of(&account(1)), n(0));
    assert_eq!(ledger.total_deposited(), n(0));
}

#[test]
fn ledger_deposit_raises_balance_and_counter() {
    let mut ledger = BalanceLedger::new();
    assert_eq!(ledger.deposit(account(1), n(40)), Ok(n(40)));
    assert_eq!(ledger.deposit(account(1), n(2)), Ok(n(42)));
    assert_eq!(ledger.deposit(account(2), n(8)), Ok(n(8)));
    assert_eq!(ledger.balance_of(&account(1)), n(42));
    assert_eq!(ledger.balance_of(&account(2)), n(8));
    assert_eq!(ledger.balance_of(&account(3)), n(0));
    assert_eq!(ledger.total_deposited(), n(50));
}

#[test]
fn ledger_deposit_of_zero_is_invalid() {
    let mut ledger = BalanceLedger::new();
    assert_eq!(ledger.deposit(account(1), n(0)), Err(PaymasterError::InvalidAmount));
    assert_eq!(ledger.check_deposit(&account(1), n(0)), Err(PaymasterError::InvalidAmount));
    assert_eq!(ledger.balance_of(&account(1)), n(0));
    assert_eq!(ledger.total_deposited(), n(0));
}

#[test]
fn ledger_deposit_overflow_of_the_balance() {
    let mut ledger = BalanceLedger::new();
    assert_eq!(ledger.credit(account(1), U256::max_value()), Ok(U256::max_value()));
    assert_eq!(ledger.deposit(account(1), n(1)), Err(PaymasterError::ArithmeticOverflow));
    assert_eq!(ledger.balance_of(&account(1)), U256::max_value());
    assert_eq!(ledger.total_deposited(), n(0));
}

#[test]
fn ledger_deposit_overflow_of_the_counter() {
    let mut ledger = BalanceLedger::window(U256::max_value(), n(0), account(1), n(0)).unwrap();
    assert_eq!(ledger.deposit(account(1), n(1)), Err(PaymasterError::ArithmeticOverflow));
    assert_eq!(ledger.balance_of(&account(1)), n(0));
    assert_eq!(ledger.total_deposited(), U256::max_value());
}

#[test]
fn ledger_check_deposit_changes_nothing() {
    let mut ledger = BalanceLedger::new();
    ledger.deposit(account(1), n(5)).unwrap();
    assert_eq!(ledger.check_deposit(&account(1), n(7)), Ok(n(12)));
    assert_eq!(ledger.balance_of(&account(1)), n(5));
    assert_eq!(ledger.total_deposited(), n(5));
}

#[test]
fn ledger_withdraw_lowers_balance_and_counter() {
    let mut ledger = BalanceLedger::new();
    ledger.deposit(account(1), n(50)).unwrap();
    assert_eq!(ledger.withdraw(account(1), n(20)), Ok(n(30)));
    assert_eq!(ledger.balance_of(&account(1)), n(30));
    assert_eq!(ledger.total_deposited(), n(30));
    assert_eq!(ledger.withdraw(account(1), n(30)), Ok(n(0)));
    assert_eq!(ledger.balance_of(&account(1)), n(0));
    assert_eq!(ledger.total_deposited(), n(0));
}

#[test]
fn ledger_withdraw_of_zero_is_allowed() {
    let mut ledger = BalanceLedger::new();
    assert_eq!(ledger.withdraw(account(1), n(0)), Ok(n(0)));
}

#[test]
fn ledger_withdraw_more_than_held_is_refused() {
    let mut ledger = BalanceLedger::new();
    ledger.deposit(account(1), n(50)).unwrap();
    assert_eq!(ledger.withdraw(account(1), n(51)), Err(PaymasterError::InsufficientBalance));
    assert_eq!(ledger.withdraw(account(2), n(1)), Err(PaymasterError::InsufficientBalance));
    assert_eq!(ledger.balance_of(&account(1)), n(50));
    assert_eq!(ledger.total_deposited(), n(50));
}

#[test]
fn ledger_counter_stops_at_zero() {
    let mut ledger = BalanceLedger::new();
    ledger.deposit(account(1), n(10)).unwrap();
    ledger.credit(account(1), n(5)).unwrap();
    assert_eq!(ledger.total_deposited(), n(10));
    assert_eq!(ledger.withdraw(account(1), n(15)), Ok(n(0)));
    assert_eq!(ledger.total_deposited(), n(0));
}

#[test]
fn ledger_try_deduct_leaves_the_counter() {
    let mut ledger = BalanceLedger::new();
    ledger.deposit(account(1), n(50)).unwrap();
    assert_eq!(ledger.try_deduct(account(1), n(20)), Ok(n(30)));
    assert_eq!(ledger.balance_of(&account(1)), n(30));
    assert_eq!(ledger.total_deposited(), n(50));
}

#[test]
fn ledger_try_deduct_without_funds_changes_nothing() {
    let mut ledger = BalanceLedger::new();
    ledger.deposit(account(1), n(50)).unwrap();
    assert_eq!(ledger.try_deduct(account(1), n(60)), Err(PaymasterError::InsufficientBalance));
    assert_eq!(ledger.check_take(&account(1), n(60)), Err(PaymasterError::InsufficientBalance));
    assert_eq!(ledger.check_take(&account(1), n(50)), Ok(n(0)));
    assert_eq!(ledger.balance_of(&account(1)), n(50));
    assert_eq!(ledger.total_deposited(), n(50));
}

#[test]
fn ledger_credit_gives_back() {
    let mut ledger = BalanceLedger::new();
    ledger.deposit(account(1), n(50)).unwrap();
    ledger.try_deduct(account(1), n(20)).unwrap();
    assert_eq!(ledger.credit(account(1), n(5)), Ok(n(35)));
    assert_eq!(ledger.credit(account(2), n(0)), Ok(n(0)));
    assert_eq!(ledger.balance_of(&account(1)), n(35));
    assert_eq!(ledger.total_deposited(), n(50));
}

#[test]
fn ledger_credit_overflow_is_refused() {
    let mut ledger = BalanceLedger::new();
    ledger.credit(account(1), U256::max_value()).unwrap();
    assert_eq!(ledger.credit(account(1), n(1)), Err(PaymasterError::ArithmeticOverflow));
    assert_eq!(ledger.balance_of(&account(1)), U256::max_value());
}

#[test]
fn ledger_accounts_are_independent() {
    let mut ledger = BalanceLedger::new();
    for tag in 0..50u8 {
        ledger.deposit(account(tag), n(tag as u64 + 1)).unwrap();
    }
    ledger.withdraw(account(7), n(3)).unwrap();
    for tag in 0..50u8 {
        let expected = if tag == 7 { 5 } else { tag as u64 + 1 };
        assert_eq!(ledger.balance_of(&account(tag)), n(expected));
    }
    assert_eq!(ledger.total_deposited(), n(50 * 51 / 2 - 3));
}

#[test]
fn ledger_tells_accounts_apart_by_every_byte() {
    let mut ledger = BalanceLedger::new();
    let mut first = [0u8; 20];
    let mut second = [0u8; 20];
    first[19] = 1;
    second[0] = 1;
    ledger.deposit(Address::new(first), n(1)).unwrap();
    ledger.deposit(Address::new(second), n(2)).unwrap();
    assert_eq!(ledger.balance_of(&Address::new(first)), n(1));
    assert_eq!(ledger.balance_of(&Address::new(second)), n(2));
    assert_eq!(ledger.balance_of(&Address::zero()), n(0));
}

#[test]
fn ledger_total_held_is_the_sum_of_all_balances() {
    let mut ledger = BalanceLedger::new();
    assert_eq!(ledger.total_held(), Ok(n(0)));
    ledger.deposit(account(1), n(50)).unwrap();
    ledger.deposit(account(2), n(8)).unwrap();
    ledger.credit(account(3), n(4)).unwrap();
    assert_eq!(ledger.total_held(), Ok(n(62)));
    ledger.try_deduct(account(1), n(20)).unwrap();
    assert_eq!(ledger.total_held(), Ok(n(42)));
    ledger.withdraw(account(2), n(8)).unwrap();
    assert_eq!(ledger.total_held(), Ok(n(34)));
    assert_eq!(ledger.withdraw(account(2), n(1)), Err(PaymasterError::InsufficientBalance));
    assert_eq!(ledger.total_held(), Ok(n(34)));
}

#[test]
fn ledger_total_held_overflow() {
    let mut ledger = BalanceLedger::new();
    ledger.credit(account(1), U256::max_value()).unwrap();
    assert_eq!(ledger.total_held(), Ok(U256::max_value()));
    ledger.credit(account(2), n(1)).unwrap();
    assert_eq!(ledger.total_held(), Err(PaymasterError::ArithmeticOverflow));
}

#[test]
fn ledger_window_carries_what_others_hold() {
    let mut ledger = BalanceLedger::window(n(900), n(500), account(1), n(220)).unwrap();
    assert_eq!(ledger.balance_of(&account(1)), n(220));
    assert_eq!(ledger.balance_of(&account(2)), n(0));
    assert_eq!(ledger.total_held(), Ok(n(500)));
    assert_eq!(ledger.total_deposited(), n(900));
    assert_eq!(ledger.try_deduct(account(1), n(20)), Ok(n(200)));
    assert_eq!(ledger.total_held(), Ok(n(480)));
    assert_eq!(ledger.deposit(account(1), n(5)), Ok(n(205)));
    assert_eq!(ledger.total_held(), Ok(n(485)));
    assert_eq!(ledger.total_deposited(), n(905));
}

#[test]
fn ledger_window_refuses_a_balance_above_the_sum() {
    assert!(BalanceLedger::window(n(900), n(219), account(1), n(220)).is_none());
    assert!(BalanceLedger::window(n(900), n(220), account(1), n(220)).is_some());
    assert!(BalanceLedger::window(n(0), n(0), account(1), n(0)).is_some());
}
