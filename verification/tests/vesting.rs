use subscription::deposit::{clone_deposits, Deposit};
use subscription::ledger::Ledger;
use subscription::vesting::{
    elapsed_periods, narrow_periods, withdrawable_amount, FULL_PERIOD, SECOND,
};

fn deposit(memo: &str, amount: u128, created: u64) -> Deposit {
    Deposit { memo: memo.to_string(), amount, paid: 0, created }
}

#[test]
fn constants_are_one_second_and_twelve_periods() {
    assert_eq!(SECOND, 1_000_000_000);
    assert_eq!(FULL_PERIOD, 12);
}

#[test]
fn elapsed_periods_divides_and_drops_the_remainder() {
    assert_eq!(elapsed_periods(0, 0, SECOND, FULL_PERIOD), 0);
    assert_eq!(elapsed_periods(0, 999_999_999, SECOND, FULL_PERIOD), 0);
    assert_eq!(elapsed_periods(0, 1_000_000_000, SECOND, FULL_PERIOD), 1);
    assert_eq!(elapsed_periods(7, 3_000_000_006, SECOND, FULL_PERIOD), 2);
    assert_eq!(elapsed_periods(7, 3_000_000_007, SECOND, FULL_PERIOD), 3);
    assert_eq!(elapsed_periods(10, 110, 7, FULL_PERIOD), 14);
    assert_eq!(elapsed_periods(0, u64::MAX, 1, FULL_PERIOD), u64::MAX);
}

#[test]
fn elapsed_periods_is_not_clamped_to_the_cap() {
    assert_eq!(elapsed_periods(0, 13_000_000_000, SECOND, 12), 13);
    assert_eq!(elapsed_periods(0, 500_000_000_000, SECOND, 12), 500);
    assert_eq!(elapsed_periods(0, 500_000_000_000, SECOND, 0), 500);
    assert_eq!(elapsed_periods(0, 500_000_000_000, SECOND, 255), 500);
}

#[test]
fn elapsed_periods_is_zero_when_the_clock_lies_before_creation() {
    assert_eq!(elapsed_periods(5_000_000_000, 1_000_000_000, SECOND, FULL_PERIOD), 0);
    assert_eq!(elapsed_periods(u64::MAX, 0, 1, FULL_PERIOD), 0);
}

#[test]
fn narrow_periods_keeps_the_low_eight_bits() {
    assert_eq!(narrow_periods(0), 0);
    assert_eq!(narrow_periods(12), 12);
    assert_eq!(narrow_periods(255), 255);
    assert_eq!(narrow_periods(256), 0);
    assert_eq!(narrow_periods(257), 1);
    assert_eq!(narrow_periods(1000), 232);
    assert_eq!(narrow_periods(u64::MAX), 255);
}

#[test]
fn withdrawable_amount_is_portion_times_open_periods() {
    assert_eq!(withdrawable_amount(1200, 0, 12), 1200);
    assert_eq!(withdrawable_amount(1200, 1, 12), 1100);
    assert_eq!(withdrawable_amount(1200, 11, 12), 100);
    assert_eq!(withdrawable_amount(1200, 12, 12), 0);
    assert_eq!(withdrawable_amount(1211, 0, 12), 1200);
    assert_eq!(withdrawable_amount(1211, 5, 12), 700);
    assert_eq!(withdrawable_amount(11, 0, 12), 0);
    assert_eq!(withdrawable_amount(0, 3, 12), 0);
    assert_eq!(withdrawable_amount(100, 1, 3), 66);
    assert_eq!(withdrawable_amount(u128::MAX, 0, 1), u128::MAX);
    assert_eq!(withdrawable_amount(u128::MAX, 0, 255), u128::MAX - u128::MAX % 255);
}

#[test]
fn withdrawable_amount_shrinks_as_periods_are_counted() {
    let mut last = u128::MAX;
    for paid in 0..=12u8 {
        let value = withdrawable_amount(10u128.pow(24), paid, FULL_PERIOD);
        assert!(value < last);
        assert_eq!(value, 83_333_333_333_333_333_333_333 * (12 - paid as u128));
        last = value;
    }
}

#[test]
fn clone_of_a_deposit_keeps_its_fields() {
    let first = Deposit { memo: "memo".to_string(), amount: 9, paid: 4, created: 77 };
    let copy = first.clone();
    assert_eq!(copy.memo, "memo");
    assert_eq!(copy.amount, 9);
    assert_eq!(copy.paid, 4);
    assert_eq!(copy.created, 77);
}

#[test]
fn clone_deposits_keeps_order_and_fields() {
    let items = vec![deposit("a", 1, 10), deposit("b", 2, 20), deposit("c", 3, 30)];
    let copy = clone_deposits(&items);
    assert_eq!(copy.len(), 3);
    for (left, right) in items.iter().zip(copy.iter()) {
        assert_eq!(left.memo, right.memo);
        assert_eq!(left.amount, right.amount);
        assert_eq!(left.paid, right.paid);
        assert_eq!(left.created, right.created);
    }
    assert!(clone_deposits(&Vec::new()).is_empty());
}

#[test]
fn ledger_starts_empty() {
    let ledger = Ledger::new();
    assert!(ledger.get(&"bob.testnet".to_string()).is_empty());
    assert!(ledger.get(&String::new()).is_empty());
}

#[test]
fn ledger_append_adds_at_the_end() {
    let mut ledger = Ledger::new();
    let bob = "bob.testnet".to_string();
    let carol = "carol.testnet".to_string();
    ledger.append(bob.clone(), deposit("b0", 1, 0));
    ledger.append(carol.clone(), deposit("c0", 2, 0));
    ledger.append(bob.clone(), deposit("b1", 3, 0));
    let of_bob = ledger.get(&bob);
    assert_eq!(of_bob.len(), 2);
    assert_eq!(of_bob[0].memo, "b0");
    assert_eq!(of_bob[1].memo, "b1");
    assert_eq!(of_bob[1].amount, 3);
    let of_carol = ledger.get(&carol);
    assert_eq!(of_carol.len(), 1);
    assert_eq!(of_carol[0].memo, "c0");
}

#[test]
fn ledger_replace_overwrites_one_account() {
    let mut ledger = Ledger::new();
    let bob = "bob.testnet".to_string();
    let carol = "carol.testnet".to_string();
    ledger.append(bob.clone(), deposit("b0", 1, 0));
    ledger.append(carol.clone(), deposit("c0", 2, 0));
    ledger.replace(bob.clone(), vec![deposit("x", 7, 1), deposit("y", 8, 2), deposit("z", 9, 3)]);
    let of_bob = ledger.get(&bob);
    assert_eq!(of_bob.len(), 3);
    assert_eq!(of_bob[0].memo, "x");
    assert_eq!(of_bob[2].amount, 9);
    assert_eq!(ledger.get(&carol).len(), 1);
    ledger.replace(carol.clone(), Vec::new());
    assert!(ledger.get(&carol).is_empty());
    assert_eq!(ledger.get(&bob).len(), 3);
    ledger.replace("dave.testnet".to_string(), vec![deposit("d", 1, 1)]);
    assert_eq!(ledger.get(&"dave.testnet".to_string()).len(), 1);
    assert_eq!(ledger.get(&bob).len(), 3);
}
