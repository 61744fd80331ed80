use magicvial::address::Address;
use magicvial::errors::{CraftingError, ErrorKind};
use magicvial::ledger::{Ingredient, MaterialLedger};

fn id(tag: u8) -> Address {
    Address::new([tag; 32])
}

fn need(kind: u8, quantity: u64) -> Ingredient {
    Ingredient { material_mint: id(kind), quantity }
}

#[test]
fn new_ledger_holds_nothing() {
    let ledger = MaterialLedger::new();
    assert_eq!(ledger.balance(&id(1), &id(2)), 0);
}

#[test]
fn credit_adds_to_one_balance_only() {
    let mut ledger = MaterialLedger::new();
    assert_eq!(ledger.credit(id(1), id(10), 5), Ok(()));
    assert_eq!(ledger.balance(&id(1), &id(10)), 5);
    assert_eq!(ledger.balance(&id(1), &id(11)), 0);
    assert_eq!(ledger.balance(&id(2), &id(10)), 0);
    assert_eq!(ledger.credit(id(1), id(10), 7), Ok(()));
    assert_eq!(ledger.balance(&id(1), &id(10)), 12);
    assert_eq!(ledger.credit(id(2), id(10), 1), Ok(()));
    assert_eq!(ledger.balance(&id(1), &id(10)), 12);
    assert_eq!(ledger.balance(&id(2), &id(10)), 1);
}

#[test]
fn credit_is_refused_where_the_balance_would_overflow() {
    let mut ledger = MaterialLedger::new();
    assert_eq!(ledger.credit(id(1), id(10), u64::MAX), Ok(()));
    assert_eq!(ledger.credit(id(1), id(10), 1), Err(CraftingError::ArithmeticOverflow));
    assert_eq!(ledger.balance(&id(1), &id(10)), u64::MAX);
    assert_eq!(ledger.credit(id(1), id(10), 0), Ok(()));
}

#[test]
fn debit_takes_from_one_balance_only() {
    let mut ledger = MaterialLedger::new();
    ledger.credit(id(1), id(10), 9).unwrap();
    ledger.credit(id(1), id(11), 4).unwrap();
    assert_eq!(ledger.debit(id(1), id(10), 3), Ok(()));
    assert_eq!(ledger.balance(&id(1), &id(10)), 6);
    assert_eq!(ledger.balance(&id(1), &id(11)), 4);
    assert_eq!(ledger.debit(id(1), id(10), 6), Ok(()));
    assert_eq!(ledger.balance(&id(1), &id(10)), 0);
}

#[test]
fn debit_of_more_than_is_held_changes_nothing() {
    let mut ledger = MaterialLedger::new();
    ledger.credit(id(1), id(10), 9).unwrap();
    let error = ledger.debit(id(1), id(10), 10);
    assert_eq!(
        error,
        Err(CraftingError::InsufficientMaterialBalance { kind: id(10), required: 10, available: 9 })
    );
    assert_eq!(error.unwrap_err().kind(), ErrorKind::Resource);
    assert_eq!(ledger.balance(&id(1), &id(10)), 9);
    assert_eq!(
        ledger.debit(id(2), id(10), 1),
        Err(CraftingError::InsufficientMaterialBalance { kind: id(10), required: 1, available: 0 })
    );
    assert_eq!(ledger.debit(id(2), id(10), 0), Ok(()));
}

#[test]
fn batch_debits_every_requirement() {
    let mut ledger = MaterialLedger::new();
    ledger.credit(id(1), id(10), 9).unwrap();
    ledger.credit(id(1), id(11), 4).unwrap();
    ledger.credit(id(2), id(10), 50).unwrap();
    assert_eq!(ledger.debit_batch(id(1), &vec![need(10, 3), need(11, 4)]), Ok(()));
    assert_eq!(ledger.balance(&id(1), &id(10)), 6);
    assert_eq!(ledger.balance(&id(1), &id(11)), 0);
    assert_eq!(ledger.balance(&id(2), &id(10)), 50);
}

#[test]
fn batch_that_fails_at_its_second_debit_removes_nothing() {
    let mut ledger = MaterialLedger::new();
    ledger.credit(id(1), id(10), 9).unwrap();
    ledger.credit(id(1), id(11), 4).unwrap();
    ledger.credit(id(1), id(12), 7).unwrap();
    let result = ledger.debit_batch(id(1), &vec![need(10, 3), need(11, 5), need(12, 1)]);
    assert_eq!(
        result,
        Err(CraftingError::InsufficientMaterialBalance { kind: id(11), required: 5, available: 4 })
    );
    assert_eq!(ledger.balance(&id(1), &id(10)), 9);
    assert_eq!(ledger.balance(&id(1), &id(11)), 4);
    assert_eq!(ledger.balance(&id(1), &id(12)), 7);
}

#[test]
fn batch_that_asks_twice_for_one_kind_debits_the_sum() {
    let mut ledger = MaterialLedger::new();
    ledger.credit(id(1), id(10), 9).unwrap();
    assert_eq!(ledger.debit_batch(id(1), &vec![need(10, 4), need(10, 5)]), Ok(()));
    assert_eq!(ledger.balance(&id(1), &id(10)), 0);
}

#[test]
fn batch_that_asks_twice_for_one_kind_fails_at_the_debit_that_finds_too_little() {
    let mut ledger = MaterialLedger::new();
    ledger.credit(id(1), id(10), 7).unwrap();
    // each debit alone would fit; the second finds 2 left
    assert_eq!(
        ledger.debit_batch(id(1), &vec![need(10, 5), need(10, 5)]),
        Err(CraftingError::InsufficientMaterialBalance { kind: id(10), required: 5, available: 2 })
    );
    assert_eq!(ledger.balance(&id(1), &id(10)), 7);
}

#[test]
fn batch_reports_the_first_debit_that_fails() {
    let mut ledger = MaterialLedger::new();
    ledger.credit(id(1), id(10), 1).unwrap();
    assert_eq!(
        ledger.debit_batch(id(1), &vec![need(11, 2), need(10, 5)]),
        Err(CraftingError::InsufficientMaterialBalance { kind: id(11), required: 2, available: 0 })
    );
    assert_eq!(ledger.balance(&id(1), &id(10)), 1);
}

#[test]
fn empty_batch_changes_nothing() {
    let mut ledger = MaterialLedger::new();
    ledger.credit(id(1), id(10), 1).unwrap();
    assert_eq!(ledger.debit_batch(id(1), &Vec::new()), Ok(()));
    assert_eq!(ledger.balance(&id(1), &id(10)), 1);
}

#[test]
fn duplicate_has_the_same_balances_and_a_life_of_its_own() {
    let mut ledger = MaterialLedger::new();
    ledger.credit(id(1), id(10), 9).unwrap();
    let mut copy = ledger.duplicate();
    assert_eq!(copy.balance(&id(1), &id(10)), 9);
    copy.debit(id(1), id(10), 9).unwrap();
    assert_eq!(copy.balance(&id(1), &id(10)), 0);
    assert_eq!(ledger.balance(&id(1), &id(10)), 9);
}
