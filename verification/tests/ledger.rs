use dex::account::AccountId;
use dex::book::AccountBook;
use dex::error::Error;
use dex::ledger::{ordered_pair, ReserveLedger};
use dex::registry::TokenRegistry;

#[test]
fn account_ids_compare_byte_for_byte() {
    let a = AccountId::new([7u8; 32]);
    let b = AccountId::new([7u8; 32]);
    let mut bytes = [7u8; 32];
    bytes[31] = 8;
    let c = AccountId::new(bytes);
    assert!(a.same_as(&b));
    assert!(!a.same_as(&c));
    assert!(!c.same_as(&a));
    assert_eq!(a.bytes, [7u8; 32]);
}

#[test]
fn registry_registers_once() {
    let mut registry = TokenRegistry::new();
    let gold = AccountId::new([1u8; 32]);
    let iron = AccountId::new([2u8; 32]);
    assert_eq!(registry.resolve(1), None);
    assert_eq!(registry.register(1, gold), Ok(()));
    assert_eq!(registry.resolve(1), Some(gold));
    assert_eq!(registry.register(1, iron), Err(Error::DuplicateId));
    assert_eq!(registry.resolve(1), Some(gold));
    assert_eq!(registry.register(2, iron), Ok(()));
    assert_eq!(registry.resolve(2), Some(iron));
}

#[test]
fn ledger_starts_empty() {
    let ledger = ReserveLedger::new();
    assert_eq!(ledger.get_pair(1, 2), Err(Error::NoPoolFound));
    assert_eq!(ledger.get_pair(4, 4), Err(Error::SameTokensNotAllowed));
    assert_eq!(ledger.get_aggregate(1), Err(Error::UnknownToken));
}

#[test]
fn credit_pair_creates_then_grows() {
    let mut ledger = ReserveLedger::new();
    assert_eq!(ledger.credit_pair(5, 3, 10, 20), Ok(()));
    assert_eq!(ledger.get_pair(5, 3), Ok((10, 20)));
    assert_eq!(ledger.get_pair(3, 5), Ok((20, 10)));
    assert_eq!(ledger.credit_pair(3, 5, 1, 2), Ok(()));
    assert_eq!(ledger.get_pair(3, 5), Ok((21, 12)));
    assert_eq!(ledger.get_pair(5, 3), Ok((12, 21)));
    assert_eq!(ledger.get_pair(3, 6), Err(Error::NoPoolFound));
}

#[test]
fn pairs_with_extreme_ids_stay_apart() {
    let mut ledger = ReserveLedger::new();
    assert_eq!(ledger.credit_pair(0, u64::MAX, 1, 2), Ok(()));
    assert_eq!(ledger.credit_pair(u64::MAX, 1, 3, 4), Ok(()));
    assert_eq!(ledger.credit_pair(0, 1, 5, 6), Ok(()));
    assert_eq!(ledger.get_pair(0, u64::MAX), Ok((1, 2)));
    assert_eq!(ledger.get_pair(1, u64::MAX), Ok((4, 3)));
    assert_eq!(ledger.get_pair(1, 0), Ok((6, 5)));
    assert_eq!(ledger.get_pair(u64::MAX - 1, u64::MAX), Err(Error::NoPoolFound));
}

#[test]
fn apply_swap_moves_both_sides() {
    let mut ledger = ReserveLedger::new();
    assert_eq!(ledger.credit_pair(1, 2, 100, 50), Ok(()));
    assert_eq!(ledger.apply_swap(1, 2, true, 7, 20), Ok(()));
    assert_eq!(ledger.get_pair(1, 2), Ok((107, 30)));
    assert_eq!(ledger.apply_swap(1, 2, false, 5, 7), Ok(()));
    assert_eq!(ledger.get_pair(1, 2), Ok((100, 35)));
    // the same pair, addressed the other way round
    assert_eq!(ledger.apply_swap(2, 1, true, 5, 10), Ok(()));
    assert_eq!(ledger.get_pair(1, 2), Ok((90, 40)));
}

#[test]
fn apply_swap_refuses_to_go_below_zero() {
    let mut ledger = ReserveLedger::new();
    assert_eq!(ledger.credit_pair(1, 2, 100, 50), Ok(()));
    assert_eq!(ledger.apply_swap(1, 2, true, 7, 51), Err(Error::ReduceTheFunds));
    assert_eq!(ledger.get_pair(1, 2), Ok((100, 50)));
    assert_eq!(ledger.apply_swap(1, 2, false, 7, 101), Err(Error::ReduceTheFunds));
    assert_eq!(ledger.get_pair(1, 2), Ok((100, 50)));
    // draining a side to zero is allowed, and the entry stays
    assert_eq!(ledger.apply_swap(1, 2, true, 0, 50), Ok(()));
    assert_eq!(ledger.get_pair(1, 2), Ok((100, 0)));
}

#[test]
fn apply_swap_on_missing_or_degenerate_pair() {
    let mut ledger = ReserveLedger::new();
    assert_eq!(ledger.apply_swap(1, 2, true, 1, 0), Err(Error::NoPoolFound));
    assert_eq!(ledger.apply_swap(3, 3, true, 1, 0), Err(Error::SameTokensNotAllowed));
    assert_eq!(ledger.get_pair(1, 2), Err(Error::NoPoolFound));
}

#[test]
fn swap_then_reverse_swap_restores_reserves() {
    let mut ledger = ReserveLedger::new();
    assert_eq!(ledger.credit_pair(1, 2, 100, 50), Ok(()));
    assert_eq!(ledger.apply_swap(1, 2, true, 7, 20), Ok(()));
    assert_eq!(ledger.apply_swap(1, 2, false, 20, 7), Ok(()));
    assert_eq!(ledger.get_pair(1, 2), Ok((100, 50)));
}

#[test]
fn aggregates_accumulate() {
    let mut ledger = ReserveLedger::new();
    ledger.credit_aggregate(9, 0);
    assert_eq!(ledger.get_aggregate(9), Ok(0));
    ledger.credit_aggregate(9, 15);
    ledger.credit_aggregate(9, 27);
    assert_eq!(ledger.get_aggregate(9), Ok(42));
    assert_eq!(ledger.get_aggregate(8), Err(Error::UnknownToken));
    assert_eq!(ledger.get_pair(9, 8), Err(Error::NoPoolFound));
}

#[test]
fn book_keeps_the_last_amount() {
    let mut book = AccountBook::new();
    let ann = AccountId::new([1u8; 32]);
    let bob = AccountId::new([2u8; 32]);
    assert_eq!(book.get(&ann, 1), None);
    book.record(ann, 1, 10);
    book.record(bob, 1, 20);
    book.record(ann, 2, 30);
    assert_eq!(book.get(&ann, 1), Some(10));
    assert_eq!(book.get(&bob, 1), Some(20));
    assert_eq!(book.get(&ann, 2), Some(30));
    assert_eq!(book.get(&bob, 2), None);
    book.record(ann, 1, 5);
    assert_eq!(book.get(&ann, 1), Some(5));
    assert_eq!(book.get(&bob, 1), Some(20));
    assert_eq!(book.get(&ann, 2), Some(30));
}

#[test]
fn ordered_pair_sorts_the_ids() {
    assert_eq!(ordered_pair(3, 9), (3, 9));
    assert_eq!(ordered_pair(9, 3), (3, 9));
    assert_eq!(ordered_pair(4, 4), (4, 4));
    assert_eq!(ordered_pair(u64::MAX, 0), (0, u64::MAX));
}

#[test]
fn credit_pair_refuses_equal_ids() {
    let mut ledger = ReserveLedger::new();
    assert_eq!(ledger.credit_pair(4, 4, 1, 2), Err(Error::SameTokensNotAllowed));
    assert_eq!(ledger.get_pair(4, 4), Err(Error::SameTokensNotAllowed));
    assert_eq!(ledger.get_pair(4, 5), Err(Error::NoPoolFound));
}
