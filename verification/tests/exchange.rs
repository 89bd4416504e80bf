use dex::account::AccountId;
use dex::book::AccountBook;
use dex::error::Error;
use dex::exchange::{LiquidityAdded, TokensSwapped, Transfer, DEX};
use dex::ledger::ReserveLedger;
use dex::registry::TokenRegistry;

fn account(byte: u8) -> AccountId {
    AccountId::new([byte; 32])
}

/// An exchange with the tokens 1 and 2 registered under the handles 101 and 102.
fn exchange_with_two_tokens() -> DEX {
    let mut dex = DEX::new();
    assert_eq!(dex.register_token(1, account(101)), Ok(()));
    assert_eq!(dex.register_token(2, account(102)), Ok(()));
    dex
}

#[test]
fn new_exchange_knows_nothing() {
    let dex = DEX::new();
    assert_eq!(dex.get_token_info(1), Err(Error::UnknownToken));
    assert_eq!(dex.get_liquidity_pool(1, 2), Err(Error::NoPoolFound));
    assert_eq!(dex.get_output_amt(1, 2, 5), Err(Error::NoPoolFound));
    assert_eq!(dex.get_contribution(&account(1), 1), None);
}

#[test]
fn register_token_refuses_duplicates() {
    let mut dex = DEX::new();
    assert_eq!(dex.register_token(1, account(101)), Ok(()));
    assert_eq!(dex.register_token(1, account(55)), Err(Error::DuplicateId));
    assert_eq!(dex.get_token_info(1), Ok((account(101), 0)));
}

#[test]
fn unknown_pair_query_fails() {
    let dex = exchange_with_two_tokens();
    assert_eq!(dex.get_liquidity_pool(3, 9), Err(Error::NoPoolFound));
}

#[test]
fn same_token_query_fails() {
    let dex = exchange_with_two_tokens();
    assert_eq!(dex.get_liquidity_pool(1, 1), Err(Error::SameTokensNotAllowed));
    assert_eq!(dex.get_output_amt(2, 2, 1), Err(Error::SameTokensNotAllowed));
}

#[test]
fn duplicate_token_deposit_is_rejected_without_trace() {
    let mut dex = DEX::new();
    assert_eq!(dex.register_token(7, account(107)), Ok(()));
    let provider = account(9);
    assert_eq!(
        dex.check_liquidity(provider, 7, 7, 10, 10),
        Err(Error::SameTokensNotAllowed)
    );
    assert_eq!(
        dex.add_liquidity(provider, 7, 7, 10, 10),
        Err(Error::SameTokensNotAllowed)
    );
    assert_eq!(dex.get_liquidity_pool(7, 7), Err(Error::SameTokensNotAllowed));
    assert_eq!(dex.get_token_info(7), Ok((account(107), 0)));
    assert_eq!(dex.get_contribution(&provider, 7), None);
}

#[test]
fn deposit_checks_come_in_order() {
    let mut dex = exchange_with_two_tokens();
    let provider = account(9);
    // equal ids win over a zero amount
    assert_eq!(dex.add_liquidity(provider, 1, 1, 0, 10), Err(Error::SameTokensNotAllowed));
    // a zero amount wins over the ratio rule and over unknown tokens
    assert_eq!(dex.add_liquidity(provider, 1, 2, 0, 0), Err(Error::ZeroAmount));
    assert_eq!(dex.add_liquidity(provider, 1, 2, 10, 0), Err(Error::ZeroAmount));
    assert_eq!(dex.add_liquidity(provider, 5, 6, 0, 10), Err(Error::ZeroAmount));
    // the ratio rule wins over unknown tokens
    assert_eq!(dex.add_liquidity(provider, 5, 6, 10, 20), Err(Error::LiquidityRatioProblem));
    assert_eq!(dex.add_liquidity(provider, 1, 2, 10, 20), Err(Error::LiquidityRatioProblem));
    assert_eq!(dex.add_liquidity(provider, 1, 6, 10, 21), Err(Error::UnknownToken));
    assert_eq!(dex.add_liquidity(provider, 6, 2, 10, 21), Err(Error::UnknownToken));
    // nothing was entered
    assert_eq!(dex.get_liquidity_pool(1, 2), Err(Error::NoPoolFound));
    assert_eq!(dex.get_token_info(1), Ok((account(101), 0)));
    assert_eq!(dex.get_contribution(&provider, 1), None);
}

#[test]
fn ratio_rule_is_one_sided() {
    let mut dex = exchange_with_two_tokens();
    let provider = account(9);
    // twenty to ten is not ten to twenty
    assert!(dex.add_liquidity(provider, 1, 2, 20, 10).is_ok());
    assert_eq!(dex.get_liquidity_pool(1, 2), Ok((20, 10)));
}

#[test]
fn ratio_rule_can_be_set() {
    let mut dex = DEX::with_refused_multiple(3);
    assert_eq!(dex.register_token(1, account(101)), Ok(()));
    assert_eq!(dex.register_token(2, account(102)), Ok(()));
    let provider = account(9);
    assert_eq!(dex.add_liquidity(provider, 1, 2, 10, 30), Err(Error::LiquidityRatioProblem));
    assert!(dex.add_liquidity(provider, 1, 2, 10, 20).is_ok());
}

#[test]
fn check_liquidity_names_the_transfers() {
    let dex = exchange_with_two_tokens();
    let provider = account(9);
    assert_eq!(
        dex.check_liquidity(provider, 2, 1, 10, 1000),
        Ok((
            Transfer { asset: account(102), party: provider, amount: 10 },
            Transfer { asset: account(101), party: provider, amount: 1000 },
        ))
    );
    assert_eq!(dex.get_liquidity_pool(1, 2), Err(Error::NoPoolFound));
}

#[test]
fn deposit_enters_reserves_totals_and_contributions() {
    let mut dex = exchange_with_two_tokens();
    let provider = account(9);
    assert_eq!(
        dex.add_liquidity(provider, 1, 2, 10, 1000),
        Ok(LiquidityAdded { provider, token_a: 1, token_b: 2, amount_a: 10, amount_b: 1000 })
    );
    assert_eq!(dex.get_liquidity_pool(1, 2), Ok((10, 1000)));
    assert_eq!(dex.get_token_info(1), Ok((account(101), 10)));
    assert_eq!(dex.get_token_info(2), Ok((account(102), 1000)));
    assert_eq!(dex.get_contribution(&provider, 1), Some(10));
    assert_eq!(dex.get_contribution(&provider, 2), Some(1000));
    assert_eq!(dex.get_contribution(&account(8), 1), None);
}

#[test]
fn pair_is_unordered() {
    let mut dex = exchange_with_two_tokens();
    let provider = account(9);
    assert!(dex.add_liquidity(provider, 1, 2, 10, 1000).is_ok());
    assert_eq!(dex.get_liquidity_pool(2, 1), Ok((1000, 10)));
    assert!(dex.add_liquidity(provider, 2, 1, 5, 7).is_ok());
    assert_eq!(dex.get_liquidity_pool(1, 2), Ok((17, 1005)));
    assert_eq!(dex.get_liquidity_pool(2, 1), Ok((1005, 17)));
    assert_eq!(dex.get_output_amt(1, 2, 0), Ok(1005));
}

#[test]
fn deposit_addressed_either_way_leaves_the_same_state() {
    let provider = account(9);
    let mut left = exchange_with_two_tokens();
    let mut right = exchange_with_two_tokens();
    assert!(left.add_liquidity(provider, 1, 2, 10, 1000).is_ok());
    assert!(right.add_liquidity(provider, 2, 1, 1000, 10).is_ok());
    assert_eq!(left.get_liquidity_pool(1, 2), right.get_liquidity_pool(1, 2));
    assert_eq!(left.get_token_info(1), right.get_token_info(1));
    assert_eq!(left.get_token_info(2), right.get_token_info(2));
    assert_eq!(left.get_contribution(&provider, 1), right.get_contribution(&provider, 1));
    assert_eq!(left.get_contribution(&provider, 2), right.get_contribution(&provider, 2));
}

#[test]
fn aggregate_grows_by_exactly_the_deposit() {
    let mut dex = exchange_with_two_tokens();
    assert_eq!(dex.register_token(3, account(103)), Ok(()));
    let provider = account(9);
    assert!(dex.add_liquidity(provider, 1, 2, 10, 1000).is_ok());
    assert!(dex.add_liquidity(provider, 1, 3, 4, 9).is_ok());
    assert_eq!(dex.get_token_info(1), Ok((account(101), 14)));
    assert_eq!(dex.get_token_info(2), Ok((account(102), 1000)));
    assert_eq!(dex.get_token_info(3), Ok((account(103), 9)));
    assert_eq!(dex.get_liquidity_pool(1, 2), Ok((10, 1000)));
    assert_eq!(dex.get_liquidity_pool(1, 3), Ok((4, 9)));
    assert_eq!(dex.get_liquidity_pool(2, 3), Err(Error::NoPoolFound));
}

#[test]
fn contribution_is_overwritten_across_pairs() {
    let mut dex = exchange_with_two_tokens();
    assert_eq!(dex.register_token(3, account(103)), Ok(()));
    let provider = account(9);
    let other = account(8);
    assert!(dex.add_liquidity(provider, 1, 2, 10, 1000).is_ok());
    assert!(dex.add_liquidity(other, 1, 2, 3, 5).is_ok());
    assert!(dex.add_liquidity(provider, 1, 3, 4, 9).is_ok());
    // last write wins: no accumulation over the two pairs that share token 1
    assert_eq!(dex.get_contribution(&provider, 1), Some(4));
    assert_eq!(dex.get_contribution(&provider, 2), Some(1000));
    assert_eq!(dex.get_contribution(&provider, 3), Some(9));
    assert_eq!(dex.get_contribution(&other, 1), Some(3));
    assert_eq!(dex.get_contribution(&other, 2), Some(5));
}

#[test]
fn quote_rejection_boundary() {
    let mut dex = exchange_with_two_tokens();
    assert!(dex.add_liquidity(account(9), 1, 2, 100, 100).is_ok());
    assert_eq!(dex.get_output_amt(1, 2, 1000), Ok(0));
    assert_eq!(dex.swap_tokens(account(4), 1, 2, 1000), Err(Error::ReduceTheFunds));
    assert_eq!(dex.get_liquidity_pool(1, 2), Ok((100, 100)));
}

#[test]
fn quote_reads_reserves_in_the_direction_asked() {
    let mut dex = exchange_with_two_tokens();
    assert!(dex.add_liquidity(account(9), 1, 2, 10, 1000).is_ok());
    // 10 * 1000 / 11 = 909
    assert_eq!(dex.get_output_amt(1, 2, 1), Ok(909));
    // 1000 * 10 / 1001 = 9 < 5 * 1001
    assert_eq!(dex.get_output_amt(2, 1, 1), Ok(0));
}

#[test]
fn quote_twice_gives_the_same_answer() {
    let mut dex = exchange_with_two_tokens();
    assert!(dex.add_liquidity(account(9), 1, 2, 10, 1000).is_ok());
    let first = dex.get_output_amt(1, 2, 1);
    let second = dex.get_output_amt(1, 2, 1);
    assert_eq!(first, second);
    assert_eq!(dex.get_liquidity_pool(1, 2), Ok((10, 1000)));
}

#[test]
fn swap_hands_out_reserve_less_quote() {
    let mut dex = exchange_with_two_tokens();
    let caller = account(4);
    assert!(dex.add_liquidity(account(9), 1, 2, 10, 1000).is_ok());
    assert_eq!(
        dex.swap_tokens(caller, 1, 2, 1),
        Ok((
            Transfer { asset: account(102), party: caller, amount: 91 },
            TokensSwapped { caller, token_in: 1, token_out: 2, amount_in: 1, amount_out: 91 },
        ))
    );
    assert_eq!(dex.get_liquidity_pool(1, 2), Ok((11, 909)));
    // 11 * 909 / 12 = 833, so 76 leave
    assert_eq!(
        dex.swap_tokens(caller, 1, 2, 1),
        Ok((
            Transfer { asset: account(102), party: caller, amount: 76 },
            TokensSwapped { caller, token_in: 1, token_out: 2, amount_in: 1, amount_out: 76 },
        ))
    );
    assert_eq!(dex.get_liquidity_pool(2, 1), Ok((833, 12)));
    // totals are moved by deposits only
    assert_eq!(dex.get_token_info(1), Ok((account(101), 10)));
    assert_eq!(dex.get_token_info(2), Ok((account(102), 1000)));
}

#[test]
fn swap_with_no_input_hands_out_nothing() {
    let mut dex = exchange_with_two_tokens();
    let caller = account(4);
    assert!(dex.add_liquidity(account(9), 1, 2, 10, 1000).is_ok());
    let done = dex.swap_tokens(caller, 1, 2, 0);
    assert_eq!(
        done,
        Ok((
            Transfer { asset: account(102), party: caller, amount: 0 },
            TokensSwapped { caller, token_in: 1, token_out: 2, amount_in: 0, amount_out: 0 },
        ))
    );
    assert_eq!(dex.get_liquidity_pool(1, 2), Ok((10, 1000)));
}

#[test]
fn swap_refusals_change_nothing() {
    let mut dex = exchange_with_two_tokens();
    let caller = account(4);
    assert_eq!(dex.swap_tokens(caller, 1, 1, 5), Err(Error::SameTokensNotAllowed));
    assert_eq!(dex.swap_tokens(caller, 1, 2, 5), Err(Error::NoPoolFound));
    assert!(dex.add_liquidity(account(9), 1, 2, 10, 1000).is_ok());
    assert_eq!(dex.swap_tokens(caller, 2, 1, 1), Err(Error::ReduceTheFunds));
    assert_eq!(dex.get_liquidity_pool(1, 2), Ok((10, 1000)));
}

#[test]
fn swap_needs_a_handle_for_the_output_token() {
    let mut ledger = ReserveLedger::new();
    assert_eq!(ledger.credit_pair(1, 2, 10, 1000), Ok(()));
    let mut registry = TokenRegistry::new();
    assert_eq!(registry.register(1, account(101)), Ok(()));
    let mut dex = DEX::from_parts(registry, ledger, AccountBook::new(), 2);
    assert_eq!(dex.get_output_amt(1, 2, 1), Ok(909));
    assert_eq!(dex.swap_tokens(account(4), 1, 2, 1), Err(Error::UnknownToken));
    assert_eq!(dex.get_liquidity_pool(1, 2), Ok((10, 1000)));
    assert_eq!(dex.get_token_info(2), Err(Error::UnknownToken));
    assert_eq!(dex.get_token_info(1), Ok((account(101), 0)));
}

#[test]
fn failed_transfer_restores_reserves() {
    let mut dex = exchange_with_two_tokens();
    let caller = account(4);
    assert!(dex.add_liquidity(account(9), 1, 2, 10, 1000).is_ok());
    let (_, swapped) = dex.swap_tokens(caller, 1, 2, 1).unwrap();
    assert_eq!(dex.get_liquidity_pool(1, 2), Ok((11, 909)));
    assert_eq!(dex.settle_swap(&swapped, false), Err(Error::TransferError));
    assert_eq!(dex.get_liquidity_pool(1, 2), Ok((10, 1000)));
    assert_eq!(dex.get_token_info(1), Ok((account(101), 10)));
    assert_eq!(dex.get_token_info(2), Ok((account(102), 1000)));
}

#[test]
fn successful_transfer_keeps_the_swap() {
    let mut dex = exchange_with_two_tokens();
    let caller = account(4);
    assert!(dex.add_liquidity(account(9), 1, 2, 10, 1000).is_ok());
    let (_, swapped) = dex.swap_tokens(caller, 1, 2, 1).unwrap();
    assert_eq!(dex.settle_swap(&swapped, true), Ok(swapped));
    assert_eq!(dex.get_liquidity_pool(1, 2), Ok((11, 909)));
}

#[test]
fn undo_swap_reverses_exactly_one_swap() {
    let mut dex = exchange_with_two_tokens();
    let caller = account(4);
    assert!(dex.add_liquidity(account(9), 1, 2, 10, 1000).is_ok());
    let (_, first) = dex.swap_tokens(caller, 1, 2, 1).unwrap();
    let (_, second) = dex.swap_tokens(caller, 1, 2, 1).unwrap();
    assert!(dex.undo_swap(&second));
    assert_eq!(dex.get_liquidity_pool(1, 2), Ok((11, 909)));
    assert!(dex.undo_swap(&first));
    assert_eq!(dex.get_liquidity_pool(1, 2), Ok((10, 1000)));
}

#[test]
fn undo_swap_refuses_what_cannot_be_undone() {
    let mut dex = exchange_with_two_tokens();
    let caller = account(4);
    let ghost = TokensSwapped { caller, token_in: 1, token_out: 2, amount_in: 11, amount_out: 5 };
    assert!(!dex.undo_swap(&ghost));
    assert!(dex.add_liquidity(account(9), 1, 2, 10, 1000).is_ok());
    // the input side holds 10 only
    assert!(!dex.undo_swap(&ghost));
    assert_eq!(dex.get_liquidity_pool(1, 2), Ok((10, 1000)));
    let huge = TokensSwapped {
        caller,
        token_in: 1,
        token_out: 2,
        amount_in: 1,
        amount_out: u128::MAX,
    };
    assert!(!dex.undo_swap(&huge));
    assert_eq!(dex.get_liquidity_pool(1, 2), Ok((10, 1000)));
}

#[test]
fn reserves_stay_valid_over_a_run_of_operations() {
    let mut dex = exchange_with_two_tokens();
    let caller = account(4);
    assert!(dex.add_liquidity(account(9), 1, 2, 3, 100_000).is_ok());
    let mut expected_in: u128 = 3;
    let mut expected_out: u128 = 100_000;
    let mut swaps = 0;
    while let Ok((transfer, swapped)) = dex.swap_tokens(caller, 1, 2, 1) {
        assert!(swapped.amount_out <= expected_out);
        assert_eq!(transfer.amount, swapped.amount_out);
        expected_in += 1;
        expected_out -= swapped.amount_out;
        assert_eq!(dex.get_liquidity_pool(1, 2), Ok((expected_in, expected_out)));
        swaps += 1;
        assert!(swaps < 1000);
    }
    assert!(swaps > 0);
    assert_eq!(dex.swap_tokens(caller, 1, 2, 1), Err(Error::ReduceTheFunds));
    assert_eq!(dex.get_liquidity_pool(1, 2), Ok((expected_in, expected_out)));
}

#[test]
fn deposit_fits_guards_the_range() {
    let mut dex = exchange_with_two_tokens();
    let provider = account(9);
    assert!(dex.deposit_fits(1, 2, u128::MAX, u128::MAX));
    assert!(dex.add_liquidity(provider, 1, 2, u128::MAX - 10, 7).is_ok());
    assert!(dex.deposit_fits(1, 2, 10, 1));
    assert!(dex.deposit_fits(2, 1, 1, 10));
    assert!(!dex.deposit_fits(1, 2, 11, 1));
    assert!(!dex.deposit_fits(2, 1, 1, 11));
    assert!(!dex.deposit_fits(1, 2, 1, u128::MAX - 6));
    assert!(dex.deposit_fits(1, 2, 1, u128::MAX - 7));
    assert!(dex.add_liquidity(provider, 1, 2, 10, 1).is_ok());
    assert_eq!(dex.get_liquidity_pool(1, 2), Ok((u128::MAX, 8)));
    assert_eq!(dex.get_token_info(1), Ok((account(101), u128::MAX)));
}

#[test]
fn deposit_fits_looks_at_totals_too() {
    let mut ledger = ReserveLedger::new();
    ledger.credit_aggregate(1, u128::MAX - 1);
    let dex = DEX::from_parts(TokenRegistry::new(), ledger, AccountBook::new(), 2);
    assert!(dex.deposit_fits(1, 2, 1, 5));
    assert!(!dex.deposit_fits(1, 2, 2, 5));
    assert!(!dex.deposit_fits(2, 1, 5, 2));
}

#[test]
fn exchange_over_kept_parts() {
    let provider = account(9);
    let mut registry = TokenRegistry::new();
    assert_eq!(registry.register(1, account(101)), Ok(()));
    assert_eq!(registry.register(2, account(102)), Ok(()));
    let mut ledger = ReserveLedger::new();
    ledger.credit_aggregate(1, 10);
    ledger.credit_aggregate(2, 1000);
    assert_eq!(ledger.credit_pair(2, 1, 1000, 10), Ok(()));
    let mut book = AccountBook::new();
    book.record(provider, 1, 10);
    let mut dex = DEX::from_parts(registry, ledger, book, 3);
    assert_eq!(dex.get_liquidity_pool(1, 2), Ok((10, 1000)));
    assert_eq!(dex.get_token_info(2), Ok((account(102), 1000)));
    assert_eq!(dex.get_contribution(&provider, 1), Some(10));
    assert_eq!(dex.add_liquidity(provider, 1, 2, 1, 3), Err(Error::LiquidityRatioProblem));
    assert!(dex.add_liquidity(provider, 1, 2, 1, 2).is_ok());
    assert_eq!(dex.get_liquidity_pool(1, 2), Ok((11, 1002)));
}
