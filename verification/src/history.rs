//! What holds of an exchange over any run of operations.
//!
//! A run is a sequence of steps, each of them one operation of the exchange
//! with its arguments. A step that the exchange refuses, or that would leave
//! the range of a balance, changes nothing. The contract of each operation
//! that changes the exchange names the step that it takes.

use vstd::prelude::*;
use crate::account::AccountId;
use crate::exchange::DexModel;
use crate::pricing::Balance;

verus! {

/// One operation that changes an exchange, with its arguments.
pub enum Step {
    Register { id: u64, handle: AccountId },
    Deposit {
        provider: AccountId,
        token_a: u64,
        token_b: u64,
        amount_a: Balance,
        amount_b: Balance,
    },
    Swap { token_in: u64, token_out: u64, amount_in: Balance },
    Undo { token_in: u64, token_out: u64, amount_in: Balance, amount_out: Balance },
}

/// The exchange after one step.
pub open spec fn after(m: DexModel, step: Step) -> DexModel {
    match step {
        Step::Register { id, handle } => if m.tokens.contains_key(id) {
            m
        } else {
            DexModel {
                tokens: m.tokens.insert(id, handle),
                ledger: m.ledger,
                contributions: m.contributions,
                refused_multiple: m.refused_multiple,
            }
        },
        Step::Deposit { provider, token_a, token_b, amount_a, amount_b } => if m.check_liquidity(
            token_a,
            token_b,
            amount_a,
            amount_b,
        ) is Ok && m.deposit_fits(token_a, token_b, amount_a, amount_b) {
            m.add_liquidity(provider, token_a, token_b, amount_a, amount_b)
        } else {
            m
        },
        Step::Swap { token_in, token_out, amount_in } => match m.swap_amount_out(
            token_in,
            token_out,
            amount_in,
        ) {
            Ok(amount_out) => m.swap(token_in, token_out, amount_in, amount_out),
            Err(_) => m,
        },
        Step::Undo { token_in, token_out, amount_in, amount_out } => if m.can_undo(
            token_in,
            token_out,
            amount_in,
            amount_out,
        ) {
            m.undo_swap(token_in, token_out, amount_in, amount_out)
        } else {
            m
        },
    }
}

/// The exchange after a run of steps, the first step first.
pub open spec fn after_all(m: DexModel, steps: Seq<Step>) -> DexModel
    decreases steps.len(),
{
    if steps.len() == 0 {
        m
    } else {
        after(after_all(m, steps.drop_last()), steps.last())
    }
}

/// What a step adds to the custody of `token`: the amount that a deposit
/// names for it where the deposit is entered, and nothing otherwise.
pub open spec fn deposited_by(m: DexModel, step: Step, token: u64) -> nat {
    match step {
        Step::Deposit { provider, token_a, token_b, amount_a, amount_b } => if m.check_liquidity(
            token_a,
            token_b,
            amount_a,
            amount_b,
        ) is Ok && m.deposit_fits(token_a, token_b, amount_a, amount_b) {
            if token == token_a {
                amount_a as nat
            } else if token == token_b {
                amount_b as nat
            } else {
                0
            }
        } else {
            0
        },
        _ => 0,
    }
}

/// What a run of steps adds to the custody of `token`.
pub open spec fn deposited(m: DexModel, steps: Seq<Step>, token: u64) -> nat
    decreases steps.len(),
{
    if steps.len() == 0 {
        0
    } else {
        deposited(m, steps.drop_last(), token) + deposited_by(
            after_all(m, steps.drop_last()),
            steps.last(),
            token,
        )
    }
}

/// Over any run of operations, the total of a token is what it was plus
/// what the deposits that were entered named for it: no step adds to a
/// total what was not deposited, and none takes from it.
pub proof fn lemma_totals_are_deposits(m: DexModel, steps: Seq<Step>, token: u64)
    ensures
        after_all(m, steps).ledger.aggregate_or_zero(token) == m.ledger.aggregate_or_zero(token)
            + deposited(m, steps, token),
    decreases steps.len(),
{
    if steps.len() > 0 {
        lemma_totals_are_deposits(m, steps.drop_last(), token);
    }
}

/// What every step keeps: pairs are filed under two distinct ids, a
/// registered token keeps its handle, no total shrinks, and the ratio rule
/// stays as it was set.
pub open spec fn carries_on(before: DexModel, later: DexModel) -> bool {
    &&& later.ledger.well_keyed()
    &&& later.refused_multiple == before.refused_multiple
    &&& forall|id: u64| #[trigger]
        before.tokens.contains_key(id) ==> later.tokens.contains_key(id) && later.tokens[id]
            == before.tokens[id]
    &&& forall|token: u64| #[trigger]
        later.ledger.aggregate_or_zero(token) >= before.ledger.aggregate_or_zero(token)
    &&& forall|a: u64, b: u64| #[trigger]
        before.ledger.reserves(a, b) is Some ==> later.ledger.reserves(a, b) is Some
}

/// One step keeps all of it.
pub proof fn lemma_step_carries_on(m: DexModel, step: Step)
    requires
        m.ledger.well_keyed(),
    ensures
        carries_on(m, after(m, step)),
{
}

/// Over any run of operations from a state whose pairs have distinct ids:
/// every pair still has two distinct ids, and so two reserves that are
/// balances, none below zero; a pair that was there is still there; a
/// registered token has kept its handle; and no total has shrunk.
pub proof fn lemma_run_carries_on(m: DexModel, steps: Seq<Step>)
    requires
        m.ledger.well_keyed(),
    ensures
        carries_on(m, after_all(m, steps)),
    decreases steps.len(),
{
    if steps.len() > 0 {
        let middle = after_all(m, steps.drop_last());
        lemma_run_carries_on(m, steps.drop_last());
        lemma_step_carries_on(middle, steps.last());
        let later = after(middle, steps.last());
        assert forall|token: u64|
            later.ledger.aggregate_or_zero(token) >= m.ledger.aggregate_or_zero(token) by {
            assert(middle.ledger.aggregate_or_zero(token) >= m.ledger.aggregate_or_zero(token));
        }
        assert forall|a: u64, b: u64| m.ledger.reserves(a, b) is Some implies later.ledger.reserves(
            a,
            b,
        ) is Some by {
            assert(middle.ledger.reserves(a, b) is Some);
        }
    }
}

} // verus!
