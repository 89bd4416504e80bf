//! The rule that a deposit's proportion has to pass.
//!
//! A deposit of `amount_a` and `amount_b` is turned down where `amount_b` is
//! exactly a fixed multiple of `amount_a`. The multiple is a parameter of
//! the exchange, so that the rule can be set otherwise without a change to
//! the ledger.
//!
//! Design note: turning down the deposits that *match* a proportion reads as
//! the opposite of a rule that keeps a pool in proportion. The rule is kept
//! as it is; whether it is what the economics want is an open question.

use vstd::prelude::*;
use crate::pricing::Balance;

verus! {

/// The multiple that an exchange turns down unless it is told otherwise:
/// deposits of one part of the first token to two parts of the second.
pub const REFUSED_MULTIPLE: Balance = 2;

/// Whether the rule turns the deposit down.
pub open spec fn spec_ratio_refused(multiple: nat, amount_a: nat, amount_b: nat) -> bool {
    multiple * amount_a == amount_b
}

/// Whether the rule with the given multiple turns the deposit down. The
/// product is never formed, so no pair of amounts is out of range.
pub fn ratio_refused(multiple: Balance, amount_a: Balance, amount_b: Balance) -> (refused: bool)
    ensures
        refused == spec_ratio_refused(multiple as nat, amount_a as nat, amount_b as nat),
{
    if multiple == 0 {
        assert(multiple * amount_a == 0) by (nonlinear_arith)
            requires
                multiple == 0,
        ;
        return amount_b == 0;
    }
    let quotient: Balance = amount_b / multiple;
    let rest: Balance = amount_b % multiple;
    proof {
        let m = multiple as int;
        let a = amount_a as int;
        let b = amount_b as int;
        assert(b == m * (b / m) + b % m && 0 <= b % m < m) by (nonlinear_arith)
            requires
                m > 0,
                b >= 0,
        ;
        if rest == 0 && quotient == amount_a {
            assert(m * a == b);
        }
        if m * a == b {
            assert(b % m == 0 && b / m == a) by (nonlinear_arith)
                requires
                    m > 0,
                    m * a == b,
            ;
        }
    }
    rest == 0 && quotient == amount_a
}

} // verus!
