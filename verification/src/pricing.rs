//! Pricing of a swap from the reserves of a pair alone.
//!
//! The candidate settlement value of a trade is
//! `(reserve_in * reserve_out) / (reserve_in + amount_in)`, rounded down. It
//! is accepted only if it is at least `PRICE_FLOOR` times the post-trade
//! input reserve. This module computes it exactly for every `u128` input:
//! the product never has to be formed in a machine word.

use vstd::prelude::*;
use vstd::arithmetic::div_mod::lemma_fundamental_div_mod_converse;

verus! {

/// Quantity of an asset.
pub type Balance = u128;

/// A candidate is accepted only if it reaches this multiple of the
/// post-trade input reserve.
pub const PRICE_FLOOR: u128 = 5;

/// The post-trade invariant term: product of the reserves over the input
/// reserve after the trade, rounded down. Zero where the divisor is zero.
pub open spec fn spec_candidate(reserve_in: nat, reserve_out: nat, amount_in: nat) -> nat {
    if reserve_in + amount_in == 0 {
        0
    } else {
        (reserve_in * reserve_out) / (reserve_in + amount_in)
    }
}

/// Whether a candidate passes the price floor.
pub open spec fn spec_accepted(reserve_in: nat, reserve_out: nat, amount_in: nat) -> bool {
    &&& reserve_in + amount_in > 0
    &&& spec_candidate(reserve_in, reserve_out, amount_in) >= PRICE_FLOOR * (reserve_in
        + amount_in)
}

/// The quote: the candidate where it is accepted, zero where it is not.
pub open spec fn spec_quote(reserve_in: nat, reserve_out: nat, amount_in: nat) -> nat {
    if spec_accepted(reserve_in, reserve_out, amount_in) {
        spec_candidate(reserve_in, reserve_out, amount_in)
    } else {
        0
    }
}

/// The candidate never exceeds the output reserve.
pub proof fn lemma_candidate_bounded(reserve_in: nat, reserve_out: nat, amount_in: nat)
    ensures
        spec_candidate(reserve_in, reserve_out, amount_in) <= reserve_out,
        spec_quote(reserve_in, reserve_out, amount_in) <= reserve_out,
{
    let s = reserve_in + amount_in;
    if s > 0 {
        let p = reserve_in * reserve_out;
        let c = p / s;
        assert(c * s <= p) by (nonlinear_arith)
            requires
                s > 0,
                c == p / s,
        ;
        assert(c <= reserve_out) by (nonlinear_arith)
            requires
                c * s <= p,
                p == reserve_in * reserve_out,
                reserve_in <= s,
                s > 0,
        ;
    }
}

/// An accepted quote is positive: zero always means "no acceptable price".
pub proof fn lemma_accepted_quote_positive(reserve_in: nat, reserve_out: nat, amount_in: nat)
    ensures
        spec_accepted(reserve_in, reserve_out, amount_in) <==> spec_quote(
            reserve_in,
            reserve_out,
            amount_in,
        ) > 0,
{
}

/// Where the quote is not zero, the post-trade input reserve is at most a
/// fifth of the output reserve.
pub proof fn lemma_quote_fits(reserve_in: nat, reserve_out: nat, amount_in: nat)
    ensures
        spec_quote(reserve_in, reserve_out, amount_in) > 0 ==> PRICE_FLOOR * (reserve_in
            + amount_in) <= reserve_out,
{
    lemma_candidate_bounded(reserve_in, reserve_out, amount_in);
}

/// Quotient and remainder of `a * b` by `s`, where `a <= s` keeps the
/// quotient within `b` and `3 * s` fits a machine word. Works through the
/// bits of `b` from the top, so the product itself is never formed.
fn mul_div_rem(a: u128, b: u128, s: u128) -> (qr: (u128, u128))
    requires
        0 < s,
        a <= s,
        3 * s <= u128::MAX,
    ensures
        a * b == qr.0 * s + qr.1,
        qr.1 < s,
        qr.0 <= b,
    decreases b,
{
    if b == 0 {
        assert(a * b == 0) by (nonlinear_arith)
            requires
                b == 0,
        ;
        return (0, 0);
    }
    let half: u128 = b / 2;
    let bit: u128 = b % 2;
    let inner: (u128, u128) = mul_div_rem(a, half, s);
    let carry: u128 = if bit == 1 {
        a
    } else {
        0
    };
    let t: u128 = 2 * inner.1 + carry;
    let dq: u128 = t / s;
    let rem: u128 = t % s;
    proof {
        let q = 2 * inner.0 + dq;
        assert(carry == bit * a) by (nonlinear_arith)
            requires
                carry == if bit == 1 {
                    a
                } else {
                    0
                },
                bit == 0 || bit == 1,
        ;
        assert(t == dq * s + rem) by (nonlinear_arith)
            requires
                s > 0,
                dq == t / s,
                rem == t % s,
        ;
        assert(a * b == q * s + rem) by (nonlinear_arith)
            requires
                b == 2 * half + bit,
                a * half == inner.0 * s + inner.1,
                t == 2 * inner.1 + bit * a,
                t == dq * s + rem,
                q == 2 * inner.0 + dq,
        ;
        assert(q <= b) by (nonlinear_arith)
            requires
                a * b == q * s + rem,
                0 <= a <= s,
                0 < s,
                0 <= rem,
                0 <= b,
        ;
    }
    (2 * inner.0 + dq, rem)
}

/// The quote for trading `amount_in` against reserves `(reserve_in,
/// reserve_out)`: the candidate settlement value where it reaches the price
/// floor, and zero, meaning "no acceptable price", everywhere else. Zero is
/// also the answer where the post-trade input reserve is zero.
pub fn quote_amount(reserve_in: Balance, reserve_out: Balance, amount_in: Balance) -> (out:
    Balance)
    ensures
        out == spec_quote(reserve_in as nat, reserve_out as nat, amount_in as nat),
        out <= reserve_out,
        out > 0 ==> reserve_in + amount_in <= u128::MAX,
{
    proof {
        lemma_candidate_bounded(reserve_in as nat, reserve_out as nat, amount_in as nat);
    }
    let total: u128 = match reserve_in.checked_add(amount_in) {
        Some(total) => total,
        None => {
            return 0;
        },
    };
    if total == 0 || total > reserve_out / PRICE_FLOOR {
        return 0;
    }
    let qr: (u128, u128) = mul_div_rem(reserve_in, reserve_out, total);
    proof {
        lemma_fundamental_div_mod_converse(
            reserve_in * reserve_out,
            total as int,
            qr.0 as int,
            qr.1 as int,
        );
    }
    if qr.0 >= PRICE_FLOOR * total {
        qr.0
    } else {
        0
    }
}

} // verus!
