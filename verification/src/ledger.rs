//! The reserve ledger: the reserves of every pair and the total of every
//! token in custody.
//!
//! A pair is unordered: `(a, b)` and `(b, a)` name the same entry, and every
//! function answers in the order in which it was asked.

use std::collections::HashMap;
use vstd::prelude::*;
use crate::error::Error;
use crate::pricing::Balance;

verus! {

broadcast use vstd::std_specs::hash::group_hash_axioms;

/// The smaller id of a pair.
pub open spec fn spec_low(a: u64, b: u64) -> u64 {
    if a <= b {
        a
    } else {
        b
    }
}

/// The larger id of a pair.
pub open spec fn spec_high(a: u64, b: u64) -> u64 {
    if a <= b {
        b
    } else {
        a
    }
}

/// What the ledger holds, as plain maps. A pair is filed under its ids in
/// ascending order, with the reserves in that order.
pub struct LedgerModel {
    pub pools: Map<(u64, u64), (Balance, Balance)>,
    pub totals: Map<u64, Balance>,
}

impl LedgerModel {
    /// The ledger that holds nothing.
    pub open spec fn empty() -> LedgerModel {
        LedgerModel { pools: Map::empty(), totals: Map::empty() }
    }

    /// Every pair is filed under two distinct ids in ascending order.
    pub open spec fn well_keyed(self) -> bool {
        forall|k: (u64, u64)| #[trigger] self.pools.contains_key(k) ==> k.0 < k.1
    }

    /// The reserves of the pair, in the order asked: first that of `a`.
    /// `None` where the ids are equal or the pair has no entry.
    pub open spec fn reserves(self, a: u64, b: u64) -> Option<(Balance, Balance)> {
        let key = (spec_low(a, b), spec_high(a, b));
        if a == b || !self.pools.contains_key(key) {
            None
        } else if a < b {
            Some(self.pools[key])
        } else {
            Some((self.pools[key].1, self.pools[key].0))
        }
    }

    /// The reserves of the pair, an absent entry counting as empty.
    pub open spec fn reserves_or_zero(self, a: u64, b: u64) -> (Balance, Balance) {
        match self.reserves(a, b) {
            Some(r) => r,
            None => (0, 0),
        }
    }

    /// The ledger with the pair's reserves set to `(reserve_a, reserve_b)`.
    pub open spec fn with_reserves(
        self,
        a: u64,
        b: u64,
        reserve_a: Balance,
        reserve_b: Balance,
    ) -> LedgerModel {
        let key = (spec_low(a, b), spec_high(a, b));
        let value = if a < b {
            (reserve_a, reserve_b)
        } else {
            (reserve_b, reserve_a)
        };
        LedgerModel { pools: self.pools.insert(key, value), totals: self.totals }
    }

    /// Whether both sides of the pair can take the deltas without leaving
    /// the range of a balance.
    pub open spec fn pair_fits(self, a: u64, b: u64, delta_a: Balance, delta_b: Balance) -> bool {
        &&& self.reserves_or_zero(a, b).0 + delta_a <= Balance::MAX
        &&& self.reserves_or_zero(a, b).1 + delta_b <= Balance::MAX
    }

    /// The ledger after both sides of the pair grew by their deltas.
    pub open spec fn credit_pair(
        self,
        a: u64,
        b: u64,
        delta_a: Balance,
        delta_b: Balance,
    ) -> LedgerModel {
        let r = self.reserves_or_zero(a, b);
        self.with_reserves(a, b, (r.0 + delta_a) as Balance, (r.1 + delta_b) as Balance)
    }

    /// The outcome of a swap on the pair `(a, b)`. The input side is `a`
    /// where `in_is_a` holds, else `b`. The swap is refused where the ids
    /// are equal, where the pair has no entry, and where the output side
    /// holds less than `amount_out`.
    pub open spec fn apply_swap(
        self,
        a: u64,
        b: u64,
        in_is_a: bool,
        amount_in: Balance,
        amount_out: Balance,
    ) -> Result<LedgerModel, Error> {
        match self.reserves(a, b) {
            None => Err(
                if a == b {
                    Error::SameTokensNotAllowed
                } else {
                    Error::NoPoolFound
                },
            ),
            Some(r) => if in_is_a {
                if amount_out > r.1 {
                    Err(Error::ReduceTheFunds)
                } else {
                    Ok(
                        self.with_reserves(
                            a,
                            b,
                            (r.0 + amount_in) as Balance,
                            (r.1 - amount_out) as Balance,
                        ),
                    )
                }
            } else {
                if amount_out > r.0 {
                    Err(Error::ReduceTheFunds)
                } else {
                    Ok(
                        self.with_reserves(
                            a,
                            b,
                            (r.0 - amount_out) as Balance,
                            (r.1 + amount_in) as Balance,
                        ),
                    )
                }
            },
        }
    }

    /// Whether the input side of a swap can take `amount_in` without
    /// leaving the range of a balance.
    pub open spec fn swap_fits(self, a: u64, b: u64, in_is_a: bool, amount_in: Balance) -> bool {
        if in_is_a {
            self.reserves_or_zero(a, b).0 + amount_in <= Balance::MAX
        } else {
            self.reserves_or_zero(a, b).1 + amount_in <= Balance::MAX
        }
    }

    /// The total of a token in custody, if the ledger has one on record.
    pub open spec fn aggregate(self, token: u64) -> Option<Balance> {
        if self.totals.contains_key(token) {
            Some(self.totals[token])
        } else {
            None
        }
    }

    /// The total of a token in custody, no record counting as nothing held.
    pub open spec fn aggregate_or_zero(self, token: u64) -> Balance {
        match self.aggregate(token) {
            Some(total) => total,
            None => 0,
        }
    }

    /// The ledger after the token's total grew by `delta`.
    pub open spec fn credit_aggregate(self, token: u64, delta: Balance) -> LedgerModel {
        LedgerModel {
            pools: self.pools,
            totals: self.totals.insert(token, (self.aggregate_or_zero(token) + delta) as Balance),
        }
    }
}

/// The key under which a pair is stored: the smaller id in the upper half,
/// the larger in the lower half.
spec fn spec_pair_key(a: u64, b: u64) -> u128 {
    (spec_low(a, b) * 0x1_0000_0000_0000_0000 + spec_high(a, b)) as u128
}

/// The two ids of a pair in ascending order: the order in which the pair
/// is filed, whichever way round it was named.
pub fn ordered_pair(a: u64, b: u64) -> (pair: (u64, u64))
    ensures
        pair == (spec_low(a, b), spec_high(a, b)),
{
    if a <= b {
        (a, b)
    } else {
        (b, a)
    }
}

fn pair_key(a: u64, b: u64) -> (key: u128)
    ensures
        key == spec_pair_key(a, b),
{
    let pair: (u64, u64) = ordered_pair(a, b);
    (pair.0 as u128) * 0x1_0000_0000_0000_0000u128 + (pair.1 as u128)
}

/// Owner of the reserves and totals. Nothing else changes them.
pub struct ReserveLedger {
    pools: HashMap<u128, (Balance, Balance)>,
    totals: HashMap<u64, Balance>,
}

impl View for ReserveLedger {
    type V = LedgerModel;

    closed spec fn view(&self) -> LedgerModel {
        LedgerModel {
            pools: Map::new(
                |k: (u64, u64)| k.0 < k.1 && self.pools@.contains_key(spec_pair_key(k.0, k.1)),
                |k: (u64, u64)| self.pools@[spec_pair_key(k.0, k.1)],
            ),
            totals: self.totals@,
        }
    }
}

impl ReserveLedger {
    /// A ledger without pairs and without totals.
    pub fn new() -> (ledger: ReserveLedger)
        ensures
            ledger@ == LedgerModel::empty(),
    {
        let ledger = ReserveLedger { pools: HashMap::new(), totals: HashMap::new() };
        assert(ledger@.pools =~= Map::empty());
        ledger
    }

    /// Every pair of the ledger is filed under two distinct ids.
    pub proof fn lemma_well_keyed(&self)
        ensures
            self@.well_keyed(),
    {
    }

    /// The reserves of the pair `(a, b)`, that of `a` first.
    pub fn get_pair(&self, a: u64, b: u64) -> (found: Result<(Balance, Balance), Error>)
        ensures
            found == match self@.reserves(a, b) {
                Some(r) => Ok::<(Balance, Balance), Error>(r),
                None => Err::<(Balance, Balance), Error>(
                    if a == b {
                        Error::SameTokensNotAllowed
                    } else {
                        Error::NoPoolFound
                    },
                ),
            },
    {
        if a == b {
            return Err(Error::SameTokensNotAllowed);
        }
        let key: u128 = pair_key(a, b);
        match self.pools.get(&key) {
            Some(stored) => {
                if a < b {
                    Ok((stored.0, stored.1))
                } else {
                    Ok((stored.1, stored.0))
                }
            },
            None => Err(Error::NoPoolFound),
        }
    }

    fn set_pair(&mut self, a: u64, b: u64, reserve_a: Balance, reserve_b: Balance)
        requires
            a != b,
        ensures
            final(self)@ == old(self)@.with_reserves(a, b, reserve_a, reserve_b),
    {
        let key: u128 = pair_key(a, b);
        let value: (Balance, Balance) = if a < b {
            (reserve_a, reserve_b)
        } else {
            (reserve_b, reserve_a)
        };
        self.pools.insert(key, value);
        assert(self@.pools =~= old(self)@.with_reserves(a, b, reserve_a, reserve_b).pools);
    }

    /// Adds the deltas to the two sides of the pair `(a, b)`, creating the
    /// entry where there is none. Neither side ever shrinks. Equal ids are
    /// refused and change nothing. Used by provisioning.
    pub fn credit_pair(&mut self, a: u64, b: u64, delta_a: Balance, delta_b: Balance) -> (done:
        Result<(), Error>)
        requires
            a != b ==> old(self)@.pair_fits(a, b, delta_a, delta_b),
        ensures
            a == b ==> done == Err::<(), Error>(Error::SameTokensNotAllowed) && final(self)@
                == old(self)@,
            a != b ==> done == Ok::<(), Error>(()) && final(self)@ == old(self)@.credit_pair(
                a,
                b,
                delta_a,
                delta_b,
            ),
    {
        if a == b {
            return Err(Error::SameTokensNotAllowed);
        }
        let held: (Balance, Balance) = match self.get_pair(a, b) {
            Ok(r) => r,
            Err(_) => (0, 0),
        };
        self.set_pair(a, b, held.0 + delta_a, held.1 + delta_b);
        Ok(())
    }

    /// Moves the pair `(a, b)` through a swap: the input side grows by
    /// `amount_in`, the output side shrinks by `amount_out`. Either both
    /// happen or, where the swap is refused, neither.
    pub fn apply_swap(
        &mut self,
        a: u64,
        b: u64,
        in_is_a: bool,
        amount_in: Balance,
        amount_out: Balance,
    ) -> (done: Result<(), Error>)
        requires
            old(self)@.swap_fits(a, b, in_is_a, amount_in),
        ensures
            match old(self)@.apply_swap(a, b, in_is_a, amount_in, amount_out) {
                Ok(next) => done == Ok::<(), Error>(()) && final(self)@ == next,
                Err(e) => done == Err::<(), Error>(e) && final(self)@ == old(self)@,
            },
    {
        let held: (Balance, Balance) = match self.get_pair(a, b) {
            Ok(r) => r,
            Err(e) => {
                return Err(e);
            },
        };
        if in_is_a {
            if amount_out > held.1 {
                return Err(Error::ReduceTheFunds);
            }
            self.set_pair(a, b, held.0 + amount_in, held.1 - amount_out);
        } else {
            if amount_out > held.0 {
                return Err(Error::ReduceTheFunds);
            }
            self.set_pair(a, b, held.0 - amount_out, held.1 + amount_in);
        }
        Ok(())
    }

    /// The total of `token` in custody.
    pub fn get_aggregate(&self, token: u64) -> (found: Result<Balance, Error>)
        ensures
            found == match self@.aggregate(token) {
                Some(total) => Ok::<Balance, Error>(total),
                None => Err::<Balance, Error>(Error::UnknownToken),
            },
    {
        match self.totals.get(&token) {
            Some(total) => Ok(*total),
            None => Err(Error::UnknownToken),
        }
    }

    /// Adds `delta` to the total of `token`, starting a record at zero
    /// where there is none.
    pub fn credit_aggregate(&mut self, token: u64, delta: Balance)
        requires
            old(self)@.aggregate_or_zero(token) + delta <= Balance::MAX,
        ensures
            final(self)@ == old(self)@.credit_aggregate(token, delta),
    {
        let held: Balance = match self.totals.get(&token) {
            Some(total) => *total,
            None => 0,
        };
        self.totals.insert(token, held + delta);
    }
}

/// A pair is unordered: asked as `(b, a)`, the ledger gives the reserves of
/// `(a, b)` with the sides exchanged.
pub proof fn lemma_reserves_symmetric(m: LedgerModel, a: u64, b: u64)
    ensures
        m.reserves(b, a) == match m.reserves(a, b) {
            Some(r) => Some((r.1, r.0)),
            None => None,
        },
{
}

/// A deposit addressed as `(b, a)` reaches the same entry as one addressed
/// as `(a, b)` and leaves the same ledger.
pub proof fn lemma_credit_pair_symmetric(
    m: LedgerModel,
    a: u64,
    b: u64,
    delta_a: Balance,
    delta_b: Balance,
)
    requires
        a != b,
    ensures
        m.credit_pair(b, a, delta_b, delta_a) == m.credit_pair(a, b, delta_a, delta_b),
{
}

/// A swap addressed as `(b, a)` with the input side named accordingly
/// reaches the same entry as one addressed as `(a, b)`.
pub proof fn lemma_apply_swap_symmetric(
    m: LedgerModel,
    a: u64,
    b: u64,
    in_is_a: bool,
    amount_in: Balance,
    amount_out: Balance,
)
    ensures
        m.apply_swap(b, a, !in_is_a, amount_in, amount_out) == m.apply_swap(
            a,
            b,
            in_is_a,
            amount_in,
            amount_out,
        ),
{
}

/// A deposit leaves every other pair, and every total, as it was, and the
/// pair itself larger by exactly the deltas.
pub proof fn lemma_credit_pair_frame(
    m: LedgerModel,
    a: u64,
    b: u64,
    delta_a: Balance,
    delta_b: Balance,
    c: u64,
    d: u64,
)
    requires
        a != b,
        m.pair_fits(a, b, delta_a, delta_b),
    ensures
        m.credit_pair(a, b, delta_a, delta_b).totals == m.totals,
        m.credit_pair(a, b, delta_a, delta_b).reserves(a, b) == Some(
            (
                (m.reserves_or_zero(a, b).0 + delta_a) as Balance,
                (m.reserves_or_zero(a, b).1 + delta_b) as Balance,
            ),
        ),
        !(c == a && d == b) && !(c == b && d == a) ==> m.credit_pair(
            a,
            b,
            delta_a,
            delta_b,
        ).reserves(c, d) == m.reserves(c, d),
{
}

/// A swap that the ledger accepts leaves neither side of the pair below
/// zero: the output side held at least what left it.
pub proof fn lemma_swap_keeps_reserves(
    m: LedgerModel,
    a: u64,
    b: u64,
    in_is_a: bool,
    amount_in: Balance,
    amount_out: Balance,
)
    requires
        m.swap_fits(a, b, in_is_a, amount_in),
        m.apply_swap(a, b, in_is_a, amount_in, amount_out) is Ok,
    ensures
        m.reserves(a, b) is Some,
        ({
            let before = m.reserves(a, b)->Some_0;
            let after = m.apply_swap(a, b, in_is_a, amount_in, amount_out)->Ok_0.reserves(a, b);
            &&& in_is_a ==> before.1 - amount_out >= 0 && after == Some(
                ((before.0 + amount_in) as Balance, (before.1 - amount_out) as Balance),
            )
            &&& !in_is_a ==> before.0 - amount_out >= 0 && after == Some(
                ((before.0 - amount_out) as Balance, (before.1 + amount_in) as Balance),
            )
        }),
{
}

/// Undoing a swap restores the ledger: where a swap moved `amount_in` into
/// one side and `amount_out` out of the other, the swap in the opposite
/// direction with the amounts exchanged gives back the ledger from before.
pub proof fn lemma_swap_round_trip(
    m: LedgerModel,
    a: u64,
    b: u64,
    in_is_a: bool,
    amount_in: Balance,
    amount_out: Balance,
)
    requires
        m.swap_fits(a, b, in_is_a, amount_in),
        m.apply_swap(a, b, in_is_a, amount_in, amount_out) is Ok,
    ensures
        ({
            let after = m.apply_swap(a, b, in_is_a, amount_in, amount_out)->Ok_0;
            &&& after.swap_fits(a, b, !in_is_a, amount_out)
            &&& after.apply_swap(a, b, !in_is_a, amount_out, amount_in) == Ok::<
                LedgerModel,
                Error,
            >(m)
        }),
{
    let after = m.apply_swap(a, b, in_is_a, amount_in, amount_out)->Ok_0;
    let back = after.apply_swap(a, b, !in_is_a, amount_out, amount_in);
    assert(back is Ok);
    assert(back->Ok_0.pools =~= m.pools);
}

} // verus!
