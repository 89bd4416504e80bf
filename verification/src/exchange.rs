//! The exchange: registry, ledger and contribution record behind the
//! operations that callers see.
//!
//! The exchange never moves an asset itself. A deposit is checked first,
//! which names the transfers that the host has to make, and is entered once
//! they are made. A swap is entered and names the transfer that the host
//! owes the caller; where that transfer fails the host has the swap undone,
//! which restores the ledger.
//!
//! Design note: the quote is the post-trade invariant term of the pair, and
//! a swap hands out the output reserve less that term. In a textbook
//! constant-product market these are two different quantities. The two steps
//! are kept as they are; whether they match the intended economics is an
//! open question.

use vstd::prelude::*;
use crate::account::AccountId;
use crate::book::AccountBook;
use crate::error::Error;
use crate::history::{after, Step};
use crate::ledger::{LedgerModel, ReserveLedger};
use crate::pricing::{quote_amount, spec_quote, Balance};
use crate::provisioning::{ratio_refused, spec_ratio_refused, REFUSED_MULTIPLE};
use crate::registry::TokenRegistry;

verus! {

/// A movement of an asset that the host has to carry out.
#[derive(Debug, Clone, Copy, PartialEq, Eq)]
pub struct Transfer {
    /// The handle of the asset that moves.
    pub asset: AccountId,
    /// The account on the other side: the provider that pays a deposit in,
    /// or the caller that a swap pays out to.
    pub party: AccountId,
    pub amount: Balance,
}

/// What the exchange reports of a deposit that was entered.
#[derive(Debug, Clone, Copy, PartialEq, Eq)]
pub struct LiquidityAdded {
    pub provider: AccountId,
    pub token_a: u64,
    pub token_b: u64,
    pub amount_a: Balance,
    pub amount_b: Balance,
}

/// What the exchange reports of a swap that was entered.
#[derive(Debug, Clone, Copy, PartialEq, Eq)]
pub struct TokensSwapped {
    pub caller: AccountId,
    pub token_in: u64,
    pub token_out: u64,
    pub amount_in: Balance,
    pub amount_out: Balance,
}

/// The state of an exchange, as plain maps.
pub struct DexModel {
    /// The asset handle of every registered token.
    pub tokens: Map<u64, AccountId>,
    pub ledger: LedgerModel,
    /// The last contribution of each provider for each token.
    pub contributions: Map<(Seq<u8>, u64), Balance>,
    /// The multiple that the ratio rule turns down.
    pub refused_multiple: Balance,
}

impl DexModel {
    /// The exchange before anything was registered or deposited.
    pub open spec fn empty(refused_multiple: Balance) -> DexModel {
        DexModel {
            tokens: Map::empty(),
            ledger: LedgerModel::empty(),
            contributions: Map::empty(),
            refused_multiple,
        }
    }

    /// The same exchange around another ledger.
    pub open spec fn with_ledger(self, ledger: LedgerModel) -> DexModel {
        DexModel {
            tokens: self.tokens,
            ledger,
            contributions: self.contributions,
            refused_multiple: self.refused_multiple,
        }
    }

    /// The handle and custody total of a token, for a registered id.
    pub open spec fn token_info(self, id: u64) -> Option<(AccountId, Balance)> {
        if self.tokens.contains_key(id) {
            Some((self.tokens[id], self.ledger.aggregate_or_zero(id)))
        } else {
            None
        }
    }

    /// The reserves of a pair in the order asked, or why there are none.
    pub open spec fn pool(self, a: u64, b: u64) -> Result<(Balance, Balance), Error> {
        match self.ledger.reserves(a, b) {
            Some(r) => Ok(r),
            None => Err(
                if a == b {
                    Error::SameTokensNotAllowed
                } else {
                    Error::NoPoolFound
                },
            ),
        }
    }

    /// The quote for a trade against the current reserves of the pair.
    pub open spec fn quote(self, token_in: u64, token_out: u64, amount_in: Balance) -> Result<
        Balance,
        Error,
    > {
        match self.pool(token_in, token_out) {
            Ok(r) => Ok(spec_quote(r.0 as nat, r.1 as nat, amount_in as nat) as Balance),
            Err(e) => Err(e),
        }
    }

    /// The verdict on a deposit, by the first rule that it breaks: equal
    /// ids, a zero amount, the refused proportion, an unregistered token.
    pub open spec fn check_liquidity(
        self,
        token_a: u64,
        token_b: u64,
        amount_a: Balance,
        amount_b: Balance,
    ) -> Result<(), Error> {
        if token_a == token_b {
            Err(Error::SameTokensNotAllowed)
        } else if amount_a == 0 || amount_b == 0 {
            Err(Error::ZeroAmount)
        } else if spec_ratio_refused(
            self.refused_multiple as nat,
            amount_a as nat,
            amount_b as nat,
        ) {
            Err(Error::LiquidityRatioProblem)
        } else if !self.tokens.contains_key(token_a) || !self.tokens.contains_key(token_b) {
            Err(Error::UnknownToken)
        } else {
            Ok(())
        }
    }

    /// Whether the totals of both tokens and both sides of the pair can
    /// take the deposit without leaving the range of a balance.
    pub open spec fn deposit_fits(
        self,
        token_a: u64,
        token_b: u64,
        amount_a: Balance,
        amount_b: Balance,
    ) -> bool {
        &&& self.ledger.aggregate_or_zero(token_a) + amount_a <= Balance::MAX
        &&& self.ledger.aggregate_or_zero(token_b) + amount_b <= Balance::MAX
        &&& self.ledger.pair_fits(token_a, token_b, amount_a, amount_b)
    }

    /// The exchange after a deposit was entered: both totals and both sides
    /// of the pair larger by the amounts, and the two contributions on
    /// record in place of any earlier ones.
    pub open spec fn add_liquidity(
        self,
        provider: AccountId,
        token_a: u64,
        token_b: u64,
        amount_a: Balance,
        amount_b: Balance,
    ) -> DexModel {
        DexModel {
            tokens: self.tokens,
            ledger: self.ledger.credit_aggregate(token_a, amount_a).credit_aggregate(
                token_b,
                amount_b,
            ).credit_pair(token_a, token_b, amount_a, amount_b),
            contributions: self.contributions.insert((provider@, token_a), amount_a).insert(
                (provider@, token_b),
                amount_b,
            ),
            refused_multiple: self.refused_multiple,
        }
    }

    /// The amount that a swap hands out, or why the swap is refused: no
    /// reserves to read, a quote of zero, an output token without a handle.
    /// The amount is the output reserve less the quote.
    pub open spec fn swap_amount_out(
        self,
        token_in: u64,
        token_out: u64,
        amount_in: Balance,
    ) -> Result<Balance, Error> {
        match self.quote(token_in, token_out, amount_in) {
            Err(e) => Err(e),
            Ok(quoted) => if quoted == 0 {
                Err(Error::ReduceTheFunds)
            } else if !self.tokens.contains_key(token_out) {
                Err(Error::UnknownToken)
            } else {
                Ok((self.ledger.reserves_or_zero(token_in, token_out).1 - quoted) as Balance)
            },
        }
    }

    /// The exchange after the swap was entered: the input side larger by
    /// `amount_in`, the output side smaller by `amount_out`, nothing else
    /// changed.
    pub open spec fn swap(
        self,
        token_in: u64,
        token_out: u64,
        amount_in: Balance,
        amount_out: Balance,
    ) -> DexModel {
        let r = self.ledger.reserves_or_zero(token_in, token_out);
        self.with_ledger(
            self.ledger.with_reserves(
                token_in,
                token_out,
                (r.0 + amount_in) as Balance,
                (r.1 - amount_out) as Balance,
            ),
        )
    }

    /// Whether a swap that was entered can be undone here: the pair is
    /// there, its input side still holds what came in, and its output side
    /// can take back what went out.
    pub open spec fn can_undo(
        self,
        token_in: u64,
        token_out: u64,
        amount_in: Balance,
        amount_out: Balance,
    ) -> bool {
        &&& self.ledger.reserves(token_in, token_out) is Some
        &&& self.ledger.reserves_or_zero(token_in, token_out).0 >= amount_in
        &&& self.ledger.reserves_or_zero(token_in, token_out).1 + amount_out <= Balance::MAX
    }

    /// The exchange after a swap was undone: the input side smaller by
    /// `amount_in`, the output side larger by `amount_out`.
    pub open spec fn undo_swap(
        self,
        token_in: u64,
        token_out: u64,
        amount_in: Balance,
        amount_out: Balance,
    ) -> DexModel {
        let r = self.ledger.reserves_or_zero(token_in, token_out);
        self.with_ledger(
            self.ledger.with_reserves(
                token_in,
                token_out,
                (r.0 - amount_in) as Balance,
                (r.1 + amount_out) as Balance,
            ),
        )
    }
}

/// The exchange.
pub struct DEX {
    registry: TokenRegistry,
    ledger: ReserveLedger,
    contributions: AccountBook,
    refused_multiple: Balance,
}

impl View for DEX {
    type V = DexModel;

    closed spec fn view(&self) -> DexModel {
        DexModel {
            tokens: self.registry@,
            ledger: self.ledger@,
            contributions: self.contributions@,
            refused_multiple: self.refused_multiple,
        }
    }
}

impl DEX {
    /// An empty exchange with the usual ratio rule.
    pub fn new() -> (dex: DEX)
        ensures
            dex@ == DexModel::empty(REFUSED_MULTIPLE),
    {
        DEX::with_refused_multiple(REFUSED_MULTIPLE)
    }

    /// An empty exchange whose ratio rule turns down deposits of one part
    /// of the first token to `refused_multiple` parts of the second. With
    /// zero no deposit is turned down for its proportion.
    pub fn with_refused_multiple(refused_multiple: Balance) -> (dex: DEX)
        ensures
            dex@ == DexModel::empty(refused_multiple),
    {
        DEX {
            registry: TokenRegistry::new(),
            ledger: ReserveLedger::new(),
            contributions: AccountBook::new(),
            refused_multiple,
        }
    }

    /// The exchange over a registry, a ledger and a contribution record
    /// that the host kept, with the multiple that its ratio rule turns
    /// down.
    pub fn from_parts(
        registry: TokenRegistry,
        ledger: ReserveLedger,
        contributions: AccountBook,
        refused_multiple: Balance,
    ) -> (dex: DEX)
        ensures
            dex@ == (DexModel {
                tokens: registry@,
                ledger: ledger@,
                contributions: contributions@,
                refused_multiple,
            }),
    {
        DEX { registry, ledger, contributions, refused_multiple }
    }

    /// Registers the asset `handle` under the token `id`. An id that is
    /// taken is refused; nothing but the registry changes.
    pub fn register_token(&mut self, id: u64, handle: AccountId) -> (done: Result<(), Error>)
        ensures
            old(self)@.tokens.contains_key(id) ==> done == Err::<(), Error>(Error::DuplicateId)
                && final(self)@ == old(self)@,
            !old(self)@.tokens.contains_key(id) ==> done == Ok::<(), Error>(()) && final(self)@
                == (DexModel {
                tokens: old(self)@.tokens.insert(id, handle),
                ledger: old(self)@.ledger,
                contributions: old(self)@.contributions,
                refused_multiple: old(self)@.refused_multiple,
            }),
            final(self)@ == after(old(self)@, (Step::Register { id, handle })),
    {
        self.registry.register(id, handle)
    }

    /// The asset handle of a token and its total in custody.
    pub fn get_token_info(&self, id: u64) -> (info: Result<(AccountId, Balance), Error>)
        ensures
            info == match self@.token_info(id) {
                Some(found) => Ok::<(AccountId, Balance), Error>(found),
                None => Err::<(AccountId, Balance), Error>(Error::UnknownToken),
            },
    {
        match self.registry.resolve(id) {
            None => Err(Error::UnknownToken),
            Some(handle) => {
                let total: Balance = match self.ledger.get_aggregate(id) {
                    Ok(total) => total,
                    Err(_) => 0,
                };
                Ok((handle, total))
            },
        }
    }

    /// The reserves of the pair `(id_a, id_b)`, that of `id_a` first.
    pub fn get_liquidity_pool(&self, id_a: u64, id_b: u64) -> (pool: Result<
        (Balance, Balance),
        Error,
    >)
        ensures
            pool == self@.pool(id_a, id_b),
    {
        self.ledger.get_pair(id_a, id_b)
    }

    /// The last contribution on record of `provider` for `token`.
    pub fn get_contribution(&self, provider: &AccountId, token: u64) -> (amount: Option<Balance>)
        ensures
            amount == if self@.contributions.contains_key((provider@, token)) {
                Some(self@.contributions[(provider@, token)])
            } else {
                None
            },
    {
        self.contributions.get(provider, token)
    }

    /// The quote for trading `amount_in` of `token_in` for `token_out`
    /// against the current reserves. Zero means that no acceptable price
    /// exists. Nothing changes, so the same question on the same reserves
    /// has the same answer.
    pub fn get_output_amt(&self, token_in: u64, token_out: u64, amount_in: Balance) -> (quoted:
        Result<Balance, Error>)
        ensures
            quoted == self@.quote(token_in, token_out, amount_in),
    {
        match self.ledger.get_pair(token_in, token_out) {
            Ok(r) => Ok(quote_amount(r.0, r.1, amount_in)),
            Err(e) => Err(e),
        }
    }

    /// Checks a deposit without entering it, and names the two transfers
    /// from the provider into custody that have to succeed before it is
    /// entered.
    pub fn check_liquidity(
        &self,
        provider: AccountId,
        id_a: u64,
        id_b: u64,
        amount_a: Balance,
        amount_b: Balance,
    ) -> (verdict: Result<(Transfer, Transfer), Error>)
        ensures
            match self@.check_liquidity(id_a, id_b, amount_a, amount_b) {
                Err(e) => verdict == Err::<(Transfer, Transfer), Error>(e),
                Ok(_) => verdict == Ok::<(Transfer, Transfer), Error>(
                    (
                        Transfer { asset: self@.tokens[id_a], party: provider, amount: amount_a },
                        Transfer { asset: self@.tokens[id_b], party: provider, amount: amount_b },
                    ),
                ),
            },
    {
        if id_a == id_b {
            return Err(Error::SameTokensNotAllowed);
        }
        if amount_a == 0 || amount_b == 0 {
            return Err(Error::ZeroAmount);
        }
        if ratio_refused(self.refused_multiple, amount_a, amount_b) {
            return Err(Error::LiquidityRatioProblem);
        }
        let asset_a: AccountId = match self.registry.resolve(id_a) {
            Some(handle) => handle,
            None => {
                return Err(Error::UnknownToken);
            },
        };
        let asset_b: AccountId = match self.registry.resolve(id_b) {
            Some(handle) => handle,
            None => {
                return Err(Error::UnknownToken);
            },
        };
        Ok(
            (
                Transfer { asset: asset_a, party: provider, amount: amount_a },
                Transfer { asset: asset_b, party: provider, amount: amount_b },
            ),
        )
    }

    /// Whether the totals of both tokens and both sides of the pair can
    /// take the deposit without leaving the range of a balance. A host
    /// asks this before it has a deposit entered.
    pub fn deposit_fits(&self, id_a: u64, id_b: u64, amount_a: Balance, amount_b: Balance) -> (fits:
        bool)
        ensures
            fits == self@.deposit_fits(id_a, id_b, amount_a, amount_b),
    {
        let total_a: Balance = match self.ledger.get_aggregate(id_a) {
            Ok(total) => total,
            Err(_) => 0,
        };
        let total_b: Balance = match self.ledger.get_aggregate(id_b) {
            Ok(total) => total,
            Err(_) => 0,
        };
        let held: (Balance, Balance) = match self.ledger.get_pair(id_a, id_b) {
            Ok(r) => r,
            Err(_) => (0, 0),
        };
        total_a <= Balance::MAX - amount_a && total_b <= Balance::MAX - amount_b && held.0
            <= Balance::MAX - amount_a && held.1 <= Balance::MAX - amount_b
    }

    /// Enters a deposit of `provider` into the pair `(id_a, id_b)`, to be
    /// called once the transfers into custody have succeeded. A deposit
    /// that fails a check changes nothing. One that passes adds the amounts
    /// to both totals and to both sides of the pair, puts the two
    /// contributions on record, and hands back the report.
    pub fn add_liquidity(
        &mut self,
        provider: AccountId,
        id_a: u64,
        id_b: u64,
        amount_a: Balance,
        amount_b: Balance,
    ) -> (done: Result<LiquidityAdded, Error>)
        requires
            old(self)@.check_liquidity(id_a, id_b, amount_a, amount_b) is Ok ==> old(
                self,
            )@.deposit_fits(id_a, id_b, amount_a, amount_b),
        ensures
            match old(self)@.check_liquidity(id_a, id_b, amount_a, amount_b) {
                Err(e) => done == Err::<LiquidityAdded, Error>(e) && final(self)@ == old(self)@,
                Ok(_) => done == Ok::<LiquidityAdded, Error>(
                    (LiquidityAdded {
                        provider,
                        token_a: id_a,
                        token_b: id_b,
                        amount_a,
                        amount_b,
                    }),
                ) && final(self)@ == old(self)@.add_liquidity(
                    provider,
                    id_a,
                    id_b,
                    amount_a,
                    amount_b,
                ),
            },
            final(self)@ == after(
                old(self)@,
                (Step::Deposit {
                    provider,
                    token_a: id_a,
                    token_b: id_b,
                    amount_a,
                    amount_b,
                }),
            ),
    {
        match self.check_liquidity(provider, id_a, id_b, amount_a, amount_b) {
            Err(e) => {
                return Err(e);
            },
            Ok(_) => {},
        }
        self.ledger.credit_aggregate(id_a, amount_a);
        self.ledger.credit_aggregate(id_b, amount_b);
        let _ = self.ledger.credit_pair(id_a, id_b, amount_a, amount_b);
        self.contributions.record(provider, id_a, amount_a);
        self.contributions.record(provider, id_b, amount_b);
        Ok(LiquidityAdded { provider, token_a: id_a, token_b: id_b, amount_a, amount_b })
    }

    /// Enters a swap of `amount_in` of `token_in` for `token_out`. A swap
    /// that is refused changes nothing. One that is entered moves the pair
    /// and hands back the transfer that the host owes the caller, with the
    /// report. Where that transfer fails, `undo_swap` restores the ledger.
    pub fn swap_tokens(
        &mut self,
        caller: AccountId,
        token_in: u64,
        token_out: u64,
        amount_in: Balance,
    ) -> (done: Result<(Transfer, TokensSwapped), Error>)
        ensures
            match old(self)@.swap_amount_out(token_in, token_out, amount_in) {
                Err(e) => done == Err::<(Transfer, TokensSwapped), Error>(e) && final(self)@
                    == old(self)@,
                Ok(amount_out) => done == Ok::<(Transfer, TokensSwapped), Error>(
                    (
                        Transfer {
                            asset: old(self)@.tokens[token_out],
                            party: caller,
                            amount: amount_out,
                        },
                        TokensSwapped { caller, token_in, token_out, amount_in, amount_out },
                    ),
                ) && final(self)@ == old(self)@.swap(token_in, token_out, amount_in, amount_out),
            },
            final(self)@ == after(old(self)@, (Step::Swap { token_in, token_out, amount_in })),
    {
        let held: (Balance, Balance) = match self.ledger.get_pair(token_in, token_out) {
            Ok(r) => r,
            Err(e) => {
                return Err(e);
            },
        };
        let quoted: Balance = quote_amount(held.0, held.1, amount_in);
        if quoted == 0 {
            return Err(Error::ReduceTheFunds);
        }
        let asset: AccountId = match self.registry.resolve(token_out) {
            Some(handle) => handle,
            None => {
                return Err(Error::UnknownToken);
            },
        };
        let amount_out: Balance = held.1 - quoted;
        match self.ledger.apply_swap(token_in, token_out, true, amount_in, amount_out) {
            Ok(_) => {},
            Err(e) => {
                return Err(e);
            },
        }
        Ok(
            (
                Transfer { asset, party: caller, amount: amount_out },
                TokensSwapped { caller, token_in, token_out, amount_in, amount_out },
            ),
        )
    }

    /// Undoes a swap that was entered, for the host whose transfer to the
    /// caller failed: the input side gives back `amount_in`, the output
    /// side takes back `amount_out`. Where the swap cannot be undone on
    /// this ledger, nothing changes and `false` comes back.
    pub fn undo_swap(&mut self, swapped: &TokensSwapped) -> (undone: bool)
        ensures
            undone == old(self)@.can_undo(
                swapped.token_in,
                swapped.token_out,
                swapped.amount_in,
                swapped.amount_out,
            ),
            undone ==> final(self)@ == old(self)@.undo_swap(
                swapped.token_in,
                swapped.token_out,
                swapped.amount_in,
                swapped.amount_out,
            ),
            !undone ==> final(self)@ == old(self)@,
            final(self)@ == after(
                old(self)@,
                (Step::Undo {
                    token_in: swapped.token_in,
                    token_out: swapped.token_out,
                    amount_in: swapped.amount_in,
                    amount_out: swapped.amount_out,
                }),
            ),
    {
        let held: (Balance, Balance) = match self.ledger.get_pair(
            swapped.token_in,
            swapped.token_out,
        ) {
            Ok(r) => r,
            Err(_) => {
                return false;
            },
        };
        if held.0 < swapped.amount_in || held.1 > Balance::MAX - swapped.amount_out {
            return false;
        }
        let back: Result<(), Error> = self.ledger.apply_swap(
            swapped.token_in,
            swapped.token_out,
            false,
            swapped.amount_out,
            swapped.amount_in,
        );
        back.is_ok()
    }

    /// Closes a swap that was entered, once the host knows whether its
    /// transfer to the caller went through. Where it did, the swap stands
    /// and the report comes back for delivery. Where it did not, the swap
    /// is undone and the failure of the transfer is the answer.
    pub fn settle_swap(&mut self, swapped: &TokensSwapped, transferred: bool) -> (done: Result<
        TokensSwapped,
        Error,
    >)
        ensures
            transferred ==> done == Ok::<TokensSwapped, Error>(*swapped) && final(self)@ == old(
                self,
            )@,
            !transferred ==> done == Err::<TokensSwapped, Error>(Error::TransferError),
            !transferred && old(self)@.can_undo(
                swapped.token_in,
                swapped.token_out,
                swapped.amount_in,
                swapped.amount_out,
            ) ==> final(self)@ == old(self)@.undo_swap(
                swapped.token_in,
                swapped.token_out,
                swapped.amount_in,
                swapped.amount_out,
            ),
            !transferred && !old(self)@.can_undo(
                swapped.token_in,
                swapped.token_out,
                swapped.amount_in,
                swapped.amount_out,
            ) ==> final(self)@ == old(self)@,
            !transferred ==> final(self)@ == after(
                old(self)@,
                (Step::Undo {
                    token_in: swapped.token_in,
                    token_out: swapped.token_out,
                    amount_in: swapped.amount_in,
                    amount_out: swapped.amount_out,
                }),
            ),
    {
        if transferred {
            return Ok(*swapped);
        }
        let _ = self.undo_swap(swapped);
        Err(Error::TransferError)
    }
}

/// A pair is unordered: a pool asked for as `(b, a)` is the pool of
/// `(a, b)` with the sides exchanged, and a deposit addressed as `(b, a)`
/// leaves the same exchange as one addressed as `(a, b)`.
pub proof fn lemma_pair_symmetry(
    m: DexModel,
    provider: AccountId,
    a: u64,
    b: u64,
    amount_a: Balance,
    amount_b: Balance,
)
    requires
        a != b,
    ensures
        m.pool(b, a) == match m.pool(a, b) {
            Ok(r) => Ok::<(Balance, Balance), Error>((r.1, r.0)),
            Err(e) => Err::<(Balance, Balance), Error>(e),
        },
        m.add_liquidity(provider, b, a, amount_b, amount_a) == m.add_liquidity(
            provider,
            a,
            b,
            amount_a,
            amount_b,
        ),
{
    let left = m.add_liquidity(provider, b, a, amount_b, amount_a);
    let right = m.add_liquidity(provider, a, b, amount_a, amount_b);
    assert(left.ledger.totals =~= right.ledger.totals);
    assert(left.ledger.pools =~= right.ledger.pools);
    assert(left.contributions =~= right.contributions);
}

/// The quote is derived from the reserves of the pair alone: two exchanges
/// that hold the same reserves for a pair give the same quote for the same
/// input, whatever else they hold.
pub proof fn lemma_quote_depends_on_reserves_alone(
    m: DexModel,
    n: DexModel,
    token_in: u64,
    token_out: u64,
    amount_in: Balance,
)
    requires
        m.ledger.reserves(token_in, token_out) == n.ledger.reserves(token_in, token_out),
    ensures
        m.quote(token_in, token_out, amount_in) == n.quote(token_in, token_out, amount_in),
{
}

/// A deposit that is entered raises the total of each of its two tokens by
/// exactly the amount deposited, and the total of no other token.
pub proof fn lemma_deposit_conserves_totals(
    m: DexModel,
    provider: AccountId,
    a: u64,
    b: u64,
    amount_a: Balance,
    amount_b: Balance,
    other: u64,
)
    requires
        m.check_liquidity(a, b, amount_a, amount_b) is Ok,
        m.deposit_fits(a, b, amount_a, amount_b),
    ensures
        m.add_liquidity(provider, a, b, amount_a, amount_b).ledger.aggregate_or_zero(a)
            == m.ledger.aggregate_or_zero(a) + amount_a,
        m.add_liquidity(provider, a, b, amount_a, amount_b).ledger.aggregate_or_zero(b)
            == m.ledger.aggregate_or_zero(b) + amount_b,
        other != a && other != b ==> m.add_liquidity(
            provider,
            a,
            b,
            amount_a,
            amount_b,
        ).ledger.aggregate(other) == m.ledger.aggregate(other),
{
}

/// A deposit that is entered raises both sides of its pair by exactly the
/// amounts deposited and leaves every other pair as it was.
pub proof fn lemma_deposit_raises_pair(
    m: DexModel,
    provider: AccountId,
    a: u64,
    b: u64,
    amount_a: Balance,
    amount_b: Balance,
    c: u64,
    d: u64,
)
    requires
        m.check_liquidity(a, b, amount_a, amount_b) is Ok,
        m.deposit_fits(a, b, amount_a, amount_b),
    ensures
        m.add_liquidity(provider, a, b, amount_a, amount_b).ledger.reserves(a, b) == Some(
            (
                (m.ledger.reserves_or_zero(a, b).0 + amount_a) as Balance,
                (m.ledger.reserves_or_zero(a, b).1 + amount_b) as Balance,
            ),
        ),
        !(c == a && d == b) && !(c == b && d == a) ==> m.add_liquidity(
            provider,
            a,
            b,
            amount_a,
            amount_b,
        ).ledger.reserves(c, d) == m.ledger.reserves(c, d),
{
}

/// A swap that is entered leaves the quote on the output side and the
/// input reserve larger by what came in; what it hands out is never more
/// than the output side held.
pub proof fn lemma_swap_leaves_quote(m: DexModel, token_in: u64, token_out: u64, amount_in: Balance)
    requires
        m.swap_amount_out(token_in, token_out, amount_in) is Ok,
    ensures
        ({
            let amount_out = m.swap_amount_out(token_in, token_out, amount_in)->Ok_0;
            let before = m.ledger.reserves_or_zero(token_in, token_out);
            let after = m.swap(token_in, token_out, amount_in, amount_out).ledger.reserves(
                token_in,
                token_out,
            );
            &&& amount_out <= before.1
            &&& before.0 + amount_in <= Balance::MAX
            &&& after == Some(
                ((before.0 + amount_in) as Balance, m.quote(token_in, token_out, amount_in)->Ok_0),
            )
        }),
{
    let before = m.ledger.reserves_or_zero(token_in, token_out);
    crate::pricing::lemma_candidate_bounded(before.0 as nat, before.1 as nat, amount_in as nat);
    crate::pricing::lemma_quote_fits(before.0 as nat, before.1 as nat, amount_in as nat);
}

/// The exchange's swap is the ledger's swap with the input token named
/// first; named the other way round, with the input side marked as the
/// second, it is the same swap on the same entry.
pub proof fn lemma_swap_is_ledger_swap(
    m: DexModel,
    token_in: u64,
    token_out: u64,
    amount_in: Balance,
)
    requires
        m.swap_amount_out(token_in, token_out, amount_in) is Ok,
    ensures
        ({
            let amount_out = m.swap_amount_out(token_in, token_out, amount_in)->Ok_0;
            let after = m.swap(token_in, token_out, amount_in, amount_out).ledger;
            &&& m.ledger.apply_swap(token_in, token_out, true, amount_in, amount_out) == Ok::<
                LedgerModel,
                Error,
            >(after)
            &&& m.ledger.apply_swap(token_out, token_in, false, amount_in, amount_out) == Ok::<
                LedgerModel,
                Error,
            >(after)
        }),
{
    lemma_swap_leaves_quote(m, token_in, token_out, amount_in);
}

/// Deposits, swaps and undone swaps keep every pair filed under two
/// distinct ids in ascending order.
pub proof fn lemma_steps_keep_pairs_distinct(
    m: DexModel,
    provider: AccountId,
    a: u64,
    b: u64,
    amount_a: Balance,
    amount_b: Balance,
)
    requires
        m.ledger.well_keyed(),
        a != b,
    ensures
        m.add_liquidity(provider, a, b, amount_a, amount_b).ledger.well_keyed(),
        m.swap(a, b, amount_a, amount_b).ledger.well_keyed(),
        m.undo_swap(a, b, amount_a, amount_b).ledger.well_keyed(),
{
}

/// Undoing a swap that was just entered restores the exchange: the state
/// after the failed attempt is the state before it.
pub proof fn lemma_undo_restores(m: DexModel, token_in: u64, token_out: u64, amount_in: Balance)
    requires
        m.swap_amount_out(token_in, token_out, amount_in) is Ok,
    ensures
        ({
            let amount_out = m.swap_amount_out(token_in, token_out, amount_in)->Ok_0;
            let after = m.swap(token_in, token_out, amount_in, amount_out);
            &&& after.can_undo(token_in, token_out, amount_in, amount_out)
            &&& after.undo_swap(token_in, token_out, amount_in, amount_out) == m
        }),
{
    lemma_swap_leaves_quote(m, token_in, token_out, amount_in);
    let amount_out = m.swap_amount_out(token_in, token_out, amount_in)->Ok_0;
    let after = m.swap(token_in, token_out, amount_in, amount_out);
    let back = after.undo_swap(token_in, token_out, amount_in, amount_out);
    assert(back.ledger.pools =~= m.ledger.pools);
}

} // verus!
