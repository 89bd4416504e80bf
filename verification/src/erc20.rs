//! A token ledger that credits what is deposited: the balance of every
//! account and the total supply of one token.

use vstd::prelude::*;
use crate::account::AccountId;
use crate::book::AccountBook;
use crate::pricing::Balance;

verus! {

/// The state of a token ledger, as plain values.
pub struct Erc20Model {
    pub id: u64,
    /// The balance of every account that ever deposited, by its bytes.
    pub balances: Map<Seq<u8>, Balance>,
    pub total_supply: Balance,
}

impl Erc20Model {
    /// The balance of an account, none on record counting as zero.
    pub open spec fn balance_of(self, account: Seq<u8>) -> Balance {
        if self.balances.contains_key(account) {
            self.balances[account]
        } else {
            0
        }
    }

    /// The ledger after `account` deposited `value`: its balance and the
    /// total supply larger by `value`, every other balance as it was.
    pub open spec fn add(self, account: Seq<u8>, value: Balance) -> Erc20Model {
        Erc20Model {
            id: self.id,
            balances: self.balances.insert(account, (self.balance_of(account) + value) as Balance),
            total_supply: (self.total_supply + value) as Balance,
        }
    }
}

/// The balances that a book holds for the token `id`, account by account.
pub open spec fn spec_balances(book: Map<(Seq<u8>, u64), Balance>, id: u64) -> Map<
    Seq<u8>,
    Balance,
> {
    Map::new(
        |account: Seq<u8>| book.contains_key((account, id)),
        |account: Seq<u8>| book[(account, id)],
    )
}

/// The ledger of one token.
pub struct Erc20 {
    id: u64,
    balance_of: AccountBook,
    total_supply: Balance,
}

impl View for Erc20 {
    type V = Erc20Model;

    closed spec fn view(&self) -> Erc20Model {
        Erc20Model {
            id: self.id,
            balances: spec_balances(self.balance_of@, self.id),
            total_supply: self.total_supply,
        }
    }
}

impl Erc20 {
    /// The ledger of the token `id`, with no balance and no supply.
    pub fn new(id: u64) -> (token: Erc20)
        ensures
            token@ == (Erc20Model { id, balances: Map::empty(), total_supply: 0 }),
    {
        let token = Erc20 { id, balance_of: AccountBook::new(), total_supply: 0 };
        assert(token@.balances =~= Map::empty());
        token
    }

    /// The ledger of the token `id` over balances and a total supply that
    /// the host kept. Of the book, the lines of this token count.
    pub fn from_parts(id: u64, balance_of: AccountBook, total_supply: Balance) -> (token: Erc20)
        ensures
            token@ == (Erc20Model {
                id,
                balances: spec_balances(balance_of@, id),
                total_supply,
            }),
    {
        Erc20 { id, balance_of, total_supply }
    }

    /// The id of the token.
    pub fn id(&self) -> (id: u64)
        ensures
            id == self@.id,
    {
        self.id
    }

    /// The total that was ever deposited.
    pub fn total_supply(&self) -> (total: Balance)
        ensures
            total == self@.total_supply,
    {
        self.total_supply
    }

    /// Whether the caller's balance and the total supply can take `value`
    /// without leaving the range of a balance.
    pub fn add_fits(&self, caller: &AccountId, value: Balance) -> (fits: bool)
        ensures
            fits == (self@.balance_of(caller@) + value <= Balance::MAX && self@.total_supply
                + value <= Balance::MAX),
    {
        let held: Balance = self.get_balance_of(caller);
        held <= Balance::MAX - value && self.total_supply <= Balance::MAX - value
    }

    /// Credits `value`, which `caller` paid in, to the caller's balance and
    /// to the total supply.
    pub fn add(&mut self, caller: AccountId, value: Balance)
        requires
            old(self)@.balance_of(caller@) + value <= Balance::MAX,
            old(self)@.total_supply + value <= Balance::MAX,
        ensures
            final(self)@ == old(self)@.add(caller@, value),
    {
        let held: Balance = self.get_balance_of(&caller);
        self.total_supply = self.total_supply + value;
        self.balance_of.record(caller, self.id, held + value);
        assert(self@.balances =~= old(self)@.add(caller@, value).balances);
    }

    /// The balance of `account`: zero where it never deposited.
    pub fn get_balance_of(&self, account: &AccountId) -> (balance: Balance)
        ensures
            balance == self@.balance_of(account@),
    {
        match self.balance_of.get(account, self.id) {
            Some(balance) => balance,
            None => 0,
        }
    }
}

/// Credits equal deposits: a deposit raises the depositor's balance and the
/// total supply by exactly its value and leaves every other balance as it
/// was.
pub proof fn lemma_add_credits_deposit(
    m: Erc20Model,
    account: Seq<u8>,
    value: Balance,
    other: Seq<u8>,
)
    requires
        m.balance_of(account) + value <= Balance::MAX,
        m.total_supply + value <= Balance::MAX,
    ensures
        m.add(account, value).balance_of(account) == m.balance_of(account) + value,
        m.add(account, value).total_supply == m.total_supply + value,
        other != account ==> m.add(account, value).balance_of(other) == m.balance_of(other),
{
}

} // verus!
