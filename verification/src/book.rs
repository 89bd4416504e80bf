//! Amounts on record for an account and a token.
//!
//! The exchange keeps in such a book what each provider last put in, token
//! by token. That is a record for diagnosis and accounting, no claim on
//! shares of a pool: a new amount for an account and a token replaces the
//! one on record, whichever pair it went to.

use vstd::prelude::*;
use crate::account::AccountId;
use crate::pricing::Balance;

verus! {

/// One line of the record.
#[derive(Clone, Copy)]
struct BookLine {
    account: AccountId,
    token: u64,
    amount: Balance,
}

impl BookLine {
    /// What the line is filed under: the bytes of the account and the token id.
    spec fn key(self) -> (Seq<u8>, u64) {
        (self.account@, self.token)
    }
}

/// The record that a sequence of lines stands for: a later line replaces an
/// earlier one with the same key.
spec fn spec_record(lines: Seq<BookLine>) -> Map<(Seq<u8>, u64), Balance>
    decreases lines.len(),
{
    if lines.len() == 0 {
        Map::empty()
    } else {
        spec_record(lines.drop_last()).insert(lines.last().key(), lines.last().amount)
    }
}

proof fn lemma_record_absent(lines: Seq<BookLine>, key: (Seq<u8>, u64))
    requires
        forall|j: int| 0 <= j < lines.len() ==> lines[j].key() != key,
    ensures
        !spec_record(lines).contains_key(key),
    decreases lines.len(),
{
    if lines.len() > 0 {
        lemma_record_absent(lines.drop_last(), key);
    }
}

proof fn lemma_record_last_match(lines: Seq<BookLine>, at: int, key: (Seq<u8>, u64))
    requires
        0 <= at < lines.len(),
        lines[at].key() == key,
        forall|j: int| at < j < lines.len() ==> lines[j].key() != key,
    ensures
        spec_record(lines).contains_key(key),
        spec_record(lines)[key] == lines[at].amount,
    decreases lines.len(),
{
    if at < lines.len() - 1 {
        lemma_record_last_match(lines.drop_last(), at, key);
    }
}

proof fn lemma_record_update(lines: Seq<BookLine>, at: int, line: BookLine)
    requires
        0 <= at < lines.len(),
        lines[at].key() == line.key(),
        forall|j: int| at < j < lines.len() ==> lines[j].key() != line.key(),
    ensures
        spec_record(lines.update(at, line)) =~= spec_record(lines).insert(
            line.key(),
            line.amount,
        ),
    decreases lines.len(),
{
    if at < lines.len() - 1 {
        lemma_record_update(lines.drop_last(), at, line);
        assert(lines.update(at, line).drop_last() =~= lines.drop_last().update(at, line));
    } else {
        assert(lines.update(at, line).drop_last() =~= lines.drop_last());
    }
}

/// The amounts on record.
pub struct AccountBook {
    lines: Vec<BookLine>,
}

impl View for AccountBook {
    type V = Map<(Seq<u8>, u64), Balance>;

    closed spec fn view(&self) -> Map<(Seq<u8>, u64), Balance> {
        spec_record(self.lines@)
    }
}

impl AccountBook {
    /// A book without lines.
    pub fn new() -> (book: AccountBook)
        ensures
            book@ == Map::<(Seq<u8>, u64), Balance>::empty(),
    {
        AccountBook { lines: Vec::new() }
    }

    /// The place of the last line filed under the account and token.
    fn find(&self, account: &AccountId, token: u64) -> (at: Option<usize>)
        ensures
            match at {
                Some(i) => {
                    &&& i < self.lines@.len()
                    &&& self.lines@[i as int].key() == (account@, token)
                    &&& forall|j: int|
                        i < j < self.lines@.len() ==> self.lines@[j].key() != (account@, token)
                },
                None => forall|j: int|
                    0 <= j < self.lines@.len() ==> self.lines@[j].key() != (account@, token),
            },
    {
        let mut i: usize = self.lines.len();
        while i > 0
            invariant
                i <= self.lines@.len(),
                forall|j: int|
                    i <= j < self.lines@.len() ==> self.lines@[j].key() != (account@, token),
            decreases i,
        {
            i -= 1;
            if self.lines[i].token == token && self.lines[i].account.same_as(account) {
                return Some(i);
            }
        }
        None
    }

    /// The amount on record for the account and token, if there is one.
    pub fn get(&self, account: &AccountId, token: u64) -> (amount: Option<Balance>)
        ensures
            amount == if self@.contains_key((account@, token)) {
                Some(self@[(account@, token)])
            } else {
                None
            },
    {
        match self.find(account, token) {
            Some(i) => {
                proof {
                    lemma_record_last_match(self.lines@, i as int, (account@, token));
                }
                Some(self.lines[i].amount)
            },
            None => {
                proof {
                    lemma_record_absent(self.lines@, (account@, token));
                }
                None
            },
        }
    }

    /// Puts `amount` on record for the account and token, in place of what
    /// was there. Every other line stays.
    pub fn record(&mut self, account: AccountId, token: u64, amount: Balance)
        ensures
            final(self)@ == old(self)@.insert((account@, token), amount),
    {
        let line = BookLine { account, token, amount };
        match self.find(&account, token) {
            Some(i) => {
                proof {
                    lemma_record_update(self.lines@, i as int, line);
                }
                self.lines.set(i, line);
            },
            None => {
                self.lines.push(line);
                assert(self.lines@.drop_last() =~= old(self).lines@);
            },
        }
    }
}

} // verus!
