//! The model of the data the transaction works on: a table of accounts, each
//! an identifier with a balance.  Reads and writes go by the first row whose
//! identifier matches, as a single-keyed table does.

use vstd::prelude::*;

verus! {

/// One row of the accounts table.
#[derive(Clone, Copy, PartialEq, Eq, Structural, Debug)]
pub struct Account {
    pub id: u128,
    pub balance: i64,
}

/// The balance of the first row of `s` at or after position `i` whose
/// identifier is `id`, if any.
pub open spec fn lookup_from(s: Seq<Account>, id: u128, i: int) -> Option<i64>
    decreases s.len() - i,
{
    if i < 0 || i >= s.len() {
        None
    } else if s[i].id == id {
        Some(s[i].balance)
    } else {
        lookup_from(s, id, i + 1)
    }
}

/// The balance recorded for `id` in `s`: the balance of the first row whose
/// identifier is `id`, or `None` when no row has it.
pub open spec fn lookup(s: Seq<Account>, id: u128) -> Option<i64> {
    lookup_from(s, id, 0)
}

/// `s` with the balance of the first row matching `id` at or after position
/// `i` replaced by `balance`; `s` unchanged when no row matches.
pub open spec fn update_from(s: Seq<Account>, id: u128, balance: i64, i: int) -> Seq<Account>
    decreases s.len() - i,
{
    if i < 0 || i >= s.len() {
        s
    } else if s[i].id == id {
        s.update(i, Account { id, balance })
    } else {
        update_from(s, id, balance, i + 1)
    }
}

/// `s` with the balance of the first row matching `id` replaced by `balance`;
/// `s` unchanged when no row matches.
pub open spec fn update_first(s: Seq<Account>, id: u128, balance: i64) -> Seq<Account> {
    update_from(s, id, balance, 0)
}

/// The accounts table as one transaction sees it.
#[derive(Debug)]
pub struct Ledger {
    accounts: Vec<Account>,
}

impl View for Ledger {
    type V = Seq<Account>;

    closed spec fn view(&self) -> Seq<Account> {
        self.accounts@
    }
}

impl Ledger {
    /// An empty table.
    pub fn new() -> (l: Ledger)
        ensures
            l@ == Seq::<Account>::empty(),
    {
        Ledger { accounts: Vec::new() }
    }

    /// Appends a row.
    pub fn add_account(&mut self, id: u128, balance: i64)
        ensures
            final(self)@ == old(self)@.push(Account { id, balance }),
    {
        self.accounts.push(Account { id, balance });
    }

    /// How many rows the table holds.
    pub fn row_count(&self) -> (n: usize)
        ensures
            n == self@.len(),
    {
        self.accounts.len()
    }

    /// The balance recorded for `id`, or `None` when no row has it.
    pub fn balance_of(&self, id: u128) -> (r: Option<i64>)
        ensures
            r == lookup(self@, id),
    {
        let n = self.accounts.len();
        let mut i: usize = 0;
        while i < n
            invariant
                i <= n,
                n == self@.len(),
                lookup(self@, id) == lookup_from(self@, id, i as int),
            decreases n - i,
        {
            if self.accounts[i].id == id {
                return Some(self.accounts[i].balance);
            }
            i = i + 1;
        }
        None
    }

    /// Sets the balance of the first row matching `id`; does nothing when no
    /// row matches, as an update that touches no row does.
    pub fn set_balance(&mut self, id: u128, balance: i64)
        ensures
            final(self)@ == update_first(old(self)@, id, balance),
    {
        let n = self.accounts.len();
        let mut i: usize = 0;
        while i < n
            invariant
                i <= n,
                n == self@.len(),
                self@ == old(self)@,
                update_first(old(self)@, id, balance) == update_from(self@, id, balance, i as int),
            decreases n - i,
        {
            if self.accounts[i].id == id {
                self.accounts[i] = Account { id, balance };
                return;
            }
            i = i + 1;
        }
    }

    /// A row-for-row copy, as a savepoint's private working state.
    pub fn duplicate(&self) -> (l: Ledger)
        ensures
            l@ == self@,
    {
        let n = self.accounts.len();
        let mut v: Vec<Account> = Vec::new();
        let mut i: usize = 0;
        while i < n
            invariant
                i <= n,
                n == self@.len(),
                v@ == self@.subrange(0, i as int),
            decreases n - i,
        {
            v.push(self.accounts[i]);
            i = i + 1;
        }
        proof {
            assert(v@ =~= self@);
        }
        Ledger { accounts: v }
    }
}

} // verus!
