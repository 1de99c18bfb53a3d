//! The transaction and savepoint model.  A `Txn` stands for one open
//! transaction against the store, together with the store-side behaviour that
//! the client protocol has to cope with: serialization conflicts raised when a
//! savepoint is committed, a connection that is no longer usable, and a
//! failure of the final commit.  A `Savepoint` is the private working state of
//! one attempt: its writes reach the parent transaction only through
//! `Txn::commit_savepoint`, and vanish on any other exit.

use vstd::prelude::*;

use crate::classify::connectivity_code;
use crate::classify::serialization_failure_code;
use crate::classify::DbError;
use crate::ledger::Ledger;

verus! {

/// A nested rollback point inside an open transaction, owned by one retry
/// attempt.  `ledger` is the attempt's working copy of the parent
/// transaction's state; `attempt` numbers the attempt, and models how fresh
/// the data is that this attempt reads.
#[derive(Debug)]
pub struct Savepoint {
    pub ledger: Ledger,
    pub attempt: u64,
}

impl Savepoint {
    /// The balance this attempt reads for `id`.
    pub fn balance_of(&self, id: u128) -> (r: Option<i64>)
        ensures
            r == crate::ledger::lookup(self.ledger@, id),
    {
        self.ledger.balance_of(id)
    }

    /// Writes a balance into this attempt's working state.
    pub fn set_balance(&mut self, id: u128, balance: i64)
        ensures
            final(self).ledger@ == crate::ledger::update_first(old(self).ledger@, id, balance),
            final(self).attempt == old(self).attempt,
    {
        self.ledger.set_balance(id, balance);
    }

    /// Which attempt this savepoint belongs to, starting from zero.
    pub fn attempt_index(&self) -> (a: u64)
        ensures
            a == self.attempt,
    {
        self.attempt
    }
}

/// One open transaction, exclusively owned by its caller, together with the
/// scripted store-side behaviour the executor must survive: how many savepoint
/// commits the store will still refuse with a serialization conflict, whether
/// the connection is usable, and whether the outer commit will fail.
#[derive(Debug)]
pub struct Txn {
    /// State as the parent transaction sees it: only committed savepoints
    /// have written to it.
    pub ledger: Ledger,
    /// Store model: how many upcoming savepoint commits report a
    /// serialization conflict before one is allowed through.
    pub pending_conflicts: u64,
    /// Store model: whether the connection still works; opening a savepoint
    /// on an unusable connection fails.
    pub usable: bool,
    /// Store model: the error the outer commit will report, if any.
    pub commit_failure: Option<DbError>,
    /// Whether the outer transaction has been committed.
    pub committed: bool,
    /// How many savepoints have been opened on this transaction.
    pub savepoints_opened: u64,
    /// How many savepoints have been committed into this transaction.
    pub savepoints_committed: u64,
}

impl Txn {
    /// Opens a transaction over `ledger` on a healthy connection: no conflict
    /// is scripted, and both commits will succeed.
    pub fn begin(ledger: Ledger) -> (t: Txn)
        ensures
            t.ledger == ledger,
            t.pending_conflicts == 0,
            t.usable,
            t.commit_failure is None,
            !t.committed,
            t.savepoints_opened == 0,
            t.savepoints_committed == 0,
    {
        Txn {
            ledger,
            pending_conflicts: 0,
            usable: true,
            commit_failure: None,
            committed: false,
            savepoints_opened: 0,
            savepoints_committed: 0,
        }
    }

    /// Scripts the store to refuse the next `n` savepoint commits with a
    /// serialization conflict each.
    pub fn force_conflicts(&mut self, n: u64)
        ensures
            *final(self) == (Txn { pending_conflicts: n, ..*old(self) }),
    {
        self.pending_conflicts = n;
    }

    /// Scripts the connection as lost: no further savepoint can be opened.
    pub fn force_unusable(&mut self)
        ensures
            *final(self) == (Txn { usable: false, ..*old(self) }),
    {
        self.usable = false;
    }

    /// Scripts the outer commit to fail with `e`.
    pub fn force_commit_failure(&mut self, e: DbError)
        ensures
            *final(self) == (Txn { commit_failure: Some(e), ..*old(self) }),
    {
        self.commit_failure = Some(e);
    }

    /// Opens a fresh savepoint for attempt number `attempt`.  Fails with a
    /// connectivity error, and opens nothing, when the connection is gone.
    pub fn savepoint(&mut self, attempt: u64) -> (r: Result<Savepoint, DbError>)
        requires
            old(self).savepoints_opened < u64::MAX,
        ensures
            !old(self).usable ==> (r matches Err(e) && e@ == Some(connectivity_code())
                && *final(self) == *old(self)),
            old(self).usable ==> (r matches Ok(sp) && sp.ledger@ == old(self).ledger@
                && sp.attempt == attempt
                && *final(self) == (Txn {
                    savepoints_opened: (old(self).savepoints_opened + 1) as u64,
                    ..*old(self)
                })),
    {
        if !self.usable {
            return Err(DbError::connectivity());
        }
        let working = self.ledger.duplicate();
        self.savepoints_opened = self.savepoints_opened + 1;
        Ok(Savepoint { ledger: working, attempt })
    }

    /// Commits a savepoint: applies its working state to the parent
    /// transaction.  While a scripted conflict is pending, the commit fails
    /// with the serialization-failure code instead, consumes that conflict,
    /// and leaves the parent transaction's state exactly as it was — the
    /// savepoint's writes are discarded with the savepoint.
    pub fn commit_savepoint(&mut self, sp: Savepoint) -> (r: Result<(), DbError>)
        requires
            old(self).savepoints_committed < u64::MAX,
        ensures
            old(self).pending_conflicts > 0 ==> (r matches Err(e)
                && e@ == Some(serialization_failure_code())
                && *final(self) == (Txn {
                    pending_conflicts: (old(self).pending_conflicts - 1) as u64,
                    ..*old(self)
                })),
            old(self).pending_conflicts == 0 ==> (r matches Ok(u) && u == ()
                && *final(self) == (Txn {
                    ledger: sp.ledger,
                    savepoints_committed: (old(self).savepoints_committed + 1) as u64,
                    ..*old(self)
                })),
    {
        if self.pending_conflicts > 0 {
            self.pending_conflicts = self.pending_conflicts - 1;
            return Err(DbError::conflict());
        }
        self.ledger = sp.ledger;
        self.savepoints_committed = self.savepoints_committed + 1;
        Ok(())
    }

    /// Commits the outer transaction, making its state the store's.  When the
    /// store has a commit failure scripted, that error is reported instead
    /// and nothing is committed.
    pub fn commit(&mut self) -> (r: Result<(), DbError>)
        ensures
            old(self).commit_failure is None ==> (r matches Ok(u) && u == ()
                && *final(self) == (Txn { committed: true, ..*old(self) })),
            old(self).commit_failure matches Some(e) ==> (r matches Err(f) && f == e
                && *final(self) == *old(self)),
    {
        match self.commit_failure {
            Some(e) => Err(e),
            None => {
                self.committed = true;
                Ok(())
            },
        }
    }

    /// The balance the parent transaction currently records for `id`.
    pub fn balance_of(&self, id: u128) -> (r: Option<i64>)
        ensures
            r == crate::ledger::lookup(self.ledger@, id),
    {
        self.ledger.balance_of(id)
    }
}

} // verus!
