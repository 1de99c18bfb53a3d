//! The retry-on-conflict executor.  `run` owns the retry loop: it opens a
//! fresh savepoint for each attempt, invokes the operation against it,
//! classifies whatever failed, absorbs every retryable failure by discarding
//! the attempt's savepoint and opening another, and stops on the first
//! success or permanent error.  On success the outer transaction is
//! committed; on any error it is left uncommitted for the caller.

use vstd::prelude::*;

use crate::classify::classify;
use crate::classify::is_serialization_failure;
use crate::classify::Classification;
use crate::classify::DbError;
use crate::ledger::Account;
use crate::txn::Savepoint;
use crate::txn::Txn;

verus! {

/// The tagged result of one attempt, after classification.  It alone drives
/// the loop's control decision.
pub enum Outcome<T> {
    Success(T),
    RetryableFailure(DbError),
    PermanentFailure(DbError),
}

/// Tags the raw result of one attempt with its classification: a failure is
/// retryable exactly when `classify` says so.
pub fn classify_outcome<T>(r: Result<T, DbError>) -> (o: Outcome<T>)
    ensures
        match r {
            Ok(v) => o == Outcome::Success(v),
            Err(e) => if is_serialization_failure(e@) {
                o == Outcome::<T>::RetryableFailure(e)
            } else {
                o == Outcome::<T>::PermanentFailure(e)
            },
        },
{
    match r {
        Ok(v) => Outcome::Success(v),
        Err(e) => match classify(&e) {
            Classification::Retryable => Outcome::RetryableFailure(e),
            Classification::Permanent => Outcome::PermanentFailure(e),
        },
    }
}

/// A caller-supplied unit of database work, safely re-invocable: each attempt
/// runs against a fresh savepoint, so only the attempt that commits leaves
/// any effect.
///
/// The spec functions describe the operation to the executor's contract.
/// Each attempt starts from the same parent-transaction state, so what an
/// attempt does is a function of that state; which attempts fail transiently
/// is the store's business, modelled by the attempt number:
/// `retries_needed(s)` is how many leading attempts report a serialization
/// conflict before one resolves.  The resolving attempt succeeds with
/// `result_state`/`result_value` when `succeeds(s)` holds, and otherwise
/// fails permanently with the error whose view is `failure(s)`.
pub trait Operation<T> {
    /// How many leading attempts fail with a serialization conflict.
    spec fn retries_needed(&self, s: Seq<Account>) -> nat;

    /// Whether an attempt that is past its transient conflicts succeeds.
    spec fn succeeds(&self, s: Seq<Account>) -> bool;

    /// The state a successful attempt leaves in its savepoint.
    spec fn result_state(&self, s: Seq<Account>) -> Seq<Account>;

    /// The value a successful attempt returns.
    spec fn result_value(&self, s: Seq<Account>) -> T;

    /// The view of the permanent error a failing attempt raises.
    spec fn failure(&self, s: Seq<Account>) -> Option<Seq<u8>>;

    /// Runs one attempt against the savepoint `sp`.
    fn attempt(&self, sp: &mut Savepoint) -> (r: Result<T, DbError>)
        ensures
            old(sp).attempt < self.retries_needed(old(sp).ledger@) ==> (r matches Err(e)
                && is_serialization_failure(e@)),
            old(sp).attempt >= self.retries_needed(old(sp).ledger@)
                && self.succeeds(old(sp).ledger@) ==> (r matches Ok(v)
                && v == self.result_value(old(sp).ledger@)
                && final(sp).ledger@ == self.result_state(old(sp).ledger@)),
            old(sp).attempt >= self.retries_needed(old(sp).ledger@)
                && !self.succeeds(old(sp).ledger@) ==> (r matches Err(e)
                && e@ == self.failure(old(sp).ledger@)
                && !is_serialization_failure(e@)),
    ;
}

/// The state the parent transaction holds once `run` returns: the
/// operation's effect applied exactly once when the operation succeeds, and
/// the state `run` started from when it does not.
pub open spec fn committed_state<T, Op: Operation<T>>(op: &Op, s: Seq<Account>) -> Seq<Account> {
    if op.succeeds(s) {
        op.result_state(s)
    } else {
        s
    }
}

/// How many savepoints `run` opens: one per transient conflict the operation
/// reports, one per serialization conflict the store raises at savepoint
/// commit (only a succeeding attempt reaches that commit), and the one
/// attempt that resolves.
pub open spec fn attempts_used<T, Op: Operation<T>>(
    op: &Op,
    s: Seq<Account>,
    pending_conflicts: u64,
) -> nat {
    if op.succeeds(s) {
        (op.retries_needed(s) + pending_conflicts + 1) as nat
    } else {
        (op.retries_needed(s) + 1) as nat
    }
}

/// Runs `op` inside the open transaction `txn`, retrying it under a fresh
/// savepoint for as long as the store reports serialization conflicts.
///
/// There is no bound on the number of retries: the loop stops because the
/// store model lets an attempt through once its scripted conflicts are spent.
/// A permanent error is returned exactly as it was raised, the outer
/// transaction is then left uncommitted with its state untouched, and no
/// further attempt is made.  On success the operation's effect stands in the
/// transaction exactly once, however many attempts were discarded before it.
#[verifier::loop_isolation(false)]
pub fn run<T, Op: Operation<T>>(txn: &mut Txn, op: &Op) -> (r: Result<T, DbError>)
    requires
        !old(txn).committed,
        old(txn).savepoints_opened + attempts_used(op, old(txn).ledger@, old(txn).pending_conflicts)
            <= u64::MAX,
        old(txn).savepoints_committed < u64::MAX,
    ensures
        final(txn).usable == old(txn).usable,
        !old(txn).usable ==> (r matches Err(e)
            && e@ == Some(crate::classify::connectivity_code())
            && *final(txn) == *old(txn)),
        old(txn).usable && !op.succeeds(old(txn).ledger@) ==> (r matches Err(e)
            && e@ == op.failure(old(txn).ledger@)
            && !is_serialization_failure(e@)
            && *final(txn) == (Txn {
                savepoints_opened: (old(txn).savepoints_opened
                    + op.retries_needed(old(txn).ledger@) + 1) as u64,
                ..*old(txn)
            })),
        old(txn).usable && op.succeeds(old(txn).ledger@) ==> (final(txn).ledger@
                == op.result_state(old(txn).ledger@)
            && final(txn).ledger@ == committed_state(op, old(txn).ledger@)
            && final(txn).savepoints_opened == old(txn).savepoints_opened
                + attempts_used(op, old(txn).ledger@, old(txn).pending_conflicts)
            && final(txn).savepoints_committed == old(txn).savepoints_committed + 1
            && final(txn).pending_conflicts == 0
            && final(txn).commit_failure == old(txn).commit_failure
            && (match old(txn).commit_failure {
                None => r matches Ok(v) && v == op.result_value(old(txn).ledger@)
                    && final(txn).committed,
                Some(e) => r matches Err(f) && f == e && !final(txn).committed,
            })),
{
    let ghost s0 = txn.ledger@;
    let ghost k = op.retries_needed(s0);
    let ghost p0 = txn.pending_conflicts;
    let mut attempt: u64 = 0;
    loop
        invariant
            txn.ledger == old(txn).ledger,
            txn.usable == old(txn).usable,
            txn.committed == old(txn).committed,
            txn.commit_failure == old(txn).commit_failure,
            txn.savepoints_committed == old(txn).savepoints_committed,
            txn.savepoints_opened == old(txn).savepoints_opened + attempt,
            !old(txn).usable ==> attempt == 0,
            attempt <= k + p0,
            attempt > k ==> op.succeeds(s0),
            txn.pending_conflicts == if attempt <= k {
                p0 as int
            } else {
                p0 - (attempt - k)
            },
        decreases k + p0 - attempt,
    {
        let mut sp = match txn.savepoint(attempt) {
            Ok(sp) => sp,
            Err(e) => {
                return Err(e);
            },
        };
        let attempt_result = match op.attempt(&mut sp) {
            Ok(v) => match txn.commit_savepoint(sp) {
                Ok(()) => Ok(v),
                Err(e) => Err(e),
            },
            // any other exit discards the savepoint, and with it every write
            // of this attempt
            Err(e) => Err(e),
        };
        match classify_outcome(attempt_result) {
            Outcome::Success(v) => {
                return match txn.commit() {
                    Ok(()) => Ok(v),
                    Err(e) => Err(e),
                };
            },
            Outcome::RetryableFailure(_) => {},
            Outcome::PermanentFailure(e) => {
                return Err(e);
            },
        }
        attempt = attempt + 1;
    }
}

/// An operation as one invocation sees it under contention: its first
/// `conflicts` attempts report a serialization conflict, and from then on it
/// behaves exactly as the inner operation does.
pub struct Contended<Op> {
    pub inner: Op,
    pub conflicts: u64,
}

impl<T, Op: Operation<T>> Operation<T> for Contended<Op> {
    open spec fn retries_needed(&self, s: Seq<Account>) -> nat {
        if self.inner.retries_needed(s) >= self.conflicts {
            self.inner.retries_needed(s)
        } else {
            self.conflicts as nat
        }
    }

    open spec fn succeeds(&self, s: Seq<Account>) -> bool {
        self.inner.succeeds(s)
    }

    open spec fn result_state(&self, s: Seq<Account>) -> Seq<Account> {
        self.inner.result_state(s)
    }

    open spec fn result_value(&self, s: Seq<Account>) -> T {
        self.inner.result_value(s)
    }

    open spec fn failure(&self, s: Seq<Account>) -> Option<Seq<u8>> {
        self.inner.failure(s)
    }

    fn attempt(&self, sp: &mut Savepoint) -> (r: Result<T, DbError>) {
        if sp.attempt_index() < self.conflicts {
            Err(DbError::conflict())
        } else {
            self.inner.attempt(sp)
        }
    }
}

/// Law: idempotent visible effect.  Forcing any number of transient conflicts
/// onto an operation changes nothing about the state the executor commits:
/// it is the state of one successful attempt, applied exactly once — and, by
/// `run`'s contract, the same holds for any number of serialization conflicts
/// the store raises at savepoint commit, since `run` commits
/// `committed_state` whatever `pending_conflicts` held.
pub proof fn lemma_idempotent_visible_effect<T, Op: Operation<T>>(
    op: Op,
    conflicts: u64,
    s: Seq<Account>,
)
    ensures
        committed_state::<T, Contended<Op>>(&(Contended { inner: op, conflicts }), s)
            == committed_state::<T, Op>(&op, s),
{
}

/// Law: unbounded retry still terminates once the classifier turns permanent.
/// When an operation that needs no retries of its own and does not succeed is
/// forced through `conflicts` retryable failures first, the executor resolves
/// it in exactly `conflicts + 1` attempts, whatever the store had scripted
/// for savepoint commits — a failing attempt never reaches that commit.
pub proof fn lemma_retry_termination<T, Op: Operation<T>>(
    op: Op,
    conflicts: u64,
    s: Seq<Account>,
    pending_conflicts: u64,
)
    requires
        op.retries_needed(s) == 0,
        !op.succeeds(s),
    ensures
        attempts_used::<T, Contended<Op>>(&(Contended { inner: op, conflicts }), s,
            pending_conflicts) == conflicts + 1,
{
}

} // verus!
