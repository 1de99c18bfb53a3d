//! The example unit of work: moving funds between two accounts.  It reads the
//! source balance, fails permanently when the balance does not cover the
//! amount, and otherwise debits the source row and credits the destination
//! row.  Store errors pass through untouched, so the executor's classifier
//! sees the original classification code.

use vstd::prelude::*;

use crate::classify::check_violation_code;
use crate::classify::out_of_range_code;
use crate::classify::DbError;
use crate::ledger::lookup;
use crate::ledger::update_first;
use crate::ledger::Account;
use crate::txn::Savepoint;

verus! {

/// Whether a transfer of `amount` from `from` to `to` goes through on state
/// `s`: the source row exists, its balance covers the amount, and neither the
/// debit nor the credit leaves the representable range.  The credit is read
/// after the debit, so a transfer onto the same row sees the debited balance.
pub open spec fn transfer_allowed(s: Seq<Account>, from: u128, to: u128, amount: i64) -> bool {
    match lookup(s, from) {
        None => false,
        Some(b) => {
            &&& b >= amount
            &&& i64::MIN <= b - amount <= i64::MAX
            &&& (match lookup(update_first(s, from, (b - amount) as i64), to) {
                None => true,
                Some(tb) => i64::MIN <= tb + amount <= i64::MAX,
            })
        },
    }
}

/// The state a successful transfer leaves: the source row debited, then the
/// first row matching `to` credited.  A destination that matches no row is
/// silently left alone, exactly as an update that touches no row is.
pub open spec fn transfer_result(s: Seq<Account>, from: u128, to: u128, amount: i64) -> Seq<
    Account,
> {
    match lookup(s, from) {
        None => s,
        Some(b) => {
            let debited = update_first(s, from, (b - amount) as i64);
            match lookup(debited, to) {
                None => debited,
                Some(tb) => update_first(debited, to, (tb + amount) as i64),
            }
        },
    }
}

/// The view of the error a failing transfer raises: reading a missing source
/// row fails client-side without a code; an uncovered amount violates the
/// application invariant; what remains is a balance out of numeric range.
pub open spec fn transfer_failure(s: Seq<Account>, from: u128, amount: i64) -> Option<Seq<u8>> {
    match lookup(s, from) {
        None => None,
        Some(b) => if b < amount {
            Some(check_violation_code())
        } else {
            Some(out_of_range_code())
        },
    }
}

/// Moves `amount` from `from` to `to` within the attempt's savepoint.  On
/// failure the savepoint may already hold the debit — its caller discards it
/// — and the error says exactly why: no source row, an uncovered amount, or
/// a balance out of range.
pub fn transfer_funds(sp: &mut Savepoint, from: u128, to: u128, amount: i64) -> (r: Result<
    (),
    DbError,
>)
    ensures
        final(sp).attempt == old(sp).attempt,
        transfer_allowed(old(sp).ledger@, from, to, amount) ==> (r matches Ok(u) && u == ()
            && final(sp).ledger@ == transfer_result(old(sp).ledger@, from, to, amount)),
        !transfer_allowed(old(sp).ledger@, from, to, amount) ==> (r matches Err(e)
            && e@ == transfer_failure(old(sp).ledger@, from, amount)),
{
    // Read the source balance.
    let from_balance = match sp.balance_of(from) {
        None => {
            return Err(DbError::no_rows());
        },
        Some(b) => b,
    };

    // The application invariant: the balance must cover the amount.
    if from_balance < amount {
        return Err(DbError::invariant_violation());
    }

    // Debit the source row; the difference must stay representable.
    if amount < 0 && from_balance > i64::MAX + amount {
        return Err(DbError::out_of_range());
    }
    let debited = from_balance - amount;
    sp.set_balance(from, debited);

    // Credit the destination row, reading its balance after the debit; a
    // destination that matches no row is left alone.
    let to_balance = match sp.balance_of(to) {
        None => {
            return Ok(());
        },
        Some(b) => b,
    };
    if amount > 0 && to_balance > i64::MAX - amount {
        return Err(DbError::out_of_range());
    }
    if amount < 0 && to_balance < i64::MIN - amount {
        return Err(DbError::out_of_range());
    }
    sp.set_balance(to, to_balance + amount);
    Ok(())
}

/// A transfer as an operation for the executor: it needs no retries of its
/// own, succeeds exactly when `transfer_allowed` holds, and raises the error
/// `transfer_failure` names otherwise.
pub struct TransferOp {
    pub from: u128,
    pub to: u128,
    pub amount: i64,
}

impl crate::executor::Operation<()> for TransferOp {
    open spec fn retries_needed(&self, s: Seq<Account>) -> nat {
        0
    }

    open spec fn succeeds(&self, s: Seq<Account>) -> bool {
        transfer_allowed(s, self.from, self.to, self.amount)
    }

    open spec fn result_state(&self, s: Seq<Account>) -> Seq<Account> {
        transfer_result(s, self.from, self.to, self.amount)
    }

    open spec fn result_value(&self, s: Seq<Account>) -> () {
        ()
    }

    open spec fn failure(&self, s: Seq<Account>) -> Option<Seq<u8>> {
        transfer_failure(s, self.from, self.amount)
    }

    fn attempt(&self, sp: &mut Savepoint) -> (r: Result<(), DbError>) {
        transfer_funds(sp, self.from, self.to, self.amount)
    }
}

} // verus!
