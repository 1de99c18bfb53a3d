use txn_retry::classify::DbError;
use txn_retry::executor::classify_outcome;
use txn_retry::executor::run;
use txn_retry::executor::Contended;
use txn_retry::executor::Outcome;
use txn_retry::ledger::Ledger;
use txn_retry::transfer::TransferOp;
use txn_retry::txn::Txn;

fn two_accounts() -> Ledger {
    let mut l = Ledger::new();
    l.add_account(1, 1000);
    l.add_account(2, 250);
    l
}

#[test]
fn first_attempt_success_commits_once() {
    // operation succeeds immediately: one savepoint opened and committed,
    // outer transaction committed
    let mut t = Txn::begin(two_accounts());
    let op = TransferOp { from: 1, to: 2, amount: 100 };
    assert!(run(&mut t, &op).is_ok());
    assert!(t.committed);
    assert_eq!(t.savepoints_opened, 1);
    assert_eq!(t.savepoints_committed, 1);
    assert_eq!(t.balance_of(1), Some(900));
    assert_eq!(t.balance_of(2), Some(350));
}

#[test]
fn two_operation_conflicts_then_success() {
    // the operation fails with the conflict code twice, then succeeds: three
    // savepoints opened, the first two discarded, the third committed
    let mut t = Txn::begin(two_accounts());
    let op = Contended { inner: TransferOp { from: 1, to: 2, amount: 100 }, conflicts: 2 };
    assert!(run(&mut t, &op).is_ok());
    assert!(t.committed);
    assert_eq!(t.savepoints_opened, 3);
    assert_eq!(t.savepoints_committed, 1);
    assert_eq!(t.balance_of(1), Some(900));
    assert_eq!(t.balance_of(2), Some(350));
}

#[test]
fn two_commit_conflicts_then_success() {
    // the store refuses the savepoint commit twice: same counts, same state
    let mut t = Txn::begin(two_accounts());
    t.force_conflicts(2);
    let op = TransferOp { from: 1, to: 2, amount: 100 };
    assert!(run(&mut t, &op).is_ok());
    assert!(t.committed);
    assert_eq!(t.savepoints_opened, 3);
    assert_eq!(t.savepoints_committed, 1);
    assert_eq!(t.balance_of(1), Some(900));
    assert_eq!(t.balance_of(2), Some(350));
}

#[test]
fn invariant_violation_is_not_retried() {
    // permanent failure: the original error is surfaced, no second attempt is
    // made, the outer transaction is left uncommitted and untouched
    let mut t = Txn::begin(two_accounts());
    let e = run(&mut t, &TransferOp { from: 1, to: 2, amount: 2000 }).unwrap_err();
    assert_eq!(e.code, Some(*b"23514"));
    assert!(!t.committed);
    assert_eq!(t.savepoints_opened, 1);
    assert_eq!(t.savepoints_committed, 0);
    assert_eq!(t.balance_of(1), Some(1000));
    assert_eq!(t.balance_of(2), Some(250));
}

#[test]
fn retries_stop_after_the_scripted_conflicts() {
    // n forced retryable outcomes before a permanent one: exactly n + 1
    // attempts, and the error of the resolving attempt comes out unchanged
    let inner = TransferOp { from: 1, to: 2, amount: 2000 };
    let mut t = Txn::begin(two_accounts());
    let e = run(&mut t, &Contended { inner, conflicts: 3 }).unwrap_err();
    assert_eq!(e.code, Some(*b"23514"));
    assert_eq!(t.savepoints_opened, 4);
    assert_eq!(t.savepoints_committed, 0);
    assert!(!t.committed);
}

#[test]
fn retried_effect_is_applied_exactly_once() {
    // however many conflicts precede the success, the committed state equals
    // that of a single clean attempt
    let mut clean = Txn::begin(two_accounts());
    assert!(run(&mut clean, &TransferOp { from: 1, to: 2, amount: 100 }).is_ok());

    let mut contended = Txn::begin(two_accounts());
    contended.force_conflicts(5);
    let op = Contended { inner: TransferOp { from: 1, to: 2, amount: 100 }, conflicts: 4 };
    assert!(run(&mut contended, &op).is_ok());

    for id in [1, 2] {
        assert_eq!(clean.balance_of(id), contended.balance_of(id));
    }
    assert_eq!(contended.savepoints_opened, 10);
    assert_eq!(contended.savepoints_committed, 1);
}

#[test]
fn conflicting_savepoint_commit_leaves_the_parent_untouched() {
    // a failed attempt's writes never reach the parent transaction, even
    // though the attempt wrote before its commit was refused
    let mut t = Txn::begin(two_accounts());
    t.force_conflicts(1);
    let mut sp = t.savepoint(0).unwrap();
    sp.set_balance(1, 0);
    sp.set_balance(2, 0);
    let e = t.commit_savepoint(sp).unwrap_err();
    assert_eq!(e.code, Some(*b"40001"));
    assert_eq!(t.balance_of(1), Some(1000));
    assert_eq!(t.balance_of(2), Some(250));
    assert_eq!(t.savepoints_committed, 0);
}

#[test]
fn discarded_savepoint_leaves_the_parent_untouched() {
    let mut t = Txn::begin(two_accounts());
    let mut sp = t.savepoint(0).unwrap();
    sp.set_balance(1, 0);
    drop(sp);
    assert_eq!(t.balance_of(1), Some(1000));
}

#[test]
fn unusable_connection_fails_without_an_attempt() {
    let mut t = Txn::begin(two_accounts());
    t.force_unusable();
    let e = run(&mut t, &TransferOp { from: 1, to: 2, amount: 100 }).unwrap_err();
    assert_eq!(e.code, Some(*b"08006"));
    assert_eq!(t.savepoints_opened, 0);
    assert!(!t.committed);
}

#[test]
fn outer_commit_failure_is_surfaced_as_is() {
    // the savepoint was committed, but the outer transaction was not, and the
    // scripted commit error comes out unchanged
    let mut t = Txn::begin(two_accounts());
    t.force_commit_failure(DbError::connectivity());
    let e = run(&mut t, &TransferOp { from: 1, to: 2, amount: 100 }).unwrap_err();
    assert_eq!(e.code, Some(*b"08006"));
    assert!(!t.committed);
    assert_eq!(t.savepoints_committed, 1);
    assert_eq!(t.balance_of(1), Some(900));
}

#[test]
fn transfer_story_end_to_end() {
    // transfer 100 from a 1000/250 pair, commit, then fail to transfer 2000:
    // the committed balances survive the failed transaction
    let mut t = Txn::begin(two_accounts());
    assert!(run(&mut t, &TransferOp { from: 1, to: 2, amount: 100 }).is_ok());
    assert!(t.committed);
    assert_eq!(t.balance_of(1), Some(900));
    assert_eq!(t.balance_of(2), Some(350));

    let mut t2 = Txn::begin(t.ledger);
    let e = run(&mut t2, &TransferOp { from: 1, to: 2, amount: 2000 }).unwrap_err();
    assert_eq!(e.code, Some(*b"23514"));
    assert!(!t2.committed);
    assert_eq!(t2.balance_of(1), Some(900));
    assert_eq!(t2.balance_of(2), Some(350));
}

#[test]
fn missing_source_row_fails_permanently_through_run() {
    // a client-side error without a code is conservatively permanent
    let mut t = Txn::begin(two_accounts());
    let e = run(&mut t, &TransferOp { from: 9, to: 2, amount: 1 }).unwrap_err();
    assert_eq!(e.code, None);
    assert_eq!(t.savepoints_opened, 1);
    assert!(!t.committed);
}

#[test]
fn outcome_tags_follow_the_classification() {
    match classify_outcome::<u8>(Ok(7)) {
        Outcome::Success(v) => assert_eq!(v, 7),
        _ => panic!("a success must be tagged Success"),
    }
    match classify_outcome::<u8>(Err(DbError::conflict())) {
        Outcome::RetryableFailure(e) => assert_eq!(e.code, Some(*b"40001")),
        _ => panic!("a serialization failure must be tagged retryable"),
    }
    match classify_outcome::<u8>(Err(DbError::invariant_violation())) {
        Outcome::PermanentFailure(e) => assert_eq!(e.code, Some(*b"23514")),
        _ => panic!("any other failure must be tagged permanent"),
    }
    match classify_outcome::<u8>(Err(DbError::no_rows())) {
        Outcome::PermanentFailure(e) => assert_eq!(e.code, None),
        _ => panic!("a failure without a code must be tagged permanent"),
    }
}
