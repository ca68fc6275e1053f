use pulsar_track::escrow_vault::{EscrowError, EscrowState, EscrowVaultContract};

const ADMIN: u64 = 1;
const TOKEN: u64 = 2;
const ORACLE: u64 = 3;
const DEPOSITOR: u64 = 10;
const BENEFICIARY: u64 = 20;
const APPROVER: u64 = 30;

fn vault() -> EscrowVaultContract {
    EscrowVaultContract::initialize(ADMIN, TOKEN, ORACLE)
}

/// A vault with one standard escrow: 1000 locked at time 0, time lock 100,
/// performance threshold 50, expiry 1000, one required approver.
fn vault_with_escrow() -> EscrowVaultContract {
    let mut v = vault();
    let r = v.create_escrow(DEPOSITOR, 7, BENEFICIARY, 1000, 100, 50, 1000, vec![APPROVER], 0);
    assert_eq!(r, Ok(1));
    v
}

#[test]
fn test_initialize() {
    let v = vault();
    assert_eq!(v.escrow_count(), 0);
    assert_eq!(v.get_escrow(1), None);
    assert_eq!(v.get_approval_count(1), 0);
    assert!(!v.can_release(1, 0));
}

#[test]
fn create_escrow_sets_up_locked_record() {
    let v = vault_with_escrow();
    let e = v.get_escrow(1).unwrap();
    assert_eq!(e.campaign_id, 7);
    assert_eq!(e.depositor, DEPOSITOR);
    assert_eq!(e.beneficiary, BENEFICIARY);
    assert_eq!(e.amount, 1000);
    assert_eq!(e.locked_amount, 1000);
    assert_eq!(e.released_amount, 0);
    assert_eq!(e.refunded_amount, 0);
    assert_eq!(e.state, EscrowState::Locked);
    assert_eq!(e.time_lock_until, 100);
    assert_eq!(e.performance_threshold, 50);
    assert_eq!(e.created_at, 0);
    assert_eq!(e.locked_at, Some(0));
    assert_eq!(e.released_at, None);
    assert_eq!(e.expires_at, 1000);
    assert!(v.is_required_approver(1, APPROVER));
    assert!(!v.is_required_approver(1, DEPOSITOR));
}

#[test]
fn create_escrow_rejects_bad_arguments() {
    let mut v = vault();
    assert_eq!(
        v.create_escrow(DEPOSITOR, 7, BENEFICIARY, 0, 100, 50, 1000, vec![], 0),
        Err(EscrowError::InvalidAmount)
    );
    assert_eq!(
        v.create_escrow(DEPOSITOR, 7, BENEFICIARY, -5, 100, 50, 1000, vec![], 0),
        Err(EscrowError::InvalidAmount)
    );
    assert_eq!(
        v.create_escrow(DEPOSITOR, 7, BENEFICIARY, 1000, 100, 101, 1000, vec![], 0),
        Err(EscrowError::InvalidThreshold)
    );
    assert_eq!(
        v.create_escrow(DEPOSITOR, 7, BENEFICIARY, 1000, 1, 50, 1000, vec![], u64::MAX),
        Err(EscrowError::TimestampOverflow)
    );
    assert_eq!(v.escrow_count(), 0);
}

#[test]
fn escrow_ids_are_sequential() {
    let mut v = vault();
    assert_eq!(v.create_escrow(DEPOSITOR, 1, BENEFICIARY, 10, 0, 0, 10, vec![], 0), Ok(1));
    assert_eq!(v.create_escrow(DEPOSITOR, 2, BENEFICIARY, 20, 0, 0, 10, vec![], 0), Ok(2));
    assert_eq!(v.escrow_count(), 2);
    assert_eq!(v.get_escrow(1).unwrap().amount, 10);
    assert_eq!(v.get_escrow(2).unwrap().amount, 20);
}

/// The full gated release: time lock, then quorum, then performance, then
/// the whole amount moves to the beneficiary.
#[test]
fn full_release_after_all_gates() {
    let mut v = vault_with_escrow();
    assert_eq!(v.release_escrow(DEPOSITOR, 1, 50), Err(EscrowError::TimeLockActive));
    assert_eq!(v.release_escrow(DEPOSITOR, 1, 100), Err(EscrowError::ApprovalRequired));
    assert_eq!(v.approve_release(APPROVER, 1, 100), Ok(()));
    assert_eq!(v.get_approval_count(1), 1);
    assert_eq!(v.update_performance(ORACLE, 1, 60, 5000, 100, 100), Ok(()));
    assert!(v.can_release(1, 100));
    assert_eq!(v.release_escrow(DEPOSITOR, 1, 100), Ok(1000));
    let e = v.get_escrow(1).unwrap();
    assert_eq!(e.locked_amount, 0);
    assert_eq!(e.released_amount, 1000);
    assert_eq!(e.state, EscrowState::Released);
    assert_eq!(e.released_at, Some(100));
}

#[test]
fn release_fails_when_performance_below_threshold() {
    let mut v = vault_with_escrow();
    assert_eq!(v.approve_release(APPROVER, 1, 100), Ok(()));
    assert_eq!(v.update_performance(ORACLE, 1, 49, 5000, 100, 100), Ok(()));
    assert!(!v.can_release(1, 100));
    assert_eq!(v.release_escrow(DEPOSITOR, 1, 100), Err(EscrowError::PerformanceBelowThreshold));
}

#[test]
fn missing_performance_record_passes_the_gate() {
    let mut v = vault_with_escrow();
    assert_eq!(v.approve_release(APPROVER, 1, 100), Ok(()));
    assert!(v.can_release(1, 100));
    assert_eq!(v.release_escrow(DEPOSITOR, 1, 100), Ok(1000));
}

#[test]
fn admin_may_release() {
    let mut v = vault_with_escrow();
    assert_eq!(v.approve_release(APPROVER, 1, 100), Ok(()));
    assert_eq!(v.release_escrow(ADMIN, 1, 100), Ok(1000));
}

#[test]
fn release_authorization_and_missing_escrow() {
    let mut v = vault_with_escrow();
    assert_eq!(v.release_escrow(BENEFICIARY, 1, 100), Err(EscrowError::Unauthorized));
    assert_eq!(v.release_escrow(DEPOSITOR, 2, 100), Err(EscrowError::EscrowNotFound));
}

/// Partial releases drain the escrow step by step while the sum of the
/// buckets stays at the original deposit.
#[test]
fn partial_release_then_drain() {
    let mut v = vault_with_escrow();
    assert_eq!(v.approve_release(APPROVER, 1, 100), Ok(()));
    assert_eq!(v.release_partial(DEPOSITOR, 1, 400, 100), Ok(()));
    let e = v.get_escrow(1).unwrap();
    assert_eq!(e.locked_amount, 600);
    assert_eq!(e.released_amount, 400);
    assert_eq!(e.state, EscrowState::PartiallyReleased);
    assert_eq!(e.locked_amount + e.released_amount + e.refunded_amount, e.amount);
    assert_eq!(v.release_partial(DEPOSITOR, 1, 600, 100), Ok(()));
    let e = v.get_escrow(1).unwrap();
    assert_eq!(e.locked_amount, 0);
    assert_eq!(e.released_amount, 1000);
    assert_eq!(e.state, EscrowState::PartiallyReleased);
    assert_eq!(e.locked_amount + e.released_amount + e.refunded_amount, e.amount);
}

#[test]
fn partial_release_rejects_bad_amounts() {
    let mut v = vault_with_escrow();
    assert_eq!(v.approve_release(APPROVER, 1, 100), Ok(()));
    assert_eq!(v.release_partial(DEPOSITOR, 1, 0, 100), Err(EscrowError::InvalidAmount));
    assert_eq!(v.release_partial(DEPOSITOR, 1, -1, 100), Err(EscrowError::InvalidAmount));
    assert_eq!(v.release_partial(DEPOSITOR, 1, 1001, 100), Err(EscrowError::InvalidAmount));
    assert_eq!(v.get_escrow(1).unwrap().locked_amount, 1000);
}

/// The expiry escape hatch: a never-approved escrow refunds in full once
/// the clock passes the expiry, and stays closed afterwards.
#[test]
fn refund_after_expiry_without_approvals() {
    let mut v = vault_with_escrow();
    assert_eq!(v.refund_escrow(1, 999), Err(EscrowError::NotYetExpired));
    assert_eq!(v.refund_escrow(1, 1000), Ok(1000));
    let e = v.get_escrow(1).unwrap();
    assert_eq!(e.locked_amount, 0);
    assert_eq!(e.refunded_amount, 1000);
    assert_eq!(e.state, EscrowState::Refunded);
    assert_eq!(e.locked_amount + e.released_amount + e.refunded_amount, e.amount);
    assert_eq!(v.release_escrow(DEPOSITOR, 1, 2000), Err(EscrowError::ApprovalRequired));
    assert_eq!(v.refund_escrow(1, 2000), Err(EscrowError::NothingToRefund));
}

#[test]
fn refund_ignores_approvals_and_performance() {
    let mut v = vault_with_escrow();
    assert_eq!(v.update_performance(ORACLE, 1, 0, 0, 0, 500), Ok(()));
    assert_eq!(v.refund_escrow(1, 1000), Ok(1000));
    assert_eq!(v.get_escrow(1).unwrap().state, EscrowState::Refunded);
}

#[test]
fn refund_of_missing_escrow_fails() {
    let mut v = vault();
    assert_eq!(v.refund_escrow(1, 5000), Err(EscrowError::EscrowNotFound));
}

/// Terminal states admit no further movement of funds.
#[test]
fn released_escrow_is_closed() {
    let mut v = vault_with_escrow();
    assert_eq!(v.approve_release(APPROVER, 1, 100), Ok(()));
    assert_eq!(v.release_escrow(DEPOSITOR, 1, 100), Ok(1000));
    assert_eq!(v.release_escrow(DEPOSITOR, 1, 200), Err(EscrowError::NothingToRelease));
    assert_eq!(v.release_partial(DEPOSITOR, 1, 1, 200), Err(EscrowError::InvalidAmount));
    assert_eq!(v.refund_escrow(1, 5000), Err(EscrowError::NothingToRefund));
    assert_eq!(v.approve_release(APPROVER, 1, 200), Err(EscrowError::AlreadyReleased));
}

#[test]
fn approvals_deduplicate_per_approver() {
    let mut v = vault_with_escrow();
    assert_eq!(v.approve_release(APPROVER, 1, 100), Ok(()));
    assert_eq!(v.approve_release(APPROVER, 1, 200), Ok(()));
    assert_eq!(v.get_approval_count(1), 1);
}

#[test]
fn approval_requires_registration() {
    let mut v = vault_with_escrow();
    assert_eq!(v.approve_release(BENEFICIARY, 1, 100), Err(EscrowError::NotRequiredApprover));
    assert_eq!(v.approve_release(APPROVER, 2, 100), Err(EscrowError::NotRequiredApprover));
    assert_eq!(v.get_approval_count(1), 0);
}

#[test]
fn performance_updates_are_oracle_only_and_last_write_wins() {
    let mut v = vault_with_escrow();
    assert_eq!(v.update_performance(DEPOSITOR, 1, 60, 0, 0, 50), Err(EscrowError::Unauthorized));
    assert_eq!(v.update_performance(ORACLE, 1, 101, 0, 0, 50), Err(EscrowError::InvalidPerformance));
    assert_eq!(v.update_performance(ORACLE, 2, 60, 0, 0, 50), Err(EscrowError::EscrowNotFound));
    assert_eq!(v.update_performance(ORACLE, 1, 60, 100, 10, 50), Ok(()));
    assert_eq!(v.update_performance(ORACLE, 1, 40, 200, 20, 60), Ok(()));
    let p = v.get_performance(1).unwrap();
    assert_eq!(p.current_performance, 40);
    assert_eq!(p.views_delivered, 200);
    assert_eq!(p.clicks_delivered, 20);
    assert_eq!(p.last_updated, 60);
}

/// The release gate stays open while time advances and approvals
/// accumulate with the performance record untouched; only a worse report
/// closes it again.
#[test]
fn gate_stays_open_as_conditions_accumulate() {
    let mut v = vault();
    let r = v.create_escrow(DEPOSITOR, 7, BENEFICIARY, 1000, 100, 50, 10_000, vec![APPROVER, 31], 0);
    assert_eq!(r, Ok(1));
    assert_eq!(v.approve_release(APPROVER, 1, 100), Ok(()));
    assert!(v.can_release(1, 100));
    assert!(v.can_release(1, 5000));
    assert_eq!(v.approve_release(31, 1, 150), Ok(()));
    assert!(v.can_release(1, 150));
    assert_eq!(v.update_performance(ORACLE, 1, 10, 0, 0, 200), Ok(()));
    assert!(!v.can_release(1, 200));
}

#[test]
fn balances_never_move_backwards() {
    let mut v = vault_with_escrow();
    assert_eq!(v.approve_release(APPROVER, 1, 100), Ok(()));
    let mut last_released: i128 = 0;
    let mut last_locked: i128 = 1000;
    for step in 0..3u64 {
        assert_eq!(v.release_partial(DEPOSITOR, 1, 100, 100 + step), Ok(()));
        let e = v.get_escrow(1).unwrap();
        assert!(e.released_amount >= last_released);
        assert!(e.locked_amount <= last_locked);
        assert_eq!(e.locked_amount + e.released_amount + e.refunded_amount, e.amount);
        last_released = e.released_amount;
        last_locked = e.locked_amount;
    }
    assert_eq!(last_locked, 700);
    assert_eq!(last_released, 300);
}
