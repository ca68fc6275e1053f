use pulsar_track::payout_automation::{PayoutAutomationContract, PayoutError, PayoutStatus};

const ADMIN: u64 = 1;
const TOKEN: u64 = 2;
const PUBLISHER: u64 = 60;

fn scheduler() -> PayoutAutomationContract {
    PayoutAutomationContract::initialize(ADMIN, TOKEN)
}

#[test]
fn test_initialize_payout() {
    let v = scheduler();
    assert_eq!(v.min_payout_amount, 1_000_000);
    assert_eq!(v.get_payout(1), None);
    assert_eq!(v.get_publisher_earnings(PUBLISHER), None);
}

#[test]
fn schedule_records_the_payout() {
    let mut v = scheduler();
    assert_eq!(v.schedule_payout(ADMIN, PUBLISHER, 500, 1000, Some(7), 10), Ok(1));
    let p = v.get_payout(1).unwrap();
    assert_eq!(p.payout_id, 1);
    assert_eq!(p.recipient, PUBLISHER);
    assert_eq!(p.token, TOKEN);
    assert_eq!(p.amount, 500);
    assert_eq!(p.scheduled_at, 10);
    assert_eq!(p.execute_after, 1000);
    assert_eq!(p.status, PayoutStatus::Scheduled);
    assert_eq!(p.campaign_id, Some(7));
    assert_eq!(p.executed_at, None);
    assert_eq!(v.schedule_payout(ADMIN, PUBLISHER, 9, 0, None, 11), Ok(2));
}

#[test]
fn schedule_is_admin_only() {
    let mut v = scheduler();
    assert_eq!(
        v.schedule_payout(PUBLISHER, PUBLISHER, 500, 1000, None, 10),
        Err(PayoutError::Unauthorized)
    );
    assert_eq!(v.get_payout(1), None);
}

#[test]
fn execute_waits_for_the_clock() {
    let mut v = scheduler();
    assert_eq!(v.schedule_payout(ADMIN, PUBLISHER, 500, 1000, None, 10), Ok(1));
    assert_eq!(v.execute_payout(1, 999), Err(PayoutError::TooEarlyToExecute));
    assert_eq!(v.execute_payout(2, 1000), Err(PayoutError::PayoutNotFound));
    assert_eq!(v.execute_payout(1, 1000), Ok(500));
    let p = v.get_payout(1).unwrap();
    assert_eq!(p.status, PayoutStatus::Completed);
    assert_eq!(p.executed_at, Some(1000));
    assert_eq!(v.execute_payout(1, 1001), Err(PayoutError::PayoutNotScheduled));
}

#[test]
fn execute_updates_earnings() {
    let mut v = scheduler();
    assert_eq!(v.add_publisher_earnings(ADMIN, PUBLISHER, 800), Ok(()));
    assert_eq!(v.schedule_payout(ADMIN, PUBLISHER, 300, 0, None, 0), Ok(1));
    assert_eq!(v.execute_payout(1, 50), Ok(300));
    let e = v.get_publisher_earnings(PUBLISHER).unwrap();
    assert_eq!(e.publisher, PUBLISHER);
    assert_eq!(e.pending_amount, 500);
    assert_eq!(e.total_paid, 300);
    assert_eq!(e.last_payout, 50);
}

#[test]
fn execute_for_unknown_publisher_creates_the_entry() {
    let mut v = scheduler();
    assert_eq!(v.schedule_payout(ADMIN, PUBLISHER, 300, 0, None, 0), Ok(1));
    assert_eq!(v.execute_payout(1, 50), Ok(300));
    let e = v.get_publisher_earnings(PUBLISHER).unwrap();
    // nothing was pending, so the drain goes negative, as a plain
    // subtraction would
    assert_eq!(e.pending_amount, -300);
    assert_eq!(e.total_paid, 300);
}

#[test]
fn pending_drain_saturates_at_the_representable_bottom() {
    let mut v = scheduler();
    assert_eq!(v.add_publisher_earnings(ADMIN, PUBLISHER, i128::MIN + 1), Ok(()));
    assert_eq!(v.schedule_payout(ADMIN, PUBLISHER, 2, 0, None, 0), Ok(1));
    assert_eq!(v.execute_payout(1, 1), Ok(2));
    let e = v.get_publisher_earnings(PUBLISHER).unwrap();
    assert_eq!(e.pending_amount, i128::MIN);
    assert_eq!(e.total_paid, 2);
}

#[test]
fn earnings_accumulate_and_overflow_is_rejected() {
    let mut v = scheduler();
    assert_eq!(v.add_publisher_earnings(PUBLISHER, PUBLISHER, 5), Err(PayoutError::Unauthorized));
    assert_eq!(v.add_publisher_earnings(ADMIN, PUBLISHER, 5), Ok(()));
    assert_eq!(v.add_publisher_earnings(ADMIN, PUBLISHER, 7), Ok(()));
    assert_eq!(v.get_publisher_earnings(PUBLISHER).unwrap().pending_amount, 12);
    assert_eq!(
        v.add_publisher_earnings(ADMIN, PUBLISHER, i128::MAX),
        Err(PayoutError::EarningsOverflow)
    );
    assert_eq!(v.get_publisher_earnings(PUBLISHER).unwrap().pending_amount, 12);
}

#[test]
fn total_paid_overflow_is_rejected_before_any_change() {
    let mut v = scheduler();
    assert_eq!(v.schedule_payout(ADMIN, PUBLISHER, i128::MAX, 0, None, 0), Ok(1));
    assert_eq!(v.schedule_payout(ADMIN, PUBLISHER, 2, 0, None, 0), Ok(2));
    assert_eq!(v.execute_payout(1, 1), Ok(i128::MAX));
    assert_eq!(v.execute_payout(2, 1), Err(PayoutError::EarningsOverflow));
    // the failed execution left the payout scheduled and the totals alone
    assert_eq!(v.get_payout(2).unwrap().status, PayoutStatus::Scheduled);
    assert_eq!(v.get_publisher_earnings(PUBLISHER).unwrap().total_paid, i128::MAX);
}

#[test]
fn earnings_entries_are_per_publisher() {
    let mut v = scheduler();
    assert_eq!(v.add_publisher_earnings(ADMIN, 61, 10), Ok(()));
    assert_eq!(v.add_publisher_earnings(ADMIN, 62, 20), Ok(()));
    assert_eq!(v.get_publisher_earnings(61).unwrap().pending_amount, 10);
    assert_eq!(v.get_publisher_earnings(62).unwrap().pending_amount, 20);
    assert_eq!(v.get_publisher_earnings(63), None);
}
