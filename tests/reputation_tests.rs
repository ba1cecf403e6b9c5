use agreed_contracts::error::ErrorCode;
use agreed_contracts::identity::Identity;
use agreed_contracts::reputation::{
    compute_score, elapsed_seconds, initialize_reputation, rate_client, rate_vendor,
    report_dispute, UserReputation,
};

fn fresh(n: u128, now: i64) -> UserReputation {
    let mut slot = None;
    initialize_reputation(&mut slot, Identity::new(0, n), now).unwrap();
    slot.unwrap()
}

#[test]
fn initialize_reputation_zeroes_record() {
    let rep = fresh(7, 1_000);
    assert_eq!(rep.wallet, Identity::new(0, 7));
    assert_eq!(rep.contracts_created, 0);
    assert_eq!(rep.vendor_score, 0);
    assert_eq!(rep.client_score, 0);
    assert_eq!(rep.total_value_transacted, 0);
    assert_eq!(rep.first_activity, 1_000);
    assert_eq!(rep.last_activity, 1_000);
}

#[test]
fn initialize_reputation_twice_fails() {
    let mut slot = None;
    assert_eq!(initialize_reputation(&mut slot, Identity::new(0, 1), 5), Ok(()));
    let before = slot;
    assert_eq!(
        initialize_reputation(&mut slot, Identity::new(0, 1), 9),
        Err(ErrorCode::ReputationAlreadyExists)
    );
    assert_eq!(slot, before);
}

#[test]
fn rate_vendor_five_then_three() {
    let mut b = fresh(2, 10);
    assert_eq!(rate_vendor(&mut b, 5, 11), Ok(()));
    assert_eq!(b.vendor_score, 500);
    assert_eq!(rate_vendor(&mut b, 3, 12), Ok(()));
    assert_eq!(b.quality_ratings_sum, 8);
    assert_eq!(b.quality_ratings_count, 2);
    assert_eq!(b.vendor_score, 400);
    assert_eq!(b.last_activity, 12);
}

#[test]
fn vendor_score_truncates() {
    let mut b = fresh(2, 0);
    for r in [5u8, 4, 4] {
        rate_vendor(&mut b, r, 1).unwrap();
    }
    // 13 * 100 / 3 = 433.33...
    assert_eq!(b.vendor_score, 433);
}

#[test]
fn rate_vendor_rejects_out_of_range() {
    let mut b = fresh(2, 0);
    let before = b;
    assert_eq!(rate_vendor(&mut b, 0, 1), Err(ErrorCode::InvalidRating));
    assert_eq!(rate_vendor(&mut b, 6, 1), Err(ErrorCode::InvalidRating));
    assert_eq!(b, before);
}

#[test]
fn rate_client_averages() {
    let mut c = fresh(3, 0);
    rate_client(&mut c, 1, 1).unwrap();
    rate_client(&mut c, 2, 2).unwrap();
    assert_eq!(c.responsiveness_ratings_sum, 3);
    assert_eq!(c.responsiveness_ratings_count, 2);
    assert_eq!(c.client_score, 150);
    assert_eq!(c.vendor_score, 0);
    assert_eq!(rate_client(&mut c, 9, 3), Err(ErrorCode::InvalidRating));
}

#[test]
fn report_dispute_counts_by_role() {
    let mut r = fresh(4, 0);
    report_dispute(&mut r, true, 5);
    report_dispute(&mut r, false, 6);
    report_dispute(&mut r, false, 7);
    assert_eq!(r.dispute_count_vendor, 1);
    assert_eq!(r.dispute_count_client, 2);
    assert_eq!(r.last_activity, 7);
}

#[test]
fn last_activity_never_decreases() {
    let mut r = fresh(4, 100);
    rate_vendor(&mut r, 4, 50).unwrap();
    assert_eq!(r.last_activity, 100);
    report_dispute(&mut r, true, 200);
    assert_eq!(r.last_activity, 200);
    rate_client(&mut r, 4, 150).unwrap();
    assert_eq!(r.last_activity, 200);
    assert_eq!(r.first_activity, 100);
}

#[test]
fn score_of_nothing_is_zero() {
    assert_eq!(compute_score(0, 0), 0);
    assert_eq!(compute_score(10, 2), 500);
    assert_eq!(compute_score(7, 3), 233);
}

#[test]
fn elapsed_seconds_clamps_at_zero() {
    assert_eq!(elapsed_seconds(100, 160), 60);
    assert_eq!(elapsed_seconds(100, 40), 0);
    assert_eq!(elapsed_seconds(i64::MIN, i64::MAX), u64::MAX);
}
