use vstd::prelude::*;

use crate::error::ErrorCode;
use crate::identity::Identity;

verus! {

/// The greatest rating a party can give.
pub const MAX_RATING: u8 = 5;

/// Running reputation aggregates of one identity, as vendor and as client.
#[derive(PartialEq, Eq, Structural, Clone, Copy, Debug)]
pub struct UserReputation {
    pub wallet: Identity,
    pub contracts_created: u32,
    pub contracts_completed: u32,
    pub contracts_approved: u32,
    pub total_value_escrowed: u64,
    /// Average quality rating times 100 (0 to 500).
    pub vendor_score: u32,
    pub deals_as_vendor: u32,
    pub completed_as_vendor: u32,
    pub cancelled_as_vendor: u32,
    pub total_delivery_time_seconds: u64,
    pub quality_ratings_sum: u32,
    pub quality_ratings_count: u32,
    pub dispute_count_vendor: u32,
    /// Average responsiveness rating times 100 (0 to 500).
    pub client_score: u32,
    pub deals_as_client: u32,
    pub completed_as_client: u32,
    pub cancelled_as_client: u32,
    pub total_payment_time_seconds: u64,
    pub responsiveness_ratings_sum: u32,
    pub responsiveness_ratings_count: u32,
    pub dispute_count_client: u32,
    pub total_value_transacted: u64,
    pub first_activity: i64,
    pub last_activity: i64,
}

/// The later of two timestamps.
pub open spec fn later(a: i64, b: i64) -> i64 {
    if a <= b {
        b
    } else {
        a
    }
}

/// `floor(sum * 100 / count)`, and 0 when nothing was rated.
pub open spec fn average_score(sum: u32, count: u32) -> u32 {
    if count == 0 {
        0
    } else {
        ((sum as int * 100) / (count as int)) as u32
    }
}

/// Seconds from `start` to `now`, or 0 when `now` is not after `start`.
pub open spec fn elapsed(start: i64, now: i64) -> u64 {
    if start < now {
        (now - start) as u64
    } else {
        0
    }
}

/// `r` after an operation at time `now` was recorded in it.
pub open spec fn touched(r: UserReputation, now: i64) -> UserReputation {
    UserReputation { last_activity: later(r.last_activity, now), ..r }
}

/// A record whose ratings were all between 1 and 5 and whose scores are
/// recomputed from its sums.
pub open spec fn ratings_consistent(sum: u32, count: u32, score: u32) -> bool {
    &&& sum <= 5 * count
    &&& score == average_score(sum, count)
}

impl UserReputation {
    pub open spec fn wf(&self) -> bool {
        &&& ratings_consistent(self.quality_ratings_sum, self.quality_ratings_count, self.vendor_score)
        &&& ratings_consistent(
            self.responsiveness_ratings_sum,
            self.responsiveness_ratings_count,
            self.client_score,
        )
        &&& self.first_activity <= self.last_activity
    }

    /// The zeroed record of `wallet`, first seen at `now`.
    pub open spec fn fresh(wallet: Identity, now: i64) -> UserReputation {
        UserReputation {
            wallet,
            contracts_created: 0,
            contracts_completed: 0,
            contracts_approved: 0,
            total_value_escrowed: 0,
            vendor_score: 0,
            deals_as_vendor: 0,
            completed_as_vendor: 0,
            cancelled_as_vendor: 0,
            total_delivery_time_seconds: 0,
            quality_ratings_sum: 0,
            quality_ratings_count: 0,
            dispute_count_vendor: 0,
            client_score: 0,
            deals_as_client: 0,
            completed_as_client: 0,
            cancelled_as_client: 0,
            total_payment_time_seconds: 0,
            responsiveness_ratings_sum: 0,
            responsiveness_ratings_count: 0,
            dispute_count_client: 0,
            total_value_transacted: 0,
            first_activity: now,
            last_activity: now,
        }
    }

    /// Whether this record's scores agree with its sums and its activity
    /// times are in order, as every operation leaves them.
    pub fn is_consistent(&self) -> (r: bool)
        ensures
            r == self.wf(),
    {
        self.quality_ratings_sum as u64 <= 5 * self.quality_ratings_count as u64
            && self.responsiveness_ratings_sum as u64 <= 5 * self.responsiveness_ratings_count as u64
            && self.vendor_score == compute_score(self.quality_ratings_sum, self.quality_ratings_count)
            && self.client_score == compute_score(
            self.responsiveness_ratings_sum,
            self.responsiveness_ratings_count,
        ) && self.first_activity <= self.last_activity
    }

    /// Records that an operation naming this identity happened at `now`.
    pub fn touch(&mut self, now: i64)
        ensures
            *final(self) == touched(*old(self), now),
    {
        if self.last_activity < now {
            self.last_activity = now;
        }
    }
}

/// Seconds from `start` to `now`, or 0 when `now` is not after `start`.
pub fn elapsed_seconds(start: i64, now: i64) -> (r: u64)
    ensures
        r == elapsed(start, now),
{
    if start < now {
        (now as i128 - start as i128) as u64
    } else {
        0
    }
}

pub proof fn lemma_score_bounded(sum: u32, count: u32)
    requires
        sum <= 5 * count,
        count > 0,
    ensures
        (sum as int * 100) / (count as int) <= 500,
{
    assert((sum as int * 100) / (count as int) <= 500) by (nonlinear_arith)
        requires
            sum <= 5 * count,
            count > 0,
    ;
}

/// `floor(sum * 100 / count)`, and 0 when `count` is 0.
pub fn compute_score(sum: u32, count: u32) -> (r: u32)
    requires
        sum <= 5 * count,
    ensures
        r == average_score(sum, count),
        r <= 500,
{
    if count == 0 {
        0
    } else {
        proof {
            lemma_score_bounded(sum, count);
        }
        ((sum as u64 * 100) / (count as u64)) as u32
    }
}

/// Creates the reputation record of `wallet` in `slot`, zeroed, with first
/// and last activity at `now`. Fails when the slot already holds a record.
pub fn initialize_reputation(slot: &mut Option<UserReputation>, wallet: Identity, now: i64) -> (r:
    Result<(), ErrorCode>)
    ensures
        r == if old(slot).is_some() {
            Err::<(), ErrorCode>(ErrorCode::ReputationAlreadyExists)
        } else {
            Ok(())
        },
        r is Ok ==> *final(slot) == Some(UserReputation::fresh(wallet, now)),
        r is Err ==> *final(slot) == *old(slot),
        r is Ok ==> final(slot).unwrap().wf(),
{
    if slot.is_some() {
        return Err(ErrorCode::ReputationAlreadyExists);
    }
    *slot = Some(
        UserReputation {
            wallet,
            contracts_created: 0,
            contracts_completed: 0,
            contracts_approved: 0,
            total_value_escrowed: 0,
            vendor_score: 0,
            deals_as_vendor: 0,
            completed_as_vendor: 0,
            cancelled_as_vendor: 0,
            total_delivery_time_seconds: 0,
            quality_ratings_sum: 0,
            quality_ratings_count: 0,
            dispute_count_vendor: 0,
            client_score: 0,
            deals_as_client: 0,
            completed_as_client: 0,
            cancelled_as_client: 0,
            total_payment_time_seconds: 0,
            responsiveness_ratings_sum: 0,
            responsiveness_ratings_count: 0,
            dispute_count_client: 0,
            total_value_transacted: 0,
            first_activity: now,
            last_activity: now,
        },
    );
    Ok(())
}

/// Records a quality rating of 1 to 5 for `vendor_rep` and recomputes its
/// vendor score. Any other rating fails with `InvalidRating`.
pub fn rate_vendor(vendor_rep: &mut UserReputation, rating: u8, now: i64) -> (r: Result<(), ErrorCode>)
    requires
        old(vendor_rep).wf(),
        old(vendor_rep).quality_ratings_count < u32::MAX,
        old(vendor_rep).quality_ratings_sum + MAX_RATING <= u32::MAX,
    ensures
        r is Err <==> !(1 <= rating <= MAX_RATING),
        r is Err ==> r == Err::<(), ErrorCode>(ErrorCode::InvalidRating) && *final(vendor_rep)
            == *old(vendor_rep),
        r is Ok ==> *final(vendor_rep) == (UserReputation {
            quality_ratings_sum: (old(vendor_rep).quality_ratings_sum + rating) as u32,
            quality_ratings_count: (old(vendor_rep).quality_ratings_count + 1) as u32,
            vendor_score: average_score(
                (old(vendor_rep).quality_ratings_sum + rating) as u32,
                (old(vendor_rep).quality_ratings_count + 1) as u32,
            ),
            ..touched(*old(vendor_rep), now)
        }),
        final(vendor_rep).wf(),
{
    if rating < 1 || rating > MAX_RATING {
        return Err(ErrorCode::InvalidRating);
    }
    let sum = vendor_rep.quality_ratings_sum + rating as u32;
    let count = vendor_rep.quality_ratings_count + 1;
    vendor_rep.quality_ratings_sum = sum;
    vendor_rep.quality_ratings_count = count;
    vendor_rep.vendor_score = compute_score(sum, count);
    vendor_rep.touch(now);
    Ok(())
}

/// Records a responsiveness rating of 1 to 5 for `client_rep` and recomputes
/// its client score. Any other rating fails with `InvalidRating`.
pub fn rate_client(client_rep: &mut UserReputation, rating: u8, now: i64) -> (r: Result<(), ErrorCode>)
    requires
        old(client_rep).wf(),
        old(client_rep).responsiveness_ratings_count < u32::MAX,
        old(client_rep).responsiveness_ratings_sum + MAX_RATING <= u32::MAX,
    ensures
        r is Err <==> !(1 <= rating <= MAX_RATING),
        r is Err ==> r == Err::<(), ErrorCode>(ErrorCode::InvalidRating) && *final(client_rep)
            == *old(client_rep),
        r is Ok ==> *final(client_rep) == (UserReputation {
            responsiveness_ratings_sum: (old(client_rep).responsiveness_ratings_sum + rating) as u32,
            responsiveness_ratings_count: (old(client_rep).responsiveness_ratings_count + 1) as u32,
            client_score: average_score(
                (old(client_rep).responsiveness_ratings_sum + rating) as u32,
                (old(client_rep).responsiveness_ratings_count + 1) as u32,
            ),
            ..touched(*old(client_rep), now)
        }),
        final(client_rep).wf(),
{
    if rating < 1 || rating > MAX_RATING {
        return Err(ErrorCode::InvalidRating);
    }
    let sum = client_rep.responsiveness_ratings_sum + rating as u32;
    let count = client_rep.responsiveness_ratings_count + 1;
    client_rep.responsiveness_ratings_sum = sum;
    client_rep.responsiveness_ratings_count = count;
    client_rep.client_score = compute_score(sum, count);
    client_rep.touch(now);
    Ok(())
}

/// Counts a dispute against `reputation`, on its vendor side when
/// `is_vendor_dispute` holds and on its client side otherwise.
pub fn report_dispute(reputation: &mut UserReputation, is_vendor_dispute: bool, now: i64)
    requires
        old(reputation).wf(),
        is_vendor_dispute ==> old(reputation).dispute_count_vendor < u32::MAX,
        !is_vendor_dispute ==> old(reputation).dispute_count_client < u32::MAX,
    ensures
        is_vendor_dispute ==> *final(reputation) == (UserReputation {
            dispute_count_vendor: (old(reputation).dispute_count_vendor + 1) as u32,
            ..touched(*old(reputation), now)
        }),
        !is_vendor_dispute ==> *final(reputation) == (UserReputation {
            dispute_count_client: (old(reputation).dispute_count_client + 1) as u32,
            ..touched(*old(reputation), now)
        }),
        final(reputation).wf(),
{
    if is_vendor_dispute {
        reputation.dispute_count_vendor = reputation.dispute_count_vendor + 1;
    } else {
        reputation.dispute_count_client = reputation.dispute_count_client + 1;
    }
    reputation.touch(now);
}

} // verus!
