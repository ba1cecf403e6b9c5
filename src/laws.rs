//! Properties that hold across the operations of the library.
use vstd::prelude::*;

use crate::contract::{threshold_met, Contract, ContractStatus, MAX_PARTICIPANTS};
use crate::escrow::{
    custody, escrow_cancellation_error, is_terminal, release_error, EscrowMilestone,
    MilestoneStatus,
};
use crate::identity::Identity;
use crate::reputation::{average_score, touched, UserReputation};

verus! {

/// A well-formed contract that asks for at least one approval never has more
/// approvers than it requires, never requires more approvals than it has
/// participants, and has at most ten participants.
pub proof fn lemma_contract_bounds(c: Contract)
    requires
        c.wf(),
        c.required_approvals >= 1,
    ensures
        c.approvers@.len() <= c.required_approvals <= c.participants@.len() <= MAX_PARTICIPANTS,
{
}

/// A well-formed contract is completed exactly when its approvals have met
/// its threshold.
pub proof fn lemma_completed_iff_threshold(c: Contract)
    requires
        c.wf(),
    ensures
        c.status == ContractStatus::Completed <==> threshold_met(
            c.approvers@.len(),
            c.required_approvals,
        ),
{
}

/// When one more approval turns an active contract into a well-formed
/// successor, the successor is completed exactly when that approval brought
/// the count from below the threshold to it.
pub proof fn lemma_completion_on_crossing(a: Contract, b: Contract)
    requires
        a.wf(),
        b.wf(),
        a.status == ContractStatus::Active,
        a.required_approvals >= 1,
        b.required_approvals == a.required_approvals,
        b.approvers@.len() == a.approvers@.len() + 1,
    ensures
        a.approvers@.len() < a.required_approvals,
        b.status == ContractStatus::Completed <==> b.approvers@.len() == a.required_approvals,
{
}

/// Completion and cancellation are final: no move of a contract record
/// leaves them, nor adds an approver after them.
pub proof fn lemma_contract_status_irreversible(a: Contract, b: Contract)
    requires
        Contract::step(a, b),
        a.status != ContractStatus::Active,
    ensures
        b.status == a.status,
        b.approvers@ == a.approvers@,
{
}

/// Approvals are never withdrawn: every move keeps the earlier approvers, in
/// order.
pub proof fn lemma_approvers_grow(a: Contract, b: Contract, i: int)
    requires
        Contract::step(a, b),
        0 <= i < a.approvers@.len(),
    ensures
        b.approvers@[i] == a.approvers@[i],
{
    assert(b.approvers@.subrange(0, a.approvers@.len() as int)[i] == b.approvers@[i]);
}

/// The vault holds a milestone's amount while it is funded or marked
/// complete, and nothing once it is pending, released or cancelled.
pub proof fn lemma_custody_matches_status(m: EscrowMilestone)
    ensures
        m.status == MilestoneStatus::Funded || m.status == MilestoneStatus::MarkedComplete
            ==> custody(m) == m.amount,
        m.status == MilestoneStatus::Pending || is_terminal(m.status) ==> custody(m) == 0,
{
}

/// A released or cancelled milestone holds nothing and can be neither
/// released nor cancelled again, so it never pays out twice.
pub proof fn lemma_closed_milestone_pays_nothing(m: EscrowMilestone, caller: Identity)
    requires
        is_terminal(m.status),
    ensures
        custody(m) == 0,
        forall|recipient: Identity| release_error(m, recipient) is Some,
        escrow_cancellation_error(m, caller) is Some,
{
}

/// The vendor and client scores of a well-formed record are the floor of
/// their rating averages times 100, and 0 when nothing was rated.
pub proof fn lemma_scores_from_sums(r: UserReputation)
    requires
        r.wf(),
    ensures
        r.vendor_score == average_score(r.quality_ratings_sum, r.quality_ratings_count),
        r.client_score == average_score(
            r.responsiveness_ratings_sum,
            r.responsiveness_ratings_count,
        ),
        r.quality_ratings_count == 0 ==> r.vendor_score == 0,
        r.responsiveness_ratings_count == 0 ==> r.client_score == 0,
        r.vendor_score <= 500,
        r.client_score <= 500,
{
    if r.quality_ratings_count > 0 {
        crate::reputation::lemma_score_bounded(r.quality_ratings_sum, r.quality_ratings_count);
    }
    if r.responsiveness_ratings_count > 0 {
        crate::reputation::lemma_score_bounded(
            r.responsiveness_ratings_sum,
            r.responsiveness_ratings_count,
        );
    }
}

/// Recording an operation never moves a record's last activity back, and
/// keeps every other field.
pub proof fn lemma_activity_never_decreases(r: UserReputation, now: i64)
    ensures
        touched(r, now).last_activity >= r.last_activity,
        touched(r, now).last_activity >= now,
        touched(r, now).first_activity == r.first_activity,
        r.wf() ==> touched(r, now).wf(),
{
}

} // verus!
