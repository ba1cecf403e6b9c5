use vstd::prelude::*;

use crate::contract::{byte_len, outcome, Contract, ContractStatus};
use crate::error::ErrorCode;
use crate::identity::{all_distinct, contains_identity, Identity};
use crate::reputation::{elapsed, elapsed_seconds, touched, UserReputation};

verus! {

/// The longest milestone description, in bytes.
pub const MAX_DESCRIPTION_BYTES: usize = 200;

#[derive(PartialEq, Eq, Structural, Clone, Copy, Debug)]
pub enum MilestoneStatus {
    Pending,
    Funded,
    MarkedComplete,
    Released,
    Cancelled,
}

/// A deliverable of a contract whose payment is held in custody until its
/// recipient marks it complete and every participant approves the release.
#[derive(Clone, Debug)]
pub struct EscrowMilestone {
    pub milestone_id: u64,
    pub contract_id: u64,
    pub description: String,
    pub amount: u64,
    pub recipient: Identity,
    pub deadline: i64,
    pub status: MilestoneStatus,
    pub approvals_required: u8,
    pub approvals: Vec<Identity>,
    pub marked_complete_by: Option<Identity>,
    pub creator: Identity,
    pub created_at: i64,
}

/// What the vault holds for `m`: its amount while funded and not yet paid
/// out, and nothing otherwise.
pub open spec fn custody(m: EscrowMilestone) -> u64 {
    if m.status == MilestoneStatus::Funded || m.status == MilestoneStatus::MarkedComplete {
        m.amount
    } else {
        0
    }
}

/// Whether no transition leaves `s`.
pub open spec fn is_terminal(s: MilestoneStatus) -> bool {
    s == MilestoneStatus::Released || s == MilestoneStatus::Cancelled
}

impl EscrowMilestone {
    pub open spec fn wf(&self) -> bool {
        &&& self.amount > 0
        &&& byte_len(self.description@) <= MAX_DESCRIPTION_BYTES
        &&& self.approvals@.no_duplicates()
        &&& self.marked_complete_by == if self.status == MilestoneStatus::MarkedComplete
            || self.status == MilestoneStatus::Released {
            Some(self.recipient)
        } else {
            None::<Identity>
        }
    }

    /// Whether `m` belongs to `c`, which is keyed by its id and its creator.
    pub open spec fn linked(&self, c: Contract) -> bool {
        &&& self.contract_id == c.contract_id
        &&& self.creator == c.creator
    }

    /// Whether this record satisfies the invariant that every operation
    /// keeps.
    pub fn is_consistent(&self) -> (r: bool)
        ensures
            r == self.wf(),
    {
        let marked = self.status == MilestoneStatus::MarkedComplete || self.status
            == MilestoneStatus::Released;
        let marker_ok = match self.marked_complete_by {
            Some(k) => marked && k == self.recipient,
            None => !marked,
        };
        self.amount > 0 && self.description.as_str().as_bytes().len() <= MAX_DESCRIPTION_BYTES
            && all_distinct(&self.approvals) && marker_ok
    }

    /// Whether this milestone belongs to `c`.
    pub fn is_linked(&self, c: &Contract) -> (r: bool)
        ensures
            r == self.linked(*c),
    {
        self.contract_id == c.contract_id && self.creator == c.creator
    }

    /// Whether `b` has every field of `a` that no operation changes.
    pub open spec fn same_terms(a: EscrowMilestone, b: EscrowMilestone) -> bool {
        &&& b.milestone_id == a.milestone_id
        &&& b.contract_id == a.contract_id
        &&& b.description@ == a.description@
        &&& b.amount == a.amount
        &&& b.recipient == a.recipient
        &&& b.deadline == a.deadline
        &&& b.approvals_required == a.approvals_required
        &&& b.creator == a.creator
        &&& b.created_at == a.created_at
    }

    /// Whether `b` is `a`, field by field.
    pub open spec fn same(a: EscrowMilestone, b: EscrowMilestone) -> bool {
        &&& EscrowMilestone::same_terms(a, b)
        &&& b.status == a.status
        &&& b.approvals@ == a.approvals@
        &&& b.marked_complete_by == a.marked_complete_by
    }
}

/// What the vault holds for `m`.
pub fn custody_of(m: &EscrowMilestone) -> (r: u64)
    ensures
        r == custody(*m),
{
    if m.status == MilestoneStatus::Funded || m.status == MilestoneStatus::MarkedComplete {
        m.amount
    } else {
        0
    }
}

/// Why funding a milestone would be refused, checked in this order.
pub open spec fn funding_error(
    c: Contract,
    creator: Identity,
    balance: u64,
    description: Seq<char>,
    amount: u64,
    recipient: Identity,
) -> Option<ErrorCode> {
    if byte_len(description) > MAX_DESCRIPTION_BYTES {
        Some(ErrorCode::DescriptionTooLong)
    } else if c.status == ContractStatus::Cancelled {
        Some(ErrorCode::ContractNotActive)
    } else if c.creator != creator {
        Some(ErrorCode::OnlyCreatorCanInitializeEscrow)
    } else if !c.participants@.contains(recipient) {
        Some(ErrorCode::RecipientNotParticipant)
    } else if amount == 0 {
        Some(ErrorCode::InvalidAmount)
    } else if balance < amount {
        Some(ErrorCode::InsufficientFunds)
    } else {
        None
    }
}

/// Creates a funded milestone of `contract`, moving `amount` from the
/// creator's balance into the milestone's (empty) vault. Every participant's
/// approval is required for its release. Counts the amount as escrowed and
/// transacted, and a deal as client, for the creator.
pub fn initialize_escrow_milestone(
    contract: &Contract,
    creator_rep: &mut UserReputation,
    creator: Identity,
    creator_balance: &mut u64,
    vault: &mut u64,
    milestone_id: u64,
    description: String,
    amount: u64,
    recipient: Identity,
    deadline: i64,
    now: i64,
) -> (r: Result<EscrowMilestone, ErrorCode>)
    requires
        contract.wf(),
        old(creator_rep).wf(),
        old(creator_rep).wallet == creator,
        *old(vault) == 0,
        old(creator_rep).total_value_escrowed + amount <= u64::MAX,
        old(creator_rep).total_value_transacted + amount <= u64::MAX,
        old(creator_rep).deals_as_client < u32::MAX,
    ensures
        match r {
            Ok(m) => {
                &&& funding_error(
                    *contract,
                    creator,
                    *old(creator_balance),
                    description@,
                    amount,
                    recipient,
                ) is None
                &&& m.wf()
                &&& m.linked(*contract)
                &&& m.milestone_id == milestone_id
                &&& m.contract_id == contract.contract_id
                &&& m.description@ == description@
                &&& m.amount == amount
                &&& m.recipient == recipient
                &&& m.deadline == deadline
                &&& m.status == MilestoneStatus::Funded
                &&& m.approvals_required == contract.participants@.len()
                &&& m.approvals@.len() == 0
                &&& m.creator == creator
                &&& m.created_at == now
                &&& *final(vault) == amount
                &&& *final(vault) == custody(m)
                &&& *final(creator_balance) == *old(creator_balance) - amount
                &&& *final(creator_rep) == (UserReputation {
                    total_value_escrowed: (old(creator_rep).total_value_escrowed + amount) as u64,
                    total_value_transacted: (old(creator_rep).total_value_transacted
                        + amount) as u64,
                    deals_as_client: (old(creator_rep).deals_as_client + 1) as u32,
                    ..touched(*old(creator_rep), now)
                })
            },
            Err(e) => {
                &&& funding_error(
                    *contract,
                    creator,
                    *old(creator_balance),
                    description@,
                    amount,
                    recipient,
                ) == Some(e)
                &&& *final(vault) == *old(vault)
                &&& *final(creator_balance) == *old(creator_balance)
                &&& *final(creator_rep) == *old(creator_rep)
            },
        },
        final(creator_rep).wf(),
{
    if description.as_str().as_bytes().len() > MAX_DESCRIPTION_BYTES {
        return Err(ErrorCode::DescriptionTooLong);
    }
    if contract.status != ContractStatus::Active && contract.status != ContractStatus::Completed {
        return Err(ErrorCode::ContractNotActive);
    }
    if contract.creator != creator {
        return Err(ErrorCode::OnlyCreatorCanInitializeEscrow);
    }
    if !contains_identity(&contract.participants, recipient) {
        return Err(ErrorCode::RecipientNotParticipant);
    }
    if amount == 0 {
        return Err(ErrorCode::InvalidAmount);
    }
    if *creator_balance < amount {
        return Err(ErrorCode::InsufficientFunds);
    }
    *creator_balance = *creator_balance - amount;
    *vault = amount;
    let milestone = EscrowMilestone {
        milestone_id,
        contract_id: contract.contract_id,
        description,
        amount,
        recipient,
        deadline,
        status: MilestoneStatus::Funded,
        approvals_required: contract.participants.len() as u8,
        approvals: Vec::new(),
        marked_complete_by: None,
        creator,
        created_at: now,
    };
    creator_rep.total_value_escrowed = creator_rep.total_value_escrowed + amount;
    creator_rep.total_value_transacted = creator_rep.total_value_transacted + amount;
    creator_rep.deals_as_client = creator_rep.deals_as_client + 1;
    creator_rep.touch(now);
    Ok(milestone)
}

/// Why marking `m` complete by `marker` would be refused, checked in this order.
pub open spec fn marking_error(m: EscrowMilestone, c: Contract, marker: Identity) -> Option<ErrorCode> {
    if m.status != MilestoneStatus::Funded {
        Some(ErrorCode::MilestoneNotFunded)
    } else if !m.linked(c) {
        Some(ErrorCode::ContractMismatch)
    } else if !c.participants@.contains(marker) {
        Some(ErrorCode::NotAParticipant)
    } else if marker != m.recipient {
        Some(ErrorCode::OnlyRecipientCanMarkComplete)
    } else {
        None
    }
}

/// The recipient of a funded milestone marks it delivered. Counts a deal as
/// vendor and the seconds since funding as delivery time for the recipient.
pub fn mark_milestone_complete(
    escrow: &mut EscrowMilestone,
    contract: &Contract,
    vendor_rep: &mut UserReputation,
    marker: Identity,
    now: i64,
) -> (r: Result<(), ErrorCode>)
    requires
        old(escrow).wf(),
        old(vendor_rep).wf(),
        old(vendor_rep).wallet == old(escrow).recipient,
        old(vendor_rep).deals_as_vendor < u32::MAX,
        old(vendor_rep).total_delivery_time_seconds + elapsed(old(escrow).created_at, now)
            <= u64::MAX,
    ensures
        r == outcome(marking_error(*old(escrow), *contract, marker)),
        r is Ok ==> {
            &&& EscrowMilestone::same_terms(*old(escrow), *final(escrow))
            &&& final(escrow).status == MilestoneStatus::MarkedComplete
            &&& final(escrow).marked_complete_by == Some(marker)
            &&& final(escrow).approvals@ == old(escrow).approvals@
            &&& *final(vendor_rep) == (UserReputation {
                deals_as_vendor: (old(vendor_rep).deals_as_vendor + 1) as u32,
                total_delivery_time_seconds: (old(vendor_rep).total_delivery_time_seconds
                    + elapsed(old(escrow).created_at, now)) as u64,
                ..touched(*old(vendor_rep), now)
            })
        },
        r is Err ==> EscrowMilestone::same(*old(escrow), *final(escrow)) && *final(vendor_rep)
            == *old(vendor_rep),
        custody(*final(escrow)) == custody(*old(escrow)),
        final(escrow).wf(),
        final(vendor_rep).wf(),
{
    if escrow.status != MilestoneStatus::Funded {
        return Err(ErrorCode::MilestoneNotFunded);
    }
    if !escrow.is_linked(contract) {
        return Err(ErrorCode::ContractMismatch);
    }
    if !contains_identity(&contract.participants, marker) {
        return Err(ErrorCode::NotAParticipant);
    }
    if marker != escrow.recipient {
        return Err(ErrorCode::OnlyRecipientCanMarkComplete);
    }
    escrow.marked_complete_by = Some(marker);
    escrow.status = MilestoneStatus::MarkedComplete;
    let delivery_time = elapsed_seconds(escrow.created_at, now);
    vendor_rep.deals_as_vendor = vendor_rep.deals_as_vendor + 1;
    vendor_rep.total_delivery_time_seconds = vendor_rep.total_delivery_time_seconds
        + delivery_time;
    vendor_rep.touch(now);
    Ok(())
}

/// Why an approval of `m`'s release by `approver` would be refused, checked
/// in this order.
pub open spec fn release_approval_error(m: EscrowMilestone, c: Contract, approver: Identity) -> Option<
    ErrorCode,
> {
    if m.status != MilestoneStatus::MarkedComplete {
        Some(ErrorCode::MilestoneNotMarkedComplete)
    } else if !m.linked(c) {
        Some(ErrorCode::ContractMismatch)
    } else if !c.participants@.contains(approver) {
        Some(ErrorCode::NotAParticipant)
    } else if m.approvals@.contains(approver) {
        Some(ErrorCode::AlreadyApprovedMilestone)
    } else {
        None
    }
}

/// A participant who has not yet done so approves the release of a milestone
/// marked complete.
pub fn approve_milestone_release(
    escrow: &mut EscrowMilestone,
    contract: &Contract,
    approver_rep: &mut UserReputation,
    approver: Identity,
    now: i64,
) -> (r: Result<(), ErrorCode>)
    requires
        old(escrow).wf(),
        old(approver_rep).wf(),
        old(approver_rep).wallet == approver,
    ensures
        r == outcome(release_approval_error(*old(escrow), *contract, approver)),
        r is Ok ==> {
            &&& EscrowMilestone::same_terms(*old(escrow), *final(escrow))
            &&& final(escrow).status == old(escrow).status
            &&& final(escrow).marked_complete_by == old(escrow).marked_complete_by
            &&& final(escrow).approvals@ == old(escrow).approvals@.push(approver)
            &&& *final(approver_rep) == touched(*old(approver_rep), now)
        },
        r is Err ==> EscrowMilestone::same(*old(escrow), *final(escrow)) && *final(approver_rep)
            == *old(approver_rep),
        custody(*final(escrow)) == custody(*old(escrow)),
        final(escrow).wf(),
        final(approver_rep).wf(),
{
    if escrow.status != MilestoneStatus::MarkedComplete {
        return Err(ErrorCode::MilestoneNotMarkedComplete);
    }
    if !escrow.is_linked(contract) {
        return Err(ErrorCode::ContractMismatch);
    }
    if !contains_identity(&contract.participants, approver) {
        return Err(ErrorCode::NotAParticipant);
    }
    if contains_identity(&escrow.approvals, approver) {
        return Err(ErrorCode::AlreadyApprovedMilestone);
    }
    escrow.approvals.push(approver);
    approver_rep.touch(now);
    Ok(())
}

/// Why releasing `m` to the account of `recipient` would be refused,
/// checked in this order.
pub open spec fn release_error(m: EscrowMilestone, recipient: Identity) -> Option<ErrorCode> {
    if m.status != MilestoneStatus::MarkedComplete {
        Some(ErrorCode::MilestoneNotMarkedComplete)
    } else if m.approvals@.len() < m.approvals_required {
        Some(ErrorCode::InsufficientApprovals)
    } else if recipient != m.recipient {
        Some(ErrorCode::RecipientMismatch)
    } else {
        None
    }
}

/// `r` after it was paid `amount` for a completed deal at time `now`.
pub open spec fn paid_as_vendor(r: UserReputation, amount: u64, now: i64) -> UserReputation {
    UserReputation {
        completed_as_vendor: (r.completed_as_vendor + 1) as u32,
        total_value_transacted: (r.total_value_transacted + amount) as u64,
        ..touched(r, now)
    }
}

/// `r` after it paid for a completed deal `seconds` after funding it.
pub open spec fn paid_as_client(r: UserReputation, seconds: u64, now: i64) -> UserReputation {
    UserReputation {
        total_payment_time_seconds: (r.total_payment_time_seconds + seconds) as u64,
        completed_as_client: (r.completed_as_client + 1) as u32,
        ..touched(r, now)
    }
}

/// Whether `r` is a valid record of `wallet` with room for a client-side
/// payment credit of `seconds`.
pub open spec fn client_room(r: UserReputation, wallet: Identity, seconds: u64) -> bool {
    &&& r.wf()
    &&& r.wallet == wallet
    &&& r.completed_as_client < u32::MAX
    &&& r.total_payment_time_seconds + seconds <= u64::MAX
}

/// Pays the custody of a milestone marked complete and approved by its
/// quorum to its recipient, whose balance is `recipient_balance`, and closes
/// the milestone as released. Counts a completed deal and the amount
/// transacted for the recipient, and a completed deal and the seconds since
/// funding as payment time for the creator. The creator's record is
/// `client_rep`, except when the creator is the recipient: then `vendor_rep`
/// takes both credits and `client_rep` is left as it is.
pub fn release_escrow_funds(
    escrow: &mut EscrowMilestone,
    vault: &mut u64,
    recipient: Identity,
    recipient_balance: &mut u64,
    vendor_rep: &mut UserReputation,
    client_rep: &mut Option<UserReputation>,
    now: i64,
) -> (r: Result<(), ErrorCode>)
    requires
        old(escrow).wf(),
        *old(vault) == custody(*old(escrow)),
        *old(recipient_balance) + old(escrow).amount <= u64::MAX,
        old(vendor_rep).wf(),
        old(vendor_rep).wallet == old(escrow).recipient,
        old(vendor_rep).completed_as_vendor < u32::MAX,
        old(vendor_rep).total_value_transacted + old(escrow).amount <= u64::MAX,
        old(escrow).recipient == old(escrow).creator ==> client_room(
            paid_as_vendor(*old(vendor_rep), old(escrow).amount, now),
            old(escrow).creator,
            elapsed(old(escrow).created_at, now),
        ),
        old(escrow).recipient != old(escrow).creator ==> old(client_rep).is_some() && client_room(
            old(client_rep).unwrap(),
            old(escrow).creator,
            elapsed(old(escrow).created_at, now),
        ),
    ensures
        r == outcome(release_error(*old(escrow), recipient)),
        r is Ok ==> {
            &&& EscrowMilestone::same_terms(*old(escrow), *final(escrow))
            &&& final(escrow).status == MilestoneStatus::Released
            &&& final(escrow).marked_complete_by == old(escrow).marked_complete_by
            &&& final(escrow).approvals@ == old(escrow).approvals@
            &&& *final(recipient_balance) == *old(recipient_balance) + old(escrow).amount
            &&& if old(escrow).recipient == old(escrow).creator {
                &&& *final(vendor_rep) == paid_as_client(
                    paid_as_vendor(*old(vendor_rep), old(escrow).amount, now),
                    elapsed(old(escrow).created_at, now),
                    now,
                )
                &&& *final(client_rep) == *old(client_rep)
            } else {
                &&& *final(vendor_rep) == paid_as_vendor(*old(vendor_rep), old(escrow).amount, now)
                &&& *final(client_rep) == Some(
                    paid_as_client(
                        old(client_rep).unwrap(),
                        elapsed(old(escrow).created_at, now),
                        now,
                    ),
                )
            }
        },
        r is Err ==> {
            &&& EscrowMilestone::same(*old(escrow), *final(escrow))
            &&& *final(recipient_balance) == *old(recipient_balance)
            &&& *final(vendor_rep) == *old(vendor_rep)
            &&& *final(client_rep) == *old(client_rep)
        },
        *final(vault) == custody(*final(escrow)),
        final(escrow).wf(),
        final(vendor_rep).wf(),
        *final(client_rep) != *old(client_rep) ==> final(client_rep).unwrap().wf(),
{
    if escrow.status != MilestoneStatus::MarkedComplete {
        return Err(ErrorCode::MilestoneNotMarkedComplete);
    }
    if escrow.approvals.len() < escrow.approvals_required as usize {
        return Err(ErrorCode::InsufficientApprovals);
    }
    if recipient != escrow.recipient {
        return Err(ErrorCode::RecipientMismatch);
    }
    let amount = escrow.amount;
    *vault = *vault - amount;
    *recipient_balance = *recipient_balance + amount;
    escrow.status = MilestoneStatus::Released;
    vendor_rep.completed_as_vendor = vendor_rep.completed_as_vendor + 1;
    vendor_rep.total_value_transacted = vendor_rep.total_value_transacted + amount;
    vendor_rep.touch(now);
    let payment_time = elapsed_seconds(escrow.created_at, now);
    if escrow.recipient == escrow.creator {
        vendor_rep.total_payment_time_seconds = vendor_rep.total_payment_time_seconds
            + payment_time;
        vendor_rep.completed_as_client = vendor_rep.completed_as_client + 1;
        vendor_rep.touch(now);
    } else {
        let mut client = client_rep.unwrap();
        client.total_payment_time_seconds = client.total_payment_time_seconds + payment_time;
        client.completed_as_client = client.completed_as_client + 1;
        client.touch(now);
        *client_rep = Some(client);
    }
    Ok(())
}

/// Why a cancellation of `m` by `caller` would be refused, checked in this order.
pub open spec fn escrow_cancellation_error(m: EscrowMilestone, caller: Identity) -> Option<
    ErrorCode,
> {
    if m.creator != caller {
        Some(ErrorCode::OnlyCreatorCanCancelEscrow)
    } else if m.status != MilestoneStatus::Funded && m.status != MilestoneStatus::Pending {
        Some(ErrorCode::CannotCancelMilestone)
    } else {
        None
    }
}

/// The creator cancels a milestone that is pending or funded and not yet
/// marked complete; a funded one's custody is refunded to the creator.
/// Counts a cancellation as client of the creator.
pub fn cancel_escrow_milestone(
    escrow: &mut EscrowMilestone,
    vault: &mut u64,
    creator_balance: &mut u64,
    creator_rep: &mut UserReputation,
    creator: Identity,
    now: i64,
) -> (r: Result<(), ErrorCode>)
    requires
        old(escrow).wf(),
        *old(vault) == custody(*old(escrow)),
        *old(creator_balance) + custody(*old(escrow)) <= u64::MAX,
        old(creator_rep).wf(),
        old(creator_rep).wallet == creator,
        old(creator_rep).cancelled_as_client < u32::MAX,
    ensures
        r == outcome(escrow_cancellation_error(*old(escrow), creator)),
        r is Ok ==> {
            &&& EscrowMilestone::same_terms(*old(escrow), *final(escrow))
            &&& final(escrow).status == MilestoneStatus::Cancelled
            &&& final(escrow).marked_complete_by == old(escrow).marked_complete_by
            &&& final(escrow).approvals@ == old(escrow).approvals@
            &&& *final(creator_balance) == *old(creator_balance) + custody(*old(escrow))
            &&& *final(creator_rep) == (UserReputation {
                cancelled_as_client: (old(creator_rep).cancelled_as_client + 1) as u32,
                ..touched(*old(creator_rep), now)
            })
        },
        r is Err ==> {
            &&& EscrowMilestone::same(*old(escrow), *final(escrow))
            &&& *final(creator_balance) == *old(creator_balance)
            &&& *final(creator_rep) == *old(creator_rep)
        },
        *final(vault) == custody(*final(escrow)),
        final(escrow).wf(),
        final(creator_rep).wf(),
{
    if escrow.creator != creator {
        return Err(ErrorCode::OnlyCreatorCanCancelEscrow);
    }
    if escrow.status != MilestoneStatus::Funded && escrow.status != MilestoneStatus::Pending {
        return Err(ErrorCode::CannotCancelMilestone);
    }
    if escrow.status == MilestoneStatus::Funded {
        let amount = escrow.amount;
        *vault = *vault - amount;
        *creator_balance = *creator_balance + amount;
    }
    escrow.status = MilestoneStatus::Cancelled;
    creator_rep.cancelled_as_client = creator_rep.cancelled_as_client + 1;
    creator_rep.touch(now);
    Ok(())
}

} // verus!
