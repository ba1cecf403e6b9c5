use vstd::prelude::*;
use vstd::utf8::encode_utf8;

use crate::error::ErrorCode;
use crate::identity::{all_distinct, all_within, contains_identity, Identity};
use crate::reputation::{touched, UserReputation};

verus! {

/// The most participants a contract can have.
pub const MAX_PARTICIPANTS: usize = 10;

/// The longest content reference a contract can hold, in bytes.
pub const MAX_REFERENCE_BYTES: usize = 46;

#[derive(PartialEq, Eq, Structural, Clone, Copy, Debug)]
pub enum ContractStatus {
    Active,
    Completed,
    Cancelled,
}

/// A multi-party agreement. It completes once `required_approvals` distinct
/// participants have approved it, unless its creator cancelled it first.
#[derive(Clone, Debug)]
pub struct Contract {
    pub contract_id: u64,
    pub creator: Identity,
    pub participants: Vec<Identity>,
    pub status: ContractStatus,
    pub required_approvals: u8,
    pub current_approvals: u8,
    pub approvers: Vec<Identity>,
    pub ipfs_hash: String,
    pub created_at: i64,
}

/// The length in bytes of the UTF-8 encoding of `s`.
pub open spec fn byte_len(s: Seq<char>) -> nat {
    encode_utf8(s).len()
}

/// `r` for an error that may or may not have been found.
pub open spec fn outcome(e: Option<ErrorCode>) -> Result<(), ErrorCode> {
    match e {
        Some(e) => Err(e),
        None => Ok(()),
    }
}

/// Whether `n` approvals complete a contract that asks for `required`: at
/// least one approval, and no fewer than required.
pub open spec fn threshold_met(n: nat, required: u8) -> bool {
    n > 0 && n >= required
}

impl Contract {
    pub open spec fn wf(&self) -> bool {
        &&& self.participants@.len() <= MAX_PARTICIPANTS
        &&& self.required_approvals <= self.participants@.len()
        &&& self.participants@.contains(self.creator)
        &&& self.participants@.no_duplicates()
        &&& self.approvers@.no_duplicates()
        &&& forall|i: int|
            0 <= i < self.approvers@.len() ==> self.participants@.contains(#[trigger] self.approvers@[i])
        &&& self.current_approvals == self.approvers@.len()
        &&& (self.approvers@.len() <= self.required_approvals || self.approvers@.len() <= 1)
        &&& (self.status == ContractStatus::Completed <==> threshold_met(
            self.approvers@.len(),
            self.required_approvals,
        ))
        &&& byte_len(self.ipfs_hash@) <= MAX_REFERENCE_BYTES
    }

    /// Whether this record satisfies the invariant that every operation
    /// keeps.
    pub fn is_consistent(&self) -> (r: bool)
        ensures
            r == self.wf(),
    {
        let n = self.approvers.len();
        let required = self.required_approvals as usize;
        let met = n > 0 && n >= required;
        self.participants.len() <= MAX_PARTICIPANTS && required <= self.participants.len()
            && contains_identity(&self.participants, self.creator) && all_distinct(&self.participants)
            && all_distinct(&self.approvers)
            && all_within(&self.approvers, &self.participants) && self.current_approvals as usize
            == n && (n <= required || n <= 1) && ((self.status == ContractStatus::Completed)
            == met) && self.ipfs_hash.as_str().as_bytes().len() <= MAX_REFERENCE_BYTES
    }

    /// Whether `b` has the identity, creator, participants, threshold and
    /// creation time of `a`.
    pub open spec fn same_terms(a: Contract, b: Contract) -> bool {
        &&& b.contract_id == a.contract_id
        &&& b.creator == a.creator
        &&& b.participants@ == a.participants@
        &&& b.required_approvals == a.required_approvals
        &&& b.created_at == a.created_at
    }

    /// Whether `b` is `a`, field by field.
    pub open spec fn same(a: Contract, b: Contract) -> bool {
        &&& Contract::same_terms(a, b)
        &&& b.status == a.status
        &&& b.current_approvals == a.current_approvals
        &&& b.approvers@ == a.approvers@
        &&& b.ipfs_hash@ == a.ipfs_hash@
    }

    /// The moves a contract record can make: its terms never change, its
    /// approvers only grow, and only an active contract changes status.
    pub open spec fn step(a: Contract, b: Contract) -> bool {
        &&& Contract::same_terms(a, b)
        &&& a.approvers@.len() <= b.approvers@.len()
        &&& b.approvers@.subrange(0, a.approvers@.len() as int) == a.approvers@
        &&& a.status != ContractStatus::Active ==> b.status == a.status && b.approvers@
            == a.approvers@
    }
}

/// Why creating a contract would be refused, checked in this order.
pub open spec fn creation_error(participants: Seq<Identity>, required_approvals: u8, creator: Identity) -> Option<
    ErrorCode,
> {
    if participants.len() > MAX_PARTICIPANTS {
        Some(ErrorCode::TooManyParticipants)
    } else if required_approvals > participants.len() {
        Some(ErrorCode::InvalidApprovalThreshold)
    } else if !participants.contains(creator) {
        Some(ErrorCode::CreatorMustBeParticipant)
    } else if !participants.no_duplicates() {
        Some(ErrorCode::DuplicateParticipant)
    } else {
        None
    }
}

/// Creates an active contract of `creator` among `participants`, with no
/// approvals and an empty content reference, and counts it as a contract
/// created and a deal as vendor of the creator.
pub fn initialize_contract(
    creator_rep: &mut UserReputation,
    creator: Identity,
    contract_id: u64,
    participants: Vec<Identity>,
    required_approvals: u8,
    now: i64,
) -> (r: Result<Contract, ErrorCode>)
    requires
        old(creator_rep).wf(),
        old(creator_rep).wallet == creator,
        old(creator_rep).contracts_created < u32::MAX,
        old(creator_rep).deals_as_vendor < u32::MAX,
    ensures
        match r {
            Ok(c) => {
                &&& creation_error(participants@, required_approvals, creator) is None
                &&& c.wf()
                &&& c.contract_id == contract_id
                &&& c.creator == creator
                &&& c.participants@ == participants@
                &&& c.status == ContractStatus::Active
                &&& c.required_approvals == required_approvals
                &&& c.current_approvals == 0
                &&& c.approvers@.len() == 0
                &&& c.approvers@.len() <= c.required_approvals <= c.participants@.len()
                    <= MAX_PARTICIPANTS
                &&& c.ipfs_hash@.len() == 0
                &&& c.created_at == now
                &&& *final(creator_rep) == (UserReputation {
                    contracts_created: (old(creator_rep).contracts_created + 1) as u32,
                    deals_as_vendor: (old(creator_rep).deals_as_vendor + 1) as u32,
                    ..touched(*old(creator_rep), now)
                })
            },
            Err(e) => {
                &&& creation_error(participants@, required_approvals, creator) == Some(e)
                &&& *final(creator_rep) == *old(creator_rep)
            },
        },
        final(creator_rep).wf(),
{
    if participants.len() > MAX_PARTICIPANTS {
        return Err(ErrorCode::TooManyParticipants);
    }
    if required_approvals as usize > participants.len() {
        return Err(ErrorCode::InvalidApprovalThreshold);
    }
    if !contains_identity(&participants, creator) {
        return Err(ErrorCode::CreatorMustBeParticipant);
    }
    if !all_distinct(&participants) {
        return Err(ErrorCode::DuplicateParticipant);
    }
    let contract = Contract {
        contract_id,
        creator,
        participants,
        status: ContractStatus::Active,
        required_approvals,
        current_approvals: 0,
        approvers: Vec::new(),
        ipfs_hash: String::new(),
        created_at: now,
    };
    proof {
        assert(encode_utf8(contract.ipfs_hash@) == Seq::<u8>::empty());
    }
    creator_rep.contracts_created = creator_rep.contracts_created + 1;
    creator_rep.deals_as_vendor = creator_rep.deals_as_vendor + 1;
    creator_rep.touch(now);
    Ok(contract)
}

/// Why an approval by `approver` would be refused, checked in this order.
pub open spec fn approval_error(c: Contract, approver: Identity) -> Option<ErrorCode> {
    if c.status != ContractStatus::Active {
        Some(ErrorCode::ContractNotActive)
    } else if !c.participants@.contains(approver) {
        Some(ErrorCode::NotAParticipant)
    } else if c.approvers@.contains(approver) {
        Some(ErrorCode::AlreadyApproved)
    } else {
        None
    }
}

/// Adds `approver` to the approvers of an active contract and completes the
/// contract when that approval meets its threshold. Counts an approved
/// contract and a deal as client of the approver.
pub fn approve_contract(
    contract: &mut Contract,
    approver_rep: &mut UserReputation,
    approver: Identity,
    now: i64,
) -> (r: Result<(), ErrorCode>)
    requires
        old(contract).wf(),
        old(approver_rep).wf(),
        old(approver_rep).wallet == approver,
        old(approver_rep).contracts_approved < u32::MAX,
        old(approver_rep).deals_as_client < u32::MAX,
    ensures
        r == outcome(approval_error(*old(contract), approver)),
        r is Ok ==> (final(contract).status == ContractStatus::Completed
            <==> final(contract).approvers@.len() >= final(contract).required_approvals),
        final(contract).required_approvals >= 1 ==> final(contract).approvers@.len()
            <= final(contract).required_approvals <= final(contract).participants@.len()
            <= MAX_PARTICIPANTS,
        r is Ok ==> {
            &&& Contract::same_terms(*old(contract), *final(contract))
            &&& final(contract).approvers@ == old(contract).approvers@.push(approver)
            &&& final(contract).current_approvals == old(contract).current_approvals + 1
            &&& final(contract).ipfs_hash@ == old(contract).ipfs_hash@
            &&& final(contract).status == if threshold_met(
                final(contract).approvers@.len(),
                old(contract).required_approvals,
            ) {
                ContractStatus::Completed
            } else {
                ContractStatus::Active
            }
            &&& *final(approver_rep) == (UserReputation {
                contracts_approved: (old(approver_rep).contracts_approved + 1) as u32,
                deals_as_client: (old(approver_rep).deals_as_client + 1) as u32,
                ..touched(*old(approver_rep), now)
            })
        },
        r is Err ==> Contract::same(*old(contract), *final(contract)) && *final(approver_rep)
            == *old(approver_rep),
        final(contract).wf(),
        Contract::step(*old(contract), *final(contract)),
        final(approver_rep).wf(),
{
    proof {
        assert(old(contract).approvers@.subrange(0, old(contract).approvers@.len() as int)
            =~= old(contract).approvers@);
    }
    if contract.status != ContractStatus::Active {
        return Err(ErrorCode::ContractNotActive);
    }
    if !contains_identity(&contract.participants, approver) {
        return Err(ErrorCode::NotAParticipant);
    }
    if contains_identity(&contract.approvers, approver) {
        return Err(ErrorCode::AlreadyApproved);
    }
    contract.approvers.push(approver);
    contract.current_approvals = contract.current_approvals + 1;
    approver_rep.contracts_approved = approver_rep.contracts_approved + 1;
    approver_rep.deals_as_client = approver_rep.deals_as_client + 1;
    approver_rep.touch(now);
    if contract.current_approvals > 0 && contract.current_approvals >= contract.required_approvals {
        contract.status = ContractStatus::Completed;
    }
    proof {
        assert(contract.approvers@.subrange(0, old(contract).approvers@.len() as int)
            =~= old(contract).approvers@);
    }
    Ok(())
}

/// Why crediting the completion of `c` to the record of `wallet` would be
/// refused, checked in this order.
pub open spec fn completion_credit_error(c: Contract, wallet: Identity) -> Option<ErrorCode> {
    if c.status != ContractStatus::Completed {
        Some(ErrorCode::ContractNotCompleted)
    } else if !c.participants@.contains(wallet) {
        Some(ErrorCode::NotAParticipant)
    } else {
        None
    }
}

/// Credits the completion of a completed contract to the record of one of
/// its participants. Fails with `ContractNotCompleted` while the contract is
/// active or after it was cancelled, and with `NotAParticipant` for the
/// record of anyone else.
pub fn mark_contract_complete(
    contract: &Contract,
    participant_rep: &mut UserReputation,
    now: i64,
) -> (r: Result<(), ErrorCode>)
    requires
        old(participant_rep).wf(),
        old(participant_rep).contracts_completed < u32::MAX,
        old(participant_rep).completed_as_vendor < u32::MAX,
    ensures
        r == outcome(completion_credit_error(*contract, old(participant_rep).wallet)),
        r is Err ==> *final(participant_rep) == *old(participant_rep),
        r is Ok ==> *final(participant_rep) == (UserReputation {
            contracts_completed: (old(participant_rep).contracts_completed + 1) as u32,
            completed_as_vendor: (old(participant_rep).completed_as_vendor + 1) as u32,
            ..touched(*old(participant_rep), now)
        }),
        final(participant_rep).wf(),
{
    if contract.status != ContractStatus::Completed {
        return Err(ErrorCode::ContractNotCompleted);
    }
    if !contains_identity(&contract.participants, participant_rep.wallet) {
        return Err(ErrorCode::NotAParticipant);
    }
    participant_rep.contracts_completed = participant_rep.contracts_completed + 1;
    participant_rep.completed_as_vendor = participant_rep.completed_as_vendor + 1;
    participant_rep.touch(now);
    Ok(())
}

/// Why a cancellation by `caller` would be refused, checked in this order.
pub open spec fn cancellation_error(c: Contract, caller: Identity) -> Option<ErrorCode> {
    if c.status != ContractStatus::Active {
        Some(ErrorCode::ContractNotActive)
    } else if c.creator != caller {
        Some(ErrorCode::OnlyCreatorCanCancel)
    } else {
        None
    }
}

/// Cancels an active contract on its creator's request, and counts a
/// cancellation as vendor of the creator.
pub fn cancel_contract(
    contract: &mut Contract,
    creator_rep: &mut UserReputation,
    creator: Identity,
    now: i64,
) -> (r: Result<(), ErrorCode>)
    requires
        old(contract).wf(),
        old(creator_rep).wf(),
        old(creator_rep).wallet == creator,
        old(creator_rep).cancelled_as_vendor < u32::MAX,
    ensures
        r == outcome(cancellation_error(*old(contract), creator)),
        r is Ok ==> {
            &&& Contract::same_terms(*old(contract), *final(contract))
            &&& final(contract).status == ContractStatus::Cancelled
            &&& final(contract).approvers@ == old(contract).approvers@
            &&& final(contract).current_approvals == old(contract).current_approvals
            &&& final(contract).ipfs_hash@ == old(contract).ipfs_hash@
            &&& *final(creator_rep) == (UserReputation {
                cancelled_as_vendor: (old(creator_rep).cancelled_as_vendor + 1) as u32,
                ..touched(*old(creator_rep), now)
            })
        },
        r is Err ==> Contract::same(*old(contract), *final(contract)) && *final(creator_rep)
            == *old(creator_rep),
        final(contract).wf(),
        Contract::step(*old(contract), *final(contract)),
        final(creator_rep).wf(),
{
    proof {
        assert(old(contract).approvers@.subrange(0, old(contract).approvers@.len() as int)
            =~= old(contract).approvers@);
    }
    if contract.status != ContractStatus::Active {
        return Err(ErrorCode::ContractNotActive);
    }
    if contract.creator != creator {
        return Err(ErrorCode::OnlyCreatorCanCancel);
    }
    contract.status = ContractStatus::Cancelled;
    creator_rep.cancelled_as_vendor = creator_rep.cancelled_as_vendor + 1;
    creator_rep.touch(now);
    Ok(())
}

/// Why a reference update by `updater` would be refused, checked in this order.
pub open spec fn update_error(c: Contract, updater: Identity, hash: Seq<char>) -> Option<ErrorCode> {
    if byte_len(hash) > MAX_REFERENCE_BYTES {
        Some(ErrorCode::IpfsHashTooLong)
    } else if !c.participants@.contains(updater) {
        Some(ErrorCode::NotAParticipant)
    } else {
        None
    }
}

/// Replaces the content reference of a contract on the request of any of its
/// participants, whatever the contract's status.
pub fn update_contract_ipfs(contract: &mut Contract, updater: Identity, ipfs_hash: String) -> (r:
    Result<(), ErrorCode>)
    requires
        old(contract).wf(),
    ensures
        r == outcome(update_error(*old(contract), updater, ipfs_hash@)),
        r is Ok ==> {
            &&& Contract::same_terms(*old(contract), *final(contract))
            &&& final(contract).status == old(contract).status
            &&& final(contract).approvers@ == old(contract).approvers@
            &&& final(contract).current_approvals == old(contract).current_approvals
            &&& final(contract).ipfs_hash@ == ipfs_hash@
        },
        r is Err ==> Contract::same(*old(contract), *final(contract)),
        final(contract).wf(),
        Contract::step(*old(contract), *final(contract)),
{
    proof {
        assert(old(contract).approvers@.subrange(0, old(contract).approvers@.len() as int)
            =~= old(contract).approvers@);
    }
    if ipfs_hash.as_str().as_bytes().len() > MAX_REFERENCE_BYTES {
        return Err(ErrorCode::IpfsHashTooLong);
    }
    if !contains_identity(&contract.participants, updater) {
        return Err(ErrorCode::NotAParticipant);
    }
    contract.ipfs_hash = ipfs_hash;
    Ok(())
}

} // verus!
