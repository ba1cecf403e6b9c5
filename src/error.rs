use vstd::prelude::*;

verus! {

/// The reason an operation was refused. A refused operation changes nothing.
#[derive(PartialEq, Eq, Structural, Clone, Copy, Debug)]
pub enum ErrorCode {
    TooManyParticipants,
    InvalidApprovalThreshold,
    CreatorMustBeParticipant,
    ContractNotActive,
    NotAParticipant,
    AlreadyApproved,
    OnlyCreatorCanCancel,
    ContractNotCompleted,
    ReputationAlreadyExists,
    DescriptionTooLong,
    OnlyCreatorCanInitializeEscrow,
    RecipientNotParticipant,
    InvalidAmount,
    MilestoneNotFunded,
    MilestoneNotMarkedComplete,
    AlreadyApprovedMilestone,
    InsufficientApprovals,
    OnlyCreatorCanCancelEscrow,
    CannotCancelMilestone,
    IpfsHashTooLong,
    InvalidRating,
    OnlyRecipientCanMarkComplete,
    /// The funding party's balance is smaller than the amount to escrow.
    InsufficientFunds,
    /// An identity is listed twice among a contract's participants.
    DuplicateParticipant,
    /// The contract record handed in is not the one the milestone belongs to.
    ContractMismatch,
    /// The account to be paid is not the milestone's recipient.
    RecipientMismatch,
}

} // verus!
