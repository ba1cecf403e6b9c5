use agreed_contracts::contract::{
    approve_contract, cancel_contract, initialize_contract, mark_contract_complete,
    update_contract_ipfs, Contract, ContractStatus,
};
use agreed_contracts::error::ErrorCode;
use agreed_contracts::identity::{all_distinct, all_within, contains_identity, Identity};
use agreed_contracts::reputation::{initialize_reputation, UserReputation};

fn id(n: u128) -> Identity {
    Identity::new(n, 0)
}

fn rep(n: u128) -> UserReputation {
    let mut slot = None;
    initialize_reputation(&mut slot, id(n), 0).unwrap();
    slot.unwrap()
}

fn abc_contract(required: u8, a_rep: &mut UserReputation) -> Contract {
    initialize_contract(a_rep, id(1), 42, vec![id(1), id(2), id(3)], required, 100).unwrap()
}

#[test]
fn create_contract_records_terms() {
    let mut a = rep(1);
    let c = abc_contract(2, &mut a);
    assert_eq!(c.contract_id, 42);
    assert_eq!(c.creator, id(1));
    assert_eq!(c.participants, vec![id(1), id(2), id(3)]);
    assert_eq!(c.status, ContractStatus::Active);
    assert_eq!(c.required_approvals, 2);
    assert_eq!(c.current_approvals, 0);
    assert!(c.approvers.is_empty());
    assert_eq!(c.ipfs_hash, "");
    assert_eq!(c.created_at, 100);
    assert_eq!(a.contracts_created, 1);
    assert_eq!(a.deals_as_vendor, 1);
    assert_eq!(a.last_activity, 100);
}

#[test]
fn create_contract_errors() {
    let mut a = rep(1);
    let eleven: Vec<Identity> = (1..=11).map(id).collect();
    assert_eq!(
        initialize_contract(&mut a, id(1), 1, eleven, 1, 5).unwrap_err(),
        ErrorCode::TooManyParticipants
    );
    assert_eq!(
        initialize_contract(&mut a, id(1), 1, vec![id(1), id(2)], 3, 5).unwrap_err(),
        ErrorCode::InvalidApprovalThreshold
    );
    assert_eq!(
        initialize_contract(&mut a, id(1), 1, vec![id(2), id(3)], 1, 5).unwrap_err(),
        ErrorCode::CreatorMustBeParticipant
    );
    assert_eq!(a, rep(1));
}

#[test]
fn create_contract_with_ten_participants() {
    let mut a = rep(1);
    let ten: Vec<Identity> = (1..=10).map(id).collect();
    let c = initialize_contract(&mut a, id(1), 1, ten, 10, 5).unwrap();
    assert_eq!(c.participants.len(), 10);
}

#[test]
fn two_of_three_approvals_complete() {
    let mut a = rep(1);
    let mut b = rep(2);
    let mut cr = rep(3);
    let mut c = abc_contract(2, &mut a);
    assert_eq!(approve_contract(&mut c, &mut b, id(2), 110), Ok(()));
    assert_eq!(c.status, ContractStatus::Active);
    assert_eq!(c.approvers, vec![id(2)]);
    assert_eq!(approve_contract(&mut c, &mut cr, id(3), 120), Ok(()));
    assert_eq!(c.approvers, vec![id(2), id(3)]);
    assert_eq!(c.current_approvals, 2);
    assert_eq!(c.status, ContractStatus::Completed);
    assert_eq!(b.contracts_approved, 1);
    assert_eq!(b.deals_as_client, 1);
    assert_eq!(cr.last_activity, 120);
}

#[test]
fn approve_errors() {
    let mut a = rep(1);
    let mut b = rep(2);
    let mut d = rep(4);
    let mut c = abc_contract(3, &mut a);
    assert_eq!(approve_contract(&mut c, &mut d, id(4), 1), Err(ErrorCode::NotAParticipant));
    approve_contract(&mut c, &mut b, id(2), 1).unwrap();
    let b_before = b;
    assert_eq!(approve_contract(&mut c, &mut b, id(2), 2), Err(ErrorCode::AlreadyApproved));
    assert_eq!(b, b_before);
    assert_eq!(c.approvers, vec![id(2)]);
    cancel_contract(&mut c, &mut a, id(1), 3).unwrap();
    assert_eq!(approve_contract(&mut c, &mut d, id(4), 4), Err(ErrorCode::ContractNotActive));
}

#[test]
fn zero_threshold_completes_on_first_approval() {
    let mut a = rep(1);
    let mut c = abc_contract(0, &mut a);
    assert_eq!(c.status, ContractStatus::Active);
    approve_contract(&mut c, &mut a, id(1), 5).unwrap();
    assert_eq!(c.status, ContractStatus::Completed);
}

#[test]
fn cancel_completed_contract_fails() {
    let mut a = rep(1);
    let mut b = rep(2);
    let mut c = abc_contract(1, &mut a);
    approve_contract(&mut c, &mut b, id(2), 5).unwrap();
    assert_eq!(c.status, ContractStatus::Completed);
    assert_eq!(cancel_contract(&mut c, &mut a, id(1), 6), Err(ErrorCode::ContractNotActive));
    assert_eq!(c.status, ContractStatus::Completed);
    assert_eq!(a.cancelled_as_vendor, 0);
}

#[test]
fn cancel_by_creator_only() {
    let mut a = rep(1);
    let mut b = rep(2);
    let mut c = abc_contract(2, &mut a);
    assert_eq!(cancel_contract(&mut c, &mut b, id(2), 6), Err(ErrorCode::OnlyCreatorCanCancel));
    assert_eq!(cancel_contract(&mut c, &mut a, id(1), 7), Ok(()));
    assert_eq!(c.status, ContractStatus::Cancelled);
    assert_eq!(a.cancelled_as_vendor, 1);
    assert_eq!(cancel_contract(&mut c, &mut a, id(1), 8), Err(ErrorCode::ContractNotActive));
}

#[test]
fn mark_contract_complete_credits_participant() {
    let mut a = rep(1);
    let mut b = rep(2);
    let mut c = abc_contract(1, &mut a);
    assert_eq!(mark_contract_complete(&c, &mut b, 3), Err(ErrorCode::ContractNotCompleted));
    approve_contract(&mut c, &mut b, id(2), 5).unwrap();
    assert_eq!(mark_contract_complete(&c, &mut b, 6), Ok(()));
    assert_eq!(b.contracts_completed, 1);
    assert_eq!(b.completed_as_vendor, 1);
}

#[test]
fn update_reference() {
    let mut a = rep(1);
    let mut c = abc_contract(2, &mut a);
    let hash = "QmYwAPJzv5CZsnA625s3Xf2nemtYgPpHdWEz79ojWnPbdG".to_string();
    assert_eq!(hash.len(), 46);
    assert_eq!(update_contract_ipfs(&mut c, id(2), hash.clone()), Ok(()));
    assert_eq!(c.ipfs_hash, hash);
    let long = "x".repeat(47);
    assert_eq!(update_contract_ipfs(&mut c, id(2), long), Err(ErrorCode::IpfsHashTooLong));
    assert_eq!(
        update_contract_ipfs(&mut c, id(9), "abc".to_string()),
        Err(ErrorCode::NotAParticipant)
    );
    assert_eq!(c.ipfs_hash, hash);
    // 16 characters of 3 bytes each: 48 bytes
    assert_eq!(
        update_contract_ipfs(&mut c, id(1), "€".repeat(16)),
        Err(ErrorCode::IpfsHashTooLong)
    );
}

#[test]
fn approvers_within_bounds() {
    let mut a = rep(1);
    let mut c = abc_contract(3, &mut a);
    for n in 1..=3u128 {
        let mut r = rep(n);
        approve_contract(&mut c, &mut r, id(n), 1).unwrap();
        assert!(c.approvers.len() <= c.required_approvals as usize);
        assert!(c.required_approvals as usize <= c.participants.len());
    }
    assert_eq!(c.status, ContractStatus::Completed);
}

#[test]
fn contains_identity_finds_members() {
    let v = vec![id(1), id(2)];
    assert!(contains_identity(&v, id(2)));
    assert!(!contains_identity(&v, id(3)));
    assert!(!contains_identity(&Vec::new(), id(1)));
}

#[test]
fn distinct_and_within() {
    assert!(all_distinct(&vec![id(1), id(2), id(3)]));
    assert!(!all_distinct(&vec![id(1), id(2), id(1)]));
    assert!(all_distinct(&Vec::new()));
    assert!(all_within(&vec![id(2)], &vec![id(1), id(2)]));
    assert!(!all_within(&vec![id(2), id(5)], &vec![id(1), id(2)]));
}

#[test]
fn duplicate_participants_refused() {
    let mut a = rep(1);
    assert_eq!(
        initialize_contract(&mut a, id(1), 1, vec![id(1), id(2), id(2)], 2, 5).unwrap_err(),
        ErrorCode::DuplicateParticipant
    );
    assert_eq!(a, rep(1));
}

#[test]
fn completion_credit_only_for_participants() {
    let mut a = rep(1);
    let mut b = rep(2);
    let mut c = abc_contract(1, &mut a);
    approve_contract(&mut c, &mut b, id(2), 5).unwrap();
    let mut outsider = rep(9);
    assert_eq!(mark_contract_complete(&c, &mut outsider, 6), Err(ErrorCode::NotAParticipant));
    assert_eq!(outsider, rep(9));
    assert_eq!(mark_contract_complete(&c, &mut a, 6), Ok(()));
    assert_eq!(a.contracts_completed, 1);
}
