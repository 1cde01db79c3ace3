use multisig_pool::error::ErrorCode;
use multisig_pool::general;
use multisig_pool::project::{
    add_initial_signatories, add_new_signatory_proposal, change_threshold_proposal,
    change_time_limit_proposal, fall_back, initialize, remove_signatory_proposal, sign_proposal,
    sign_transfer, transfer_amount_proposal,
};
use multisig_pool::signatory::ProposalKind;
use multisig_pool::state::ProjectParameter;
use multisig_pool::treasury::PoolTransfer;
use multisig_pool::Identity;

const DAY: i64 = 86400;
const START: i64 = 1_700_000_000;

fn id(n: u64) -> Identity {
    Identity::new(n, 0, 0, 0)
}

fn keys(p: &ProjectParameter) -> Vec<Identity> {
    p.signatories.iter().map(|s| s.key).collect()
}

/// A pool with members S1, S2, S3, the given threshold and a one-hour time limit.
fn three_member_pool(threshold: u32) -> ProjectParameter {
    let mut p = initialize(id(100), id(1), 5, START);
    add_initial_signatories(&mut p, id(1), vec![id(2), id(3)], threshold, 3600, START).unwrap();
    p
}

#[test]
fn initialize_makes_creator_sole_signatory() {
    let p = initialize(id(100), id(1), 5, START);
    assert_eq!(p.authority, id(100));
    assert_eq!(keys(&p), vec![id(1)]);
    assert_eq!(p.threshold, 1);
    assert_eq!(p.approval, 1);
    assert_eq!(p.last_tx, START);
    assert!(!p.add.status && !p.delete.status && !p.transfer_amount.status);
}

#[test]
fn add_initial_signatories_sets_members_and_threshold() {
    let p = three_member_pool(2);
    assert_eq!(keys(&p), vec![id(1), id(2), id(3)]);
    assert_eq!(p.threshold, 2);
    assert_eq!(p.approval, 2);
    assert_eq!(p.time_limit, 3600);
}

#[test]
fn add_initial_signatories_rejects_duplicates() {
    let mut p = initialize(id(100), id(1), 5, START);
    assert_eq!(
        add_initial_signatories(&mut p, id(1), vec![id(2), id(1), id(3)], 2, 60, START),
        Err(ErrorCode::DuplicateSignatory)
    );
    assert_eq!(
        add_initial_signatories(&mut p, id(1), vec![id(2), id(3), id(2)], 2, 60, START),
        Err(ErrorCode::DuplicateSignatory)
    );
    assert_eq!(keys(&p), vec![id(1)]);
    assert_eq!(p.threshold, 1);
    assert_eq!(p.time_limit, 0);
}

#[test]
fn add_initial_signatories_rejects_other_callers() {
    let mut p = initialize(id(100), id(1), 5, START);
    let r = add_initial_signatories(&mut p, id(2), vec![id(3)], 1, 60, START);
    assert_eq!(r, Err(ErrorCode::InvalidSigner));
    assert_eq!(keys(&p), vec![id(1)]);
}

#[test]
fn add_initial_signatories_rejects_bad_threshold() {
    let mut p = initialize(id(100), id(1), 5, START);
    assert_eq!(
        add_initial_signatories(&mut p, id(1), vec![id(2)], 3, 60, START),
        Err(ErrorCode::InvalidThreshold)
    );
    assert_eq!(
        add_initial_signatories(&mut p, id(1), vec![id(2)], 0, 60, START),
        Err(ErrorCode::InvalidThreshold)
    );
    assert_eq!(keys(&p), vec![id(1)]);
    assert_eq!(p.threshold, 1);
}

#[test]
fn remove_signatory_with_threshold_two() {
    let mut p = three_member_pool(2);
    remove_signatory_proposal(&mut p, id(3), START + 10).unwrap();
    sign_proposal(&mut p, id(1), ProposalKind::Delete, START + 20).unwrap();
    assert_eq!(p.delete.votes, 1);
    assert!(p.delete.status);
    assert_eq!(keys(&p), vec![id(1), id(2), id(3)]);
    sign_proposal(&mut p, id(2), ProposalKind::Delete, START + 30).unwrap();
    assert_eq!(keys(&p), vec![id(1), id(2)]);
    assert_eq!(p.threshold, 2);
    assert!(!p.delete.status);
    assert_eq!(p.delete.votes, 0);
    assert!(p.signatories.iter().all(|s| !s.delete));
    assert_eq!(p.last_tx, START + 30);
}

#[test]
fn removal_clamps_threshold_to_membership() {
    let mut p = three_member_pool(3);
    remove_signatory_proposal(&mut p, id(2), START).unwrap();
    for n in 1..=3 {
        sign_proposal(&mut p, id(n), ProposalKind::Delete, START + 1).unwrap();
    }
    assert_eq!(keys(&p), vec![id(1), id(3)]);
    assert_eq!(p.threshold, 2);
    assert_eq!(p.approval, 3);
}

#[test]
fn removal_withdraws_the_removed_members_other_votes() {
    let mut p = three_member_pool(3);
    transfer_amount_proposal(&mut p, 10, id(50), START).unwrap();
    sign_transfer(&mut p, id(3), id(50)).unwrap();
    assert_eq!(p.transfer_amount.votes, 1);
    remove_signatory_proposal(&mut p, id(3), START).unwrap();
    for n in 1..=3 {
        sign_proposal(&mut p, id(n), ProposalKind::Delete, START + 1).unwrap();
    }
    assert_eq!(keys(&p), vec![id(1), id(2)]);
    assert_eq!(p.transfer_amount.votes, 0);
}

#[test]
fn removing_the_last_member_is_refused() {
    let mut p = initialize(id(100), id(1), 5, START);
    remove_signatory_proposal(&mut p, id(1), START).unwrap();
    let r = sign_proposal(&mut p, id(1), ProposalKind::Delete, START);
    assert_eq!(r, Err(ErrorCode::MinimumThresholdReached));
    assert_eq!(keys(&p), vec![id(1)]);
    assert!(p.delete.status);
    assert_eq!(p.delete.votes, 0);
}

#[test]
fn remove_proposal_for_unknown_member_fails() {
    let mut p = three_member_pool(2);
    let r = remove_signatory_proposal(&mut p, id(9), START);
    assert_eq!(r, Err(ErrorCode::SignatoryNotFound));
    assert!(!p.delete.status);
}

#[test]
fn quorum_executes_exactly_at_threshold() {
    let mut p = three_member_pool(3);
    add_new_signatory_proposal(&mut p, vec![id(4), id(5)], START).unwrap();
    sign_proposal(&mut p, id(1), ProposalKind::Add, START).unwrap();
    sign_proposal(&mut p, id(3), ProposalKind::Add, START).unwrap();
    assert!(p.add.status);
    assert_eq!(p.add.votes, 2);
    assert_eq!(keys(&p).len(), 3);
    sign_proposal(&mut p, id(2), ProposalKind::Add, START + 5).unwrap();
    assert!(!p.add.status);
    assert_eq!(p.add.votes, 0);
    assert!(p.add.new_signatory.is_empty());
    assert_eq!(keys(&p), vec![id(1), id(2), id(3), id(4), id(5)]);
    assert!(p.signatories.iter().all(|s| !s.add));
    assert_eq!(p.last_tx, START + 5);
}

#[test]
fn proposing_to_add_a_member_or_a_repeat_is_refused() {
    let mut p = three_member_pool(1);
    assert_eq!(
        add_new_signatory_proposal(&mut p, vec![id(2), id(4)], START),
        Err(ErrorCode::DuplicateSignatory)
    );
    assert_eq!(
        add_new_signatory_proposal(&mut p, vec![id(4), id(4)], START),
        Err(ErrorCode::DuplicateSignatory)
    );
    assert!(!p.add.status);
}

#[test]
fn add_whose_identity_joined_meanwhile_is_refused_at_quorum() {
    let mut p = three_member_pool(2);
    add_new_signatory_proposal(&mut p, vec![id(4), id(5)], START).unwrap();
    sign_proposal(&mut p, id(1), ProposalKind::Add, START).unwrap();
    add_initial_signatories(&mut p, id(1), vec![id(4)], 2, 3600, START).unwrap();
    let r = sign_proposal(&mut p, id(2), ProposalKind::Add, START + 1);
    assert_eq!(r, Err(ErrorCode::DuplicateSignatory));
    assert!(p.add.status);
    assert_eq!(p.add.votes, 1);
    assert!(!p.signatories[1].add);
    assert_eq!(keys(&p), vec![id(1), id(2), id(3), id(4)]);
}

#[test]
fn second_vote_by_same_identity_is_repeated() {
    let mut p = three_member_pool(2);
    change_time_limit_proposal(&mut p, 7200, START).unwrap();
    sign_proposal(&mut p, id(2), ProposalKind::ChangeTimeLimit, START).unwrap();
    let r = sign_proposal(&mut p, id(2), ProposalKind::ChangeTimeLimit, START + 1);
    assert_eq!(r, Err(ErrorCode::RepeatedSignature));
    assert_eq!(p.change_time_limit.votes, 1);
}

#[test]
fn second_transfer_vote_by_same_identity_is_repeated() {
    let mut p = three_member_pool(3);
    transfer_amount_proposal(&mut p, 10, id(50), START).unwrap();
    sign_transfer(&mut p, id(1), id(50)).unwrap();
    assert_eq!(sign_transfer(&mut p, id(1), id(50)), Err(ErrorCode::RepeatedSignature));
    assert_eq!(p.transfer_amount.votes, 1);
}

#[test]
fn vote_by_non_member_is_invalid_signer() {
    let mut p = three_member_pool(2);
    change_time_limit_proposal(&mut p, 7200, START).unwrap();
    let r = sign_proposal(&mut p, id(9), ProposalKind::ChangeTimeLimit, START);
    assert_eq!(r, Err(ErrorCode::InvalidSigner));
}

#[test]
fn vote_without_proposal_fails() {
    let mut p = three_member_pool(2);
    let r = sign_proposal(&mut p, id(1), ProposalKind::ChangeThreshold, START);
    assert_eq!(r, Err(ErrorCode::NoProposalCreated));
    assert_eq!(sign_transfer(&mut p, id(1), id(50)), Err(ErrorCode::NoProposalCreated));
}

#[test]
fn proposal_within_time_limit_is_in_progress() {
    let mut p = three_member_pool(2);
    add_new_signatory_proposal(&mut p, vec![id(4)], START).unwrap();
    let r = add_new_signatory_proposal(&mut p, vec![id(5)], START + 3600);
    assert_eq!(r, Err(ErrorCode::ProposalInProgress));
    assert_eq!(p.add.new_signatory, vec![id(4)]);
}

#[test]
fn stale_proposal_is_superseded_and_votes_cleared() {
    let mut p = three_member_pool(3);
    add_new_signatory_proposal(&mut p, vec![id(4)], START).unwrap();
    sign_proposal(&mut p, id(1), ProposalKind::Add, START).unwrap();
    assert!(p.signatories[0].add);
    add_new_signatory_proposal(&mut p, vec![id(5)], START + 3601).unwrap();
    assert!(p.add.status);
    assert_eq!(p.add.votes, 0);
    assert_eq!(p.add.timestamp, START + 3601);
    assert_eq!(p.add.new_signatory, vec![id(5)]);
    assert!(p.signatories.iter().all(|s| !s.add));
}

#[test]
fn stale_transfer_proposal_is_superseded() {
    let mut p = three_member_pool(3);
    transfer_amount_proposal(&mut p, 10, id(50), START).unwrap();
    sign_transfer(&mut p, id(2), id(50)).unwrap();
    assert_eq!(
        transfer_amount_proposal(&mut p, 20, id(51), START + 100),
        Err(ErrorCode::ProposalInProgress)
    );
    transfer_amount_proposal(&mut p, 20, id(51), START + 4000).unwrap();
    assert_eq!(p.transfer_amount.amount, 20);
    assert_eq!(p.transfer_amount.reciever, id(51));
    assert_eq!(p.transfer_amount.votes, 0);
    assert!(p.signatories.iter().all(|s| !s.transfer_amount));
}

#[test]
fn change_time_limit_executes() {
    let mut p = three_member_pool(2);
    change_time_limit_proposal(&mut p, 7200, START).unwrap();
    sign_proposal(&mut p, id(1), ProposalKind::ChangeTimeLimit, START).unwrap();
    sign_proposal(&mut p, id(3), ProposalKind::ChangeTimeLimit, START + 9).unwrap();
    assert_eq!(p.time_limit, 7200);
    assert!(!p.change_time_limit.status);
    assert!(p.signatories.iter().all(|s| !s.change_time_limit));
    assert_eq!(p.last_tx, START + 9);
}

#[test]
fn change_threshold_executes_with_approval_quorum() {
    let mut p = three_member_pool(2);
    change_threshold_proposal(&mut p, 3, START + DAY).unwrap();
    assert_eq!(p.approval, 2);
    sign_proposal(&mut p, id(1), ProposalKind::ChangeThreshold, START + DAY).unwrap();
    assert_eq!(p.threshold, 2);
    sign_proposal(&mut p, id(2), ProposalKind::ChangeThreshold, START + DAY).unwrap();
    assert_eq!(p.threshold, 3);
    assert_eq!(p.approval, 3);
    assert!(!p.change_threshold.status);
}

#[test]
fn change_threshold_rejects_out_of_range_value() {
    let mut p = three_member_pool(2);
    assert_eq!(change_threshold_proposal(&mut p, 4, START), Err(ErrorCode::InvalidThreshold));
    assert_eq!(change_threshold_proposal(&mut p, 0, START), Err(ErrorCode::InvalidThreshold));
    assert!(!p.change_threshold.status);
}

#[test]
fn dormant_threshold_reduction_at_day_95() {
    let mut p = three_member_pool(3);
    let now = START + 95 * DAY;
    change_threshold_proposal(&mut p, 3, now).unwrap();
    assert_eq!(p.threshold, 2);
    assert_eq!(p.approval, 3);
    assert_eq!(p.last_reduced_threshold, now);
    assert!(!p.change_threshold.status);
}

#[test]
fn dormant_threshold_reduction_counts_months_and_floors_at_one() {
    let mut p = three_member_pool(3);
    change_threshold_proposal(&mut p, 3, START + 125 * DAY).unwrap();
    assert_eq!(p.threshold, 1);
    let mut q = three_member_pool(3);
    change_threshold_proposal(&mut q, 3, START + 400 * DAY).unwrap();
    assert_eq!(q.threshold, 1);
}

#[test]
fn low_threshold_transfer_is_refused() {
    let mut p = three_member_pool(3);
    assert_eq!(keys(&p).len(), 3);
    assert!(!p.shutdown);
    change_threshold_proposal(&mut p, 3, START + 150 * DAY).unwrap();
    assert_eq!(p.threshold, 1);
    transfer_amount_proposal(&mut p, 500, id(50), START + 150 * DAY).unwrap();
    let r = sign_transfer(&mut p, id(1), id(50));
    assert_eq!(r, Err(ErrorCode::CannotTransferDueToLowThreshold));
    assert!(p.transfer_amount.status);
    assert_eq!(p.transfer_amount.votes, 0);
}

#[test]
fn transfer_is_released_at_threshold() {
    let mut p = three_member_pool(2);
    transfer_amount_proposal(&mut p, 500, id(50), START).unwrap();
    assert_eq!(sign_transfer(&mut p, id(1), id(50)), Ok(None));
    let r = sign_transfer(&mut p, id(3), id(50));
    assert_eq!(r, Ok(Some(PoolTransfer { amount: 500, receiver: id(50) })));
    assert!(!p.transfer_amount.status);
    assert_eq!(p.transfer_amount.amount, 0);
    assert!(p.signatories.iter().all(|s| !s.transfer_amount));
}

#[test]
fn transfer_to_wrong_wallet_is_invalid_receiver() {
    let mut p = three_member_pool(2);
    transfer_amount_proposal(&mut p, 500, id(50), START).unwrap();
    sign_transfer(&mut p, id(1), id(50)).unwrap();
    let r = sign_transfer(&mut p, id(2), id(51));
    assert_eq!(r, Err(ErrorCode::InvalidReciever));
    assert!(p.transfer_amount.status);
    assert_eq!(p.transfer_amount.votes, 1);
}

#[test]
fn dormant_single_key_pool_may_transfer() {
    let mut p = three_member_pool(2);
    fall_back(&mut p, START + 90 * DAY).unwrap();
    assert!(p.shutdown);
    assert_eq!(p.threshold, 1);
    transfer_amount_proposal(&mut p, 7, id(50), START + 90 * DAY).unwrap();
    let r = sign_transfer(&mut p, id(2), id(50));
    assert_eq!(r, Ok(Some(PoolTransfer { amount: 7, receiver: id(50) })));
}

#[test]
fn fall_back_before_ninety_days_cannot_activate() {
    let mut p = three_member_pool(3);
    let r = fall_back(&mut p, START + 89 * DAY);
    assert_eq!(r, Err(ErrorCode::ShutDownCannotBeActivated));
    assert!(!p.shutdown);
    assert_eq!(p.threshold, 3);
}

#[test]
fn fall_back_steps_down_every_thirty_days() {
    let mut p = three_member_pool(3);
    let first = START + 90 * DAY;
    fall_back(&mut p, first).unwrap();
    assert!(p.shutdown);
    assert_eq!(p.threshold, 2);
    assert_eq!(p.approval, 3);
    assert_eq!(p.last_reduced_threshold, first);
    assert_eq!(fall_back(&mut p, first + 29 * DAY), Err(ErrorCode::MinimumTimeNotPassed));
    fall_back(&mut p, first + 30 * DAY).unwrap();
    assert_eq!(p.threshold, 1);
    assert_eq!(fall_back(&mut p, first + 90 * DAY), Err(ErrorCode::MinimumThresholdReached));
    assert_eq!(p.threshold, 1);
}

#[test]
fn fall_back_at_threshold_one_is_refused_and_not_dormant() {
    let mut p = initialize(id(100), id(1), 5, START);
    let r = fall_back(&mut p, START + 100 * DAY);
    assert_eq!(r, Err(ErrorCode::MinimumThresholdReached));
    assert!(!p.shutdown);
}

#[test]
fn approval_floor_reduction_needs_a_month_and_opens_proposal() {
    let mut p = three_member_pool(3);
    p.approval = 2;
    p.last_reduced_threshold = START + 100 * DAY;
    assert_eq!(
        change_threshold_proposal(&mut p, 2, START + 110 * DAY),
        Err(ErrorCode::MinimumTimeNotPassed)
    );
    change_threshold_proposal(&mut p, 2, START + 161 * DAY).unwrap();
    assert_eq!(p.approval, 1);
    assert_eq!(p.threshold, 3);
    assert!(p.change_threshold.status);
    assert_eq!(p.change_threshold.new_threshold, 2);
    assert_eq!(p.last_reduced_threshold, START + 161 * DAY);
}

#[test]
fn general_parameters_hold_the_mint() {
    let mut g = general::initialize(id(100), id(7));
    assert_eq!(g.token_mint, id(7));
    general::change_mint(&mut g, id(8));
    assert_eq!(g.token_mint, id(8));
    assert_eq!(g.authority, id(100));
}

#[test]
fn well_formedness_check_catches_inconsistent_records() {
    let p = three_member_pool(2);
    assert!(p.is_well_formed());
    let mut zero = three_member_pool(2);
    zero.threshold = 0;
    assert!(!zero.is_well_formed());
    let mut high = three_member_pool(2);
    high.threshold = 4;
    assert!(!high.is_well_formed());
    let mut dup = three_member_pool(2);
    dup.signatories[2].key = id(1);
    assert!(!dup.is_well_formed());
    let mut miscount = three_member_pool(2);
    miscount.add.status = true;
    miscount.add.votes = 1;
    assert!(!miscount.is_well_formed());
    let mut stray = three_member_pool(2);
    stray.signatories[0].transfer_amount = true;
    assert!(!stray.is_well_formed());
    let mut floor = three_member_pool(2);
    floor.approval = 0;
    assert!(!floor.is_well_formed());
}

#[test]
fn fall_back_leaves_everything_else_alone() {
    let mut p = three_member_pool(3);
    change_time_limit_proposal(&mut p, 7200, START).unwrap();
    sign_proposal(&mut p, id(1), ProposalKind::ChangeTimeLimit, START).unwrap();
    let now = START + 90 * DAY;
    fall_back(&mut p, now).unwrap();
    assert!(p.shutdown);
    assert_eq!(p.threshold, 2);
    assert_eq!(p.last_reduced_threshold, now);
    assert_eq!(p.approval, 3);
    assert_eq!(p.last_tx, START);
    assert_eq!(p.time_limit, 3600);
    assert_eq!(keys(&p), vec![id(1), id(2), id(3)]);
    assert!(p.change_time_limit.status);
    assert_eq!(p.change_time_limit.votes, 1);
    assert!(p.signatories[0].change_time_limit);
    assert!(p.is_well_formed());
}

#[test]
fn floor_above_threshold_counts_as_reduction_under_way() {
    let mut p = three_member_pool(3);
    fall_back(&mut p, START + 90 * DAY).unwrap();
    assert_eq!((p.threshold, p.approval), (2, 3));
    assert_eq!(
        change_threshold_proposal(&mut p, 2, START + 100 * DAY),
        Err(ErrorCode::MinimumTimeNotPassed)
    );
    change_threshold_proposal(&mut p, 2, START + 125 * DAY).unwrap();
    assert_eq!(p.threshold, 2);
    assert_eq!(p.approval, 2);
    assert_eq!(p.last_reduced_threshold, START + 125 * DAY);
    assert!(p.change_threshold.status);
    assert_eq!(p.change_threshold.new_threshold, 2);
}

#[test]
fn direct_reduction_is_not_repeated_at_once() {
    let mut p = three_member_pool(3);
    let now = START + 95 * DAY;
    change_threshold_proposal(&mut p, 3, now).unwrap();
    assert_eq!(p.threshold, 2);
    assert_eq!(
        change_threshold_proposal(&mut p, 3, now),
        Err(ErrorCode::MinimumTimeNotPassed)
    );
    assert_eq!(p.threshold, 2);
}

#[test]
fn removal_leaves_approval_floor_alone() {
    let mut p = three_member_pool(3);
    remove_signatory_proposal(&mut p, id(3), START).unwrap();
    for n in 1..=3 {
        sign_proposal(&mut p, id(n), ProposalKind::Delete, START).unwrap();
    }
    assert_eq!(p.threshold, 2);
    assert_eq!(p.approval, 3);
    assert!(p.is_well_formed());
}
