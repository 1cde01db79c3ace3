use multisig_pool::error::ErrorCode;
use multisig_pool::general;
use multisig_pool::project::{deposit_funds, initialize};
use multisig_pool::transfer;
use multisig_pool::treasury::{split_deposit, DepositSplit, PoolTransfer};
use multisig_pool::Identity;

fn id(n: u64) -> Identity {
    Identity::new(n, 0, 0, 0)
}

#[test]
fn split_deposit_exact_values() {
    assert_eq!(split_deposit(1000, 5), DepositSplit { pool_share: 950, fee_share: 50 });
    assert_eq!(split_deposit(999, 3), DepositSplit { pool_share: 969, fee_share: 30 });
    assert_eq!(split_deposit(7, 0), DepositSplit { pool_share: 7, fee_share: 0 });
    assert_eq!(split_deposit(7, 100), DepositSplit { pool_share: 0, fee_share: 7 });
}

#[test]
fn split_deposit_largest_amount_does_not_overflow() {
    let d = split_deposit(u32::MAX, 1);
    assert_eq!(d.pool_share as u64, (u32::MAX as u64) * 99 / 100);
    assert_eq!(d.pool_share as u64 + d.fee_share as u64, u32::MAX as u64);
}

#[test]
fn split_deposit_shares_sum_to_amount() {
    for amount in [0u32, 1, 99, 101, 12345, 4_000_000_000] {
        for f in [0u8, 1, 33, 50, 99, 100] {
            let d = split_deposit(amount, f);
            assert_eq!(d.pool_share as u64, amount as u64 * (100 - f as u64) / 100);
            assert_eq!(d.pool_share as u64 + d.fee_share as u64, amount as u64);
        }
    }
}

#[test]
fn deposit_stakes_pool_share() {
    let g = general::initialize(id(100), id(7));
    let mut p = initialize(id(100), id(1), 5, 0);
    let d = deposit_funds(&mut p, &g, id(7), 1000).unwrap();
    assert_eq!(d, DepositSplit { pool_share: 950, fee_share: 50 });
    assert_eq!(p.staked_amount, 950);
    deposit_funds(&mut p, &g, id(7), 20).unwrap();
    assert_eq!(p.staked_amount, 969);
}

#[test]
fn deposit_of_other_asset_is_refused() {
    let g = general::initialize(id(100), id(7));
    let mut p = initialize(id(100), id(1), 5, 0);
    assert_eq!(deposit_funds(&mut p, &g, id(8), 1000), Err(ErrorCode::MintMismatch));
    assert_eq!(p.staked_amount, 0);
}

#[test]
fn deposit_that_overflows_stake_is_refused() {
    let g = general::initialize(id(100), id(7));
    let mut p = initialize(id(100), id(1), 0, 0);
    deposit_funds(&mut p, &g, id(7), u32::MAX).unwrap();
    assert_eq!(deposit_funds(&mut p, &g, id(7), 1), Err(ErrorCode::StakeOverflow));
    assert_eq!(p.staked_amount, u32::MAX);
}

fn pool_of_three() -> multisig_pool::state::ProjectParameter {
    let mut p = initialize(id(100), id(1), 5, 0);
    multisig_pool::project::add_initial_signatories(&mut p, id(1), vec![id(2), id(3)], 2, 60, 0)
        .unwrap();
    p
}

#[test]
fn transfer_record_releases_payment_at_threshold() {
    let p = pool_of_three();
    let mut rec = transfer::initialize(id(100), 40, id(50), String::from("grant"));
    assert_eq!(transfer::sign_transfer(&mut rec, &p, id(1), id(50)), Ok(None));
    assert_eq!(rec.signers, vec![id(1)]);
    let r = transfer::sign_transfer(&mut rec, &p, id(2), id(50));
    assert_eq!(r, Ok(Some(PoolTransfer { amount: 40, receiver: id(50) })));
    assert!(rec.state);
    assert_eq!(
        transfer::sign_transfer(&mut rec, &p, id(3), id(50)),
        Err(transfer::ErrorCode::NoProposalCreated)
    );
}

#[test]
fn transfer_record_refusals() {
    let p = pool_of_three();
    let mut rec = transfer::initialize(id(100), 40, id(50), String::new());
    assert_eq!(
        transfer::sign_transfer(&mut rec, &p, id(9), id(50)),
        Err(transfer::ErrorCode::InvalidSigner)
    );
    transfer::sign_transfer(&mut rec, &p, id(1), id(50)).unwrap();
    assert_eq!(
        transfer::sign_transfer(&mut rec, &p, id(1), id(50)),
        Err(transfer::ErrorCode::RepeatedSignature)
    );
    assert_eq!(
        transfer::sign_transfer(&mut rec, &p, id(2), id(51)),
        Err(transfer::ErrorCode::InvalidReciever)
    );
    assert_eq!(rec.signers, vec![id(1)]);
    assert!(!rec.state);
}

#[test]
fn closed_transfer_record_takes_no_signatures() {
    let p = pool_of_three();
    let mut rec = transfer::initialize(id(100), 40, id(50), String::new());
    transfer::update_state(&mut rec);
    assert_eq!(
        transfer::sign_transfer(&mut rec, &p, id(1), id(50)),
        Err(transfer::ErrorCode::NoProposalCreated)
    );
}
