//! The arithmetic of the treasury: splitting deposits, and the transfers
//! that leave the pool.
use vstd::prelude::*;

use crate::identity::Identity;

verus! {

/// How a deposit is divided between the pool and the administrative wallet.
#[derive(Clone, Copy, Debug, PartialEq, Eq, Structural)]
pub struct DepositSplit {
    pub pool_share: u32,
    pub fee_share: u32,
}

/// A transfer out of the pool that a vote has authorised: `amount` tokens to
/// the wallet `receiver`, signed for by the pool itself.
#[derive(Clone, Copy, Debug, PartialEq, Eq, Structural)]
pub struct PoolTransfer {
    pub amount: u32,
    pub receiver: Identity,
}

/// The pool's part of a deposit of `amount` with a fee of `fee_percent`
/// percent: `amount * (100 - fee_percent) / 100`, rounded down.
pub open spec fn pool_share_of(amount: u32, fee_percent: u8) -> int {
    amount * (100 - fee_percent) / 100
}

/// The split of a deposit: the pool's part, and the rest as the fee.
pub open spec fn split_of(amount: u32, fee_percent: u8) -> DepositSplit {
    DepositSplit {
        pool_share: pool_share_of(amount, fee_percent) as u32,
        fee_share: (amount - pool_share_of(amount, fee_percent)) as u32,
    }
}

/// The pool's part never exceeds the deposit.
pub proof fn lemma_pool_share_bound(amount: u32, fee_percent: u8)
    requires
        fee_percent <= 100,
    ensures
        0 <= pool_share_of(amount, fee_percent) <= amount,
{
    assert(0 <= amount * (100 - fee_percent) <= amount * 100) by (nonlinear_arith)
        requires
            fee_percent <= 100,
    ;
}

/// Splits a deposit of `amount` with a fee of `fee_percent` percent.
pub fn split_deposit(amount: u32, fee_percent: u8) -> (r: DepositSplit)
    requires
        fee_percent <= 100,
    ensures
        r == split_of(amount, fee_percent),
        r.pool_share == amount as int * (100 - fee_percent) / 100,
        r.pool_share + r.fee_share == amount,
{
    proof {
        lemma_pool_share_bound(amount, fee_percent);
    }
    let scaled: u64 = (amount as u64) * ((100 - fee_percent) as u64);
    let pool: u64 = scaled / 100;
    let pool_share: u32 = pool as u32;
    DepositSplit { pool_share, fee_share: amount - pool_share }
}

} // verus!
