//! Transfer records: a one-off payment out of a pool, approved by the
//! pool's signatories one signature at a time.
use vstd::prelude::*;

use crate::identity::Identity;
use crate::signatory::keys;
use crate::state::ProjectParameter;
use crate::treasury::PoolTransfer;

verus! {

/// Why a signature on a transfer record was refused. A refused signature
/// leaves the record unchanged.
#[derive(Clone, Copy, Debug, PartialEq, Eq, Structural)]
pub enum ErrorCode {
    /// The caller is not a signatory of the pool.
    InvalidSigner,
    /// The record is closed: its transfer has been made.
    NoProposalCreated,
    /// The caller has already signed the record.
    RepeatedSignature,
    /// The withdrawal wallet is not the record's receiver.
    InvalidReciever,
}

/// A request to pay `amount` to `receiver`, with the identities that have
/// signed it so far.
#[derive(Debug)]
pub struct TransferParameter {
    pub authority: Identity,
    pub amount: u32,
    pub signers: Vec<Identity>,
    pub receiver: Identity,
    pub state: bool,
    pub description: String,
}

/// What a [`TransferParameter`] holds, as plain values.
pub struct TransferRecord {
    pub authority: Identity,
    pub amount: u32,
    pub signers: Seq<Identity>,
    pub receiver: Identity,
    pub state: bool,
    pub description: Seq<char>,
}

impl View for TransferParameter {
    type V = TransferRecord;

    open spec fn view(&self) -> TransferRecord {
        TransferRecord {
            authority: self.authority,
            amount: self.amount,
            signers: self.signers@,
            receiver: self.receiver,
            state: self.state,
            description: self.description@,
        }
    }
}

/// `signer` signs the record, naming `wallet` as the wallet to pay, for a
/// pool with signatories `members` and threshold `threshold`. The signature
/// that brings the count to the threshold closes the record and releases the
/// payment, if `wallet` is the record's receiver.
pub open spec fn sign_record_step(
    rec: TransferRecord,
    members: Seq<crate::signatory::Signature>,
    threshold: u32,
    signer: Identity,
    wallet: Identity,
) -> Result<(TransferRecord, Option<PoolTransfer>), ErrorCode> {
    if !keys(members).contains(signer) {
        Err(ErrorCode::InvalidSigner)
    } else if rec.state {
        Err(ErrorCode::NoProposalCreated)
    } else if rec.signers.contains(signer) {
        Err(ErrorCode::RepeatedSignature)
    } else if rec.signers.len() + 1 < threshold {
        Ok((TransferRecord { signers: rec.signers.push(signer), ..rec }, None))
    } else if rec.receiver != wallet {
        Err(ErrorCode::InvalidReciever)
    } else {
        Ok(
            (
                TransferRecord { signers: rec.signers.push(signer), state: true, ..rec },
                Some(PoolTransfer { amount: rec.amount, receiver: wallet }),
            ),
        )
    }
}

/// A new, unsigned record by `authority` to pay `amount` to `receiver`.
pub fn initialize(authority: Identity, amount: u32, receiver: Identity, description: String) -> (r:
    TransferParameter)
    ensures
        r@ == (TransferRecord {
            authority,
            amount,
            signers: seq![],
            receiver,
            state: false,
            description: description@,
        }),
{
    TransferParameter { authority, amount, signers: Vec::new(), receiver, state: false, description }
}

/// Closes the record without a payment.
pub fn update_state(parameters: &mut TransferParameter)
    ensures
        final(parameters)@ == (TransferRecord { state: true, ..old(parameters)@ }),
{
    parameters.state = true;
}

/// `signer` signs the record for the pool `project`, naming
/// `wallet_to_withdraw_from` as the wallet to pay; the payment it releases,
/// if any, is for the caller to make.
pub fn sign_transfer(
    parameters: &mut TransferParameter,
    project: &ProjectParameter,
    signer: Identity,
    wallet_to_withdraw_from: Identity,
) -> (r: Result<Option<PoolTransfer>, ErrorCode>)
    ensures
        match sign_record_step(
            old(parameters)@,
            project@.signatories,
            project.threshold,
            signer,
            wallet_to_withdraw_from,
        ) {
            Ok((t, x)) => r == Ok::<Option<PoolTransfer>, ErrorCode>(x) && final(parameters)@ == t,
            Err(e) => r == Err::<Option<PoolTransfer>, ErrorCode>(e) && final(parameters)@ == old(
                parameters,
            )@,
        },
{
    if project.get_index(signer) == usize::MAX {
        return Err(ErrorCode::InvalidSigner);
    }
    let ghost start = parameters@;
    if parameters.state {
        return Err(ErrorCode::NoProposalCreated);
    }
    let mut i: usize = 0;
    while i < parameters.signers.len()
        invariant
            i <= parameters.signers@.len(),
            forall|j: int| 0 <= j < i ==> parameters.signers@[j] != signer,
            parameters@ == start,
            parameters@ == old(parameters)@,
            !start.state,
            keys(project@.signatories).contains(signer),
        decreases parameters.signers.len() - i,
    {
        if parameters.signers[i] == signer {
            assert(parameters.signers@[i as int] == signer);
            return Err(ErrorCode::RepeatedSignature);
        }
        i = i + 1;
    }
    assert(!parameters.signers@.contains(signer));
    let reached = project.threshold == 0 || parameters.signers.len() >= (project.threshold - 1) as usize;
    if !reached {
        parameters.signers.push(signer);
        return Ok(None);
    }
    if !(parameters.receiver == wallet_to_withdraw_from) {
        return Err(ErrorCode::InvalidReciever);
    }
    parameters.signers.push(signer);
    parameters.state = true;
    Ok(Some(PoolTransfer { amount: parameters.amount, receiver: wallet_to_withdraw_from }))
}

} // verus!
