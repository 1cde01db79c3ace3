//! The settings shared by every pool: which asset pools hold.
use vstd::prelude::*;

use crate::identity::Identity;

verus! {

/// Settings shared by all pools.
#[derive(Clone, Copy, Debug, PartialEq, Eq, Structural)]
pub struct GeneralParameter {
    pub authority: Identity,
    pub token_mint: Identity,
    pub min_percentage_amount_to_transfer: u8,
    pub admin_wallet: Identity,
    pub version: u8,
}

/// The settings made by `authority`, for pools of the asset `token_mint`.
pub fn initialize(authority: Identity, token_mint: Identity) -> (r: GeneralParameter)
    ensures
        r == (GeneralParameter {
            authority,
            token_mint,
            min_percentage_amount_to_transfer: 0,
            admin_wallet: Identity::spec_zero(),
            version: 0,
        }),
{
    GeneralParameter {
        authority,
        token_mint,
        min_percentage_amount_to_transfer: 0,
        admin_wallet: Identity::zero(),
        version: 0,
    }
}

/// Makes `token_mint` the asset of the pools.
pub fn change_mint(parameters: &mut GeneralParameter, token_mint: Identity)
    ensures
        *final(parameters) == (GeneralParameter { token_mint, ..*old(parameters) }),
{
    parameters.token_mint = token_mint;
}

} // verus!
