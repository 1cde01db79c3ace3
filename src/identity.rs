//! Identities of signatories, wallets and mints.
use vstd::prelude::*;

verus! {

/// A 32-byte public key, held as four little-endian 64-bit words.
///
/// Identities are only ever compared for equality.
#[derive(Clone, Copy, Debug, PartialEq, Eq, Structural)]
pub struct Identity {
    pub w0: u64,
    pub w1: u64,
    pub w2: u64,
    pub w3: u64,
}

impl Identity {
    /// The identity made of the four given words.
    pub fn new(w0: u64, w1: u64, w2: u64, w3: u64) -> (r: Identity)
        ensures
            r == (Identity { w0, w1, w2, w3 }),
    {
        Identity { w0, w1, w2, w3 }
    }

    /// The all-zero key, which stands for "no identity" in an idle slot.
    pub open spec fn spec_zero() -> Identity {
        Identity { w0: 0, w1: 0, w2: 0, w3: 0 }
    }

    /// The all-zero key.
    pub fn zero() -> (r: Identity)
        ensures
            r == Identity::spec_zero(),
    {
        Identity { w0: 0, w1: 0, w2: 0, w3: 0 }
    }
}

} // verus!
