use vstd::prelude::*;

verus! {

/// A 32-byte account address, held as two 128-bit halves so that identity
/// checks are plain integer comparisons.
#[derive(Clone, Copy, Debug, PartialEq, Eq, Structural)]
pub struct Pubkey {
    /// The first sixteen bytes of the address.
    pub hi: u128,
    /// The last sixteen bytes of the address.
    pub lo: u128,
}

} // verus!
