use vstd::prelude::*;

verus! {

/// Errors returned by market creation and by the swap engine. Every failure
/// aborts the triggering call with no partial state change.
#[derive(Clone, Copy, Debug, PartialEq, Eq, Structural)]
pub enum AmmError {
    /// An input was rejected before any state was touched: a zero swap
    /// amount, an identical mint pair, or a nonzero initial base supply.
    ValidationError,
    /// A reserve cannot support the trade: a real reserve is empty, the
    /// payout exceeds the reserve it draws on, or the virtual curve cannot
    /// price the amount even after a reseed.
    NoReserves,
    /// An intermediate product or sum does not fit its integer width.
    Overflow,
    /// A computed amount does not fit the 64-bit result width.
    CastingOverflow,
    /// Committing the trade would decrease the real-reserve product.
    InvariantViolation,
    /// Buys are rejected once a market has left the `Active` mode.
    TradingDisabled,
    /// The realized output fell short of the caller's stated minimum.
    SlippageExceeded,
}

/// The arithmetic failures among the swap errors: overflow in either width,
/// and a reserve unable to support the trade's divisions or payout.
pub open spec fn is_arithmetic_error(e: AmmError) -> bool {
    e is NoReserves || e is Overflow || e is CastingOverflow
}

/// Tells whether an error belongs to the arithmetic class.
pub fn arithmetic_error(e: AmmError) -> (r: bool)
    ensures
        r == is_arithmetic_error(e),
{
    match e {
        AmmError::NoReserves => true,
        AmmError::Overflow => true,
        AmmError::CastingOverflow => true,
        _ => false,
    }
}

/// Errors returned by the proposal lifecycle around the decision point:
/// enqueueing a proposal and finalizing it.
#[derive(Clone, Copy, Debug, PartialEq, Eq, Structural)]
pub enum ProposalError {
    /// The observation period has not elapsed yet.
    TooEarly,
    /// The proposal has already been finalized.
    AlreadyFinalized,
    /// A market is too old to back a new proposal.
    AmmTooOld,
}

} // verus!
