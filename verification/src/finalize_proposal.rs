use vstd::prelude::*;

verus! {

use crate::amm::{instant_price, Amm, TradingMode};
use crate::errors::ProposalError;
use crate::proposal::{Proposal, ProposalState};

/// Basis points in one hundred percent.
pub const MAX_BPS: u64 = 10_000;

/// The decision parameters the governance entity fixes for its proposals.
#[derive(Clone, Copy, Debug, PartialEq, Eq, Structural)]
pub struct DecisionConfig {
    /// Basis points above the fail price the pass price must exceed for the
    /// proposal to pass.
    pub pass_threshold_bps: u32,
    /// Minimum age, in slots, a proposal must reach before finalization.
    pub observation_delay: u64,
}

/// A product of two 128-bit quantities, clamped at the width's maximum.
pub open spec fn saturating_mul_u128(a: int, b: int) -> int {
    if a * b > u128::MAX {
        u128::MAX as int
    } else {
        a * b
    }
}

/// The bar the pass price must clear: the fail price scaled up by the pass
/// threshold, with the product saturating rather than overflowing.
pub open spec fn decision_threshold(fail_price: int, pass_threshold_bps: u32) -> int {
    saturating_mul_u128(fail_price, MAX_BPS + pass_threshold_bps) / (MAX_BPS as int)
}

/// The outcome two prices decide: `Passed` exactly when the pass price
/// strictly exceeds the threshold built from the fail price.
pub open spec fn decision(pass_price: int, fail_price: int, pass_threshold_bps: u32) -> ProposalState {
    if pass_price > decision_threshold(fail_price, pass_threshold_bps) {
        ProposalState::Passed
    } else {
        ProposalState::Failed
    }
}

/// Finalization reads the proposal record, both markets and the decision
/// parameters; it is the only path that ever moves a market's trading mode.
#[derive(Clone, Debug, PartialEq, Eq)]
pub struct FinalizeProposal {
    /// The governing proposal record.
    pub proposal: Proposal,
    /// The market pricing the pass world.
    pub pass_amm: Amm,
    /// The market pricing the fail world.
    pub fail_amm: Amm,
    /// The governance entity's decision parameters.
    pub dao: DecisionConfig,
}

impl FinalizeProposal {
    /// Finalization preconditions: the observation period has elapsed and
    /// the proposal is still pending.
    pub open spec fn finalize_allowed(self, current_slot: u64) -> bool {
        current_slot >= self.proposal.slot_enqueued + self.dao.observation_delay
            && self.proposal.state is Pending
    }

    /// The full outcome of finalization: the state after the call and the
    /// decided outcome or error. Failures change nothing.
    pub open spec fn finalize_outcome(self, current_slot: u64) -> (
        FinalizeProposal,
        Result<ProposalState, ProposalError>,
    ) {
        if current_slot < self.proposal.slot_enqueued + self.dao.observation_delay {
            (self, Err(ProposalError::TooEarly))
        } else if !(self.proposal.state is Pending) {
            (self, Err(ProposalError::AlreadyFinalized))
        } else {
            let outcome = decision(
                instant_price(self.pass_amm),
                instant_price(self.fail_amm),
                self.dao.pass_threshold_bps,
            );
            let next = FinalizeProposal {
                proposal: Proposal { state: outcome, ..self.proposal },
                pass_amm: Amm {
                    trading_mode: if outcome is Passed {
                        TradingMode::Boosted
                    } else {
                        TradingMode::Penalized
                    },
                    ..self.pass_amm
                },
                fail_amm: Amm {
                    trading_mode: if outcome is Passed {
                        TradingMode::Penalized
                    } else {
                        TradingMode::Boosted
                    },
                    ..self.fail_amm
                },
                ..self
            };
            (next, Ok(outcome))
        }
    }

    /// Checks the finalization preconditions.
    pub fn validate(&self, current_slot: u64) -> (r: Result<(), ProposalError>)
        ensures
            r is Ok <==> self.finalize_allowed(current_slot),
            current_slot < self.proposal.slot_enqueued + self.dao.observation_delay ==> r
                == Err::<(), ProposalError>(ProposalError::TooEarly),
            current_slot >= self.proposal.slot_enqueued + self.dao.observation_delay && !(
            self.proposal.state is Pending) ==> r == Err::<(), ProposalError>(
                ProposalError::AlreadyFinalized,
            ),
    {
        if (current_slot as u128) < (self.proposal.slot_enqueued as u128) + (
        self.dao.observation_delay as u128) {
            return Err(ProposalError::TooEarly);
        }
        if !(self.proposal.state == ProposalState::Pending) {
            return Err(ProposalError::AlreadyFinalized);
        }
        Ok(())
    }

    /// Reads both markets' prices, decides the outcome, moves the winner to
    /// `Boosted` and the loser to `Penalized`, and records the outcome on
    /// the proposal. The two markets always end in complementary modes.
    pub fn handle(&mut self, current_slot: u64) -> (r: Result<ProposalState, ProposalError>)
        requires
            old(self).pass_amm.v_base_reserves > 0,
            old(self).fail_amm.v_base_reserves > 0,
        ensures
            *final(self) == old(self).finalize_outcome(current_slot).0,
            r == old(self).finalize_outcome(current_slot).1,
            r is Err ==> *final(self) == *old(self),
            r matches Ok(outcome) ==> outcome == decision(
                instant_price(old(self).pass_amm),
                instant_price(old(self).fail_amm),
                old(self).dao.pass_threshold_bps,
            ) && final(self).proposal.state == outcome && !(outcome is Pending),
            r is Ok ==> (final(self).pass_amm.trading_mode is Boosted
                <==> final(self).fail_amm.trading_mode is Penalized),
            r is Ok ==> (final(self).pass_amm.trading_mode is Penalized
                <==> final(self).fail_amm.trading_mode is Boosted),
    {
        match self.validate(current_slot) {
            Ok(()) => {},
            Err(e) => {
                return Err(e);
            },
        }
        let pass_market_price = self.pass_amm.calculate_price();
        let fail_market_price = self.fail_amm.calculate_price();
        let bps_total: u64 = MAX_BPS + (self.dao.pass_threshold_bps as u64);
        let scaled: u128 = match fail_market_price.checked_mul(bps_total as u128) {
            Some(product) => product,
            None => u128::MAX,
        };
        let threshold: u128 = scaled / (MAX_BPS as u128);
        let outcome = if pass_market_price > threshold {
            self.pass_amm.trading_mode = TradingMode::Boosted;
            self.fail_amm.trading_mode = TradingMode::Penalized;
            ProposalState::Passed
        } else {
            self.pass_amm.trading_mode = TradingMode::Penalized;
            self.fail_amm.trading_mode = TradingMode::Boosted;
            ProposalState::Failed
        };
        self.proposal.state = outcome;
        Ok(outcome)
    }
}

/// Law: finalization is terminal. Once it succeeds, a second attempt at the
/// same or a later height fails with `AlreadyFinalized` and changes nothing,
/// the trading modes set by the first call included.
pub proof fn lemma_finalize_only_once(f: FinalizeProposal, first_slot: u64, second_slot: u64)
    requires
        f.finalize_outcome(first_slot).1 is Ok,
        second_slot >= first_slot,
    ensures
        f.finalize_outcome(first_slot).0.finalize_outcome(second_slot).1 == Err::<
            ProposalState,
            ProposalError,
        >(ProposalError::AlreadyFinalized),
        f.finalize_outcome(first_slot).0.finalize_outcome(second_slot).0 == f.finalize_outcome(
            first_slot,
        ).0,
{
}

} // verus!
