use vstd::prelude::*;

verus! {

use crate::amm::Amm;
use crate::errors::ProposalError;
use crate::proposal::{InitializeProposalParams, Proposal, ProposalState};
use crate::pubkey::Pubkey;

/// Slots in one minute of wall-clock time.
pub const ONE_MINUTE_IN_SLOTS: u64 = 150;

/// Enqueueing reads the two markets and the governance entity's running
/// proposal count, and builds the pending record the decision will later
/// settle. Account identity checks stay with the host.
#[derive(Clone, Copy, Debug, PartialEq, Eq, Structural)]
pub struct InitializeProposal {
    /// How many proposals the governance entity has created so far.
    pub dao_proposal_count: u32,
    /// The market pricing the world where the proposal passes.
    pub pass_amm: Amm,
    /// The market pricing the world where the proposal fails.
    pub fail_amm: Amm,
    /// Address of the pass market.
    pub pass_amm_key: Pubkey,
    /// Address of the fail market.
    pub fail_amm_key: Pubkey,
    /// Address of the governance entity.
    pub dao_key: Pubkey,
    /// Address of the proposer.
    pub proposer: Pubkey,
    /// Bump seed of the proposal's derived address.
    pub pda_bump: u8,
}

impl InitializeProposal {
    /// A market may back a new proposal only while it is young enough that
    /// its price could not have been cranked far before enqueueing.
    pub open spec fn enqueue_allowed(self, current_slot: u64) -> bool {
        current_slot < self.pass_amm.created_at_slot + 50 * ONE_MINUTE_IN_SLOTS
            && current_slot < self.fail_amm.created_at_slot + 50 * ONE_MINUTE_IN_SLOTS
    }

    /// Checks both markets' ages.
    pub fn validate(&self, current_slot: u64) -> (r: Result<(), ProposalError>)
        ensures
            r is Ok <==> self.enqueue_allowed(current_slot),
            !self.enqueue_allowed(current_slot) ==> r == Err::<(), ProposalError>(
                ProposalError::AmmTooOld,
            ),
    {
        let age_limit: u64 = 50 * ONE_MINUTE_IN_SLOTS;
        if (current_slot as u128) >= (self.pass_amm.created_at_slot as u128) + (age_limit as u128) {
            return Err(ProposalError::AmmTooOld);
        }
        if (current_slot as u128) >= (self.fail_amm.created_at_slot as u128) + (age_limit as u128) {
            return Err(ProposalError::AmmTooOld);
        }
        Ok(())
    }

    /// The pending proposal record an accepted enqueue creates.
    pub open spec fn enqueued_proposal(
        self,
        params: InitializeProposalParams,
        current_slot: u64,
    ) -> Proposal {
        Proposal {
            number: (self.dao_proposal_count + 1) as u32,
            proposer: self.proposer,
            description_url: params.description_url,
            slot_enqueued: current_slot,
            state: ProposalState::Pending,
            instruction: params.instruction,
            pass_amm: self.pass_amm_key,
            fail_amm: self.fail_amm_key,
            dao: self.dao_key,
            pass_lp_tokens_locked: params.pass_lp_tokens_to_lock,
            fail_lp_tokens_locked: params.fail_lp_tokens_to_lock,
            nonce: params.nonce,
            pda_bump: self.pda_bump,
        }
    }

    /// Builds the pending proposal record, numbered with the updated
    /// proposal count, which is returned beside it.
    pub fn handle(&self, params: InitializeProposalParams, current_slot: u64) -> (r: Result<
        (Proposal, u32),
        ProposalError,
    >)
        requires
            self.dao_proposal_count < u32::MAX,
        ensures
            self.enqueue_allowed(current_slot) ==> r == Ok::<(Proposal, u32), ProposalError>(
                (self.enqueued_proposal(params, current_slot), (self.dao_proposal_count + 1) as u32),
            ),
            !self.enqueue_allowed(current_slot) ==> r == Err::<(Proposal, u32), ProposalError>(
                ProposalError::AmmTooOld,
            ),
            r matches Ok(out) ==> out.0.state is Pending && out.0.slot_enqueued == current_slot,
    {
        match self.validate(current_slot) {
            Ok(()) => {},
            Err(e) => {
                return Err(e);
            },
        }
        let number = self.dao_proposal_count + 1;
        let proposal = Proposal {
            number,
            proposer: self.proposer,
            description_url: params.description_url,
            slot_enqueued: current_slot,
            state: ProposalState::Pending,
            instruction: params.instruction,
            pass_amm: self.pass_amm_key,
            fail_amm: self.fail_amm_key,
            dao: self.dao_key,
            pass_lp_tokens_locked: params.pass_lp_tokens_to_lock,
            fail_lp_tokens_locked: params.fail_lp_tokens_to_lock,
            nonce: params.nonce,
            pda_bump: self.pda_bump,
        };
        Ok((proposal, number))
    }
}

} // verus!
