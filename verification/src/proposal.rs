use vstd::prelude::*;

verus! {

use crate::pubkey::Pubkey;

/// Lifecycle state of a governance proposal.
#[derive(Clone, Copy, Debug, PartialEq, Eq, Structural)]
pub enum ProposalState {
    /// Awaiting its decision.
    Pending,
    /// The pass market won the decision.
    Passed,
    /// The fail market won the decision.
    Failed,
    /// The payload of a passed proposal has been carried out.
    Executed,
}

/// An account referenced by a proposal's payload instruction.
#[derive(Clone, Copy, Debug, PartialEq, Eq, Structural)]
pub struct ProposalAccount {
    /// The account's address.
    pub pubkey: Pubkey,
    /// Whether the account must sign the payload.
    pub is_signer: bool,
    /// Whether the payload may write to the account.
    pub is_writable: bool,
}

/// The instruction a passed proposal would execute. The core carries it
/// opaquely; running it is the host's concern.
#[derive(Clone, Debug, PartialEq, Eq)]
pub struct ProposalInstruction {
    /// The program the payload targets.
    pub program_id: Pubkey,
    /// The accounts the payload touches.
    pub accounts: Vec<ProposalAccount>,
    /// The payload bytes.
    pub data: Vec<u8>,
}

/// The caller-supplied payload of a new proposal.
#[derive(Clone, Debug, PartialEq, Eq)]
pub struct InitializeProposalParams {
    /// Where the proposal is described.
    pub description_url: String,
    /// What a passed proposal would execute.
    pub instruction: ProposalInstruction,
    /// Liquidity tokens locked on the pass market.
    pub pass_lp_tokens_to_lock: u64,
    /// Liquidity tokens locked on the fail market.
    pub fail_lp_tokens_to_lock: u64,
    /// A per-proposer nonce, keeping two enqueues from colliding.
    pub nonce: u64,
}

/// A governance proposal: the record that ties the pass and fail markets
/// together and carries the decision's state.
#[derive(Clone, Debug, PartialEq, Eq)]
pub struct Proposal {
    /// The proposal's sequence number with its governance entity.
    pub number: u32,
    /// Address of the proposer.
    pub proposer: Pubkey,
    /// Where the proposal is described.
    pub description_url: String,
    /// Height at which the proposal was enqueued.
    pub slot_enqueued: u64,
    /// Lifecycle state; finalization moves it from `Pending` exactly once.
    pub state: ProposalState,
    /// What a passed proposal would execute.
    pub instruction: ProposalInstruction,
    /// Address of the market pricing the pass world.
    pub pass_amm: Pubkey,
    /// Address of the market pricing the fail world.
    pub fail_amm: Pubkey,
    /// Address of the governance entity.
    pub dao: Pubkey,
    /// Liquidity tokens locked on the pass market.
    pub pass_lp_tokens_locked: u64,
    /// Liquidity tokens locked on the fail market.
    pub fail_lp_tokens_locked: u64,
    /// A per-proposer nonce, keeping two enqueues from colliding.
    pub nonce: u64,
    /// Bump seed of the proposal's derived address.
    pub pda_bump: u8,
}

} // verus!
