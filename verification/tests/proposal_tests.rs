use futarchy_amm::amm::{Amm, TradingMode};
use futarchy_amm::errors::ProposalError;
use futarchy_amm::finalize_proposal::{DecisionConfig, FinalizeProposal};
use futarchy_amm::initialize_proposal::{InitializeProposal, ONE_MINUTE_IN_SLOTS};
use futarchy_amm::proposal::{
    InitializeProposalParams, Proposal, ProposalAccount, ProposalInstruction, ProposalState,
};
use futarchy_amm::pubkey::Pubkey;

fn key(n: u128) -> Pubkey {
    Pubkey { hi: n, lo: n + 1 }
}

fn priced_market(v_base: u64, v_quote: u64) -> Amm {
    Amm {
        created_at_slot: 0,
        base_mint_decimals: 6,
        quote_mint_decimals: 6,
        v_base_reserves: v_base,
        v_quote_reserves: v_quote,
        real_base_reserves: 1_000,
        real_quote_reserves: 1_000,
        trading_mode: TradingMode::Active,
    }
}

fn pending_proposal() -> Proposal {
    Proposal {
        number: 1,
        proposer: key(10),
        description_url: String::from("https://example.org/proposal"),
        slot_enqueued: 100,
        state: ProposalState::Pending,
        instruction: ProposalInstruction {
            program_id: key(20),
            accounts: vec![ProposalAccount { pubkey: key(30), is_signer: false, is_writable: true }],
            data: vec![1, 2, 3],
        },
        pass_amm: key(40),
        fail_amm: key(50),
        dao: key(60),
        pass_lp_tokens_locked: 7,
        fail_lp_tokens_locked: 8,
        nonce: 9,
        pda_bump: 254,
    }
}

fn finalization(pass_price_reserves: (u64, u64), fail_price_reserves: (u64, u64), bps: u32) -> FinalizeProposal {
    FinalizeProposal {
        proposal: pending_proposal(),
        pass_amm: priced_market(pass_price_reserves.0, pass_price_reserves.1),
        fail_amm: priced_market(fail_price_reserves.0, fail_price_reserves.1),
        dao: DecisionConfig { pass_threshold_bps: bps, observation_delay: 50 },
    }
}

#[test]
fn finalize_passes_when_pass_price_clears_the_threshold() {
    // Pass price 1000, fail price 500, no threshold margin.
    let mut f = finalization((1, 10), (1, 5), 0);
    assert_eq!(f.pass_amm.calculate_price(), 1000);
    assert_eq!(f.fail_amm.calculate_price(), 500);
    assert_eq!(f.handle(150), Ok(ProposalState::Passed));
    assert_eq!(f.proposal.state, ProposalState::Passed);
    assert_eq!(f.pass_amm.trading_mode, TradingMode::Boosted);
    assert_eq!(f.fail_amm.trading_mode, TradingMode::Penalized);
}

#[test]
fn finalize_fails_when_pass_price_stays_below() {
    // Pass price 500, fail price 1000.
    let mut f = finalization((1, 5), (1, 10), 0);
    assert_eq!(f.handle(150), Ok(ProposalState::Failed));
    assert_eq!(f.proposal.state, ProposalState::Failed);
    assert_eq!(f.pass_amm.trading_mode, TradingMode::Penalized);
    assert_eq!(f.fail_amm.trading_mode, TradingMode::Boosted);
}

#[test]
fn finalize_needs_a_strictly_greater_pass_price() {
    // Equal prices leave the proposal failed.
    let mut f = finalization((1, 5), (1, 5), 0);
    assert_eq!(f.handle(150), Ok(ProposalState::Failed));
}

#[test]
fn finalize_scales_the_threshold_by_basis_points() {
    // Fail price 500 with a ten-percent margin puts the bar at 550.
    let mut at_bar = finalization((100, 550), (1, 5), 1_000);
    assert_eq!(at_bar.pass_amm.calculate_price(), 550);
    assert_eq!(at_bar.handle(150), Ok(ProposalState::Failed));

    let mut above_bar = finalization((100, 551), (1, 5), 1_000);
    assert_eq!(above_bar.pass_amm.calculate_price(), 551);
    assert_eq!(above_bar.handle(150), Ok(ProposalState::Passed));
}

#[test]
fn finalize_too_early_changes_nothing() {
    let mut f = finalization((1, 10), (1, 5), 0);
    let before = f.clone();
    // Enqueued at 100 with a 50-slot observation delay: 149 is too early.
    assert_eq!(f.handle(149), Err(ProposalError::TooEarly));
    assert_eq!(f, before);
    assert_eq!(f.validate(149), Err(ProposalError::TooEarly));
    assert_eq!(f.validate(150), Ok(()));
}

#[test]
fn finalize_twice_fails_and_keeps_the_first_decision() {
    let mut f = finalization((1, 10), (1, 5), 0);
    assert_eq!(f.handle(150), Ok(ProposalState::Passed));
    let after_first = f.clone();
    assert_eq!(f.handle(151), Err(ProposalError::AlreadyFinalized));
    assert_eq!(f, after_first);
    assert_eq!(f.pass_amm.trading_mode, TradingMode::Boosted);
    assert_eq!(f.fail_amm.trading_mode, TradingMode::Penalized);
}

fn enqueue() -> InitializeProposal {
    InitializeProposal {
        dao_proposal_count: 4,
        pass_amm: priced_market(1, 10),
        fail_amm: priced_market(1, 5),
        pass_amm_key: key(40),
        fail_amm_key: key(50),
        dao_key: key(60),
        proposer: key(10),
        pda_bump: 254,
    }
}

fn params() -> InitializeProposalParams {
    InitializeProposalParams {
        description_url: String::from("https://example.org/proposal"),
        instruction: ProposalInstruction {
            program_id: key(20),
            accounts: vec![ProposalAccount { pubkey: key(30), is_signer: true, is_writable: false }],
            data: vec![9, 9],
        },
        pass_lp_tokens_to_lock: 11,
        fail_lp_tokens_to_lock: 12,
        nonce: 77,
    }
}

#[test]
fn initialize_builds_a_pending_record_and_bumps_the_count() {
    let (proposal, count) = enqueue().handle(params(), 500).unwrap();
    assert_eq!(count, 5);
    assert_eq!(proposal.number, 5);
    assert_eq!(proposal.state, ProposalState::Pending);
    assert_eq!(proposal.slot_enqueued, 500);
    assert_eq!(proposal.proposer, key(10));
    assert_eq!(proposal.pass_amm, key(40));
    assert_eq!(proposal.fail_amm, key(50));
    assert_eq!(proposal.dao, key(60));
    assert_eq!(proposal.description_url, "https://example.org/proposal");
    assert_eq!(proposal.instruction, params().instruction);
    assert_eq!(proposal.pass_lp_tokens_locked, 11);
    assert_eq!(proposal.fail_lp_tokens_locked, 12);
    assert_eq!(proposal.nonce, 77);
    assert_eq!(proposal.pda_bump, 254);
}

#[test]
fn initialize_rejects_markets_past_the_age_bound() {
    let i = enqueue();
    let bound = 50 * ONE_MINUTE_IN_SLOTS;
    assert_eq!(i.validate(bound - 1), Ok(()));
    assert_eq!(i.validate(bound), Err(ProposalError::AmmTooOld));
    assert_eq!(i.handle(params(), bound), Err(ProposalError::AmmTooOld));
}
