//! A constant-product automated market maker whose trading state is gated by
//! the outcome of a binary futarchy decision.
//!
//! Two markets are created for the same asset pair: a pass market and a fail
//! market. Each prices trades on a virtual bonding curve, applies a flat fee,
//! and keeps the product of its real reserves from ever decreasing across an
//! accepted swap. After an observation period, a finalization step compares
//! the two markets' prices and unlocks the winner under boosted terms while
//! freezing the loser under penalized terms.
//!
//! Token custody, account identity and transfers are the host's concern: the
//! library only computes how much should move and whether a trade is
//! currently permitted.

pub mod amm;
pub mod create_amm;
pub mod errors;
pub mod finalize_proposal;
pub mod initialize_proposal;
pub mod laws;
pub mod proposal;
pub mod pubkey;
