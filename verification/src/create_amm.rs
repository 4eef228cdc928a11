use vstd::prelude::*;

verus! {

use crate::amm::{
    k_of, seed_base_reserves, seed_base_reserves_u64, seed_quote_reserves,
    seed_quote_reserves_u64, Amm, TradingMode,
};
use crate::errors::AmmError;
use crate::pubkey::Pubkey;

/// The market as seeded at construction: virtual reserves at the fixed
/// hundred-million-to-one ratio for the given decimal scales, real reserves
/// empty, trading active.
pub open spec fn created_market(base_decimals: u8, quote_decimals: u8, current_slot: u64) -> Amm {
    Amm {
        created_at_slot: current_slot,
        base_mint_decimals: base_decimals,
        quote_mint_decimals: quote_decimals,
        v_base_reserves: seed_base_reserves(base_decimals) as u64,
        v_quote_reserves: seed_quote_reserves(quote_decimals) as u64,
        real_base_reserves: 0,
        real_quote_reserves: 0,
        trading_mode: TradingMode::Active,
    }
}

/// The construction inputs market creation validates and seeds from. Token
/// custody — the vaults, the mint itself, its metadata — stays with the
/// host, which reads these plain values off its accounts.
#[derive(Clone, Copy, Debug, PartialEq, Eq, Structural)]
pub struct CreateAmm {
    /// The base asset's mint address.
    pub base_mint: Pubkey,
    /// The quote asset's mint address.
    pub quote_mint: Pubkey,
    /// Current supply of the base mint; must be zero at creation.
    pub base_mint_supply: u64,
    /// Decimal scale of the base mint.
    pub base_mint_decimals: u8,
    /// Decimal scale of the quote mint.
    pub quote_mint_decimals: u8,
    /// Height at which creation runs.
    pub current_slot: u64,
}

impl CreateAmm {
    /// Creation is allowed only for a distinct mint pair whose base mint has
    /// no supply yet.
    pub open spec fn valid(self) -> bool {
        self.base_mint != self.quote_mint && self.base_mint_supply == 0
    }

    /// Checks the creation inputs.
    pub fn validate(&self) -> (r: Result<(), AmmError>)
        ensures
            r is Ok <==> self.valid(),
            !self.valid() ==> r == Err::<(), AmmError>(AmmError::ValidationError),
    {
        if self.base_mint == self.quote_mint {
            return Err(AmmError::ValidationError);
        }
        if self.base_mint_supply != 0 {
            return Err(AmmError::ValidationError);
        }
        Ok(())
    }

    /// Validates the inputs and seeds the market.
    pub fn handle(&self) -> (r: Result<Amm, AmmError>)
        requires
            self.base_mint_decimals <= 10,
            self.quote_mint_decimals <= 18,
        ensures
            self.valid() ==> r == Ok::<Amm, AmmError>(
                created_market(self.base_mint_decimals, self.quote_mint_decimals, self.current_slot),
            ),
            !self.valid() ==> r == Err::<Amm, AmmError>(AmmError::ValidationError),
            r matches Ok(market) ==> market.wf() && market.trading_mode is Active && k_of(market)
                == 0,
    {
        match self.validate() {
            Ok(()) => {},
            Err(e) => {
                return Err(e);
            },
        }
        Ok(
            Amm {
                created_at_slot: self.current_slot,
                base_mint_decimals: self.base_mint_decimals,
                quote_mint_decimals: self.quote_mint_decimals,
                v_base_reserves: seed_base_reserves_u64(self.base_mint_decimals),
                v_quote_reserves: seed_quote_reserves_u64(self.quote_mint_decimals),
                real_base_reserves: 0,
                real_quote_reserves: 0,
                trading_mode: TradingMode::Active,
            },
        )
    }
}

/// Validates the creation inputs and seeds the market, as the host's
/// market-creation entrypoint runs it.
pub fn create_amm(accounts: &CreateAmm) -> (r: Result<Amm, AmmError>)
    requires
        accounts.base_mint_decimals <= 10,
        accounts.quote_mint_decimals <= 18,
    ensures
        accounts.valid() ==> r == Ok::<Amm, AmmError>(
            created_market(
                accounts.base_mint_decimals,
                accounts.quote_mint_decimals,
                accounts.current_slot,
            ),
        ),
        !accounts.valid() ==> r == Err::<Amm, AmmError>(AmmError::ValidationError),
{
    accounts.handle()
}

} // verus!
