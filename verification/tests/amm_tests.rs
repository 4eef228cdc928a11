use futarchy_amm::amm::{swap, Amm, SwapArgs, SwapType, TradingMode};
use futarchy_amm::create_amm::{create_amm, CreateAmm};
use futarchy_amm::errors::{arithmetic_error, AmmError};
use futarchy_amm::pubkey::Pubkey;

fn market() -> Amm {
    Amm {
        created_at_slot: 0,
        base_mint_decimals: 6,
        quote_mint_decimals: 6,
        v_base_reserves: 1_000_000,
        v_quote_reserves: 800_000,
        real_base_reserves: 1_000_000,
        real_quote_reserves: 1_000_000,
        trading_mode: TradingMode::Active,
    }
}

fn creation() -> CreateAmm {
    CreateAmm {
        base_mint: Pubkey { hi: 1, lo: 2 },
        quote_mint: Pubkey { hi: 3, lo: 4 },
        base_mint_supply: 0,
        base_mint_decimals: 6,
        quote_mint_decimals: 6,
        current_slot: 42,
    }
}

#[test]
fn create_seeds_virtual_reserves_for_six_decimals() {
    let market = creation().handle().unwrap();
    assert_eq!(market.v_base_reserves, 1_000_000_000_000_000);
    assert_eq!(market.v_quote_reserves, 10_000_000);
    assert_eq!(market.real_base_reserves, 0);
    assert_eq!(market.real_quote_reserves, 0);
    assert_eq!(market.trading_mode, TradingMode::Active);
    assert_eq!(market.created_at_slot, 42);
    assert_eq!(market.base_mint_decimals, 6);
    assert_eq!(market.quote_mint_decimals, 6);
}

#[test]
fn create_seeds_differ_by_decimal_scale() {
    let mut inputs = creation();
    inputs.base_mint_decimals = 0;
    inputs.quote_mint_decimals = 2;
    let market = create_amm(&inputs).unwrap();
    assert_eq!(market.v_base_reserves, 1_000_000_000);
    assert_eq!(market.v_quote_reserves, 1_000);
}

#[test]
fn create_seeds_fit_at_the_largest_decimal_scales() {
    let mut inputs = creation();
    inputs.base_mint_decimals = 10;
    inputs.quote_mint_decimals = 18;
    let market = inputs.handle().unwrap();
    assert_eq!(market.v_base_reserves, 10_000_000_000_000_000_000);
    assert_eq!(market.v_quote_reserves, 10_000_000_000_000_000_000);
}

#[test]
fn create_rejects_identical_mints() {
    let mut inputs = creation();
    inputs.quote_mint = inputs.base_mint;
    assert_eq!(inputs.validate(), Err(AmmError::ValidationError));
    assert_eq!(inputs.handle(), Err(AmmError::ValidationError));
}

#[test]
fn create_rejects_nonzero_base_supply() {
    let mut inputs = creation();
    inputs.base_mint_supply = 1;
    assert_eq!(inputs.validate(), Err(AmmError::ValidationError));
    assert_eq!(create_amm(&inputs), Err(AmmError::ValidationError));
}

#[test]
fn buy_quote_rounds_the_curve_price_up() {
    let m = market();
    // 10_000 * 800_000 / 990_000 truncates to 8_080; one is always added.
    assert_eq!(m.buy_quote(10_000), 8_081);
}

#[test]
fn sell_quote_rounds_down() {
    let m = market();
    // 10_000 * 800_000 / 1_010_000 truncates to 7_920.
    assert_eq!(m.sell_quote(10_000), 7_920);
}

#[test]
fn calculate_price_is_the_scaled_reserve_ratio() {
    let m = market();
    assert_eq!(m.calculate_price(), 80);
}

#[test]
fn k_is_the_real_reserve_product() {
    let m = market();
    assert_eq!(m.k(), 1_000_000_000_000);
}

#[test]
fn swap_zero_input_fails_validation_in_both_directions() {
    let mut m = market();
    assert_eq!(m.swap(0, SwapType::Buy), Err(AmmError::ValidationError));
    assert_eq!(m.swap(0, SwapType::Sell), Err(AmmError::ValidationError));
    assert_eq!(m, market());

    let mut boosted = market();
    boosted.trading_mode = TradingMode::Boosted;
    let before = boosted;
    assert_eq!(boosted.swap(0, SwapType::Buy), Err(AmmError::ValidationError));
    assert_eq!(boosted.swap(0, SwapType::Sell), Err(AmmError::ValidationError));
    assert_eq!(boosted, before);
}

#[test]
fn buys_are_disabled_off_the_active_mode() {
    for mode in [TradingMode::Boosted, TradingMode::Penalized] {
        let mut m = market();
        m.trading_mode = mode;
        let before = m;
        assert_eq!(m.swap(10_000, SwapType::Buy), Err(AmmError::TradingDisabled));
        assert_eq!(m, before);
    }
}

#[test]
fn successful_buy_moves_real_reserves_and_grows_k() {
    let mut m = market();
    let k_before = m.k();
    assert_eq!(m.swap(10_000, SwapType::Buy), Ok(7_936));
    assert_eq!(m.real_base_reserves, 992_064);
    assert_eq!(m.real_quote_reserves, 1_010_000);
    assert_eq!(m.v_base_reserves, 1_000_000);
    assert_eq!(m.v_quote_reserves, 800_000);
    assert!(m.k() >= k_before);
}

#[test]
fn successful_sell_moves_real_reserves_and_grows_k() {
    let mut m = market();
    let k_before = m.k();
    assert_eq!(m.swap(10_000, SwapType::Sell), Ok(7_779));
    assert_eq!(m.real_base_reserves, 1_010_000);
    assert_eq!(m.real_quote_reserves, 992_221);
    assert!(m.k() >= k_before);
}

#[test]
fn gated_sells_scale_the_active_output() {
    let mut active = market();
    assert_eq!(active.swap(10_000, SwapType::Sell), Ok(7_779));

    let mut boosted = market();
    boosted.trading_mode = TradingMode::Boosted;
    assert_eq!(boosted.swap(10_000, SwapType::Sell), Ok(8_556));
    assert_eq!(8_556, 7_779 * 110 / 100);
    assert_eq!(boosted.real_quote_reserves, 991_444);

    let mut penalized = market();
    penalized.trading_mode = TradingMode::Penalized;
    assert_eq!(penalized.swap(10_000, SwapType::Sell), Ok(7_001));
    assert_eq!(7_001, 7_779 * 90 / 100);
    assert_eq!(penalized.real_quote_reserves, 992_999);
}

#[test]
fn round_trip_returns_no_more_than_was_spent() {
    let mut m = market();
    let spent = 10_000;
    let bought = m.swap(spent, SwapType::Buy).unwrap();
    assert_eq!(bought, 7_936);
    let proceeds = m.swap(bought, SwapType::Sell).unwrap();
    assert_eq!(proceeds, 6_308);
    assert!(proceeds <= spent);
}

#[test]
fn oversized_curve_quote_fails_casting_and_leaves_reserves_untouched() {
    let mut m = market();
    m.v_base_reserves = 2;
    m.v_quote_reserves = u64::MAX;
    m.real_base_reserves = 10;
    m.real_quote_reserves = 10;
    let before = m;
    let result = m.swap(1, SwapType::Buy);
    assert_eq!(result, Err(AmmError::CastingOverflow));
    assert!(arithmetic_error(result.unwrap_err()));
    assert_eq!(m, before);
}

#[test]
fn oversized_numerator_fails_with_overflow() {
    let mut m = market();
    m.v_base_reserves = 3;
    m.v_quote_reserves = u64::MAX;
    m.real_base_reserves = u64::MAX;
    m.real_quote_reserves = u64::MAX;
    let before = m;
    let result = m.swap(1, SwapType::Buy);
    assert_eq!(result, Err(AmmError::Overflow));
    assert!(arithmetic_error(result.unwrap_err()));
    assert_eq!(m, before);
}

#[test]
fn a_trade_that_would_shrink_k_is_rejected() {
    let mut m = market();
    m.v_quote_reserves = 1_000_000;
    let before = m;
    assert_eq!(m.swap(10_000, SwapType::Buy), Err(AmmError::InvariantViolation));
    assert_eq!(m, before);
}

#[test]
fn an_unfunded_market_cannot_swap() {
    let mut m = creation().handle().unwrap();
    let before = m;
    let result = m.swap(5, SwapType::Buy);
    assert_eq!(result, Err(AmmError::NoReserves));
    assert!(arithmetic_error(result.unwrap_err()));
    assert_eq!(m, before);
    assert_eq!(m.swap(5, SwapType::Sell), Err(AmmError::NoReserves));
}

#[test]
fn a_buy_that_would_drain_the_virtual_base_reseeds_the_curve() {
    let mut m = market();
    m.v_base_reserves = 100;
    m.v_quote_reserves = 50;
    m.real_base_reserves = 1_000;
    m.real_quote_reserves = 1_000;
    assert_eq!(m.swap(200, SwapType::Buy), Ok(0));
    assert_eq!(m.v_base_reserves, 1_000_000_000_000_000);
    assert_eq!(m.v_quote_reserves, 10_000_000);
    assert_eq!(m.real_quote_reserves, 1_200);
    assert_eq!(m.real_base_reserves, 1_000);
}

#[test]
fn a_boosted_payout_beyond_the_reserve_is_rejected() {
    let mut m = market();
    m.v_base_reserves = 10;
    m.v_quote_reserves = 1_000_000;
    m.real_base_reserves = 100;
    m.real_quote_reserves = 100;
    m.trading_mode = TradingMode::Boosted;
    let before = m;
    assert_eq!(m.swap(1_000, SwapType::Sell), Err(AmmError::NoReserves));
    assert_eq!(m, before);
}

#[test]
fn the_swap_entrypoint_enforces_the_minimum_output() {
    let mut m = market();
    let before = m;
    let args = SwapArgs { swap_type: SwapType::Buy, input_amount: 10_000, output_amount_min: 8_000 };
    assert_eq!(swap(&mut m, args), Err(AmmError::SlippageExceeded));
    assert_eq!(m, before);

    let args = SwapArgs { swap_type: SwapType::Buy, input_amount: 10_000, output_amount_min: 7_000 };
    assert_eq!(swap(&mut m, args), Ok(7_936));
    assert_eq!(m.real_base_reserves, 992_064);
}
