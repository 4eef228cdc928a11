use vstd::prelude::*;

verus! {

use crate::amm::{k_of, mode_adjusted_output, swap_outcome, Amm, SwapType, TradingMode};
use crate::errors::AmmError;

/// Law: an accepted swap never decreases the product of the real reserves.
pub proof fn lemma_swap_never_decreases_k(m: Amm, input_amount: u64, swap_type: SwapType)
    requires
        swap_outcome(m, input_amount, swap_type).1 is Ok,
    ensures
        k_of(swap_outcome(m, input_amount, swap_type).0) >= k_of(m),
{
}

/// Law: a buy followed by selling back the whole base amount received never
/// returns more quote than the buy spent — the fee and the roundings admit
/// no free round trip while the price stands still.
pub proof fn lemma_round_trip_never_profits(m: Amm, spent: u64, bought: u64, proceeds: u64)
    requires
        swap_outcome(m, spent, SwapType::Buy).1 == Ok::<u64, AmmError>(bought),
        swap_outcome(swap_outcome(m, spent, SwapType::Buy).0, bought, SwapType::Sell).1
            == Ok::<u64, AmmError>(proceeds),
    ensures
        proceeds <= spent,
{
    let m1 = swap_outcome(m, spent, SwapType::Buy).0;
    let m2 = swap_outcome(m1, bought, SwapType::Sell).0;
    let real_base = m.real_base_reserves as int;
    let real_quote = m.real_quote_reserves as int;
    // The buy passed the trading gate, so the market was active, and neither
    // swap's output was mode-adjusted.
    assert(m.trading_mode is Active);
    assert(m1.trading_mode is Active);
    // The reserve moves the two swaps committed.
    assert(m1.real_quote_reserves == real_quote + spent);
    assert(m1.real_base_reserves == real_base - bought);
    assert(m2.real_base_reserves == real_base);
    assert(m2.real_quote_reserves == real_quote + spent - proceeds);
    // Each swap kept the real-reserve product from decreasing.
    assert(k_of(m1) >= k_of(m));
    assert(k_of(m2) >= k_of(m1));
    assert(real_base >= 1);
    // Chaining the two invariant checks bounds the proceeds by the amount
    // spent.
    assert(proceeds <= spent) by (nonlinear_arith)
        requires
            (real_base - bought) * (real_quote + spent) >= real_base * real_quote,
            real_base * ((real_quote + spent) - proceeds) >= (real_base - bought) * (real_quote
                + spent),
            real_base >= 1,
            bought >= 0,
            proceeds >= 0,
            spent >= 0,
            real_quote >= 0,
    ;
}

/// Law: selling on a boosted or penalized market returns the active-mode
/// amount scaled by 110/100 or 90/100, truncated toward zero, and succeeds
/// whenever the quote reserve covers the adjusted payout without letting the
/// real-reserve product decrease.
pub proof fn lemma_gated_sell_scales_output(m: Amm, input_amount: u64, active_output: u64)
    requires
        !(m.trading_mode is Active),
        swap_outcome(
            (Amm { trading_mode: TradingMode::Active, ..m }),
            input_amount,
            SwapType::Sell,
        ).1 == Ok::<u64, AmmError>(active_output),
        mode_adjusted_output(active_output as int, m.trading_mode) <= m.real_quote_reserves,
        (m.real_base_reserves + input_amount) * (m.real_quote_reserves - mode_adjusted_output(
            active_output as int,
            m.trading_mode,
        )) >= k_of(m),
    ensures
        swap_outcome(m, input_amount, SwapType::Sell).1 == Ok::<u64, AmmError>(
            mode_adjusted_output(active_output as int, m.trading_mode) as u64,
        ),
        m.trading_mode is Boosted ==> swap_outcome(m, input_amount, SwapType::Sell).1 == Ok::<
            u64,
            AmmError,
        >((active_output as int * 110 / 100) as u64),
        m.trading_mode is Penalized ==> swap_outcome(m, input_amount, SwapType::Sell).1 == Ok::<
            u64,
            AmmError,
        >((active_output as int * 90 / 100) as u64),
{
    let active_market = Amm { trading_mode: TradingMode::Active, ..m };
    // Everything up to the mode adjustment reads the same fields on both
    // markets: same reserves, same curve, same raw output.
    assert(swap_outcome(active_market, input_amount, SwapType::Sell).1 is Ok);
}

} // verus!
