use vstd::prelude::*;

verus! {

use vstd::arithmetic::div_mod::{
    lemma_div_is_ordered, lemma_div_multiples_vanish, lemma_multiply_divide_lt,
};
use vstd::arithmetic::mul::{lemma_mul_inequality, lemma_mul_strict_inequality};
use crate::errors::AmmError;

/// The direction of a swap.
#[derive(Clone, Copy, Debug, PartialEq, Eq, Structural)]
pub enum SwapType {
    /// Swap quote tokens into base tokens.
    Buy,
    /// Swap base tokens into quote tokens.
    Sell,
}

/// A market's trading permission state. It starts `Active` and is moved
/// exactly once, by finalization, to one of the two terminal modes.
#[derive(Clone, Copy, Debug, PartialEq, Eq, Structural)]
pub enum TradingMode {
    /// Ordinary two-way trading.
    Active,
    /// The winning market: buys are rejected, sell proceeds are raised by a
    /// tenth.
    Boosted,
    /// The losing market: buys are rejected, sell proceeds are cut by a
    /// tenth.
    Penalized,
}

/// An automated market maker over one base/quote asset pair.
///
/// The virtual reserves form a synthetic bonding curve used only to price
/// trades; the real reserves track the balances a host actually custodies.
/// The product of the real reserves never decreases across an accepted swap.
#[derive(Clone, Copy, Debug, PartialEq, Eq, Structural)]
pub struct Amm {
    /// Height at which the market was created; immutable.
    pub created_at_slot: u64,
    /// Decimal scale of the base asset; immutable.
    pub base_mint_decimals: u8,
    /// Decimal scale of the quote asset; immutable.
    pub quote_mint_decimals: u8,
    /// Synthetic base-side liquidity, used only inside the pricing formula.
    pub v_base_reserves: u64,
    /// Synthetic quote-side liquidity, used only inside the pricing formula.
    pub v_quote_reserves: u64,
    /// The actual tradable base balance.
    pub real_base_reserves: u64,
    /// The actual tradable quote balance.
    pub real_quote_reserves: u64,
    /// The trading gate, set once by the futarchy decision.
    pub trading_mode: TradingMode,
}

/// Ten to the `e`-th power.
pub open spec fn pow10(e: nat) -> nat
    decreases e,
{
    if e == 0 {
        1
    } else {
        10 * pow10((e - 1) as nat)
    }
}

/// The construction-time virtual base reserve for a base asset of the given
/// decimal scale: one billion whole units.
pub open spec fn seed_base_reserves(base_decimals: u8) -> int {
    1_000_000_000 * pow10(base_decimals as nat) as int
}

/// The construction-time virtual quote reserve for a quote asset of the
/// given decimal scale: ten whole units.
pub open spec fn seed_quote_reserves(quote_decimals: u8) -> int {
    10 * pow10(quote_decimals as nat) as int
}

/// Quote cost, on the virtual curve `(v_base, v_quote)`, of buying `amount`
/// base units: the curve price rounded up by adding one.
pub open spec fn curve_buy(v_base: int, v_quote: int, amount: int) -> int
    recommends
        0 <= amount < v_base,
{
    amount * v_quote / (v_base - amount) + 1
}

/// Quote proceeds, on the virtual curve `(v_base, v_quote)`, for selling
/// `amount` base units, rounded down.
pub open spec fn curve_sell(v_base: int, v_quote: int, amount: int) -> int
    recommends
        0 < v_base + amount,
{
    amount * v_quote / (v_base + amount)
}

/// The realized output of a swap: the curve-implied quote amount bears a
/// flat one-percent fee, fused with the real-reserve ratio into a single
/// truncating division.
pub open spec fn fee_output(curve_quote: int, input_reserve: int, output_reserve: int) -> int
    recommends
        0 < input_reserve,
        0 <= curve_quote,
{
    curve_quote * 99 * output_reserve / (input_reserve * 100 + curve_quote * 99)
}

/// The trading-mode gate's adjustment of a sell's output amount: raised by a
/// tenth on a boosted market, cut by a tenth on a penalized one, both
/// truncated toward zero.
pub open spec fn mode_adjusted_output(output: int, mode: TradingMode) -> int {
    match mode {
        TradingMode::Active => output,
        TradingMode::Boosted => output * 110 / 100,
        TradingMode::Penalized => output * 90 / 100,
    }
}

/// The real-reserve product: the quantity the swap invariant guards.
pub open spec fn k_of(m: Amm) -> int {
    m.real_base_reserves as int * m.real_quote_reserves as int
}

/// The virtual curve's spot price, scaled by one hundred. A single-block
/// snapshot, not a time-weighted average.
pub open spec fn instant_price(m: Amm) -> int
    recommends
        m.v_base_reserves > 0,
{
    m.v_quote_reserves as int * 100 / m.v_base_reserves as int
}

impl Amm {
    /// Well-formed markets have decimal scales small enough that the seeded
    /// virtual reserves fit in 64 bits.
    pub open spec fn wf(self) -> bool {
        self.base_mint_decimals <= 10 && self.quote_mint_decimals <= 18
    }
}

/// Powers of ten do not shrink as the exponent grows.
proof fn lemma_pow10_monotone(a: nat, b: nat)
    requires
        a <= b,
    ensures
        pow10(a) <= pow10(b),
    decreases b,
{
    if a < b {
        lemma_pow10_monotone(a, (b - 1) as nat);
    }
}

/// The concrete value of the largest power of ten a decimal scale may ask
/// for, together with positivity.
proof fn lemma_pow10_18()
    ensures
        pow10(18) == 1_000_000_000_000_000_000,
        pow10(10) == 10_000_000_000,
        forall|e: nat| pow10(e) >= 1,
{
    reveal_with_fuel(pow10, 19);
    assert forall|e: nat| pow10(e) >= 1 by {
        lemma_pow10_monotone(0, e);
    }
}

/// Computes ten to the `e`-th power.
pub fn pow10_u64(e: u8) -> (r: u64)
    requires
        e <= 18,
    ensures
        r == pow10(e as nat),
{
    let mut r: u64 = 1;
    let mut i: u8 = 0;
    proof {
        lemma_pow10_18();
    }
    while i < e
        invariant
            i <= e,
            e <= 18,
            r == pow10(i as nat),
            pow10(18) == 1_000_000_000_000_000_000,
        decreases e - i,
    {
        proof {
            lemma_pow10_monotone((i + 1) as nat, 18);
            assert(pow10((i + 1) as nat) == 10 * pow10(i as nat));
        }
        r = r * 10;
        i = i + 1;
    }
    r
}

/// The seeded virtual reserves of a well-formed market are positive and fit
/// in 64 bits.
proof fn lemma_seed_reserves_fit(base_decimals: u8, quote_decimals: u8)
    requires
        base_decimals <= 10,
        quote_decimals <= 18,
    ensures
        1 <= seed_base_reserves(base_decimals) <= u64::MAX,
        1 <= seed_quote_reserves(quote_decimals) <= u64::MAX,
{
    lemma_pow10_18();
    lemma_pow10_monotone(base_decimals as nat, 10);
    lemma_pow10_monotone(quote_decimals as nat, 18);
}

/// Computes the construction-time virtual base reserve.
pub fn seed_base_reserves_u64(base_decimals: u8) -> (r: u64)
    requires
        base_decimals <= 10,
    ensures
        r == seed_base_reserves(base_decimals),
{
    proof {
        lemma_seed_reserves_fit(base_decimals, 0);
    }
    1_000_000_000 * pow10_u64(base_decimals)
}

/// Computes the construction-time virtual quote reserve.
pub fn seed_quote_reserves_u64(quote_decimals: u8) -> (r: u64)
    requires
        quote_decimals <= 18,
    ensures
        r == seed_quote_reserves(quote_decimals),
{
    proof {
        lemma_seed_reserves_fit(0, quote_decimals);
    }
    10 * pow10_u64(quote_decimals)
}

/// The real reserve a swap draws its input into.
pub open spec fn swap_input_reserve(m: Amm, swap_type: SwapType) -> int {
    match swap_type {
        SwapType::Buy => m.real_quote_reserves as int,
        SwapType::Sell => m.real_base_reserves as int,
    }
}

/// The real reserve a swap pays its output from.
pub open spec fn swap_output_reserve(m: Amm, swap_type: SwapType) -> int {
    match swap_type {
        SwapType::Buy => m.real_base_reserves as int,
        SwapType::Sell => m.real_quote_reserves as int,
    }
}

/// The virtual reserves a swap prices against: reseeded to the
/// construction-time constants when a buy would drain the virtual base
/// reserve, unchanged otherwise.
pub open spec fn priced_virtual_reserves(m: Amm, input_amount: u64, swap_type: SwapType) -> (
    int,
    int,
) {
    if swap_type is Buy && input_amount >= m.v_base_reserves {
        (seed_base_reserves(m.base_mint_decimals), seed_quote_reserves(m.quote_mint_decimals))
    } else {
        (m.v_base_reserves as int, m.v_quote_reserves as int)
    }
}

/// The curve-implied quote amount of a swap, priced on the possibly
/// reseeded virtual reserves.
pub open spec fn swap_curve_quote(m: Amm, input_amount: u64, swap_type: SwapType) -> int {
    let vb = priced_virtual_reserves(m, input_amount, swap_type).0;
    let vq = priced_virtual_reserves(m, input_amount, swap_type).1;
    match swap_type {
        SwapType::Buy => curve_buy(vb, vq, input_amount as int),
        SwapType::Sell => curve_sell(vb, vq, input_amount as int),
    }
}

/// The market with an accepted trade applied: the virtual reserves as the
/// trade priced them, the input added to one real reserve and the adjusted
/// output removed from the other.
pub open spec fn committed_market(m: Amm, input_amount: u64, swap_type: SwapType, adjusted: int) -> Amm {
    let vb = priced_virtual_reserves(m, input_amount, swap_type).0;
    let vq = priced_virtual_reserves(m, input_amount, swap_type).1;
    match swap_type {
        SwapType::Buy => Amm {
            v_base_reserves: vb as u64,
            v_quote_reserves: vq as u64,
            real_quote_reserves: (m.real_quote_reserves + input_amount) as u64,
            real_base_reserves: (m.real_base_reserves - adjusted) as u64,
            ..m
        },
        SwapType::Sell => Amm {
            real_base_reserves: (m.real_base_reserves + input_amount) as u64,
            real_quote_reserves: (m.real_quote_reserves - adjusted) as u64,
            ..m
        },
    }
}

/// The full outcome of a swap: the market state after the call and the
/// returned amount or error. Every failure leaves the market unchanged.
pub open spec fn swap_outcome(m: Amm, input_amount: u64, swap_type: SwapType) -> (
    Amm,
    Result<u64, AmmError>,
) {
    let input_reserve = swap_input_reserve(m, swap_type);
    let output_reserve = swap_output_reserve(m, swap_type);
    let curve_quote = swap_curve_quote(m, input_amount, swap_type);
    if input_amount == 0 {
        (m, Err(AmmError::ValidationError))
    } else if swap_type is Buy && !(m.trading_mode is Active) {
        (m, Err(AmmError::TradingDisabled))
    } else if input_reserve == 0 || output_reserve == 0 {
        (m, Err(AmmError::NoReserves))
    } else if swap_type is Buy && input_amount
        >= priced_virtual_reserves(m, input_amount, swap_type).0 {
        (m, Err(AmmError::NoReserves))
    } else if swap_type is Buy && curve_quote > u64::MAX {
        (m, Err(AmmError::CastingOverflow))
    } else if curve_quote * 99 * output_reserve > u128::MAX {
        (m, Err(AmmError::Overflow))
    } else {
        let adjusted = mode_adjusted_output(
            fee_output(curve_quote, input_reserve, output_reserve),
            m.trading_mode,
        );
        if adjusted > u64::MAX {
            (m, Err(AmmError::CastingOverflow))
        } else if adjusted > output_reserve {
            (m, Err(AmmError::NoReserves))
        } else if input_reserve + input_amount > u64::MAX {
            (m, Err(AmmError::Overflow))
        } else {
            let next = committed_market(m, input_amount, swap_type, adjusted);
            if k_of(next) < k_of(m) {
                (m, Err(AmmError::InvariantViolation))
            } else {
                (next, Ok(adjusted as u64))
            }
        }
    }
}

impl Amm {
    /// Quote cost to buy `amount` base units off the virtual curve, rounded
    /// up by adding one. The caller guards the curve against exhaustion and
    /// the result against the 64-bit width.
    pub fn buy_quote(&self, amount: u128) -> (r: u64)
        requires
            amount < self.v_base_reserves,
            curve_buy(self.v_base_reserves as int, self.v_quote_reserves as int, amount as int)
                <= u64::MAX,
        ensures
            r == curve_buy(self.v_base_reserves as int, self.v_quote_reserves as int, amount as int),
            // The cost never undercuts the curve: it is at least the
            // truncated curve value plus one.
            r >= (amount as int) * (self.v_quote_reserves as int) / (self.v_base_reserves as int
                - amount as int) + 1,
    {
        let v_quote_reserves = self.v_quote_reserves as u128;
        let v_base_reserves = self.v_base_reserves as u128;
        proof {
            assert(amount * v_quote_reserves <= u128::MAX) by (nonlinear_arith)
                requires
                    0 <= amount < 0x1_0000_0000_0000_0000,
                    0 <= v_quote_reserves < 0x1_0000_0000_0000_0000,
            ;
        }
        let cost: u128 = (amount * v_quote_reserves) / (v_base_reserves - amount);
        (cost + 1) as u64
    }

    /// Quote proceeds for selling `amount` base units on the virtual curve,
    /// rounded down. The proceeds never exceed the virtual quote reserve, so
    /// they always fit the 64-bit width.
    pub fn sell_quote(&self, amount: u128) -> (r: u64)
        requires
            amount <= u64::MAX,
            amount + self.v_base_reserves > 0,
        ensures
            r == curve_sell(self.v_base_reserves as int, self.v_quote_reserves as int, amount as int),
            r <= self.v_quote_reserves,
    {
        let v_quote_reserves = self.v_quote_reserves as u128;
        let v_base_reserves = self.v_base_reserves as u128;
        proof {
            assert(amount * v_quote_reserves <= u128::MAX) by (nonlinear_arith)
                requires
                    0 <= amount < 0x1_0000_0000_0000_0000,
                    0 <= v_quote_reserves < 0x1_0000_0000_0000_0000,
            ;
            lemma_mul_inequality(amount as int, v_base_reserves + amount, v_quote_reserves as int);
            lemma_div_is_ordered(
                amount * v_quote_reserves,
                (v_base_reserves + amount) * v_quote_reserves,
                v_base_reserves + amount,
            );
            lemma_div_multiples_vanish(
                v_quote_reserves as int,
                v_base_reserves + amount,
            );
        }
        let output: u128 = (amount * v_quote_reserves) / (v_base_reserves + amount);
        output as u64
    }

    /// The virtual curve's spot price, scaled by one hundred.
    pub fn calculate_price(&self) -> (r: u128)
        requires
            self.v_base_reserves > 0,
        ensures
            r == instant_price(*self),
    {
        (self.v_quote_reserves as u128) * 100 / (self.v_base_reserves as u128)
    }

    /// The product of the real reserves.
    pub fn k(&self) -> (r: u128)
        ensures
            r == k_of(*self),
    {
        proof {
            assert(self.real_base_reserves * self.real_quote_reserves <= u128::MAX)
                by (nonlinear_arith)
                requires
                    0 <= self.real_base_reserves < 0x1_0000_0000_0000_0000,
                    0 <= self.real_quote_reserves < 0x1_0000_0000_0000_0000,
            ;
        }
        (self.real_base_reserves as u128) * (self.real_quote_reserves as u128)
    }

    /// Does the internal accounting for a swap of `input_amount` in the given
    /// direction, returning the amount the host should transfer out.
    ///
    /// An accepted swap adds the input to one real reserve and removes the
    /// (possibly mode-adjusted) output from the other, and never lets the
    /// real-reserve product decrease. Every failure leaves the market
    /// unchanged. A zero input is always rejected, and a buy is always
    /// rejected once the market has left the `Active` mode.
    pub fn swap(&mut self, input_amount: u64, swap_type: SwapType) -> (r: Result<u64, AmmError>)
        requires
            old(self).wf(),
        ensures
            *final(self) == swap_outcome(*old(self), input_amount, swap_type).0,
            r == swap_outcome(*old(self), input_amount, swap_type).1,
            final(self).wf(),
            r is Err ==> *final(self) == *old(self),
            r is Ok ==> k_of(*final(self)) >= k_of(*old(self)),
            input_amount == 0 ==> r == Err::<u64, AmmError>(AmmError::ValidationError),
            input_amount > 0 && swap_type is Buy && !(old(self).trading_mode is Active) ==> r
                == Err::<u64, AmmError>(AmmError::TradingDisabled),
            final(self).trading_mode == old(self).trading_mode,
    {
        let ghost m = *self;
        if input_amount == 0 {
            return Err(AmmError::ValidationError);
        }
        if swap_type == SwapType::Buy && !(self.trading_mode == TradingMode::Active) {
            return Err(AmmError::TradingDisabled);
        }
        let (input_reserve, output_reserve) = match swap_type {
            SwapType::Buy => (self.real_quote_reserves, self.real_base_reserves),
            SwapType::Sell => (self.real_base_reserves, self.real_quote_reserves),
        };
        proof {
            assert(input_reserve == swap_input_reserve(m, swap_type));
            assert(output_reserve == swap_output_reserve(m, swap_type));
        }
        if input_reserve == 0 || output_reserve == 0 {
            return Err(AmmError::NoReserves);
        }
        // Price against the virtual curve, reseeding it first when a buy
        // would drain its base side.
        let (v_base, v_quote) = if swap_type == SwapType::Buy && input_amount
            >= self.v_base_reserves {
            (
                seed_base_reserves_u64(self.base_mint_decimals),
                seed_quote_reserves_u64(self.quote_mint_decimals),
            )
        } else {
            (self.v_base_reserves, self.v_quote_reserves)
        };
        proof {
            assert(v_base == priced_virtual_reserves(m, input_amount, swap_type).0);
            assert(v_quote == priced_virtual_reserves(m, input_amount, swap_type).1);
        }
        let curve_quote: u64 = match swap_type {
            SwapType::Buy => {
                if input_amount >= v_base {
                    return Err(AmmError::NoReserves);
                }
                proof {
                    assert((input_amount as u128) * (v_quote as u128) <= u128::MAX)
                        by (nonlinear_arith)
                        requires
                            0 <= input_amount < 0x1_0000_0000_0000_0000,
                            0 <= v_quote < 0x1_0000_0000_0000_0000,
                    ;
                }
                let raw: u128 = (input_amount as u128) * (v_quote as u128) / ((v_base
                    - input_amount) as u128);
                if raw >= u64::MAX as u128 {
                    return Err(AmmError::CastingOverflow);
                }
                let priced = Amm { v_base_reserves: v_base, v_quote_reserves: v_quote, ..*self };
                priced.buy_quote(input_amount as u128)
            },
            SwapType::Sell => self.sell_quote(input_amount as u128),
        };
        proof {
            assert(curve_quote == swap_curve_quote(m, input_amount, swap_type));
        }
        let fee_bearing: u128 = (curve_quote as u128) * 99;
        let numerator: u128 = match fee_bearing.checked_mul(output_reserve as u128) {
            Some(n) => n,
            None => {
                return Err(AmmError::Overflow);
            },
        };
        let denominator: u128 = (input_reserve as u128) * 100 + fee_bearing;
        let output_amount: u128 = numerator / denominator;
        proof {
            assert(output_amount == fee_output(
                curve_quote as int,
                input_reserve as int,
                output_reserve as int,
            ));
            // The raw output is strictly smaller than the reserve it is paid
            // from, so the mode adjustment below cannot overflow.
            lemma_mul_strict_inequality(
                fee_bearing as int,
                denominator as int,
                output_reserve as int,
            );
            lemma_multiply_divide_lt(numerator as int, denominator as int, output_reserve as int);
            assert(output_amount < output_reserve);
        }
        let adjusted128: u128 = match self.trading_mode {
            TradingMode::Active => output_amount,
            TradingMode::Boosted => output_amount * 110 / 100,
            TradingMode::Penalized => output_amount * 90 / 100,
        };
        proof {
            assert(adjusted128 == mode_adjusted_output(
                fee_output(curve_quote as int, input_reserve as int, output_reserve as int),
                m.trading_mode,
            ));
        }
        if adjusted128 > u64::MAX as u128 {
            return Err(AmmError::CastingOverflow);
        }
        let adjusted: u64 = adjusted128 as u64;
        if adjusted > output_reserve {
            return Err(AmmError::NoReserves);
        }
        let new_input_reserve128: u128 = input_reserve as u128 + input_amount as u128;
        if new_input_reserve128 > u64::MAX as u128 {
            return Err(AmmError::Overflow);
        }
        let new_input_reserve: u64 = new_input_reserve128 as u64;
        let new_output_reserve: u64 = output_reserve - adjusted;
        let old_k: u128 = self.k();
        proof {
            assert((new_input_reserve as u128) * (new_output_reserve as u128) <= u128::MAX)
                by (nonlinear_arith)
                requires
                    0 <= new_input_reserve < 0x1_0000_0000_0000_0000,
                    0 <= new_output_reserve < 0x1_0000_0000_0000_0000,
            ;
        }
        let new_k: u128 = (new_input_reserve as u128) * (new_output_reserve as u128);
        proof {
            let next = committed_market(m, input_amount, swap_type, adjusted as int);
            assert(new_k == k_of(next)) by (nonlinear_arith)
                requires
                    new_k == new_input_reserve * new_output_reserve,
                    (swap_type is Buy ==> next.real_quote_reserves == new_input_reserve
                        && next.real_base_reserves == new_output_reserve),
                    (swap_type is Sell ==> next.real_base_reserves == new_input_reserve
                        && next.real_quote_reserves == new_output_reserve),
                    k_of(next) == next.real_base_reserves as int * next.real_quote_reserves as int,
            ;
        }
        if new_k < old_k {
            return Err(AmmError::InvariantViolation);
        }
        match swap_type {
            SwapType::Buy => {
                self.v_base_reserves = v_base;
                self.v_quote_reserves = v_quote;
                self.real_quote_reserves = new_input_reserve;
                self.real_base_reserves = new_output_reserve;
            },
            SwapType::Sell => {
                self.real_base_reserves = new_input_reserve;
                self.real_quote_reserves = new_output_reserve;
            },
        }
        proof {
            assert(*self == committed_market(m, input_amount, swap_type, adjusted as int));
        }
        Ok(adjusted)
    }

    /// The swap as a host entrypoint runs it: the realized output must meet
    /// the caller's stated minimum, and a shortfall rolls the whole call
    /// back.
    pub fn swap_with_min_output(
        &mut self,
        input_amount: u64,
        swap_type: SwapType,
        output_amount_min: u64,
    ) -> (r: Result<u64, AmmError>)
        requires
            old(self).wf(),
        ensures
            (swap_outcome(*old(self), input_amount, swap_type).1 matches Ok(out)
                && out >= output_amount_min) ==> (r == swap_outcome(
                *old(self),
                input_amount,
                swap_type,
            ).1 && *final(self) == swap_outcome(*old(self), input_amount, swap_type).0),
            (swap_outcome(*old(self), input_amount, swap_type).1 matches Ok(out)
                && out < output_amount_min) ==> r == Err::<u64, AmmError>(
                AmmError::SlippageExceeded,
            ),
            swap_outcome(*old(self), input_amount, swap_type).1 is Err ==> r == swap_outcome(
                *old(self),
                input_amount,
                swap_type,
            ).1,
            r is Err ==> *final(self) == *old(self),
            final(self).wf(),
    {
        let snapshot = *self;
        let result = self.swap(input_amount, swap_type);
        match result {
            Ok(output_amount) => {
                if output_amount >= output_amount_min {
                    Ok(output_amount)
                } else {
                    *self = snapshot;
                    Err(AmmError::SlippageExceeded)
                }
            },
            Err(e) => Err(e),
        }
    }
}

/// The caller-supplied arguments of the swap entrypoint.
#[derive(Clone, Copy, Debug, PartialEq, Eq, Structural)]
pub struct SwapArgs {
    /// The direction of the trade.
    pub swap_type: SwapType,
    /// The amount handed in.
    pub input_amount: u64,
    /// The least output the caller accepts.
    pub output_amount_min: u64,
}

/// Performs a swap on the market, as the host's trade entrypoint runs it.
pub fn swap(market: &mut Amm, args: SwapArgs) -> (r: Result<u64, AmmError>)
    requires
        old(market).wf(),
    ensures
        (swap_outcome(*old(market), args.input_amount, args.swap_type).1 matches Ok(out)
            && out >= args.output_amount_min) ==> (r == swap_outcome(
            *old(market),
            args.input_amount,
            args.swap_type,
        ).1 && *final(market) == swap_outcome(*old(market), args.input_amount, args.swap_type).0),
        (swap_outcome(*old(market), args.input_amount, args.swap_type).1 matches Ok(out)
            && out < args.output_amount_min) ==> r == Err::<u64, AmmError>(
            AmmError::SlippageExceeded,
        ),
        swap_outcome(*old(market), args.input_amount, args.swap_type).1 is Err ==> r
            == swap_outcome(*old(market), args.input_amount, args.swap_type).1,
        r is Err ==> *final(market) == *old(market),
        final(market).wf(),
{
    market.swap_with_min_output(args.input_amount, args.swap_type, args.output_amount_min)
}

} // verus!
