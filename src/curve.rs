use vstd::prelude::*;

use crate::error::SwapError;
use crate::fees::{opt_int, CurveFees};
use crate::math::{
    ceil_div, ceil_div_spec, div_round, div_round_spec, lemma_ceil_div_bounds, lemma_floor_div_le,
    lemma_sqrt_round_le, sqrt_round, sqrt_round_spec, RoundDirection,
};
use crate::stable::{compute_d, compute_other_balance, stable_d, stable_other_balance};

verus! {

/// The LP supply minted to a pool's first liquidity provider.
pub const INITIAL_SWAP_POOL_AMOUNT: u128 = 1_000_000_000;

/// The four curve families.
#[derive(Clone, Copy, Debug, PartialEq, Eq, Structural)]
pub enum CurveType {
    ConstantProduct,
    ConstantPrice,
    Stable,
    Offset,
}

/// Which reserve the trader deposits into.
#[derive(Clone, Copy, Debug, PartialEq, Eq, Structural)]
pub enum TradeDirection {
    AtoB,
    BtoA,
}

/// A pricing curve with its parameter.
#[derive(Clone, Copy, Debug, PartialEq, Eq, Structural)]
pub enum CurveCalculator {
    /// `a * b = k`.
    ConstantProduct,
    /// One B token is worth `token_b_price` A tokens.
    ConstantPrice { token_b_price: u64 },
    /// The stable-swap invariant with amplification `amp`.
    Stable { amp: u64 },
    /// Constant product with `token_b_offset` of virtual B liquidity.
    Offset { token_b_offset: u64 },
}

/// The outcome of a swap against the curve, fees included.
#[derive(Clone, Copy, Debug, PartialEq, Eq, Structural)]
pub struct SwapResult {
    /// What the trader deposits, fees included.
    pub source_amount_swapped: u128,
    /// What the trader receives.
    pub destination_amount_swapped: u128,
    /// The source reserve after the deposit.
    pub new_swap_source_amount: u128,
    /// The destination reserve after the withdrawal.
    pub new_swap_destination_amount: u128,
    /// The part of the deposit kept by the pool.
    pub trade_fee: u128,
    /// The part of the deposit owed to the pool owner.
    pub owner_fee: u128,
}

/// The curve of a pool.
#[derive(Clone, Copy, Debug, PartialEq, Eq, Structural)]
pub struct SwapCurve {
    pub calculator: CurveCalculator,
}

/// The amount paid out on a deposit of `net` into `src` under `a * b = k`,
/// with the new destination reserve `k / (src + net)` rounded up.
pub open spec fn product_output(net: int, src: int, dst: int) -> Option<int> {
    if src * dst > u128::MAX || src + net > u128::MAX || src + net == 0 {
        None
    } else {
        Some(dst - ceil_div_spec(src * dst, src + net))
    }
}

/// The amount paid out on a deposit of `net` at a fixed price.
pub open spec fn price_output(price: int, net: int, direction: TradeDirection) -> Option<int> {
    if price == 0 {
        None
    } else {
        match direction {
            TradeDirection::AtoB => Some(net / price),
            TradeDirection::BtoA => if net * price > u128::MAX {
                None
            } else {
                Some(net * price)
            },
        }
    }
}

/// The amount paid out on a deposit of `net` under the constant product
/// with `offset` added to the B reserve.
pub open spec fn offset_output(
    offset: int,
    net: int,
    src: int,
    dst: int,
    direction: TradeDirection,
) -> Option<int> {
    match direction {
        TradeDirection::AtoB => if dst + offset > u128::MAX {
            None
        } else {
            product_output(net, src, dst + offset)
        },
        TradeDirection::BtoA => if src + offset > u128::MAX {
            None
        } else {
            product_output(net, src + offset, dst)
        },
    }
}

/// The amount paid out on a deposit of `net` under the stable-swap invariant.
pub open spec fn stable_output(amp: int, net: int, src: int, dst: int) -> Option<int> {
    match stable_d(amp, src, dst) {
        None => None,
        Some(d) => if src + net > u128::MAX {
            None
        } else {
            match stable_other_balance(amp, src + net, d) {
                None => None,
                Some(y) => if y > dst {
                    None
                } else {
                    Some(dst - y)
                },
            }
        },
    }
}

/// The LP tokens worth `x` of a reserve of `reserve` under the constant
/// product: `supply * (1 - sqrt(1 - x / reserve))`, rounded as `round` asks.
pub open spec fn product_withdraw(x: int, reserve: int, supply: int, round: RoundDirection) -> Option<
    int,
> {
    let inner = match round {
        RoundDirection::Floor => RoundDirection::Ceiling,
        RoundDirection::Ceiling => RoundDirection::Floor,
    };
    if reserve == 0 || x > reserve || supply * supply > u128::MAX || supply * supply * (reserve
        - x) > u128::MAX {
        None
    } else {
        Some(
            supply - sqrt_round_spec(
                div_round_spec(supply * supply * (reserve - x), reserve, inner),
                inner,
            ),
        )
    }
}

/// The LP tokens worth `x` at a fixed price: the share of `x`'s value in the
/// value of both reserves, counted in A tokens.
pub open spec fn price_withdraw(
    price: int,
    x: int,
    a: int,
    b: int,
    supply: int,
    direction: TradeDirection,
    round: RoundDirection,
) -> Option<int> {
    let value = match direction {
        TradeDirection::AtoB => x,
        TradeDirection::BtoA => x * price,
    };
    if value > u128::MAX || b * price > u128::MAX || a + b * price > u128::MAX || value * supply
        > u128::MAX || a + b * price == 0 {
        None
    } else {
        Some(div_round_spec(value * supply, a + b * price, round))
    }
}

/// The LP tokens worth `x` under the stable-swap invariant: the share of the
/// invariant that taking `x` out of the source side removes.
pub open spec fn stable_withdraw(
    amp: int,
    x: int,
    a: int,
    b: int,
    supply: int,
    direction: TradeDirection,
    round: RoundDirection,
) -> Option<int> {
    let (na, nb) = match direction {
        TradeDirection::AtoB => (a - x, b),
        TradeDirection::BtoA => (a, b - x),
    };
    if na < 0 || nb < 0 {
        None
    } else {
        match (stable_d(amp, a, b), stable_d(amp, na, nb)) {
            (Some(d0), Some(d1)) => if d0 == 0 || d1 > d0 || supply * (d0 - d1) > u128::MAX {
                None
            } else {
                Some(div_round_spec(supply * (d0 - d1), d0, round))
            },
            _ => None,
        }
    }
}

impl CurveCalculator {
    /// The kind of this curve.
    pub open spec fn kind(&self) -> CurveType {
        match self {
            CurveCalculator::ConstantProduct => CurveType::ConstantProduct,
            CurveCalculator::ConstantPrice { .. } => CurveType::ConstantPrice,
            CurveCalculator::Stable { .. } => CurveType::Stable,
            CurveCalculator::Offset { .. } => CurveType::Offset,
        }
    }

    /// The gross amount paid out for a net deposit of `net`.
    pub open spec fn output_spec(
        &self,
        net: int,
        src: int,
        dst: int,
        direction: TradeDirection,
    ) -> Option<int> {
        match self {
            CurveCalculator::ConstantProduct => product_output(net, src, dst),
            CurveCalculator::ConstantPrice { token_b_price } => price_output(
                *token_b_price as int,
                net,
                direction,
            ),
            CurveCalculator::Stable { amp } => stable_output(*amp as int, net, src, dst),
            CurveCalculator::Offset { token_b_offset } => offset_output(
                *token_b_offset as int,
                net,
                src,
                dst,
                direction,
            ),
        }
    }

    /// The LP tokens worth `x` of the source side of reserves `a`, `b`.
    pub open spec fn withdraw_spec(
        &self,
        x: int,
        a: int,
        b: int,
        supply: int,
        direction: TradeDirection,
        round: RoundDirection,
    ) -> Option<int> {
        match self {
            CurveCalculator::ConstantProduct => match direction {
                TradeDirection::AtoB => product_withdraw(x, a, supply, round),
                TradeDirection::BtoA => product_withdraw(x, b, supply, round),
            },
            CurveCalculator::ConstantPrice { token_b_price } => price_withdraw(
                *token_b_price as int,
                x,
                a,
                b,
                supply,
                direction,
                round,
            ),
            CurveCalculator::Stable { amp } => stable_withdraw(
                *amp as int,
                x,
                a,
                b,
                supply,
                direction,
                round,
            ),
            CurveCalculator::Offset { token_b_offset } => match direction {
                TradeDirection::AtoB => product_withdraw(x, a, supply, round),
                TradeDirection::BtoA => if b + *token_b_offset as int > u128::MAX {
                    None
                } else {
                    product_withdraw(x, b + *token_b_offset as int, supply, round)
                },
            },
        }
    }

    /// The curve parameter is in range: a nonzero price, an amplification
    /// of at least one.
    pub open spec fn valid_spec(&self) -> bool {
        match self {
            CurveCalculator::ConstantProduct => true,
            CurveCalculator::ConstantPrice { token_b_price } => *token_b_price > 0,
            CurveCalculator::Stable { amp } => *amp >= 1,
            CurveCalculator::Offset { .. } => true,
        }
    }

    /// Reserves a pool of this curve may start with: both nonzero for the
    /// constant product and the stable curve, at least one nonzero at a fixed
    /// price, a nonzero A reserve with an offset (the offset stands in for B).
    pub open spec fn supply_ok(&self, a: int, b: int) -> bool {
        match self {
            CurveCalculator::ConstantProduct => a > 0 && b > 0,
            CurveCalculator::ConstantPrice { .. } => a > 0 || b > 0,
            CurveCalculator::Stable { .. } => a > 0 && b > 0,
            CurveCalculator::Offset { .. } => a > 0,
        }
    }
}

/// The amount paid out under `a * b = k`.
fn product_swap(net: u128, src: u128, dst: u128) -> (r: Option<u128>)
    ensures
        opt_int(r) == product_output(net as int, src as int, dst as int),
{
    let k = src.checked_mul(dst)?;
    let new_src = src.checked_add(net)?;
    if new_src == 0 {
        return None;
    }
    let new_dst = ceil_div(k, new_src);
    proof {
        assert(k <= dst * new_src) by (nonlinear_arith)
            requires
                k == src * dst,
                new_src == src + net,
                net >= 0,
                dst >= 0,
        ;
        lemma_ceil_div_bounds(k as int, new_src as int, dst as int);
    }
    Some(dst - new_dst)
}

/// The LP tokens worth `x` of a reserve under `a * b = k`.
fn product_withdraw_exec(x: u128, reserve: u128, supply: u128, round: RoundDirection) -> (r:
    Option<u128>)
    ensures
        opt_int(r) == product_withdraw(x as int, reserve as int, supply as int, round),
{
    if reserve == 0 || x > reserve {
        return None;
    }
    let inner = match round {
        RoundDirection::Floor => RoundDirection::Ceiling,
        RoundDirection::Ceiling => RoundDirection::Floor,
    };
    let square = supply.checked_mul(supply)?;
    let scaled = square.checked_mul(reserve - x)?;
    let ratio = div_round(scaled, reserve, inner);
    let root = sqrt_round(ratio, inner);
    proof {
        let s2 = square as int;
        assert(scaled <= s2 * reserve) by (nonlinear_arith)
            requires
                scaled == s2 * (reserve - x),
                x <= reserve,
                s2 >= 0,
        ;
        lemma_ceil_div_bounds(scaled as int, reserve as int, s2);
        lemma_floor_div_le(scaled as int, reserve as int, s2);
        lemma_sqrt_round_le(ratio as int, supply as int, inner);
    }
    Some(supply - root)
}

/// The LP tokens worth `x` at a fixed price.
fn price_withdraw_exec(
    price: u64,
    x: u128,
    a: u128,
    b: u128,
    supply: u128,
    direction: TradeDirection,
    round: RoundDirection,
) -> (r: Option<u128>)
    ensures
        opt_int(r) == price_withdraw(
            price as int,
            x as int,
            a as int,
            b as int,
            supply as int,
            direction,
            round,
        ),
{
    let value = match direction {
        TradeDirection::AtoB => x,
        TradeDirection::BtoA => x.checked_mul(price as u128)?,
    };
    let total = a.checked_add(b.checked_mul(price as u128)?)?;
    let scaled = value.checked_mul(supply)?;
    if total == 0 {
        return None;
    }
    Some(div_round(scaled, total, round))
}

/// The LP tokens worth `x` under the stable-swap invariant.
fn stable_withdraw_exec(
    amp: u64,
    x: u128,
    a: u128,
    b: u128,
    supply: u128,
    direction: TradeDirection,
    round: RoundDirection,
) -> (r: Option<u128>)
    ensures
        opt_int(r) == stable_withdraw(
            amp as int,
            x as int,
            a as int,
            b as int,
            supply as int,
            direction,
            round,
        ),
{
    let (na, nb) = match direction {
        TradeDirection::AtoB => {
            if x > a {
                return None;
            }
            (a - x, b)
        },
        TradeDirection::BtoA => {
            if x > b {
                return None;
            }
            (a, b - x)
        },
    };
    let d0 = compute_d(amp, a, b);
    let d1 = compute_d(amp, na, nb);
    match (d0, d1) {
        (Some(d0), Some(d1)) => {
            if d0 == 0 || d1 > d0 {
                return None;
            }
            let scaled = supply.checked_mul(d0 - d1)?;
            Some(div_round(scaled, d0, round))
        },
        _ => None,
    }
}

impl CurveCalculator {
    /// The gross amount paid out for a net deposit of `net` into `src`.
    pub fn swap_without_fees(
        &self,
        net: u128,
        src: u128,
        dst: u128,
        direction: TradeDirection,
    ) -> (r: Option<u128>)
        ensures
            opt_int(r) == self.output_spec(net as int, src as int, dst as int, direction),
    {
        match self {
            CurveCalculator::ConstantProduct => product_swap(net, src, dst),
            CurveCalculator::ConstantPrice { token_b_price } => {
                if *token_b_price == 0 {
                    return None;
                }
                match direction {
                    TradeDirection::AtoB => Some(net / (*token_b_price as u128)),
                    TradeDirection::BtoA => net.checked_mul(*token_b_price as u128),
                }
            },
            CurveCalculator::Stable { amp } => {
                let d = compute_d(*amp, src, dst)?;
                let new_src = src.checked_add(net)?;
                let y = compute_other_balance(*amp, new_src, d)?;
                if y > dst {
                    return None;
                }
                Some(dst - y)
            },
            CurveCalculator::Offset { token_b_offset } => match direction {
                TradeDirection::AtoB => {
                    let virtual_dst = dst.checked_add(*token_b_offset as u128)?;
                    product_swap(net, src, virtual_dst)
                },
                TradeDirection::BtoA => {
                    let virtual_src = src.checked_add(*token_b_offset as u128)?;
                    product_swap(net, virtual_src, dst)
                },
            },
        }
    }

    /// The LP tokens worth `x` of the source side of reserves `a`, `b`.
    pub fn withdraw_single_token_type_exact_out(
        &self,
        x: u128,
        a: u128,
        b: u128,
        supply: u128,
        direction: TradeDirection,
        round: RoundDirection,
    ) -> (r: Option<u128>)
        ensures
            opt_int(r) == self.withdraw_spec(
                x as int,
                a as int,
                b as int,
                supply as int,
                direction,
                round,
            ),
    {
        match self {
            CurveCalculator::ConstantProduct => match direction {
                TradeDirection::AtoB => product_withdraw_exec(x, a, supply, round),
                TradeDirection::BtoA => product_withdraw_exec(x, b, supply, round),
            },
            CurveCalculator::ConstantPrice { token_b_price } => price_withdraw_exec(
                *token_b_price,
                x,
                a,
                b,
                supply,
                direction,
                round,
            ),
            CurveCalculator::Stable { amp } => stable_withdraw_exec(
                *amp,
                x,
                a,
                b,
                supply,
                direction,
                round,
            ),
            CurveCalculator::Offset { token_b_offset } => match direction {
                TradeDirection::AtoB => product_withdraw_exec(x, a, supply, round),
                TradeDirection::BtoA => {
                    let virtual_b = b.checked_add(*token_b_offset as u128)?;
                    product_withdraw_exec(x, virtual_b, supply, round)
                },
            },
        }
    }
}

/// The full swap: fees come off the deposit, the curve prices the rest,
/// and the whole deposit lands in the source reserve. `None` when a fee or
/// the curve overflows, the net deposit is zero, nothing would be paid out,
/// or the destination reserve would be emptied.
pub open spec fn swap_spec(
    calculator: CurveCalculator,
    amount: int,
    src: int,
    dst: int,
    direction: TradeDirection,
    fees: CurveFees,
) -> Option<SwapResult> {
    match (fees.trade_fee_spec(amount), fees.owner_fee_spec(amount)) {
        (Some(trade_fee), Some(owner_fee)) => if trade_fee + owner_fee >= amount {
            None
        } else {
            match calculator.output_spec(amount - trade_fee - owner_fee, src, dst, direction) {
                None => None,
                Some(out) => if out <= 0 || out >= dst || src + amount > u128::MAX {
                    None
                } else {
                    Some(
                        SwapResult {
                            source_amount_swapped: amount as u128,
                            destination_amount_swapped: out as u128,
                            new_swap_source_amount: (src + amount) as u128,
                            new_swap_destination_amount: (dst - out) as u128,
                            trade_fee: trade_fee as u128,
                            owner_fee: owner_fee as u128,
                        },
                    )
                },
            }
        },
        _ => None,
    }
}

/// The LP tokens owed for an owner fee of `x` in the source token: the
/// fee plus the owner's withdrawal fee on it, priced as a single-sided
/// withdrawal and rounded in the pool's favour.
pub open spec fn fee_to_pool_tokens_spec(
    calculator: CurveCalculator,
    x: int,
    a: int,
    b: int,
    supply: int,
    direction: TradeDirection,
    fees: CurveFees,
) -> Option<int> {
    if x == 0 {
        Some(0)
    } else {
        match fees.owner_withdraw_fee_spec(x) {
            None => None,
            Some(w) => if x + w > u128::MAX {
                None
            } else {
                calculator.withdraw_spec(x + w, a, b, supply, direction, RoundDirection::Ceiling)
            },
        }
    }
}

/// The LP supply minted when a pool of this curve starts.
pub open spec fn new_pool_supply_spec(curve: SwapCurve) -> int {
    INITIAL_SWAP_POOL_AMOUNT as int
}

impl SwapCurve {
    /// The kind of the curve.
    pub fn curve_type(&self) -> (r: CurveType)
        ensures
            r == self.calculator.kind(),
    {
        match self.calculator {
            CurveCalculator::ConstantProduct => CurveType::ConstantProduct,
            CurveCalculator::ConstantPrice { .. } => CurveType::ConstantPrice,
            CurveCalculator::Stable { .. } => CurveType::Stable,
            CurveCalculator::Offset { .. } => CurveType::Offset,
        }
    }

    /// Swaps `amount` of the source token against reserves `src` and `dst`.
    pub fn swap(
        &self,
        amount: u128,
        src: u128,
        dst: u128,
        direction: TradeDirection,
        fees: &CurveFees,
    ) -> (r: Option<SwapResult>)
        ensures
            r == swap_spec(self.calculator, amount as int, src as int, dst as int, direction, *fees),
    {
        let trade_fee = fees.trade_fee(amount)?;
        let owner_fee = fees.owner_fee(amount)?;
        let total_fees = trade_fee.checked_add(owner_fee)?;
        if total_fees >= amount {
            return None;
        }
        let net = amount - total_fees;
        let out = self.calculator.swap_without_fees(net, src, dst, direction)?;
        if out == 0 || out >= dst {
            return None;
        }
        let new_src = src.checked_add(amount)?;
        Some(
            SwapResult {
                source_amount_swapped: amount,
                destination_amount_swapped: out,
                new_swap_source_amount: new_src,
                new_swap_destination_amount: dst - out,
                trade_fee,
                owner_fee,
            },
        )
    }

    /// The LP tokens owed for an owner fee of `x` in the source token, given
    /// the reserves `a`, `b` after the swap and the LP supply.
    pub fn withdraw_single_token_type_exact_out(
        &self,
        x: u128,
        a: u128,
        b: u128,
        supply: u128,
        direction: TradeDirection,
        fees: &CurveFees,
    ) -> (r: Option<u128>)
        ensures
            opt_int(r) == fee_to_pool_tokens_spec(
                self.calculator,
                x as int,
                a as int,
                b as int,
                supply as int,
                direction,
                *fees,
            ),
    {
        if x == 0 {
            return Some(0);
        }
        let withdraw_fee = fees.owner_withdraw_fee(x)?;
        let with_fee = x.checked_add(withdraw_fee)?;
        self.calculator.withdraw_single_token_type_exact_out(
            with_fee,
            a,
            b,
            supply,
            direction,
            RoundDirection::Ceiling,
        )
    }

    /// Accepts exactly the curves whose parameter is in range.
    pub fn validate(&self) -> (r: Result<(), SwapError>)
        ensures
            r is Ok <==> self.calculator.valid_spec(),
            r is Err ==> r == Err::<(), SwapError>(SwapError::InvalidCurve),
    {
        let ok = match self.calculator {
            CurveCalculator::ConstantProduct => true,
            CurveCalculator::ConstantPrice { token_b_price } => token_b_price > 0,
            CurveCalculator::Stable { amp } => amp >= 1,
            CurveCalculator::Offset { .. } => true,
        };
        if ok {
            Ok(())
        } else {
            Err(SwapError::InvalidCurve)
        }
    }

    /// Accepts exactly the initial reserves that suit the curve.
    pub fn validate_supply(&self, a: u64, b: u64) -> (r: Result<(), SwapError>)
        ensures
            r is Ok <==> self.calculator.supply_ok(a as int, b as int),
            r is Err ==> r == Err::<(), SwapError>(SwapError::EmptySupply),
    {
        let ok = match self.calculator {
            CurveCalculator::ConstantProduct => a > 0 && b > 0,
            CurveCalculator::ConstantPrice { .. } => a > 0 || b > 0,
            CurveCalculator::Stable { .. } => a > 0 && b > 0,
            CurveCalculator::Offset { .. } => a > 0,
        };
        if ok {
            Ok(())
        } else {
            Err(SwapError::EmptySupply)
        }
    }

    /// The LP supply minted to the first liquidity provider.
    pub fn new_pool_supply(&self) -> (r: u128)
        ensures
            r == new_pool_supply_spec(*self),
            r > 0,
    {
        INITIAL_SWAP_POOL_AMOUNT
    }
}

/// The starting LP supply depends on the curve alone, and is positive.
pub proof fn lemma_new_pool_supply_deterministic(c1: SwapCurve, c2: SwapCurve)
    requires
        c1 == c2,
    ensures
        new_pool_supply_spec(c1) == new_pool_supply_spec(c2),
        new_pool_supply_spec(c1) > 0,
{
}

/// Under the constant product, a successful swap never lowers the product
/// of the reserves.
pub proof fn lemma_constant_product_invariant(
    amount: u128,
    src: u128,
    dst: u128,
    direction: TradeDirection,
    fees: CurveFees,
)
    requires
        swap_spec(CurveCalculator::ConstantProduct, amount as int, src as int, dst as int, direction, fees) is Some,
    ensures
        ({
            let r = swap_spec(CurveCalculator::ConstantProduct, amount as int, src as int, dst as int, direction, fees)->0;
            r.new_swap_source_amount * r.new_swap_destination_amount >= src * dst
        }),
{
    let r = swap_spec(CurveCalculator::ConstantProduct, amount as int, src as int, dst as int, direction, fees)->0;
    let tf = fees.trade_fee_spec(amount as int)->0;
    let of = fees.owner_fee_spec(amount as int)->0;
    let net = amount - tf - of;
    let s = src + net;
    let k = src * dst;
    let c = ceil_div_spec(k, s);
    lemma_ceil_div_bounds(k, s, dst as int);
    assert(r.new_swap_destination_amount == c);
    assert(r.new_swap_source_amount >= s);
    assert(r.new_swap_source_amount * c >= s * c) by (nonlinear_arith)
        requires
            r.new_swap_source_amount >= s,
            c >= 0,
    ;
}

} // verus!
