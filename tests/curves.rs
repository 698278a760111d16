use anchor_swap::curve::{CurveCalculator, CurveType, SwapCurve, TradeDirection};
use anchor_swap::error::SwapError;
use anchor_swap::fees::CurveFees;
use anchor_swap::math::{ceil_div, sqrt_floor, sqrt_round, RoundDirection};
use anchor_swap::stable::{compute_d, compute_other_balance};

fn no_fees() -> CurveFees {
    CurveFees {
        trade_fee_numerator: 0,
        trade_fee_denominator: 0,
        owner_trade_fee_numerator: 0,
        owner_trade_fee_denominator: 0,
        owner_withdraw_fee_numerator: 0,
        owner_withdraw_fee_denominator: 0,
        host_fee_numerator: 0,
        host_fee_denominator: 0,
    }
}

fn curve(calculator: CurveCalculator) -> SwapCurve {
    SwapCurve { calculator }
}

#[test]
fn rounding_helpers() {
    assert_eq!(ceil_div(10, 5), 2);
    assert_eq!(ceil_div(11, 5), 3);
    assert_eq!(ceil_div(0, 5), 0);
    assert_eq!(ceil_div(u128::MAX, 1), u128::MAX);
    assert_eq!(sqrt_floor(0), 0);
    assert_eq!(sqrt_floor(15), 3);
    assert_eq!(sqrt_floor(16), 4);
    assert_eq!(sqrt_floor(u128::MAX), u64::MAX as u128);
    assert_eq!(sqrt_round(15, RoundDirection::Ceiling), 4);
    assert_eq!(sqrt_round(16, RoundDirection::Ceiling), 4);
    assert_eq!(sqrt_round(17, RoundDirection::Floor), 4);
}

#[test]
fn constant_product_example_swap() {
    let mut fees = no_fees();
    fees.trade_fee_numerator = 3;
    fees.trade_fee_denominator = 1000;
    let c = curve(CurveCalculator::ConstantProduct);
    let r = c
        .swap(10_000, 1_000_000, 1_000_000, TradeDirection::AtoB, &fees)
        .unwrap();
    assert_eq!(r.trade_fee, 30);
    assert_eq!(r.owner_fee, 0);
    assert_eq!(r.source_amount_swapped, 10_000);
    // 10,000 - 30 = 9,970 priced: 1,000,000 - ceil(10^12 / 1,009,970)
    assert_eq!(r.destination_amount_swapped, 9_871);
    assert_eq!(r.new_swap_source_amount, 1_010_000);
    assert_eq!(r.new_swap_destination_amount, 990_129);
}

#[test]
fn constant_product_never_lowers_invariant() {
    let c = curve(CurveCalculator::ConstantProduct);
    let mut fees = no_fees();
    for (src, dst, amount) in [
        (1_000_000u128, 1_000_000u128, 10_000u128),
        (7, 13, 5),
        (3, 1000, 1),
        (999, 1001, 17),
        (1_000_000, 1_000_000, 9_970),
    ] {
        for tn in [0u64, 3] {
            fees.trade_fee_numerator = tn;
            fees.trade_fee_denominator = 1000;
            if let Some(r) = c.swap(amount, src, dst, TradeDirection::AtoB, &fees) {
                assert!(r.new_swap_source_amount * r.new_swap_destination_amount >= src * dst);
            }
        }
    }
}

#[test]
fn swap_refuses_zero_net_and_exhaustion() {
    let c = curve(CurveCalculator::ConstantProduct);
    let fees = no_fees();
    assert_eq!(c.swap(0, 1000, 1000, TradeDirection::AtoB, &fees), None);
    // output rounds to zero
    assert_eq!(c.swap(1, 1_000_000, 10, TradeDirection::AtoB, &fees), None);
    // an empty reserve yields nothing
    assert_eq!(c.swap(100, 0, 1000, TradeDirection::AtoB, &fees), None);
    assert_eq!(c.swap(100, 1000, 0, TradeDirection::AtoB, &fees), None);
    // the whole deposit eaten by fees
    let mut all = no_fees();
    all.trade_fee_numerator = 1;
    all.trade_fee_denominator = 2;
    all.owner_trade_fee_numerator = 1;
    all.owner_trade_fee_denominator = 2;
    assert_eq!(c.swap(10, 1000, 1000, TradeDirection::AtoB, &all), None);
}

#[test]
fn constant_price_swaps_at_fixed_rate() {
    let c = curve(CurveCalculator::ConstantPrice { token_b_price: 4 });
    let fees = no_fees();
    let ab = c.swap(1000, 10_000, 10_000, TradeDirection::AtoB, &fees).unwrap();
    assert_eq!(ab.destination_amount_swapped, 250);
    assert_eq!(ab.new_swap_destination_amount, 9_750);
    let ba = c.swap(1000, 10_000, 10_000, TradeDirection::BtoA, &fees).unwrap();
    assert_eq!(ba.destination_amount_swapped, 4_000);
    // more than the reserve holds
    assert_eq!(c.swap(3000, 10_000, 10_000, TradeDirection::BtoA, &fees), None);
    // too little for one B token
    assert_eq!(c.swap(3, 10_000, 10_000, TradeDirection::AtoB, &fees), None);
    let zero = curve(CurveCalculator::ConstantPrice { token_b_price: 0 });
    assert_eq!(zero.swap(1000, 10_000, 10_000, TradeDirection::AtoB, &fees), None);
}

#[test]
fn offset_adds_virtual_b_liquidity() {
    let c = curve(CurveCalculator::Offset { token_b_offset: 490_000 });
    let fees = no_fees();
    let r = c.swap(1000, 1_000_000, 10_000, TradeDirection::AtoB, &fees).unwrap();
    assert_eq!(r.destination_amount_swapped, 499);
    assert_eq!(r.new_swap_destination_amount, 9_501);
    // the virtual liquidity cannot be paid out
    let empty = curve(CurveCalculator::Offset { token_b_offset: 500_000 });
    assert_eq!(empty.swap(1000, 1_000_000, 0, TradeDirection::AtoB, &fees), None);
}

#[test]
fn stable_swap_stays_near_peg() {
    let c = curve(CurveCalculator::Stable { amp: 100 });
    let fees = no_fees();
    let r = c.swap(1000, 500_000, 500_000, TradeDirection::AtoB, &fees).unwrap();
    assert_eq!(r.destination_amount_swapped, 999);
    assert!(r.destination_amount_swapped >= 995 && r.destination_amount_swapped <= 1000);
    let cp = curve(CurveCalculator::ConstantProduct);
    let p = cp.swap(1000, 500_000, 500_000, TradeDirection::AtoB, &fees).unwrap();
    assert!(p.destination_amount_swapped < r.destination_amount_swapped);
    let back = c.swap(1000, 500_000, 500_000, TradeDirection::BtoA, &fees).unwrap();
    assert_eq!(back.destination_amount_swapped, 999);
}

#[test]
fn stable_invariant_values() {
    assert_eq!(compute_d(100, 500_000, 500_000), Some(1_000_000));
    assert_eq!(compute_d(100, 1_000_000, 2_000_000), Some(2_998_146));
    assert_eq!(compute_d(100, 0, 0), Some(0));
    assert_eq!(compute_d(100, 0, 5), None);
    assert_eq!(compute_d(0, 10, 10), None);
    assert_eq!(compute_other_balance(100, 0, 10), None);
    let c = curve(CurveCalculator::Stable { amp: 10 });
    let r = c.swap(5000, 1_000_000, 2_000_000, TradeDirection::AtoB, &no_fees()).unwrap();
    assert_eq!(r.destination_amount_swapped, 5_380);
}

#[test]
fn fee_to_pool_tokens_per_curve() {
    let mut fees = no_fees();
    let s = 1_000_000_000u128;
    let cp = curve(CurveCalculator::ConstantProduct);
    assert_eq!(
        cp.withdraw_single_token_type_exact_out(1000, 1_000_000, 7, s, TradeDirection::AtoB, &fees),
        Some(500_126)
    );
    assert_eq!(
        cp.withdraw_single_token_type_exact_out(0, 1_000_000, 7, s, TradeDirection::AtoB, &fees),
        Some(0)
    );
    assert_eq!(
        cp.withdraw_single_token_type_exact_out(1000, 1_000_000, 0, s, TradeDirection::BtoA, &fees),
        None
    );
    fees.owner_withdraw_fee_numerator = 1;
    fees.owner_withdraw_fee_denominator = 10;
    assert_eq!(
        cp.withdraw_single_token_type_exact_out(1000, 1_000_000, 7, s, TradeDirection::AtoB, &fees),
        Some(550_152)
    );
    let fees = no_fees();
    let price = curve(CurveCalculator::ConstantPrice { token_b_price: 2 });
    assert_eq!(
        price.withdraw_single_token_type_exact_out(1000, 1_000_000, 500_000, s, TradeDirection::AtoB, &fees),
        Some(500_000)
    );
    assert_eq!(
        price.withdraw_single_token_type_exact_out(1000, 1_000_000, 500_000, s, TradeDirection::BtoA, &fees),
        Some(1_000_000)
    );
    let stable = curve(CurveCalculator::Stable { amp: 100 });
    assert_eq!(
        stable.withdraw_single_token_type_exact_out(1000, 500_000, 500_000, s, TradeDirection::AtoB, &fees),
        Some(1_000_000)
    );
    let offset = curve(CurveCalculator::Offset { token_b_offset: 500_000 });
    assert_eq!(
        offset.withdraw_single_token_type_exact_out(1000, 1_000_000, 0, s, TradeDirection::BtoA, &fees),
        Some(1_000_501)
    );
}

#[test]
fn calculator_withdraw_rounds_both_ways() {
    let cp = CurveCalculator::ConstantProduct;
    let s = 1_000_000_000u128;
    assert_eq!(
        cp.withdraw_single_token_type_exact_out(1000, 1_000_000, 1, s, TradeDirection::AtoB, RoundDirection::Ceiling),
        Some(500_126)
    );
    assert_eq!(
        cp.withdraw_single_token_type_exact_out(1000, 1_000_000, 1, s, TradeDirection::AtoB, RoundDirection::Floor),
        Some(500_125)
    );
    assert_eq!(
        cp.withdraw_single_token_type_exact_out(1_000_001, 1_000_000, 1, s, TradeDirection::AtoB, RoundDirection::Floor),
        None
    );
    assert_eq!(
        cp.withdraw_single_token_type_exact_out(1_000_000, 1_000_000, 1, s, TradeDirection::AtoB, RoundDirection::Floor),
        Some(s)
    );
}

#[test]
fn curve_parameter_validation() {
    assert_eq!(curve(CurveCalculator::ConstantProduct).validate(), Ok(()));
    assert_eq!(curve(CurveCalculator::ConstantPrice { token_b_price: 1 }).validate(), Ok(()));
    assert_eq!(
        curve(CurveCalculator::ConstantPrice { token_b_price: 0 }).validate(),
        Err(SwapError::InvalidCurve)
    );
    assert_eq!(curve(CurveCalculator::Stable { amp: 1 }).validate(), Ok(()));
    assert_eq!(
        curve(CurveCalculator::Stable { amp: 0 }).validate(),
        Err(SwapError::InvalidCurve)
    );
    assert_eq!(curve(CurveCalculator::Offset { token_b_offset: 0 }).validate(), Ok(()));
}

#[test]
fn initial_supply_table() {
    let cp = curve(CurveCalculator::ConstantProduct);
    assert_eq!(cp.validate_supply(1, 1), Ok(()));
    assert_eq!(cp.validate_supply(0, 1), Err(SwapError::EmptySupply));
    assert_eq!(cp.validate_supply(1, 0), Err(SwapError::EmptySupply));
    let st = curve(CurveCalculator::Stable { amp: 5 });
    assert_eq!(st.validate_supply(3, 3), Ok(()));
    assert_eq!(st.validate_supply(0, 3), Err(SwapError::EmptySupply));
    let pr = curve(CurveCalculator::ConstantPrice { token_b_price: 2 });
    assert_eq!(pr.validate_supply(0, 3), Ok(()));
    assert_eq!(pr.validate_supply(3, 0), Ok(()));
    assert_eq!(pr.validate_supply(0, 0), Err(SwapError::EmptySupply));
    let off = curve(CurveCalculator::Offset { token_b_offset: 9 });
    assert_eq!(off.validate_supply(3, 0), Ok(()));
    assert_eq!(off.validate_supply(0, 3), Err(SwapError::EmptySupply));
}

#[test]
fn new_pool_supply_is_fixed_and_positive() {
    for calc in [
        CurveCalculator::ConstantProduct,
        CurveCalculator::ConstantPrice { token_b_price: 3 },
        CurveCalculator::Stable { amp: 7 },
        CurveCalculator::Offset { token_b_offset: 11 },
    ] {
        let c = curve(calc);
        let first = c.new_pool_supply();
        assert!(first > 0);
        assert_eq!(first, c.new_pool_supply());
        assert_eq!(first, 1_000_000_000);
    }
}

#[test]
fn curve_kinds() {
    assert_eq!(curve(CurveCalculator::ConstantProduct).curve_type(), CurveType::ConstantProduct);
    assert_eq!(
        curve(CurveCalculator::ConstantPrice { token_b_price: 1 }).curve_type(),
        CurveType::ConstantPrice
    );
    assert_eq!(curve(CurveCalculator::Stable { amp: 1 }).curve_type(), CurveType::Stable);
    assert_eq!(curve(CurveCalculator::Offset { token_b_offset: 1 }).curve_type(), CurveType::Offset);
}

#[test]
fn largest_reserves() {
    let m = u64::MAX as u128;
    let cp = curve(CurveCalculator::ConstantProduct);
    let r = cp.swap(m / 2, m, m, TradeDirection::AtoB, &no_fees()).unwrap();
    assert_eq!(r.destination_amount_swapped, 6_148_914_691_236_517_204);
    assert_eq!(r.new_swap_source_amount, m + m / 2);
    // the product of the reserves no longer fits
    assert_eq!(cp.swap(10, m * 2, m, TradeDirection::AtoB, &no_fees()), None);
    // the stable invariant overflows on reserves this large
    let st = curve(CurveCalculator::Stable { amp: 100 });
    assert_eq!(st.swap(10, m, m, TradeDirection::AtoB, &no_fees()), None);
}
