use vstd::prelude::*;

use crate::error::SwapError;

verus! {

/// `floor(amount * numerator / denominator)`, and `0` for a disabled fee
/// (zero numerator or zero denominator).
pub open spec fn fee_value(amount: int, numerator: int, denominator: int) -> int {
    if numerator == 0 || denominator == 0 {
        0
    } else {
        amount * numerator / denominator
    }
}

/// A fee as computed in 128-bit arithmetic: `None` exactly when the product
/// `amount * numerator` does not fit.
pub open spec fn fee_opt(amount: int, numerator: int, denominator: int) -> Option<int> {
    if numerator == 0 || denominator == 0 {
        Some(0)
    } else if amount * numerator > u128::MAX {
        None
    } else {
        Some(fee_value(amount, numerator, denominator))
    }
}

/// The integer view of an optional 128-bit amount.
pub open spec fn opt_int(o: Option<u128>) -> Option<int> {
    match o {
        Some(v) => Some(v as int),
        None => None,
    }
}

/// A fraction `numerator / denominator` is in range when it is at most one.
pub open spec fn fraction_valid(numerator: int, denominator: int) -> bool {
    numerator <= denominator
}

/// `tn / td + on / od < 1`, where a fraction with a zero denominator counts
/// as zero.
pub open spec fn fractions_sum_below_one(tn: int, td: int, on: int, od: int) -> bool {
    if td == 0 && od == 0 {
        true
    } else if td == 0 {
        on < od
    } else if od == 0 {
        tn < td
    } else {
        tn * od + on * td < td * od
    }
}

/// The four fee fractions of a pool.
#[derive(Clone, Copy, Debug, PartialEq, Eq, Structural)]
pub struct CurveFees {
    pub trade_fee_numerator: u64,
    pub trade_fee_denominator: u64,
    pub owner_trade_fee_numerator: u64,
    pub owner_trade_fee_denominator: u64,
    pub owner_withdraw_fee_numerator: u64,
    pub owner_withdraw_fee_denominator: u64,
    pub host_fee_numerator: u64,
    pub host_fee_denominator: u64,
}

/// `floor(amount * numerator / denominator)` in 128-bit arithmetic.
pub fn calculate_fee(amount: u128, numerator: u64, denominator: u64) -> (r: Option<u128>)
    ensures
        opt_int(r) == fee_opt(amount as int, numerator as int, denominator as int),
{
    if numerator == 0 || denominator == 0 {
        Some(0)
    } else {
        match amount.checked_mul(numerator as u128) {
            None => None,
            Some(product) => Some(product / (denominator as u128)),
        }
    }
}

impl CurveFees {
    /// Every fraction is at most one, and the trade and owner-trade fractions
    /// together stay below one.
    pub open spec fn valid(&self) -> bool {
        &&& fraction_valid(self.trade_fee_numerator as int, self.trade_fee_denominator as int)
        &&& fraction_valid(
            self.owner_trade_fee_numerator as int,
            self.owner_trade_fee_denominator as int,
        )
        &&& fraction_valid(
            self.owner_withdraw_fee_numerator as int,
            self.owner_withdraw_fee_denominator as int,
        )
        &&& fraction_valid(self.host_fee_numerator as int, self.host_fee_denominator as int)
        &&& fractions_sum_below_one(
            self.trade_fee_numerator as int,
            self.trade_fee_denominator as int,
            self.owner_trade_fee_numerator as int,
            self.owner_trade_fee_denominator as int,
        )
    }

    pub open spec fn trade_fee_spec(&self, amount: int) -> Option<int> {
        fee_opt(amount, self.trade_fee_numerator as int, self.trade_fee_denominator as int)
    }

    pub open spec fn owner_fee_spec(&self, amount: int) -> Option<int> {
        fee_opt(
            amount,
            self.owner_trade_fee_numerator as int,
            self.owner_trade_fee_denominator as int,
        )
    }

    pub open spec fn owner_withdraw_fee_spec(&self, amount: int) -> Option<int> {
        fee_opt(
            amount,
            self.owner_withdraw_fee_numerator as int,
            self.owner_withdraw_fee_denominator as int,
        )
    }

    pub open spec fn host_fee_spec(&self, amount: int) -> Option<int> {
        fee_opt(amount, self.host_fee_numerator as int, self.host_fee_denominator as int)
    }

    /// The fee kept by the pool on a trade of `amount`.
    pub fn trade_fee(&self, amount: u128) -> (r: Option<u128>)
        ensures
            opt_int(r) == self.trade_fee_spec(amount as int),
    {
        calculate_fee(amount, self.trade_fee_numerator, self.trade_fee_denominator)
    }

    /// The fee owed to the pool owner on a trade of `amount`.
    pub fn owner_fee(&self, amount: u128) -> (r: Option<u128>)
        ensures
            opt_int(r) == self.owner_fee_spec(amount as int),
    {
        calculate_fee(amount, self.owner_trade_fee_numerator, self.owner_trade_fee_denominator)
    }

    /// The owner's fee on a single-sided withdrawal of `amount`.
    pub fn owner_withdraw_fee(&self, amount: u128) -> (r: Option<u128>)
        ensures
            opt_int(r) == self.owner_withdraw_fee_spec(amount as int),
    {
        calculate_fee(
            amount,
            self.owner_withdraw_fee_numerator,
            self.owner_withdraw_fee_denominator,
        )
    }

    /// The referrer's share of an owner fee of `amount`.
    pub fn host_fee(&self, amount: u128) -> (r: Option<u128>)
        ensures
            opt_int(r) == self.host_fee_spec(amount as int),
    {
        calculate_fee(amount, self.host_fee_numerator, self.host_fee_denominator)
    }

    /// Accepts exactly the valid fee schedules.
    pub fn validate(&self) -> (r: Result<(), SwapError>)
        ensures
            r is Ok <==> self.valid(),
            r is Err ==> r == Err::<(), SwapError>(SwapError::InvalidFee),
    {
        if self.trade_fee_numerator > self.trade_fee_denominator
            || self.owner_trade_fee_numerator > self.owner_trade_fee_denominator
            || self.owner_withdraw_fee_numerator > self.owner_withdraw_fee_denominator
            || self.host_fee_numerator > self.host_fee_denominator
        {
            return Err(SwapError::InvalidFee);
        }
        let tn = self.trade_fee_numerator as u128;
        let td = self.trade_fee_denominator as u128;
        let on = self.owner_trade_fee_numerator as u128;
        let od = self.owner_trade_fee_denominator as u128;
        let below_one = if td == 0 && od == 0 {
            true
        } else if td == 0 {
            on < od
        } else if od == 0 {
            tn < td
        } else {
            // tn * od + on * td < td * od, rearranged so that nothing overflows
            proof {
                lemma_mul_le(tn as int, td as int, od as int);
                lemma_mul_le(on as int, od as int, td as int);
                lemma_mul_le(td as int, u64::MAX as int, od as int);
                lemma_mul_le(od as int, u64::MAX as int, u64::MAX as int);
                assert(u64::MAX as int * u64::MAX as int <= u128::MAX) by (nonlinear_arith);
                assert(td * od == od * td) by (nonlinear_arith);
            }
            let whole = td * od;
            let rest = whole - tn * od;
            on * td < rest
        };
        if below_one {
            Ok(())
        } else {
            Err(SwapError::InvalidFee)
        }
    }
}

/// `a <= b` gives `a * c <= b * c` for a nonnegative `c`.
pub proof fn lemma_mul_le(a: int, b: int, c: int)
    requires
        0 <= a <= b,
        0 <= c,
    ensures
        a * c <= b * c,
        c * a <= c * b,
{
    assert(a * c <= b * c) by (nonlinear_arith)
        requires
            0 <= a <= b,
            0 <= c,
    ;
    assert(c * a <= c * b) by (nonlinear_arith)
        requires
            0 <= a <= b,
            0 <= c,
    ;
}

/// A floored fraction of `amount` is at most the fraction itself:
/// `fee * denominator <= amount * numerator`.
proof fn lemma_fee_times_den(amount: int, numerator: int, denominator: int)
    requires
        amount >= 0,
        numerator >= 0,
        denominator > 0,
    ensures
        fee_value(amount, numerator, denominator) * denominator <= amount * numerator,
        fee_value(amount, numerator, denominator) >= 0,
{
    if numerator != 0 {
        let p = amount * numerator;
        assert(p >= 0) by (nonlinear_arith)
            requires
                amount >= 0,
                numerator >= 0,
                p == amount * numerator,
        ;
        vstd::arithmetic::div_mod::lemma_fundamental_div_mod(p, denominator);
        assert((p / denominator) * denominator <= p) by (nonlinear_arith)
            requires
                p == denominator * (p / denominator) + p % denominator,
                p % denominator >= 0,
        ;
        assert(p / denominator >= 0) by (nonlinear_arith)
            requires
                p >= 0,
                denominator > 0,
        ;
    }
}

/// A fee of a valid fraction never exceeds the amount it is taken from.
pub proof fn lemma_fee_at_most_amount(amount: int, numerator: int, denominator: int)
    requires
        amount >= 0,
        0 <= numerator <= denominator,
    ensures
        0 <= fee_value(amount, numerator, denominator) <= amount,
{
    if numerator != 0 && denominator != 0 {
        lemma_fee_times_den(amount, numerator, denominator);
        let f = fee_value(amount, numerator, denominator);
        assert(f <= amount) by (nonlinear_arith)
            requires
                f * denominator <= amount * numerator,
                0 <= numerator <= denominator,
                denominator > 0,
                amount >= 0,
        ;
    }
}

/// For every valid fee schedule, the trade fee and the owner fee of an
/// amount together never exceed that amount.
pub proof fn lemma_trade_and_owner_fee_bounded(fees: CurveFees, amount: u128)
    requires
        fees.valid(),
    ensures
        fee_value(
            amount as int,
            fees.trade_fee_numerator as int,
            fees.trade_fee_denominator as int,
        ) + fee_value(
            amount as int,
            fees.owner_trade_fee_numerator as int,
            fees.owner_trade_fee_denominator as int,
        ) <= amount,
{
    let a = amount as int;
    let tn = fees.trade_fee_numerator as int;
    let td = fees.trade_fee_denominator as int;
    let on = fees.owner_trade_fee_numerator as int;
    let od = fees.owner_trade_fee_denominator as int;
    let t = fee_value(a, tn, td);
    let o = fee_value(a, on, od);
    lemma_fee_at_most_amount(a, tn, td);
    lemma_fee_at_most_amount(a, on, od);
    if td == 0 || tn == 0 {
        assert(t == 0);
    } else if od == 0 || on == 0 {
        assert(o == 0);
    } else {
        lemma_fee_times_den(a, tn, td);
        lemma_fee_times_den(a, on, od);
        assert(t + o <= a) by (nonlinear_arith)
            requires
                t * td <= a * tn,
                o * od <= a * on,
                tn * od + on * td < td * od,
                td > 0,
                od > 0,
                a >= 0,
                t >= 0,
                o >= 0,
        ;
    }
}

} // verus!
