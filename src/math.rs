use vstd::prelude::*;

verus! {

/// Which way a fractional remainder is rounded.
#[derive(Clone, Copy, Debug, PartialEq, Eq, Structural)]
pub enum RoundDirection {
    Floor,
    Ceiling,
}

/// `ceil(n / d)` for a positive `d`.
pub open spec fn ceil_div_spec(n: int, d: int) -> int {
    (n + d - 1) / d
}

/// `n / d` rounded as `round` asks.
pub open spec fn div_round_spec(n: int, d: int, round: RoundDirection) -> int {
    match round {
        RoundDirection::Floor => n / d,
        RoundDirection::Ceiling => ceil_div_spec(n, d),
    }
}

/// `k` is the integer square root of `n`: `k * k <= n < (k + 1) * (k + 1)`.
pub open spec fn is_sqrt(n: int, k: int) -> bool {
    0 <= k && k * k <= n && n < (k + 1) * (k + 1)
}

/// The integer square root of a nonnegative `n`.
pub open spec fn sqrt_spec(n: int) -> int {
    choose|k: int| is_sqrt(n, k)
}

/// `floor(sqrt(n))` when `round` is `Floor`, `ceil(sqrt(n))` when it is `Ceiling`.
pub open spec fn sqrt_round_spec(n: int, round: RoundDirection) -> int {
    let k = sqrt_spec(n);
    match round {
        RoundDirection::Floor => k,
        RoundDirection::Ceiling => if k * k == n { k } else { k + 1 },
    }
}

/// The integer square root is unique.
pub proof fn lemma_sqrt_unique(n: int, k1: int, k2: int)
    requires
        is_sqrt(n, k1),
        is_sqrt(n, k2),
    ensures
        k1 == k2,
{
    if k1 < k2 {
        assert((k1 + 1) * (k1 + 1) <= k2 * k2) by (nonlinear_arith)
            requires
                0 <= k1 < k2,
        ;
    } else if k2 < k1 {
        assert((k2 + 1) * (k2 + 1) <= k1 * k1) by (nonlinear_arith)
            requires
                0 <= k2 < k1,
        ;
    }
}

/// A square root that satisfies `is_sqrt` is the one `sqrt_spec` names.
pub proof fn lemma_sqrt_is_spec(n: int, k: int)
    requires
        is_sqrt(n, k),
    ensures
        sqrt_spec(n) == k,
{
    let c = sqrt_spec(n);
    assert(is_sqrt(n, c));
    lemma_sqrt_unique(n, k, c);
}

/// Rounding a quotient up gives a value whose multiple covers `n`, and that
/// stays at or below every `m` with `n <= m * d`.
pub proof fn lemma_ceil_div_bounds(n: int, d: int, m: int)
    requires
        0 <= n,
        0 < d,
    ensures
        ceil_div_spec(n, d) * d >= n,
        ceil_div_spec(n, d) >= 0,
        n <= m * d ==> ceil_div_spec(n, d) <= m,
{
    let c = ceil_div_spec(n, d);
    vstd::arithmetic::div_mod::lemma_fundamental_div_mod(n + d - 1, d);
    let r = (n + d - 1) % d;
    assert(c * d >= n) by (nonlinear_arith)
        requires
            n + d - 1 == d * c + r,
            r < d,
    ;
    assert(c >= 0) by (nonlinear_arith)
        requires
            n + d - 1 == d * c + r,
            0 <= r < d,
            n >= 0,
    ;
    if n <= m * d {
        assert(c <= m) by (nonlinear_arith)
            requires
                n + d - 1 == d * c + r,
                0 <= r,
                n <= m * d,
                d > 0,
        ;
    }
}

/// Rounding a quotient down stays at or below every `m` with `n <= m * d`.
pub proof fn lemma_floor_div_le(n: int, d: int, m: int)
    requires
        0 <= n,
        0 < d,
        n <= m * d,
    ensures
        0 <= n / d <= m,
{
    vstd::arithmetic::div_mod::lemma_fundamental_div_mod(n, d);
    let r = n % d;
    let q = n / d;
    assert(0 <= q <= m) by (nonlinear_arith)
        requires
            n == d * q + r,
            0 <= r < d,
            n <= m * d,
            n >= 0,
    ;
}

/// A rounded square root of a number at most `s * s` is at most `s`.
pub proof fn lemma_sqrt_round_le(n: int, s: int, round: RoundDirection)
    requires
        0 <= n <= s * s,
        0 <= s,
    ensures
        0 <= sqrt_round_spec(n, round) <= s,
{
    assert(is_sqrt(n, sqrt_spec(n))) by {
        lemma_sqrt_exists(n, s);
    }
    let k = sqrt_spec(n);
    if k > s {
        assert(k * k >= (s + 1) * (s + 1)) by (nonlinear_arith)
            requires
                k > s >= 0,
        ;
        assert(s * s < (s + 1) * (s + 1)) by (nonlinear_arith)
            requires
                s >= 0,
        ;
    }
    if k == s && k * k != n {
        assert(false);
    }
}

/// Every `n` in `0 ..= s * s` has an integer square root.
pub proof fn lemma_sqrt_exists(n: int, s: int)
    requires
        0 <= n <= s * s,
        0 <= s,
    ensures
        exists|k: int| is_sqrt(n, k),
    decreases s,
{
    if s == 0 {
        assert(is_sqrt(n, 0));
    } else if n <= (s - 1) * (s - 1) {
        lemma_sqrt_exists(n, s - 1);
    } else if n == s * s {
        assert(n < (s + 1) * (s + 1)) by (nonlinear_arith)
            requires
                n == s * s,
                s >= 1,
        ;
        assert(is_sqrt(n, s));
    } else {
        assert(s * s == (s - 1 + 1) * (s - 1 + 1));
        assert(is_sqrt(n, s - 1));
    }
}

/// `ceil(n / d)` in 128-bit arithmetic.
pub fn ceil_div(n: u128, d: u128) -> (r: u128)
    requires
        d > 0,
    ensures
        r == ceil_div_spec(n as int, d as int),
{
    let q = n / d;
    let rem = n % d;
    proof {
        vstd::arithmetic::div_mod::lemma_fundamental_div_mod(n as int, d as int);
        let qi = q as int;
        let ri = rem as int;
        let ni = n as int;
        let di = d as int;
        assert(qi * di == di * qi) by (nonlinear_arith);
        assert((qi + 1) * di == di * qi + di) by (nonlinear_arith);
        if ri == 0 {
            assert((ni + di - 1) / di == qi) by {
                vstd::arithmetic::div_mod::lemma_fundamental_div_mod_converse(
                    ni + di - 1,
                    di,
                    qi,
                    di - 1,
                );
            }
        } else {
            assert((ni + di - 1) / di == qi + 1) by {
                vstd::arithmetic::div_mod::lemma_fundamental_div_mod_converse(
                    ni + di - 1,
                    di,
                    qi + 1,
                    ri - 1,
                );
            }
        }
        if ri != 0 {
            assert(qi < u128::MAX) by (nonlinear_arith)
                requires
                    ni == di * qi + ri,
                    0 < ri < di,
                    ni <= u128::MAX,
                    qi >= 0,
            ;
        }
    }
    if rem == 0 {
        q
    } else {
        q + 1
    }
}

/// `n / d` rounded as `round` asks.
pub fn div_round(n: u128, d: u128, round: RoundDirection) -> (r: u128)
    requires
        d > 0,
    ensures
        r == div_round_spec(n as int, d as int, round),
{
    match round {
        RoundDirection::Floor => n / d,
        RoundDirection::Ceiling => ceil_div(n, d),
    }
}

/// The integer square root of `n`, by bisection.
pub fn sqrt_floor(n: u128) -> (r: u128)
    ensures
        is_sqrt(n as int, r as int),
        r as int == sqrt_spec(n as int),
        r <= u64::MAX,
{
    let mut lo: u128 = 0;
    let mut hi: u128 = 0x1_0000_0000_0000_0000;
    proof {
        assert(hi * hi > u128::MAX) by (nonlinear_arith)
            requires
                hi == 0x1_0000_0000_0000_0000u128,
        ;
    }
    while hi - lo > 1
        invariant
            lo < hi <= 0x1_0000_0000_0000_0000u128,
            lo * lo <= n,
            n < hi * hi,
        decreases hi - lo,
    {
        let mid = lo + (hi - lo) / 2;
        assert(mid * mid <= u128::MAX) by (nonlinear_arith)
            requires
                mid < 0x1_0000_0000_0000_0000u128,
        ;
        if mid * mid <= n {
            lo = mid;
        } else {
            hi = mid;
        }
    }
    proof {
        lemma_sqrt_is_spec(n as int, lo as int);
    }
    lo
}

/// `floor(sqrt(n))` or `ceil(sqrt(n))`, as `round` asks.
pub fn sqrt_round(n: u128, round: RoundDirection) -> (r: u128)
    ensures
        r == sqrt_round_spec(n as int, round),
        r <= u64::MAX + 1,
{
    let k = sqrt_floor(n);
    match round {
        RoundDirection::Floor => k,
        RoundDirection::Ceiling => {
            assert(k * k <= u128::MAX) by (nonlinear_arith)
                requires
                    k <= u64::MAX,
            ;
            if k * k == n {
                k
            } else {
                k + 1
            }
        },
    }
}

} // verus!
