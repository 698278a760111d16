use vstd::prelude::*;

use crate::fees::opt_int;
use crate::math::{ceil_div, ceil_div_spec};

verus! {

/// The bound on the Newton iterations of the stable curve; a computation that
/// has not converged by then fails.
pub const STABLE_ITERATIONS: u64 = 32;

/// Two consecutive iterates are within one unit of each other.
pub open spec fn converged(prev: int, next: int) -> bool {
    next - prev <= 1 && prev - next <= 1
}

/// One Newton step towards the invariant `D` of reserves `a`, `b` (given as
/// `a2 = 2a`, `b2 = 2b`, `sum = a + b`) under leverage `ann`:
/// `D' = (ann * sum + 2 Dp) D / ((ann - 1) D + 3 Dp)` with `Dp = D^3 / (4ab)`,
/// `None` when an intermediate value leaves the 128-bit range.
pub open spec fn d_step(ann: int, sum: int, a2: int, b2: int, d: int) -> Option<int> {
    if d * d > u128::MAX || (d * d / a2) * d > u128::MAX {
        None
    } else {
        let dp = (d * d / a2) * d / b2;
        let num = (ann * sum + dp * 2) * d;
        let den = (ann - 1) * d + dp * 3;
        if ann * sum > u128::MAX || dp * 2 > u128::MAX || ann * sum + dp * 2 > u128::MAX || num
            > u128::MAX || ann < 1 || (ann - 1) * d > u128::MAX || dp * 3 > u128::MAX || den
            > u128::MAX || den == 0 {
            None
        } else {
            Some(num / den)
        }
    }
}

/// Newton iteration for `D` from the iterate `d`, with `fuel` steps left.
pub open spec fn d_iterate(ann: int, sum: int, a2: int, b2: int, d: int, fuel: nat) -> Option<
    int,
>
    decreases fuel,
{
    if fuel == 0 {
        None
    } else {
        match d_step(ann, sum, a2, b2, d) {
            None => None,
            Some(next) => if converged(d, next) {
                Some(next)
            } else {
                d_iterate(ann, sum, a2, b2, next, (fuel - 1) as nat)
            },
        }
    }
}

/// The stable-swap invariant `D` of reserves `a` and `b` under amplification
/// `amp` (leverage `2 * amp`), as the bounded Newton iteration started at
/// `a + b` gives it.
pub open spec fn stable_d(amp: int, a: int, b: int) -> Option<int> {
    if a + b > u128::MAX {
        None
    } else if a + b == 0 {
        Some(0)
    } else if a == 0 || b == 0 || a * 2 > u128::MAX || b * 2 > u128::MAX {
        None
    } else {
        d_iterate(amp * 2, a + b, a * 2, b * 2, a + b, STABLE_ITERATIONS as nat)
    }
}

/// One Newton step for the new balance `y` of the other side:
/// `y' = ceil((y^2 + c) / (2y + b - D))`.
pub open spec fn y_step(c: int, b: int, d: int, y: int) -> Option<int> {
    if y * y > u128::MAX || y * y + c > u128::MAX || y * 2 > u128::MAX || y * 2 + b > u128::MAX
        || y * 2 + b <= d {
        None
    } else {
        Some(ceil_div_spec(y * y + c, y * 2 + b - d))
    }
}

/// Newton iteration for `y` from the iterate `y`, with `fuel` steps left.
pub open spec fn y_iterate(c: int, b: int, d: int, y: int, fuel: nat) -> Option<int>
    decreases fuel,
{
    if fuel == 0 {
        None
    } else {
        match y_step(c, b, d, y) {
            None => None,
            Some(next) => if converged(y, next) {
                Some(next)
            } else {
                y_iterate(c, b, d, next, (fuel - 1) as nat)
            },
        }
    }
}

/// The balance of the other side that keeps the invariant at `d` when one
/// side holds `x`: the root of `y^2 + (x + D / ann - D) y = D^3 / (4 x ann)`,
/// as the bounded Newton iteration started at `D` gives it.
pub open spec fn stable_other_balance(amp: int, x: int, d: int) -> Option<int> {
    let ann = amp * 2;
    if x == 0 || ann == 0 || x * 2 > u128::MAX || d * d > u128::MAX || (d * d / (x * 2)) * d
        > u128::MAX {
        None
    } else {
        let c = (d * d / (x * 2)) * d / (ann * 2);
        let b = x + d / ann;
        if b > u128::MAX {
            None
        } else {
            y_iterate(c, b, d, d, STABLE_ITERATIONS as nat)
        }
    }
}

/// One Newton step for `D`.
fn compute_next_d(ann: u128, sum: u128, a2: u128, b2: u128, d: u128) -> (r: Option<u128>)
    requires
        a2 > 0,
        b2 > 0,
    ensures
        opt_int(r) == d_step(ann as int, sum as int, a2 as int, b2 as int, d as int),
{
    let dd = d.checked_mul(d)?;
    let dp = (dd / a2).checked_mul(d)? / b2;
    let leverage = ann.checked_mul(sum)?;
    let num = leverage.checked_add(dp.checked_mul(2)?)?.checked_mul(d)?;
    if ann < 1 {
        return None;
    }
    let den = (ann - 1).checked_mul(d)?.checked_add(dp.checked_mul(3)?)?;
    if den == 0 {
        return None;
    }
    Some(num / den)
}

/// The invariant `D` of reserves `a` and `b`.
pub fn compute_d(amp: u64, a: u128, b: u128) -> (r: Option<u128>)
    ensures
        opt_int(r) == stable_d(amp as int, a as int, b as int),
{
    let sum = a.checked_add(b)?;
    if sum == 0 {
        return Some(0);
    }
    if a == 0 || b == 0 {
        return None;
    }
    let a2 = a.checked_mul(2)?;
    let b2 = b.checked_mul(2)?;
    let ann = (amp as u128) * 2;
    let mut d = sum;
    let mut i: u64 = 0;
    while i < STABLE_ITERATIONS
        invariant
            i <= STABLE_ITERATIONS,
            a2 > 0,
            b2 > 0,
            stable_d(amp as int, a as int, b as int) == d_iterate(
                ann as int,
                sum as int,
                a2 as int,
                b2 as int,
                d as int,
                (STABLE_ITERATIONS - i) as nat,
            ),
        decreases STABLE_ITERATIONS - i,
    {
        let next = compute_next_d(ann, sum, a2, b2, d)?;
        if (if next >= d { next - d } else { d - next }) <= 1 {
            return Some(next);
        }
        d = next;
        i = i + 1;
    }
    None
}

/// One Newton step for `y`.
fn compute_next_y(c: u128, b: u128, d: u128, y: u128) -> (r: Option<u128>)
    ensures
        opt_int(r) == y_step(c as int, b as int, d as int, y as int),
{
    let top = y.checked_mul(y)?.checked_add(c)?;
    let base = y.checked_mul(2)?.checked_add(b)?;
    if base <= d {
        return None;
    }
    Some(ceil_div(top, base - d))
}

/// The balance of the other side that keeps the invariant at `d` when one
/// side holds `x`.
pub fn compute_other_balance(amp: u64, x: u128, d: u128) -> (r: Option<u128>)
    ensures
        opt_int(r) == stable_other_balance(amp as int, x as int, d as int),
{
    let ann = (amp as u128) * 2;
    if x == 0 || ann == 0 {
        return None;
    }
    let x2 = x.checked_mul(2)?;
    let c = (d.checked_mul(d)? / x2).checked_mul(d)? / (ann * 2);
    let b = x.checked_add(d / ann)?;
    let mut y = d;
    let mut i: u64 = 0;
    while i < STABLE_ITERATIONS
        invariant
            i <= STABLE_ITERATIONS,
            stable_other_balance(amp as int, x as int, d as int) == y_iterate(
                c as int,
                b as int,
                d as int,
                y as int,
                (STABLE_ITERATIONS - i) as nat,
            ),
        decreases STABLE_ITERATIONS - i,
    {
        let next = compute_next_y(c, b, d, y)?;
        if (if next >= y { next - y } else { y - next }) <= 1 {
            return Some(next);
        }
        y = next;
        i = i + 1;
    }
    None
}

} // verus!
