//! The pricing function and the trade-cost integrator.
//!
//! The marginal price of one share is a discretized linear curve in the
//! supply already issued: `A + A * (supply * B / SCALE)`, in integer
//! arithmetic with floor division. Every step that could exceed `u64::MAX`
//! saturates there instead of wrapping, so an extreme supply yields a large
//! but bounded price, never a silently corrupted one.
//!
//! The cost of a block of shares is the trapezoidal average of the marginal
//! price at the two ends of the traded range, times the quantity — exact for
//! this piecewise-linear curve.

use vstd::prelude::*;

verus! {

use vstd::arithmetic::div_mod::lemma_div_is_ordered;
use vstd::arithmetic::div_mod::lemma_div_pos_is_pos;
use vstd::arithmetic::div_mod::lemma_hoist_over_denominator;
use vstd::arithmetic::mul::lemma_mul_inequality;
use vstd::arithmetic::mul::lemma_mul_is_commutative;
use vstd::arithmetic::mul::lemma_mul_is_distributive_add;
use vstd::arithmetic::mul::lemma_mul_nonnegative;

/// Base price of the very first share, in native currency units.
pub const A: u64 = 100;

/// Steepness factor of the curve.
pub const B: u64 = 10;

/// Scale divisor that turns `supply * B` into a price multiplier.
pub const SCALE: u64 = 1_000_000;

/// Clamp a mathematical integer to the `u64` range from above.
pub open spec fn sat64(x: int) -> int {
    if x > u64::MAX as int {
        u64::MAX as int
    } else {
        x
    }
}

/// Marginal price of the next share when `supply` shares are issued:
/// `A + A * (supply * B / SCALE)`, each multiplication and the final
/// addition clamped to `u64::MAX`.
pub open spec fn price_spec(supply: int) -> int {
    let factor = sat64(supply * (B as int)) / (SCALE as int);
    sat64(A as int + sat64(A as int * factor))
}

/// Aggregate cost of buying `amount` shares at `supply`: the average of the
/// marginal price before and after the purchase, times the quantity, with
/// the post-purchase supply clamped to `u64::MAX`.
pub open spec fn buy_cost_spec(supply: int, amount: int) -> int {
    (price_spec(supply) + price_spec(sat64(supply + amount))) * amount / 2
}

/// Aggregate proceeds of selling `amount` shares at `supply` (meaningful for
/// `amount <= supply`): the average of the marginal price after and before
/// the sale, times the quantity.
pub open spec fn sell_proceeds_spec(supply: int, amount: int) -> int {
    (price_spec(supply - amount) + price_spec(supply)) * amount / 2
}

/// The bonding curve: supply in, price out. No state.
pub struct BondingCurve;

impl BondingCurve {
    /// Marginal price of the next share when `supply` shares are issued.
    pub fn get_price(supply: u64) -> (price: u64)
        ensures
            price as int == price_spec(supply as int),
    {
        let scaled: u64 = match supply.checked_mul(B) {
            Some(m) => m,
            None => u64::MAX,
        };
        let factor: u64 = scaled / SCALE;
        let growth: u64 = match A.checked_mul(factor) {
            Some(m) => m,
            None => u64::MAX,
        };
        A.saturating_add(growth)
    }

    /// Aggregate cost of buying `amount` shares at `supply`, clamped to
    /// `u64::MAX`.
    pub fn get_buy_price(supply: u64, amount: u64) -> (cost: u64)
        ensures
            cost as int == sat64(buy_cost_spec(supply as int, amount as int)),
    {
        let start_price = Self::get_price(supply);
        let end_price = Self::get_price(supply.saturating_add(amount));
        Self::average_times_amount(start_price, end_price, amount)
    }

    /// Aggregate proceeds of selling `amount` shares at `supply`, clamped to
    /// `u64::MAX`.
    pub fn get_sell_price(supply: u64, amount: u64) -> (proceeds: u64)
        requires
            amount <= supply,
        ensures
            proceeds as int == sat64(sell_proceeds_spec(supply as int, amount as int)),
    {
        let start_price = Self::get_price(supply - amount);
        let end_price = Self::get_price(supply);
        Self::average_times_amount(start_price, end_price, amount)
    }

    /// `(start + end) * amount / 2` over mathematical integers, clamped to
    /// `u64::MAX`. Computed in `u128`; a product too large even for `u128`
    /// already exceeds the clamp, so the result is exact in every case.
    fn average_times_amount(start: u64, end: u64, amount: u64) -> (r: u64)
        ensures
            r as int == sat64((start as int + end as int) * (amount as int) / 2),
    {
        let sum: u128 = start as u128 + end as u128;
        match sum.checked_mul(amount as u128) {
            Some(product) => {
                let half: u128 = product / 2;
                if half > u64::MAX as u128 {
                    u64::MAX
                } else {
                    half as u64
                }
            },
            None => {
                proof {
                    // The product exceeds `u128::MAX`, so its half exceeds
                    // `u64::MAX` and the clamp applies.
                    lemma_div_is_ordered(
                        u128::MAX as int + 1,
                        (sum as int) * (amount as int),
                        2,
                    );
                }
                u64::MAX
            },
        }
    }
}

/// The marginal price never falls below the base price `A`, whatever the
/// supply.
pub proof fn lemma_price_at_least_base(supply: int)
    requires
        0 <= supply,
    ensures
        price_spec(supply) >= A as int,
{
    let factor = sat64(supply * (B as int)) / (SCALE as int);
    assert(supply * (B as int) >= 0) by {
        lemma_mul_nonnegative(supply, B as int);
    }
    assert(factor >= 0) by {
        lemma_div_pos_is_pos(sat64(supply * (B as int)), SCALE as int);
    }
    assert(A as int * factor >= 0) by {
        lemma_mul_nonnegative(A as int, factor);
    }
}

/// A buy never costs a negative amount.
pub proof fn lemma_buy_cost_nonnegative(supply: int, amount: int)
    requires
        0 <= supply,
        0 <= amount,
    ensures
        buy_cost_spec(supply, amount) >= 0,
{
    lemma_price_at_least_base(supply);
    lemma_price_at_least_base(sat64(supply + amount));
    let sum = price_spec(supply) + price_spec(sat64(supply + amount));
    assert(sum * amount >= 0) by {
        lemma_mul_nonnegative(sum, amount);
    }
    assert(sum * amount / 2 >= 0) by {
        lemma_div_pos_is_pos(sum * amount, 2);
    }
}

/// The cost of a buy strictly increases with the amount bought: each extra
/// share adds at least the base price to the bill.
pub proof fn lemma_buy_cost_strictly_increasing(supply: int, amount1: int, amount2: int)
    requires
        0 <= supply,
        0 <= amount1 < amount2,
    ensures
        buy_cost_spec(supply, amount1) < buy_cost_spec(supply, amount2),
{
    let p = price_spec(supply);
    let e1 = price_spec(sat64(supply + amount1));
    let e2 = price_spec(sat64(supply + amount2));
    lemma_price_at_least_base(supply);
    lemma_price_at_least_base(sat64(supply + amount1));
    lemma_price_monotonic(sat64(supply + amount1), sat64(supply + amount2));
    let n1 = (p + e1) * amount1;
    let n2 = (p + e2) * amount2;
    assert(n1 + (p + e1) == (p + e1) * (amount1 + 1)) by {
        lemma_mul_is_distributive_add(p + e1, amount1, 1);
    }
    assert((p + e1) * (amount1 + 1) <= (p + e1) * amount2) by {
        lemma_mul_inequality(amount1 + 1, amount2, p + e1);
        lemma_mul_is_commutative(amount1 + 1, p + e1);
        lemma_mul_is_commutative(amount2, p + e1);
    }
    assert((p + e1) * amount2 <= n2) by {
        lemma_mul_inequality(p + e1, p + e2, amount2);
    }
    assert(n1 / 2 + 100 == (n1 + 200) / 2) by {
        lemma_hoist_over_denominator(n1, 100, 2);
    }
    assert((n1 + 200) / 2 <= n2 / 2) by {
        lemma_div_is_ordered(n1 + 200, n2, 2);
    }
}

/// Selling a block straight back at the supply the buy left behind is
/// priced over exactly the range the buy was priced over, so the base
/// proceeds equal the base cost.
pub proof fn lemma_round_trip(supply: int, amount: int)
    requires
        0 <= supply,
        0 <= amount,
        supply + amount <= u64::MAX,
    ensures
        sell_proceeds_spec(supply + amount, amount) == buy_cost_spec(supply, amount),
{
}

/// The marginal price is non-decreasing in the supply.
pub proof fn lemma_price_monotonic(s1: int, s2: int)
    requires
        0 <= s1 <= s2,
    ensures
        price_spec(s1) <= price_spec(s2),
{
    assert(s1 * (B as int) <= s2 * (B as int)) by {
        lemma_mul_inequality(s1, s2, B as int);
    }
    let f1 = sat64(s1 * (B as int)) / (SCALE as int);
    let f2 = sat64(s2 * (B as int)) / (SCALE as int);
    assert(f1 <= f2) by {
        lemma_div_is_ordered(sat64(s1 * (B as int)), sat64(s2 * (B as int)), SCALE as int);
    }
    assert(A as int * f1 <= A as int * f2);
}

} // verus!
