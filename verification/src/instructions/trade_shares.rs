//! The trade settlement engine.
//!
//! A trade is one atomic transition over the creator record and the three
//! balances it touches: the trader's, the shared pool's, and the creator's
//! own. All validation happens before any value moves; a rejected request
//! leaves every input exactly as it was. On a buy the pool receives the base
//! cost and the creator a 20% commission on top, both paid by the trader; on
//! a sell the pool pays the trader the proceeds less a 5% commission, which
//! goes to the creator instead.

use vstd::prelude::*;

verus! {

use vstd::arithmetic::div_mod::lemma_div_is_ordered;
use vstd::arithmetic::div_mod::lemma_div_multiples_vanish;
use vstd::arithmetic::div_mod::lemma_div_pos_is_pos;

use crate::bonding_curve::BondingCurve;
use crate::bonding_curve::buy_cost_spec;
use crate::bonding_curve::lemma_buy_cost_nonnegative;
use crate::bonding_curve::lemma_round_trip;
use crate::bonding_curve::sat64;
use crate::bonding_curve::sell_proceeds_spec;
use crate::error::SocialFiError;
use crate::state::Creator;

/// Creator commission on a buy, as a percentage of the base cost.
pub const BUY_COMMISSION_PERCENT: u64 = 20;

/// Creator commission on a sell, as a percentage of the base proceeds.
pub const SELL_COMMISSION_PERCENT: u64 = 5;

/// The base cost a buy is priced at: the curve's aggregate cost, clamped to
/// `u64::MAX`.
pub open spec fn buy_base_cost(supply: int, amount: int) -> int {
    sat64(buy_cost_spec(supply, amount))
}

/// The creator's cut of a buy.
pub open spec fn buy_commission(supply: int, amount: int) -> int {
    buy_base_cost(supply, amount) * (BUY_COMMISSION_PERCENT as int) / 100
}

/// What the trader is charged for a buy: base cost plus commission, clamped
/// to `u64::MAX`.
pub open spec fn buy_total_cost(supply: int, amount: int) -> int {
    sat64(buy_base_cost(supply, amount) + buy_commission(supply, amount))
}

/// The base proceeds a sell is priced at: the curve's aggregate proceeds,
/// clamped to `u64::MAX`.
pub open spec fn sell_base_proceeds(supply: int, amount: int) -> int {
    sat64(sell_proceeds_spec(supply, amount))
}

/// The creator's cut of a sell, taken out of the proceeds.
pub open spec fn sell_commission(supply: int, amount: int) -> int {
    sell_base_proceeds(supply, amount) * (SELL_COMMISSION_PERCENT as int) / 100
}

/// What the trader is paid for a sell: proceeds less commission.
pub open spec fn sell_payout(supply: int, amount: int) -> int {
    sell_base_proceeds(supply, amount) - sell_commission(supply, amount)
}

/// Settle a buy of `amount` shares from the named creator.
///
/// Validation first: a zero amount is rejected, then the trader's balance is
/// checked against the combined cost-plus-commission before either movement
/// is made. On success the trader pays the total, the pool receives the base
/// cost, the creator's balance receives the commission, and the supply rises
/// by `amount`. On any rejection nothing changes.
pub fn buy_shares(
    creator: &mut Creator,
    trader_balance: &mut u64,
    pool_balance: &mut u64,
    creator_balance: &mut u64,
    amount: u64,
) -> (result: Result<(), SocialFiError>)
    requires
        old(creator).current_supply + amount <= u64::MAX,
    ensures
        result is Ok <==> (amount > 0 && *old(trader_balance) as int >= buy_total_cost(
            old(creator).current_supply as int,
            amount as int,
        )),
        (result == Err::<(), SocialFiError>(SocialFiError::InvalidAmount)) <==> amount == 0,
        (result == Err::<(), SocialFiError>(SocialFiError::InsufficientFunds)) <==> (amount > 0
            && (*old(trader_balance) as int) < buy_total_cost(
            old(creator).current_supply as int,
            amount as int,
        )),
        result is Ok ==> {
            let supply = old(creator).current_supply as int;
            &&& final(creator).current_supply == old(creator).current_supply + amount
            &&& *final(trader_balance) as int == *old(trader_balance) as int - buy_total_cost(
                supply,
                amount as int,
            )
            &&& *final(pool_balance) as int == sat64(
                *old(pool_balance) as int + buy_base_cost(supply, amount as int),
            )
            &&& *final(creator_balance) as int == sat64(
                *old(creator_balance) as int + buy_commission(supply, amount as int),
            )
        },
        final(creator).user == old(creator).user,
        final(creator).name == old(creator).name,
        final(creator).bio == old(creator).bio,
        final(creator).event_count == old(creator).event_count,
        old(creator).wf() ==> final(creator).wf(),
        result is Err ==> final(creator).current_supply == old(creator).current_supply
            && *final(trader_balance) == *old(trader_balance) && *final(pool_balance) == *old(
            pool_balance,
        ) && *final(creator_balance) == *old(creator_balance),
{
    if amount == 0 {
        return Err(SocialFiError::InvalidAmount);
    }
    let cost = BondingCurve::get_buy_price(creator.current_supply, amount);
    proof {
        lemma_commission_at_most_value(cost as int, BUY_COMMISSION_PERCENT as int);
    }
    let commission = ((cost as u128) * (BUY_COMMISSION_PERCENT as u128) / 100) as u64;
    let total_cost = cost.saturating_add(commission);
    if *trader_balance < total_cost {
        return Err(SocialFiError::InsufficientFunds);
    }
    *trader_balance = *trader_balance - total_cost;
    *pool_balance = (*pool_balance).saturating_add(cost);
    *creator_balance = (*creator_balance).saturating_add(commission);
    creator.current_supply = creator.current_supply + amount;
    Ok(())
}

/// Settle a sell of `amount` shares back to the named creator's pool.
///
/// Validation first: a zero amount is rejected, then the amount is checked
/// against the current supply, then the pool's balance against the full
/// proceeds (payout plus commission) before either movement is made. On
/// success the pool pays the full proceeds out — the payout to the trader,
/// the commission to the creator's balance — and the supply falls by
/// `amount`. On any rejection nothing changes.
pub fn sell_shares(
    creator: &mut Creator,
    trader_balance: &mut u64,
    pool_balance: &mut u64,
    creator_balance: &mut u64,
    amount: u64,
) -> (result: Result<(), SocialFiError>)
    ensures
        result is Ok <==> (amount > 0 && amount <= old(creator).current_supply && *old(
            pool_balance,
        ) as int >= sell_base_proceeds(old(creator).current_supply as int, amount as int)),
        (result == Err::<(), SocialFiError>(SocialFiError::InvalidAmount)) <==> amount == 0,
        (result == Err::<(), SocialFiError>(SocialFiError::InsufficientShares)) <==> (amount > 0
            && amount > old(creator).current_supply),
        (result == Err::<(), SocialFiError>(SocialFiError::InsufficientContractBalance)) <==> (
        amount > 0 && amount <= old(creator).current_supply && (*old(pool_balance) as int)
            < sell_base_proceeds(old(creator).current_supply as int, amount as int)),
        result is Ok ==> {
            let supply = old(creator).current_supply as int;
            &&& final(creator).current_supply == old(creator).current_supply - amount
            &&& *final(pool_balance) as int == *old(pool_balance) as int - sell_base_proceeds(
                supply,
                amount as int,
            )
            &&& *final(trader_balance) as int == sat64(
                *old(trader_balance) as int + sell_payout(supply, amount as int),
            )
            &&& *final(creator_balance) as int == sat64(
                *old(creator_balance) as int + sell_commission(supply, amount as int),
            )
        },
        final(creator).user == old(creator).user,
        final(creator).name == old(creator).name,
        final(creator).bio == old(creator).bio,
        final(creator).event_count == old(creator).event_count,
        old(creator).wf() ==> final(creator).wf(),
        result is Err ==> final(creator).current_supply == old(creator).current_supply
            && *final(trader_balance) == *old(trader_balance) && *final(pool_balance) == *old(
            pool_balance,
        ) && *final(creator_balance) == *old(creator_balance),
{
    if amount == 0 {
        return Err(SocialFiError::InvalidAmount);
    }
    if amount > creator.current_supply {
        return Err(SocialFiError::InsufficientShares);
    }
    let proceeds = BondingCurve::get_sell_price(creator.current_supply, amount);
    let commission = ((proceeds as u128) * (SELL_COMMISSION_PERCENT as u128) / 100) as u64;
    proof {
        lemma_commission_at_most_value(proceeds as int, SELL_COMMISSION_PERCENT as int);
    }
    let payout = proceeds - commission;
    if *pool_balance < proceeds {
        return Err(SocialFiError::InsufficientContractBalance);
    }
    *pool_balance = *pool_balance - proceeds;
    *trader_balance = (*trader_balance).saturating_add(payout);
    *creator_balance = (*creator_balance).saturating_add(commission);
    creator.current_supply = creator.current_supply - amount;
    Ok(())
}

/// A percentage cut of a non-negative value never exceeds the value itself.
proof fn lemma_commission_at_most_value(value: int, percent: int)
    requires
        0 <= value,
        0 <= percent <= 100,
    ensures
        0 <= value * percent / 100 <= value,
{
    assert(0 <= value * percent) by {
        vstd::arithmetic::mul::lemma_mul_nonnegative(value, percent);
    }
    assert(value * percent <= value * 100) by {
        vstd::arithmetic::mul::lemma_mul_inequality(percent, 100, value);
        vstd::arithmetic::mul::lemma_mul_is_commutative(percent, value);
        vstd::arithmetic::mul::lemma_mul_is_commutative(100, value);
    }
    assert(value * percent / 100 <= value * 100 / 100) by {
        lemma_div_is_ordered(value * percent, value * 100, 100);
    }
    assert(value * 100 / 100 == value) by {
        lemma_div_multiples_vanish(value, 100);
        vstd::arithmetic::mul::lemma_mul_is_commutative(100, value);
    }
    assert(0 <= value * percent / 100) by {
        lemma_div_pos_is_pos(value * percent, 100);
    }
}

/// A round trip never profits the trader: buying `amount` at `supply` and
/// selling the same `amount` straight back pays out no more than was
/// charged. The commission asymmetry — 20% added on the way in, 5% deducted
/// on the way out of identical base value — guarantees it.
pub proof fn lemma_round_trip_payout_bounded(supply: int, amount: int)
    requires
        0 <= supply,
        0 <= amount,
        supply + amount <= u64::MAX,
    ensures
        sell_base_proceeds(supply + amount, amount) == buy_base_cost(supply, amount),
        sell_payout(supply + amount, amount) <= buy_total_cost(supply, amount),
{
    lemma_round_trip(supply, amount);
    lemma_buy_cost_nonnegative(supply, amount);
    let base = buy_base_cost(supply, amount);
    lemma_commission_at_most_value(base, SELL_COMMISSION_PERCENT as int);
    lemma_commission_at_most_value(base, BUY_COMMISSION_PERCENT as int);
}

/// Serialized settlement loses no update: when two buys against the same
/// creator commit one after the other — in either order — each observes the
/// supply its predecessor wrote, and the final supply is the initial supply
/// plus both amounts.
///
/// The hypotheses are exactly what `buy_shares` ensures of the supply on a
/// committed trade; the host ledger serializes the two transactions.
pub proof fn lemma_sequential_buys_no_lost_update(
    initial: Creator,
    mid_a: Creator,
    last_a: Creator,
    mid_b: Creator,
    last_b: Creator,
    amount1: int,
    amount2: int,
)
    requires
        mid_a.current_supply == initial.current_supply + amount1,
        last_a.current_supply == mid_a.current_supply + amount2,
        mid_b.current_supply == initial.current_supply + amount2,
        last_b.current_supply == mid_b.current_supply + amount1,
    ensures
        last_a.current_supply == initial.current_supply + amount1 + amount2,
        last_b.current_supply == last_a.current_supply,
{
}

} // verus!
