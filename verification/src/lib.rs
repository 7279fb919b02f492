//! A bonding-curve share marketplace: creators issue a tradable supply of
//! shares whose unit price is a deterministic, non-decreasing function of the
//! supply already issued. Traders buy and sell against a shared liquidity
//! pool; the creator earns a commission on every trade; creators may also
//! gate time-boxed events behind a minimum share holding.
//!
//! The crate holds the pricing function, the trade-cost integrator, the
//! settlement engine that moves balances and mutates supply, and the event
//! gate. All state the engine touches is modeled as plain values (records and
//! `u64` balances); the host that persists records and authenticates callers
//! sits outside this crate.

use vstd::prelude::*;

pub mod bonding_curve;
pub mod error;
pub mod instructions;
pub mod state;

pub use crate::instructions::create_creator::create_creator;
pub use crate::instructions::create_event::create_event;
pub use crate::instructions::trade_shares::buy_shares;
pub use crate::instructions::trade_shares::sell_shares;

verus! {

use crate::bonding_curve::BondingCurve;
use crate::bonding_curve::buy_cost_spec;
use crate::bonding_curve::sell_proceeds_spec;
use crate::bonding_curve::sat64;
use crate::state::Creator;

/// Quote the base cost (commission excluded) of buying `amount` shares at the
/// creator's current supply.
pub fn get_buy_price(creator: &Creator, amount: u64) -> (price: u64)
    ensures
        price as int == sat64(buy_cost_spec(creator.current_supply as int, amount as int)),
{
    BondingCurve::get_buy_price(creator.current_supply, amount)
}

/// Quote the base proceeds (commission not yet deducted) of selling `amount`
/// shares at the creator's current supply.
pub fn get_sell_price(creator: &Creator, amount: u64) -> (price: u64)
    requires
        amount <= creator.current_supply,
    ensures
        price as int == sat64(sell_proceeds_spec(creator.current_supply as int, amount as int)),
{
    BondingCurve::get_sell_price(creator.current_supply, amount)
}

/// Read the creator's current share supply.
pub fn get_current_supply(creator: &Creator) -> (supply: u64)
    ensures
        supply == creator.current_supply,
{
    creator.current_supply
}

} // verus!
