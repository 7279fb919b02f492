//! The operations the engine exposes: record creation, the event gate, and
//! the buy/sell settlement paths.

pub mod create_creator;
pub mod create_event;
pub mod trade_shares;
