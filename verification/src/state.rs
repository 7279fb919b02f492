//! The ledger records the engine reads and writes.
//!
//! Identities are the plain integer account addresses the host has already
//! authenticated; the engine only ever compares them. Records live in the
//! host's keyed store: a `Creator` is addressed by its owner's identity, an
//! `Event` by the pair of its creator's address and a per-creator sequence
//! number.

use vstd::prelude::*;

verus! {

/// A creator's ledger record: identity, profile text, and the share supply
/// and event counter that only the settlement engine and the event gate
/// mutate.
#[derive(Debug)]
pub struct Creator {
    /// Identity of the controlling external account; immutable after
    /// creation.
    pub user: u64,
    /// Display name, at most 32 characters; validated once at creation.
    pub name: String,
    /// Profile text, at most 256 characters; validated once at creation.
    pub bio: String,
    /// Shares currently issued. Starts at 1; raised by buys, lowered by
    /// sells, never below the amount sold.
    pub current_supply: u64,
    /// Events created so far; also the sequence number the next event record
    /// is addressed by. Never decreases.
    pub event_count: u64,
}

impl Creator {
    /// The bounds creation established and every later mutation preserves.
    pub open spec fn wf(self) -> bool {
        self.name@.len() <= 32 && self.bio@.len() <= 256
    }
}

/// An event record: created once by the event gate, never mutated.
#[derive(Debug)]
pub struct Event {
    /// Address of the owning creator record.
    pub creator: u64,
    /// Event title, at most 100 characters; validated once at creation.
    pub title: String,
    /// Event date as a timestamp; strictly in the future at creation time.
    pub date: i64,
    /// Minimum share holding to attend; between 1 and the creator's supply
    /// at creation time.
    pub required_shares: u64,
}

impl Event {
    /// The bounds creation established; the record is never mutated after.
    pub open spec fn wf(self) -> bool {
        self.title@.len() <= 100 && self.required_shares >= 1
    }
}

} // verus!
