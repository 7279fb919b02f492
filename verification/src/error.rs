//! The error kinds the engine can surface. Each precondition violation maps
//! to exactly one kind; no error is used for control flow elsewhere, and none
//! is retried or swallowed.

use vstd::prelude::*;

verus! {

/// Why a request was rejected. Every validation failure happens before any
/// state mutation, so a caller that sees one of these knows nothing moved.
#[derive(Clone, Copy, Debug, PartialEq, Eq, Structural)]
pub enum SocialFiError {
    /// A creator name longer than the stored bound.
    NameTooLong,
    /// A creator bio longer than the stored bound.
    BioTooLong,
    /// An event title longer than the stored bound.
    TitleTooLong,
    /// An event date not strictly in the future.
    InvalidDate,
    /// A required share count of zero or above the creator's supply.
    InvalidRequiredShares,
    /// A trade of zero shares.
    InvalidAmount,
    /// A sell of more shares than the creator's current supply.
    InsufficientShares,
    /// A pool balance too small to pay out a sell.
    InsufficientContractBalance,
    /// A caller that is not the creator's registered owner.
    UnauthorizedCreator,
    /// A trader balance too small to cover cost plus commission.
    InsufficientFunds,
}

} // verus!
