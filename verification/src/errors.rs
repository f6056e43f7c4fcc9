//! The error kinds an operation can reject with.
//!
//! Errors are terminal and local: a rejected operation leaves every entity
//! untouched, and the caller must correct its inputs or wait and resubmit.

use vstd::prelude::*;

verus! {

/// Why an operation was rejected. Each check of the purchase and admin
/// paths fails fast with its own kind.
#[derive(Clone, Copy, PartialEq, Eq, Structural, Debug)]
pub enum ErrorCode {
    /// The payer's native balance does not cover the unit price.
    NotEnoughSOL,
    /// The caller-supplied treasury is not the configured one.
    WrongTreasury,
    /// The caller-supplied vault is not the configured one.
    WrongTokenVault,
    /// The supply vault holds no units.
    SoldOut,
    /// The sale has not reached its launch time yet.
    DoormanNotLiveYet,
    /// Appending the batch would exceed the allow-list capacity.
    NotEnoughSpace,
    /// The caller-supplied allow-list is not the configured one.
    WrongWhitelist,
    /// The claimed allow-list slot index is out of range.
    WhitelistAddressIndexOutOfRange,
    /// The claimed slot does not hold the payer's identity.
    WhitelistAddressNotFound,
    /// Gating is enabled, so the ungated entry point is refused.
    WhitelistOnly,
}

} // verus!
