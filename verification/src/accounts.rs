//! Identities and the balance-bearing entities the engine settles against.
//!
//! The ledger collaborator addresses every entity by a stable identity and
//! owns the actual transfer primitives; the engine only decides and records
//! the balance movements. Identities are modeled as plain integers.

use vstd::prelude::*;

verus! {

/// A stable identity under which the ledger collaborator addresses an
/// entity: a buyer, the treasury, an account, or the engine itself.
pub type Identity = u64;

/// The sentinel identity held by an unset or consumed allow-list slot.
pub const EMPTY_IDENTITY: Identity = 0;

/// The engine's own derived signing authority. After initialization the
/// supply vault is owned by this identity, so only the engine's settlement
/// logic — never a caller-supplied credential — can move units out of it.
/// The ledger collaborator checks this system identity on every outbound
/// vault transfer.
pub const VAULT_AUTHORITY: Identity = 0xD00D;

/// A holder of native currency.
#[derive(Clone, Copy, PartialEq, Eq, Structural, Debug)]
pub struct NativeAccount {
    pub key: Identity,
    pub lamports: u64,
}

/// A holding of fungible units, released to `owner`'s authority.
#[derive(Clone, Copy, PartialEq, Eq, Structural, Debug)]
pub struct TokenAccount {
    pub key: Identity,
    pub owner: Identity,
    pub amount: u64,
}

} // verus!
