//! The administrative record describing one sale.

use vstd::prelude::*;
use crate::accounts::Identity;

verus! {

/// Capacity of the allow-list: the fixed number of slots.
pub const MAX_LEN: usize = 1111;

/// The configuration of one sale: price, launch time, supply bookkeeping,
/// the gating flag, and the identities of the treasury, the unit type, the
/// supply vault, and the bound allow-list.
///
/// `whitelist` is bound at creation and never changes afterwards; `counter`
/// is the allow-list write cursor, the number of slots populated so far.
#[derive(Clone, Copy, PartialEq, Eq, Structural, Debug)]
pub struct Config {
    /// When true, purchases must present a valid, unconsumed allow-list slot.
    pub whitelist_enabled: bool,
    /// Price of one unit, in the smallest native denomination.
    pub cost_in_lamports: u64,
    /// Timestamp before which purchases are rejected.
    pub go_live_date: i64,
    /// The admin identity authorized to mutate this record.
    pub authority: Identity,
    /// Identity of the bound allow-list store.
    pub whitelist: Identity,
    /// Identity that receives payment.
    pub treasury: Identity,
    /// Identity of the unit type sold.
    pub mint: Identity,
    /// Identity of the supply vault holding sellable units.
    pub mint_token_vault: Identity,
    /// Allow-list write cursor: slots below it have been populated.
    pub counter: u16,
    /// Units deposited into the vault over the sale's life (informational).
    pub num_tokens: u64,
}

impl Config {
    /// The record's invariant: the cursor never passes the capacity.
    pub open spec fn wf(self) -> bool {
        self.counter as int <= MAX_LEN as int
    }
}

} // verus!
