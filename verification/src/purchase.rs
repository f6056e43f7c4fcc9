//! The purchase engine: validates a buy request against the sale
//! configuration (and, when gating is active, against the allow-list) and
//! settles it — payment to the treasury, one unit out of the vault.
//!
//! Each entry point is one atomic transaction of the ledger collaborator:
//! it either returns `Ok` having applied the whole settlement, or returns
//! the first failing check's error with every entity untouched.

use vstd::prelude::*;
use crate::accounts::{Identity, NativeAccount, TokenAccount, EMPTY_IDENTITY, VAULT_AUTHORITY};
use crate::config::{Config, MAX_LEN};
use crate::errors::ErrorCode;
use crate::whitelist::Whitelist;

verus! {

/// The entities touched by [`purchase_mint_token`]: the sale
/// configuration, the paying buyer, the treasury, the supply vault, the
/// buyer's unit holding, and the current time.
pub struct PurchaseMintToken {
    pub config: Config,
    pub payer: NativeAccount,
    pub treasury: NativeAccount,
    pub mint_token_vault: TokenAccount,
    pub payer_mint_account: TokenAccount,
    pub clock: i64,
}

/// The first check an ungated purchase fails, or `None` when every check
/// passes: the sale must be live, the payer funded, the vault non-empty,
/// the supplied treasury and vault the configured ones, and gating must be
/// off — the ungated entry point refuses gated sales outright.
pub open spec fn ungated_error(c: PurchaseMintToken) -> Option<ErrorCode> {
    if c.clock < c.config.go_live_date {
        Some(ErrorCode::DoormanNotLiveYet)
    } else if c.payer.lamports < c.config.cost_in_lamports {
        Some(ErrorCode::NotEnoughSOL)
    } else if c.mint_token_vault.amount == 0 {
        Some(ErrorCode::SoldOut)
    } else if c.treasury.key != c.config.treasury {
        Some(ErrorCode::WrongTreasury)
    } else if c.config.whitelist_enabled {
        Some(ErrorCode::WhitelistOnly)
    } else if c.mint_token_vault.key != c.config.mint_token_vault {
        Some(ErrorCode::WrongTokenVault)
    } else {
        None
    }
}

/// The context after a settlement: the unit price moved from the payer to
/// the treasury and one unit moved from the vault to the payer's holding.
pub open spec fn ungated_settled(c: PurchaseMintToken) -> PurchaseMintToken {
    PurchaseMintToken {
        payer: NativeAccount {
            lamports: (c.payer.lamports - c.config.cost_in_lamports) as u64,
            ..c.payer
        },
        treasury: NativeAccount {
            lamports: (c.treasury.lamports + c.config.cost_in_lamports) as u64,
            ..c.treasury
        },
        mint_token_vault: TokenAccount {
            amount: (c.mint_token_vault.amount - 1) as u64,
            ..c.mint_token_vault
        },
        payer_mint_account: TokenAccount {
            amount: (c.payer_mint_account.amount + 1) as u64,
            ..c.payer_mint_account
        },
        ..c
    }
}

/// Sells one unit on the ungated path, never consulting the allow-list.
///
/// The vault must stand under the engine's derived authority and the
/// buyer's holding under the buyer — the collaborator's transfer
/// primitives demand both. The balance bounds only constrain calls whose
/// checks all pass: the ledger cannot represent a balance beyond `u64`,
/// so a settlement that would pass it is never submitted.
pub fn purchase_mint_token(ctx: &mut PurchaseMintToken) -> (r: Result<(), ErrorCode>)
    requires
        old(ctx).payer_mint_account.owner == old(ctx).payer.key,
        old(ctx).mint_token_vault.owner == VAULT_AUTHORITY,
        ungated_error(*old(ctx)) is None ==> old(ctx).treasury.lamports
            + old(ctx).config.cost_in_lamports <= u64::MAX,
        ungated_error(*old(ctx)) is None ==> old(ctx).payer_mint_account.amount + 1 <= u64::MAX,
    ensures
        ungated_error(*old(ctx)) matches Some(e) ==> r == Err::<(), ErrorCode>(e),
        ungated_error(*old(ctx)) is None ==> r == Ok::<(), ErrorCode>(()),
        r is Err ==> *final(ctx) == *old(ctx),
        r is Ok ==> *final(ctx) == ungated_settled(*old(ctx)),
        r is Ok ==> final(ctx).mint_token_vault.amount == old(ctx).mint_token_vault.amount - 1,
        r is Ok ==> final(ctx).treasury.lamports == old(ctx).treasury.lamports
            + old(ctx).config.cost_in_lamports,
{
    if ctx.clock < ctx.config.go_live_date {
        return Err(ErrorCode::DoormanNotLiveYet);
    }
    if ctx.payer.lamports < ctx.config.cost_in_lamports {
        return Err(ErrorCode::NotEnoughSOL);
    }
    if ctx.mint_token_vault.amount == 0 {
        return Err(ErrorCode::SoldOut);
    }
    if ctx.treasury.key != ctx.config.treasury {
        return Err(ErrorCode::WrongTreasury);
    }
    if ctx.config.whitelist_enabled {
        return Err(ErrorCode::WhitelistOnly);
    }
    if ctx.mint_token_vault.key != ctx.config.mint_token_vault {
        return Err(ErrorCode::WrongTokenVault);
    }
    ctx.payer.lamports = ctx.payer.lamports - ctx.config.cost_in_lamports;
    ctx.treasury.lamports = ctx.treasury.lamports + ctx.config.cost_in_lamports;
    ctx.mint_token_vault.amount = ctx.mint_token_vault.amount - 1;
    ctx.payer_mint_account.amount = ctx.payer_mint_account.amount + 1;
    Ok(())
}

/// The entities touched by [`purchase_mint_token_whitelist`]: those of the
/// ungated path plus the allow-list store and its identity.
pub struct PurchaseMintTokenWhitelist {
    pub config: Config,
    pub payer: NativeAccount,
    pub whitelist_key: Identity,
    pub whitelist: Whitelist,
    pub treasury: NativeAccount,
    pub mint_token_vault: TokenAccount,
    pub payer_mint_account: TokenAccount,
    pub clock: i64,
}

/// Whether the claimed slot index is admissible: inside the capacity and
/// not past the cursor.
pub open spec fn index_in_range(c: PurchaseMintTokenWhitelist, index: u16) -> bool {
    index < MAX_LEN as int && index <= c.config.counter
}

/// The first check a gated purchase fails, or `None` when every check
/// passes. The non-gating checks are those of [`ungated_error`]; when
/// gating is enabled the supplied allow-list, the slot index, and the slot
/// contents are checked as well, and when gating is disabled this entry
/// point skips the allow-list entirely and degenerates to the ungated
/// behavior.
pub open spec fn gated_error(c: PurchaseMintTokenWhitelist, index: u16) -> Option<ErrorCode> {
    if c.clock < c.config.go_live_date {
        Some(ErrorCode::DoormanNotLiveYet)
    } else if c.payer.lamports < c.config.cost_in_lamports {
        Some(ErrorCode::NotEnoughSOL)
    } else if c.mint_token_vault.amount == 0 {
        Some(ErrorCode::SoldOut)
    } else if c.treasury.key != c.config.treasury {
        Some(ErrorCode::WrongTreasury)
    } else if c.config.whitelist_enabled && c.config.whitelist != c.whitelist_key {
        Some(ErrorCode::WrongWhitelist)
    } else if c.config.whitelist_enabled && !index_in_range(c, index) {
        Some(ErrorCode::WhitelistAddressIndexOutOfRange)
    } else if c.config.whitelist_enabled && c.whitelist.addresses@[index as int] != c.payer.key {
        Some(ErrorCode::WhitelistAddressNotFound)
    } else if c.mint_token_vault.key != c.config.mint_token_vault {
        Some(ErrorCode::WrongTokenVault)
    } else {
        None
    }
}

/// Sells one unit on the gated path.
///
/// When gating is enabled the buyer must present the index of an
/// allow-list slot holding their own identity; the slot is cleared back to
/// the sentinel in the same atomic transaction as the settlement, so a
/// rejected settlement never leaves a consumed slot behind. When gating is
/// disabled the allow-list is not consulted and not changed.
pub fn purchase_mint_token_whitelist(
    ctx: &mut PurchaseMintTokenWhitelist,
    whitelist_address_index: u16,
) -> (r: Result<(), ErrorCode>)
    requires
        old(ctx).config.wf(),
        old(ctx).whitelist.wf(),
        old(ctx).payer_mint_account.owner == old(ctx).payer.key,
        old(ctx).mint_token_vault.owner == VAULT_AUTHORITY,
        gated_error(*old(ctx), whitelist_address_index) is None ==> old(ctx).treasury.lamports
            + old(ctx).config.cost_in_lamports <= u64::MAX,
        gated_error(*old(ctx), whitelist_address_index) is None
            ==> old(ctx).payer_mint_account.amount + 1 <= u64::MAX,
    ensures
        final(ctx).config.wf(),
        final(ctx).whitelist.wf(),
        gated_error(*old(ctx), whitelist_address_index) matches Some(e) ==> r == Err::<
            (),
            ErrorCode,
        >(e),
        gated_error(*old(ctx), whitelist_address_index) is None ==> r == Ok::<(), ErrorCode>(()),
        r is Err ==> *final(ctx) == *old(ctx),
        r is Ok ==> final(ctx).whitelist.addresses@ == (if old(ctx).config.whitelist_enabled {
            old(ctx).whitelist.addresses@.update(whitelist_address_index as int, EMPTY_IDENTITY)
        } else {
            old(ctx).whitelist.addresses@
        }),
        r is Ok ==> final(ctx).payer == (NativeAccount {
            lamports: (old(ctx).payer.lamports - old(ctx).config.cost_in_lamports) as u64,
            ..old(ctx).payer
        }),
        r is Ok ==> final(ctx).treasury == (NativeAccount {
            lamports: (old(ctx).treasury.lamports + old(ctx).config.cost_in_lamports) as u64,
            ..old(ctx).treasury
        }),
        r is Ok ==> final(ctx).mint_token_vault == (TokenAccount {
            amount: (old(ctx).mint_token_vault.amount - 1) as u64,
            ..old(ctx).mint_token_vault
        }),
        r is Ok ==> final(ctx).payer_mint_account == (TokenAccount {
            amount: (old(ctx).payer_mint_account.amount + 1) as u64,
            ..old(ctx).payer_mint_account
        }),
        final(ctx).config == old(ctx).config,
        final(ctx).whitelist_key == old(ctx).whitelist_key,
        final(ctx).clock == old(ctx).clock,
{
    if ctx.clock < ctx.config.go_live_date {
        return Err(ErrorCode::DoormanNotLiveYet);
    }
    if ctx.payer.lamports < ctx.config.cost_in_lamports {
        return Err(ErrorCode::NotEnoughSOL);
    }
    if ctx.mint_token_vault.amount == 0 {
        return Err(ErrorCode::SoldOut);
    }
    if ctx.treasury.key != ctx.config.treasury {
        return Err(ErrorCode::WrongTreasury);
    }
    let mut consume_slot = false;
    if ctx.config.whitelist_enabled {
        if ctx.config.whitelist != ctx.whitelist_key {
            return Err(ErrorCode::WrongWhitelist);
        }
        let i: usize = whitelist_address_index as usize;
        if i >= MAX_LEN || whitelist_address_index > ctx.config.counter {
            return Err(ErrorCode::WhitelistAddressIndexOutOfRange);
        }
        if ctx.whitelist.addresses[i] != ctx.payer.key {
            return Err(ErrorCode::WhitelistAddressNotFound);
        }
        consume_slot = true;
    }
    if ctx.mint_token_vault.key != ctx.config.mint_token_vault {
        return Err(ErrorCode::WrongTokenVault);
    }
    if consume_slot {
        let i: usize = whitelist_address_index as usize;
        ctx.whitelist.addresses[i] = EMPTY_IDENTITY;
    }
    ctx.payer.lamports = ctx.payer.lamports - ctx.config.cost_in_lamports;
    ctx.treasury.lamports = ctx.treasury.lamports + ctx.config.cost_in_lamports;
    ctx.mint_token_vault.amount = ctx.mint_token_vault.amount - 1;
    ctx.payer_mint_account.amount = ctx.payer_mint_account.amount + 1;
    Ok(())
}

} // verus!
