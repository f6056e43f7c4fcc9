//! Admin operations: initialize the sale, top up supply, populate the
//! allow-list, rewind its cursor, edit configuration, and close the
//! allow-list.
//!
//! Each operation is one atomic transaction of the ledger collaborator.
//! The collaborator verifies the admin's signature and the `has_one`
//! bindings between the passed entities before the operation runs; those
//! facts therefore stand in `requires`, not in the bodies.

use vstd::prelude::*;
use crate::accounts::{Identity, TokenAccount, EMPTY_IDENTITY, VAULT_AUTHORITY};
use crate::config::{Config, MAX_LEN};
use crate::errors::ErrorCode;
use crate::whitelist::{cursor_after_append, write_batch, Whitelist};

verus! {

/// The entities touched by [`initialize`]: the configuration record being
/// created, the zeroed allow-list store bound to it, the admin's unit
/// holding, and the supply vault.
pub struct Initialize {
    pub config: Config,
    pub authority: Identity,
    pub whitelist_key: Identity,
    pub whitelist: Whitelist,
    pub treasury: Identity,
    pub mint: Identity,
    pub authority_mint_account: TokenAccount,
    pub mint_token_vault: TokenAccount,
}

/// Creates the sale: records every configuration field, zeroes the
/// allow-list and binds it, enables gating, delegates the vault to the
/// engine's own [`VAULT_AUTHORITY`], and moves `num_tokens` units from the
/// admin's holding into the vault.
///
/// The collaborator rejects the transaction outright when the admin's
/// holding has fewer than `num_tokens` units, so that case is excluded
/// here rather than reported as an error kind.
pub fn initialize(
    ctx: &mut Initialize,
    num_tokens: u64,
    cost_in_lamports: u64,
    go_live_date: i64,
) -> (r: Result<(), ErrorCode>)
    requires
        old(ctx).authority_mint_account.owner == old(ctx).authority,
        old(ctx).authority_mint_account.amount >= num_tokens,
        old(ctx).mint_token_vault.amount + num_tokens <= u64::MAX,
    ensures
        r is Ok,
        final(ctx).config == (Config {
            whitelist_enabled: true,
            cost_in_lamports,
            go_live_date,
            authority: old(ctx).authority,
            whitelist: old(ctx).whitelist_key,
            treasury: old(ctx).treasury,
            mint: old(ctx).mint,
            mint_token_vault: old(ctx).mint_token_vault.key,
            counter: 0,
            num_tokens,
        }),
        final(ctx).config.wf(),
        final(ctx).whitelist.wf(),
        forall|j: int| 0 <= j < MAX_LEN ==> final(ctx).whitelist.addresses@[j] == EMPTY_IDENTITY,
        final(ctx).mint_token_vault.key == old(ctx).mint_token_vault.key,
        final(ctx).mint_token_vault.owner == VAULT_AUTHORITY,
        final(ctx).mint_token_vault.amount == old(ctx).mint_token_vault.amount + num_tokens,
        final(ctx).authority_mint_account.key == old(ctx).authority_mint_account.key,
        final(ctx).authority_mint_account.owner == old(ctx).authority_mint_account.owner,
        final(ctx).authority_mint_account.amount == old(ctx).authority_mint_account.amount
            - num_tokens,
        final(ctx).authority == old(ctx).authority,
        final(ctx).whitelist_key == old(ctx).whitelist_key,
        final(ctx).treasury == old(ctx).treasury,
        final(ctx).mint == old(ctx).mint,
{
    ctx.config = Config {
        whitelist_enabled: true,
        cost_in_lamports,
        go_live_date,
        authority: ctx.authority,
        whitelist: ctx.whitelist_key,
        treasury: ctx.treasury,
        mint: ctx.mint,
        mint_token_vault: ctx.mint_token_vault.key,
        counter: 0,
        num_tokens,
    };
    ctx.whitelist = Whitelist::new();
    ctx.mint_token_vault.owner = VAULT_AUTHORITY;
    ctx.mint_token_vault.amount = ctx.mint_token_vault.amount + num_tokens;
    ctx.authority_mint_account.amount = ctx.authority_mint_account.amount - num_tokens;
    Ok(())
}

/// The entities touched by [`add_mint_tokens`].
pub struct AddMintTokens {
    pub config: Config,
    pub authority: Identity,
    pub authority_mint_account: TokenAccount,
    pub mint_token_vault: TokenAccount,
}

/// Tops up the supply: moves `num_tokens` units from the admin's holding
/// into the vault and records the vault's prior balance plus the delta as
/// the new supply bookkeeping figure. No upper bound is enforced.
pub fn add_mint_tokens(ctx: &mut AddMintTokens, num_tokens: u64) -> (r: Result<(), ErrorCode>)
    requires
        old(ctx).config.authority == old(ctx).authority,
        old(ctx).authority_mint_account.owner == old(ctx).authority,
        old(ctx).authority_mint_account.amount >= num_tokens,
        old(ctx).mint_token_vault.amount + num_tokens <= u64::MAX,
    ensures
        r is Ok,
        final(ctx).config == (Config {
            num_tokens: (old(ctx).mint_token_vault.amount + num_tokens) as u64,
            ..old(ctx).config
        }),
        final(ctx).mint_token_vault == (TokenAccount {
            amount: (old(ctx).mint_token_vault.amount + num_tokens) as u64,
            ..old(ctx).mint_token_vault
        }),
        final(ctx).authority_mint_account == (TokenAccount {
            amount: (old(ctx).authority_mint_account.amount - num_tokens) as u64,
            ..old(ctx).authority_mint_account
        }),
        final(ctx).authority == old(ctx).authority,
{
    let vault_before: u64 = ctx.mint_token_vault.amount;
    ctx.mint_token_vault.amount = vault_before + num_tokens;
    ctx.authority_mint_account.amount = ctx.authority_mint_account.amount - num_tokens;
    ctx.config.num_tokens = vault_before + num_tokens;
    Ok(())
}

/// The entities touched by [`add_whitelist_addresses`].
pub struct AddWhitelistAddresses {
    pub config: Config,
    pub whitelist_key: Identity,
    pub whitelist: Whitelist,
    pub authority: Identity,
}

/// Appends a batch of buyer identities at the cursor.
///
/// The batch is written to ascending slots starting at the prior cursor
/// value and the cursor advances by the batch length. A batch that would
/// pass the capacity is rejected whole: no slot is written and the cursor
/// stays. Slots already holding an identity below the cursor are
/// overwritten silently when the cursor was rewound beforehand.
pub fn add_whitelist_addresses(
    ctx: &mut AddWhitelistAddresses,
    addresses: Vec<Identity>,
) -> (r: Result<(), ErrorCode>)
    requires
        old(ctx).config.wf(),
        old(ctx).whitelist.wf(),
        old(ctx).config.authority == old(ctx).authority,
    ensures
        final(ctx).config.wf(),
        final(ctx).whitelist.wf(),
        final(ctx).whitelist_key == old(ctx).whitelist_key,
        final(ctx).authority == old(ctx).authority,
        r == Err::<(), ErrorCode>(ErrorCode::WrongWhitelist) <==> old(ctx).config.whitelist
            != old(ctx).whitelist_key,
        r == Err::<(), ErrorCode>(ErrorCode::NotEnoughSpace) <==> old(ctx).config.whitelist
            == old(ctx).whitelist_key && addresses@.len() + old(ctx).config.counter as int
            > MAX_LEN as int,
        r is Ok <==> old(ctx).config.whitelist == old(ctx).whitelist_key && addresses@.len()
            + old(ctx).config.counter as int <= MAX_LEN as int,
        r is Err ==> *final(ctx) == *old(ctx),
        r is Ok ==> final(ctx).whitelist.addresses@ == write_batch(
            old(ctx).whitelist.addresses@,
            addresses@,
            old(ctx).config.counter as int,
        ),
        r is Ok ==> final(ctx).config == (Config {
            counter: (old(ctx).config.counter + addresses@.len()) as u16,
            ..old(ctx).config
        }),
        old(ctx).config.whitelist == old(ctx).whitelist_key ==> final(ctx).config.counter as int
            == cursor_after_append(old(ctx).config.counter as int, addresses@.len() as int),
{
    if ctx.config.whitelist != ctx.whitelist_key {
        return Err(ErrorCode::WrongWhitelist);
    }
    let length: usize = addresses.len();
    let counter: usize = ctx.config.counter as usize;
    if length > MAX_LEN - counter {
        return Err(ErrorCode::NotEnoughSpace);
    }
    let mut i: usize = 0;
    while i < length
        invariant
            i <= length,
            length == addresses@.len(),
            counter == old(ctx).config.counter as usize,
            counter + length <= MAX_LEN,
            ctx.whitelist.addresses@.len() == MAX_LEN,
            ctx.config == old(ctx).config,
            ctx.whitelist_key == old(ctx).whitelist_key,
            ctx.authority == old(ctx).authority,
            forall|j: int| 0 <= j < i ==> ctx.whitelist.addresses@[counter + j] == addresses@[j],
            forall|j: int| 0 <= j < MAX_LEN && !(counter <= j < counter + i)
                ==> ctx.whitelist.addresses@[j] == old(ctx).whitelist.addresses@[j],
        decreases length - i,
    {
        ctx.whitelist.addresses[counter + i] = addresses[i];
        i = i + 1;
    }
    proof {
        assert(ctx.whitelist.addresses@ =~= write_batch(
            old(ctx).whitelist.addresses@,
            addresses@,
            old(ctx).config.counter as int,
        ));
    }
    ctx.config.counter = ctx.config.counter + length as u16;
    Ok(())
}

/// The entities touched by [`reset_whitelist_counter`].
pub struct ResetWhitelistCounter {
    pub config: Config,
    pub authority: Identity,
}

/// Rewinds the allow-list cursor to zero without clearing any slot
/// contents: previously written identities stay in place and the next
/// append overwrites them from index zero.
pub fn reset_whitelist_counter(ctx: &mut ResetWhitelistCounter) -> (r: Result<(), ErrorCode>)
    requires
        old(ctx).config.authority == old(ctx).authority,
    ensures
        r is Ok,
        final(ctx).config == (Config { counter: 0, ..old(ctx).config }),
        final(ctx).config.wf(),
        final(ctx).authority == old(ctx).authority,
{
    ctx.config.counter = 0;
    Ok(())
}

/// The entities touched by [`update_config`].
pub struct UpdateConfig {
    pub config: Config,
    pub authority: Identity,
}

/// Overwrites each configuration field for which a value is present and
/// leaves absent fields untouched. No cross-field validation is done: a
/// launch time in the past or a zero price is recorded as given.
pub fn update_config(
    ctx: &mut UpdateConfig,
    cost_in_lamports: Option<u64>,
    go_live_date: Option<i64>,
    enable_whitelist: Option<bool>,
) -> (r: Result<(), ErrorCode>)
    requires
        old(ctx).config.authority == old(ctx).authority,
    ensures
        r is Ok,
        cost_in_lamports matches Some(price) ==> final(ctx).config.cost_in_lamports == price,
        cost_in_lamports is None ==> final(ctx).config.cost_in_lamports
            == old(ctx).config.cost_in_lamports,
        go_live_date matches Some(date) ==> final(ctx).config.go_live_date == date,
        go_live_date is None ==> final(ctx).config.go_live_date == old(ctx).config.go_live_date,
        enable_whitelist matches Some(enabled) ==> final(ctx).config.whitelist_enabled == enabled,
        enable_whitelist is None ==> final(ctx).config.whitelist_enabled
            == old(ctx).config.whitelist_enabled,
        final(ctx).config.authority == old(ctx).config.authority,
        final(ctx).config.whitelist == old(ctx).config.whitelist,
        final(ctx).config.treasury == old(ctx).config.treasury,
        final(ctx).config.mint == old(ctx).config.mint,
        final(ctx).config.mint_token_vault == old(ctx).config.mint_token_vault,
        final(ctx).config.counter == old(ctx).config.counter,
        final(ctx).config.num_tokens == old(ctx).config.num_tokens,
        final(ctx).authority == old(ctx).authority,
{
    if let Some(price) = cost_in_lamports {
        ctx.config.cost_in_lamports = price;
    }
    if let Some(date) = go_live_date {
        ctx.config.go_live_date = date;
    }
    if let Some(enabled) = enable_whitelist {
        ctx.config.whitelist_enabled = enabled;
    }
    Ok(())
}

/// The entities touched by [`close_whitelist`].
pub struct CloseWhitelist {
    pub config: Config,
    pub authority: Identity,
    pub whitelist_key: Identity,
}

/// Disables gating for good: clears the gating flag so purchases no longer
/// consult the allow-list. The collaborator destroys the bound allow-list
/// store in the same transaction and returns its storage cost to the
/// admin; since the binding is immutable, gating cannot be meaningfully
/// re-enabled for this sale afterwards.
pub fn close_whitelist(ctx: &mut CloseWhitelist) -> (r: Result<(), ErrorCode>)
    requires
        old(ctx).config.authority == old(ctx).authority,
        old(ctx).config.whitelist == old(ctx).whitelist_key,
    ensures
        r is Ok,
        final(ctx).config == (Config { whitelist_enabled: false, ..old(ctx).config }),
        final(ctx).authority == old(ctx).authority,
        final(ctx).whitelist_key == old(ctx).whitelist_key,
{
    ctx.config.whitelist_enabled = false;
    Ok(())
}

} // verus!
