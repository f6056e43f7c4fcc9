use doorman::{
    add_mint_tokens, add_whitelist_addresses, close_whitelist, initialize,
    reset_whitelist_counter, update_config, AddMintTokens, AddWhitelistAddresses, CloseWhitelist,
    Config, ErrorCode, Initialize, ResetWhitelistCounter, TokenAccount, UpdateConfig, Whitelist,
    EMPTY_IDENTITY, MAX_LEN, VAULT_AUTHORITY,
};

const ADMIN: u64 = 11;
const WL_KEY: u64 = 21;
const TREASURY_KEY: u64 = 31;
const MINT: u64 = 41;
const ADMIN_HOLDING: u64 = 51;
const VAULT_KEY: u64 = 61;

fn fresh_sale(num_tokens: u64, cost: u64, go_live: i64) -> Initialize {
    let mut ctx = Initialize {
        config: Config {
            whitelist_enabled: false,
            cost_in_lamports: 0,
            go_live_date: 0,
            authority: 0,
            whitelist: 0,
            treasury: 0,
            mint: 0,
            mint_token_vault: 0,
            counter: 0,
            num_tokens: 0,
        },
        authority: ADMIN,
        whitelist_key: WL_KEY,
        whitelist: Whitelist::new(),
        treasury: TREASURY_KEY,
        mint: MINT,
        authority_mint_account: TokenAccount { key: ADMIN_HOLDING, owner: ADMIN, amount: 100 },
        mint_token_vault: TokenAccount { key: VAULT_KEY, owner: ADMIN, amount: 0 },
    };
    let r = initialize(&mut ctx, num_tokens, cost, go_live);
    assert!(r.is_ok());
    ctx
}

#[test]
fn initialize_records_every_field() {
    let ctx = fresh_sale(5, 1000, 999);
    assert_eq!(ctx.config.whitelist_enabled, true);
    assert_eq!(ctx.config.cost_in_lamports, 1000);
    assert_eq!(ctx.config.go_live_date, 999);
    assert_eq!(ctx.config.authority, ADMIN);
    assert_eq!(ctx.config.whitelist, WL_KEY);
    assert_eq!(ctx.config.treasury, TREASURY_KEY);
    assert_eq!(ctx.config.mint, MINT);
    assert_eq!(ctx.config.mint_token_vault, VAULT_KEY);
    assert_eq!(ctx.config.counter, 0);
    assert_eq!(ctx.config.num_tokens, 5);
}

#[test]
fn initialize_moves_units_and_delegates_vault() {
    let ctx = fresh_sale(5, 1000, 999);
    assert_eq!(ctx.mint_token_vault.amount, 5);
    assert_eq!(ctx.mint_token_vault.owner, VAULT_AUTHORITY);
    assert_eq!(ctx.authority_mint_account.amount, 95);
}

#[test]
fn initialize_zeroes_every_slot() {
    let mut ctx = fresh_sale(5, 1000, 999);
    ctx.whitelist.addresses[0] = 77;
    ctx.whitelist.addresses[MAX_LEN - 1] = 78;
    let r = initialize(&mut ctx, 5, 1000, 999);
    assert!(r.is_ok());
    assert_eq!(ctx.whitelist.addresses.len(), MAX_LEN);
    for j in 0..MAX_LEN {
        assert_eq!(ctx.whitelist.addresses[j], EMPTY_IDENTITY);
    }
}

#[test]
fn add_mint_tokens_tops_up_and_records_supply() {
    let sale = fresh_sale(5, 1000, 999);
    let mut ctx = AddMintTokens {
        config: sale.config,
        authority: ADMIN,
        authority_mint_account: sale.authority_mint_account,
        mint_token_vault: sale.mint_token_vault,
    };
    let r = add_mint_tokens(&mut ctx, 7);
    assert!(r.is_ok());
    assert_eq!(ctx.mint_token_vault.amount, 12);
    assert_eq!(ctx.authority_mint_account.amount, 88);
    assert_eq!(ctx.config.num_tokens, 12);
}

#[test]
fn append_writes_in_order_and_advances_cursor() {
    let sale = fresh_sale(5, 1000, 999);
    let mut ctx = AddWhitelistAddresses {
        config: sale.config,
        whitelist_key: WL_KEY,
        whitelist: sale.whitelist,
        authority: ADMIN,
    };
    let r = add_whitelist_addresses(&mut ctx, vec![101, 102]);
    assert!(r.is_ok());
    assert_eq!(ctx.config.counter, 2);
    assert_eq!(ctx.whitelist.addresses[0], 101);
    assert_eq!(ctx.whitelist.addresses[1], 102);
    assert_eq!(ctx.whitelist.addresses[2], EMPTY_IDENTITY);
    let r = add_whitelist_addresses(&mut ctx, vec![103, 104, 105]);
    assert!(r.is_ok());
    assert_eq!(ctx.config.counter, 5);
    assert_eq!(ctx.whitelist.addresses[2], 103);
    assert_eq!(ctx.whitelist.addresses[4], 105);
}

#[test]
fn append_rejects_wrong_whitelist() {
    let sale = fresh_sale(5, 1000, 999);
    let mut ctx = AddWhitelistAddresses {
        config: sale.config,
        whitelist_key: WL_KEY + 1,
        whitelist: sale.whitelist,
        authority: ADMIN,
    };
    let r = add_whitelist_addresses(&mut ctx, vec![101]);
    assert_eq!(r, Err(ErrorCode::WrongWhitelist));
    assert_eq!(ctx.config.counter, 0);
    assert_eq!(ctx.whitelist.addresses[0], EMPTY_IDENTITY);
}

#[test]
fn append_beyond_capacity_is_rejected_whole() {
    let sale = fresh_sale(5, 1000, 999);
    let mut ctx = AddWhitelistAddresses {
        config: sale.config,
        whitelist_key: WL_KEY,
        whitelist: sale.whitelist,
        authority: ADMIN,
    };
    let big: Vec<u64> = (0..1000).map(|i| 10_000 + i).collect();
    let r = add_whitelist_addresses(&mut ctx, big);
    assert!(r.is_ok());
    assert_eq!(ctx.config.counter, 1000);
    let too_big: Vec<u64> = (0..200).map(|i| 20_000 + i).collect();
    let r = add_whitelist_addresses(&mut ctx, too_big);
    assert_eq!(r, Err(ErrorCode::NotEnoughSpace));
    assert_eq!(ctx.config.counter, 1000);
    assert_eq!(ctx.whitelist.addresses[1000], EMPTY_IDENTITY);
    assert_eq!(ctx.whitelist.addresses[999], 10_999);
}

#[test]
fn append_to_exact_capacity_succeeds() {
    let sale = fresh_sale(5, 1000, 999);
    let mut ctx = AddWhitelistAddresses {
        config: sale.config,
        whitelist_key: WL_KEY,
        whitelist: sale.whitelist,
        authority: ADMIN,
    };
    let full: Vec<u64> = (0..MAX_LEN as u64).map(|i| 30_000 + i).collect();
    let r = add_whitelist_addresses(&mut ctx, full);
    assert!(r.is_ok());
    assert_eq!(ctx.config.counter as usize, MAX_LEN);
    assert_eq!(ctx.whitelist.addresses[MAX_LEN - 1], 30_000 + MAX_LEN as u64 - 1);
    let r = add_whitelist_addresses(&mut ctx, vec![9]);
    assert_eq!(r, Err(ErrorCode::NotEnoughSpace));
    let r = add_whitelist_addresses(&mut ctx, vec![]);
    assert!(r.is_ok());
    assert_eq!(ctx.config.counter as usize, MAX_LEN);
}

#[test]
fn reset_rewinds_cursor_without_clearing_slots() {
    let sale = fresh_sale(5, 1000, 999);
    let mut append_ctx = AddWhitelistAddresses {
        config: sale.config,
        whitelist_key: WL_KEY,
        whitelist: sale.whitelist,
        authority: ADMIN,
    };
    add_whitelist_addresses(&mut append_ctx, vec![101, 102, 103]).unwrap();
    let mut reset_ctx = ResetWhitelistCounter { config: append_ctx.config, authority: ADMIN };
    let r = reset_whitelist_counter(&mut reset_ctx);
    assert!(r.is_ok());
    assert_eq!(reset_ctx.config.counter, 0);
    assert_eq!(append_ctx.whitelist.addresses[0], 101);
    assert_eq!(append_ctx.whitelist.addresses[2], 103);
}

#[test]
fn reset_then_append_overwrites_prefix_only() {
    let sale = fresh_sale(5, 1000, 999);
    let mut ctx = AddWhitelistAddresses {
        config: sale.config,
        whitelist_key: WL_KEY,
        whitelist: sale.whitelist,
        authority: ADMIN,
    };
    add_whitelist_addresses(&mut ctx, vec![101, 102, 103]).unwrap();
    let mut reset_ctx = ResetWhitelistCounter { config: ctx.config, authority: ADMIN };
    reset_whitelist_counter(&mut reset_ctx).unwrap();
    ctx.config = reset_ctx.config;
    let r = add_whitelist_addresses(&mut ctx, vec![201, 202]);
    assert!(r.is_ok());
    assert_eq!(ctx.config.counter, 2);
    assert_eq!(ctx.whitelist.addresses[0], 201);
    assert_eq!(ctx.whitelist.addresses[1], 202);
    assert_eq!(ctx.whitelist.addresses[2], 103);
}

#[test]
fn update_config_overwrites_present_fields_only() {
    let sale = fresh_sale(5, 1000, 999);
    let mut ctx = UpdateConfig { config: sale.config, authority: ADMIN };
    let r = update_config(&mut ctx, Some(2500), None, Some(false));
    assert!(r.is_ok());
    assert_eq!(ctx.config.cost_in_lamports, 2500);
    assert_eq!(ctx.config.go_live_date, 999);
    assert_eq!(ctx.config.whitelist_enabled, false);
    let r = update_config(&mut ctx, None, Some(-5), None);
    assert!(r.is_ok());
    assert_eq!(ctx.config.cost_in_lamports, 2500);
    assert_eq!(ctx.config.go_live_date, -5);
    assert_eq!(ctx.config.whitelist_enabled, false);
    let r = update_config(&mut ctx, None, None, None);
    assert!(r.is_ok());
    assert_eq!(ctx.config.cost_in_lamports, 2500);
    assert_eq!(ctx.config.go_live_date, -5);
    assert_eq!(ctx.config.whitelist_enabled, false);
}

#[test]
fn close_whitelist_disables_gating() {
    let sale = fresh_sale(5, 1000, 999);
    let mut ctx = CloseWhitelist {
        config: sale.config,
        authority: ADMIN,
        whitelist_key: WL_KEY,
    };
    let r = close_whitelist(&mut ctx);
    assert!(r.is_ok());
    assert_eq!(ctx.config.whitelist_enabled, false);
    assert_eq!(ctx.config.whitelist, WL_KEY);
    assert_eq!(ctx.config.counter, 0);
}

#[test]
fn new_whitelist_is_all_sentinel() {
    let wl = Whitelist::new();
    assert_eq!(wl.addresses.len(), MAX_LEN);
    for j in 0..MAX_LEN {
        assert_eq!(wl.addresses[j], EMPTY_IDENTITY);
    }
}
