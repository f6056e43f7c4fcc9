//! Token-gated allocation and settlement engine.
//!
//! The library sells a fixed, admin-replenishable supply of fungible units
//! for a fixed price, optionally restricting purchases to an admin-curated
//! allow-list until the sale is opened to the public. The ledger substrate
//! that persists entities, verifies signatures, and applies each operation
//! atomically is an external collaborator: every operation here is a single
//! verified state transition over plain values, and the surrounding runtime
//! is expected to commit the whole transition or none of it.

pub mod accounts;
pub mod admin;
pub mod config;
pub mod errors;
pub mod laws;
pub mod purchase;
pub mod whitelist;

pub use accounts::{Identity, NativeAccount, TokenAccount, EMPTY_IDENTITY, VAULT_AUTHORITY};
pub use admin::{
    add_mint_tokens, add_whitelist_addresses, close_whitelist, initialize,
    reset_whitelist_counter, update_config, AddMintTokens, AddWhitelistAddresses, CloseWhitelist,
    Initialize, ResetWhitelistCounter, UpdateConfig,
};
pub use config::{Config, MAX_LEN};
pub use errors::ErrorCode;
pub use purchase::{
    purchase_mint_token, purchase_mint_token_whitelist, PurchaseMintToken,
    PurchaseMintTokenWhitelist,
};
pub use whitelist::Whitelist;
