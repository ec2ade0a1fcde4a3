//! Token issuance: a factory that creates fungible-token ledgers, and the
//! ledger with its balances, allowances, capped minting and owner-gated burning.

pub mod account;
pub mod custom_token;
pub mod error;
pub mod factory;
pub mod guard;
pub mod laws;
pub mod ledger_model;
pub mod storage;
pub mod tally;

pub use account::AccountId;
pub use custom_token::CustomToken;
pub use error::TokenError;
pub use factory::{Creation, TokenCreated, TokenFactory, Withdrawal};
pub use guard::require_owner;
