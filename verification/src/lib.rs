//! Works out what Solana transactions did to the accounts that paid for them.
pub mod analysis;
pub mod balances;
pub mod decimal;
pub mod fetch;
pub mod helpers;
pub mod keys;
pub mod pairs;
pub mod pipeline;
pub mod rows;
pub mod tokens;
pub mod transaction;
