//! The records that the ledger keeps for the program.

pub mod stake_account;
pub mod stake_config;
pub mod user_accounts;
