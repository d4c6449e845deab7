//! The operations of the program, each on the records and answers that one
//! request brings with it.

pub mod claim;
pub mod initialize_config;
pub mod initialize_user_accounts;
pub mod stake;
pub mod unstake;
