//! Token vesting: a linear unlock schedule over a vault of fungible tokens,
//! with derived-address validation of every custody account.
pub mod error;
pub mod helpers;
pub mod instruction;
pub mod pda;
pub mod processor;
