//! Verified decision logic of a set of Solana programs: a constant-product
//! AMM, an escrow, quadratic voting, a social-posting platform, an NFT
//! marketplace and NFT staking.  Each function takes the plain values that
//! the program reads from its accounts and returns the new account state and
//! the cross-program instructions (token and lamport transfers, mints, burns,
//! account closes) that the program issues.

pub mod accounts;
pub mod cpi;
pub mod amm;
pub mod escrow;
pub mod voting;
pub mod vault;
pub mod chain_post;
pub mod marketplace;
pub mod staking;
