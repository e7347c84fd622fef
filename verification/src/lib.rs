//! Acquires and normalizes liquidity-pool state for a trading bot: resolves
//! a mint's owning token program, fetches each configured exchange's pool
//! accounts through its adapter, decodes them into protocol-agnostic pool
//! descriptors, and caches the assembled aggregate for a bounded time.

pub mod address;
pub mod cache;
pub mod config;
pub mod dex;
pub mod error;
pub mod pools;
pub mod pump;
pub mod raydium;
pub mod token_fetch;
