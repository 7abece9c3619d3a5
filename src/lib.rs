//! A read-only service that reports the total, effective and circulating
//! supply of a chain's native token, caching each value for a fixed time so
//! that the chain endpoint is queried at most once per value and period.
pub mod amount;
pub mod cache;
pub mod error;
pub mod server;
pub mod supply;
