//! A two-tranche (senior/junior) structured-credit pool engine.
//!
//! Investors fund a pool split into a senior (capital-protected, fixed-rate)
//! tranche and a junior (first-loss, residual-yield) tranche; a borrower draws
//! the pooled funds and repays in periodic installments that are distributed
//! through a waterfall prioritizing senior principal and interest, then junior
//! interest, with a first-loss buffer absorbing shortfalls.
//!
//! The engine works on plain values: the host platform is expected to supply
//! durable storage, authenticated actor identities (modelled as `u64` ids),
//! value transfers, and a clock (timestamps passed in as `i64`). Every
//! operation is a single atomic state transition: it either fully validates
//! and commits, or fails with a specific error and leaves all state unchanged.

pub mod asset_pool;
pub mod constants;
pub mod errors;
pub mod funding;
pub mod laws;
pub mod repayment;
pub mod state;
pub mod system_config;
pub mod tokens;
pub mod utils;
