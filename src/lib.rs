//! Pricing and settlement engine for a two-reserve liquidity pool: fee
//! schedule, pricing curves, swap orchestration and pool initialization
//! checks, all in fixed-point integer arithmetic.
pub mod error;
pub mod fees;
pub mod math;
pub mod stable;
pub mod curve;
pub mod accounts;
pub mod processor;
