//! Limits and units shared by every component of the pool engine.

use vstd::prelude::*;

verus! {

/// Basis-point unit: 10000 basis points = 100%.
pub const BASIS_POINTS: u16 = 10000;

/// Highest platform fee a pool may be configured with (50%).
pub const MAX_PLATFORM_FEE: u16 = 5000;

/// Highest early-exit fee a pool may be configured with (20%).
pub const MAX_EARLY_EXIT_FEE: u16 = 2000;

/// Lowest admissible minimum junior ratio (5%).
pub const MIN_JUNIOR_RATIO: u16 = 500;

/// Highest admissible minimum junior ratio (50%).
pub const MAX_JUNIOR_RATIO: u16 = 5000;

/// Highest admissible annual rate (100%).
pub const MAX_ANNUAL_RATE: u16 = 10000;

/// Shortest funding window, in seconds (1 day).
pub const MIN_FUNDING_PERIOD: i64 = 86400;

/// Longest funding window, in seconds (365 days).
pub const MAX_FUNDING_PERIOD: i64 = 31536000;

/// Shortest repayment period, in days.
pub const MIN_REPAYMENT_PERIOD: u64 = 1;

/// Longest repayment period, in days.
pub const MAX_REPAYMENT_PERIOD: u64 = 365;

/// Most repayment installments a pool may schedule.
pub const MAX_REPAYMENT_COUNT: u64 = 120;

/// Decimal precision of the pool asset.
pub const DECIMALS: u8 = 6;

/// Multiplier matching [`DECIMALS`].
pub const DECIMAL_MULTIPLIER: u64 = 1_000_000;

/// Seconds in a day, used to turn a repayment period in days into seconds.
pub const SECONDS_PER_DAY: u64 = 86400;

} // verus!
