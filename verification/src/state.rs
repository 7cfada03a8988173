//! The data model of the pool engine.
//!
//! Actor, asset and account identities are plain `u64` ids handed in by the
//! host platform; timestamps are `i64` seconds. A [`PoolState`] bundles one
//! pool with the sub-ledgers it exclusively owns, the period-indexed
//! repayment records, the asset balance of its funding vault, and the
//! outstanding supply of its senior yield token.

use vstd::prelude::*;

use crate::constants::MAX_ANNUAL_RATE;
use crate::constants::MAX_EARLY_EXIT_FEE;
use crate::constants::MAX_JUNIOR_RATIO;
use crate::constants::MAX_PLATFORM_FEE;
use crate::constants::MAX_REPAYMENT_COUNT;
use crate::constants::MAX_REPAYMENT_PERIOD;
use crate::constants::MIN_JUNIOR_RATIO;
use crate::constants::MIN_REPAYMENT_PERIOD;

verus! {

/// Lifecycle of a pool: `Created -> Approved -> (Funding, implicit while the
/// window is open) -> Funded -> Repaying -> Completed`, with a side branch to
/// `Cancelled` on funding failure. `Completed` and `Cancelled` are terminal.
#[derive(Clone, Copy, Debug, PartialEq, Eq, Structural)]
pub enum PoolStatus {
    Created,
    Approved,
    Funding,
    Funded,
    Repaying,
    Completed,
    Cancelled,
}

/// Lifecycle of a subscription record. Once `Confirmed` or `Refunded` the
/// recorded amount is frozen.
#[derive(Clone, Copy, Debug, PartialEq, Eq, Structural)]
pub enum SubscriptionStatus {
    Pending,
    Confirmed,
    Refunded,
}

/// Status of one period's repayment record.
#[derive(Clone, Copy, Debug, PartialEq, Eq, Structural)]
pub enum RepaymentStatus {
    Pending,
    Completed,
    Partial,
}

/// The two risk-ordered slices of pooled capital.
#[derive(Clone, Copy, Debug, PartialEq, Eq, Structural)]
pub enum Tranche {
    Senior,
    Junior,
}

/// Global configuration: admin roles, treasury, default fee rates and the
/// system-wide pause flag. Passed explicitly to every operation that reads
/// or updates it.
#[derive(Clone, Copy, Debug, PartialEq, Eq)]
pub struct SystemConfig {
    pub super_admin: u64,
    pub system_admin: u64,
    pub treasury_admin: u64,
    pub operation_admin: u64,
    pub treasury: u64,
    pub platform_fee_rate: u16,
    pub senior_early_before_exit_fee_rate: u16,
    pub senior_early_after_exit_fee_rate: u16,
    pub junior_early_before_exit_fee_rate: u16,
    pub default_min_junior_ratio: u16,
    pub paused: bool,
    pub initialized: bool,
}

impl SystemConfig {
    /// Every configured rate respects its cap. Established at
    /// initialization and preserved by every update.
    pub open spec fn wf(self) -> bool {
        &&& self.platform_fee_rate <= MAX_PLATFORM_FEE
        &&& self.senior_early_before_exit_fee_rate <= MAX_EARLY_EXIT_FEE
        &&& self.senior_early_after_exit_fee_rate <= MAX_EARLY_EXIT_FEE
        &&& self.junior_early_before_exit_fee_rate <= MAX_EARLY_EXIT_FEE
        &&& MIN_JUNIOR_RATIO <= self.default_min_junior_ratio <= MAX_JUNIOR_RATIO
    }
}

/// The set of asset tokens pools may be denominated in.
#[derive(Clone, Debug, PartialEq, Eq)]
pub struct AssetWhitelist {
    pub system_config: u64,
    pub assets: Vec<u64>,
}

impl AssetWhitelist {
    /// Whether `asset` is whitelisted.
    pub fn contains(&self, asset: u64) -> (b: bool)
        ensures
            b == self.assets@.contains(asset),
    {
        let mut i: usize = 0;
        while i < self.assets.len()
            invariant
                0 <= i <= self.assets.len(),
                forall|j: int| 0 <= j < i ==> self.assets@[j] != asset,
            decreases self.assets.len() - i,
        {
            if self.assets[i] == asset {
                return true;
            }
            i = i + 1;
        }
        false
    }
}

/// One structured-credit pool: fee and tranche terms, funding window,
/// running totals and lifecycle status.
#[derive(Clone, Debug, PartialEq, Eq)]
pub struct AssetPool {
    pub name: Vec<u8>,
    pub status: PoolStatus,
    pub asset_address: u64,
    pub system_config: u64,
    pub platform_fee: u16,
    pub senior_early_before_exit_fee: u16,
    pub senior_early_after_exit_fee: u16,
    pub junior_early_before_exit_fee: u16,
    pub min_junior_ratio: u16,
    pub repayment_rate: u16,
    pub senior_fixed_rate: u16,
    pub repayment_period: u64,
    pub repayment_count: u64,
    pub total_amount: u64,
    pub min_amount: u64,
    pub funding_start_time: i64,
    pub funding_end_time: i64,
    pub senior_amount: u64,
    pub junior_amount: u64,
    pub repaid_amount: u64,
    pub creator: u64,
    pub created_at: i64,
    pub related_accounts_initialized: bool,
}

impl AssetPool {
    /// The parameter invariant established by pool creation: every rate
    /// respects its cap, the schedule is non-degenerate and the funding
    /// window is well ordered.
    pub open spec fn wf_params(self) -> bool {
        &&& 0 < self.name@.len() <= 64
        &&& self.platform_fee <= MAX_PLATFORM_FEE
        &&& self.senior_early_before_exit_fee <= MAX_EARLY_EXIT_FEE
        &&& self.senior_early_after_exit_fee <= MAX_EARLY_EXIT_FEE
        &&& self.junior_early_before_exit_fee <= MAX_EARLY_EXIT_FEE
        &&& MIN_JUNIOR_RATIO <= self.min_junior_ratio <= MAX_JUNIOR_RATIO
        &&& 0 < self.repayment_rate <= MAX_ANNUAL_RATE
        &&& 0 < self.senior_fixed_rate <= MAX_ANNUAL_RATE
        &&& MIN_REPAYMENT_PERIOD <= self.repayment_period <= MAX_REPAYMENT_PERIOD
        &&& 0 < self.repayment_count <= MAX_REPAYMENT_COUNT
        &&& 0 < self.total_amount
        &&& 0 < self.min_amount <= self.total_amount
        &&& 0 < self.funding_start_time < self.funding_end_time
    }
}

/// Aggregate subscription totals, fixed alongside the pool's own running
/// totals when the sub-ledgers are initialized.
#[derive(Clone, Copy, Debug, PartialEq, Eq)]
pub struct Funding {
    pub asset_address: u64,
    pub senior_total: u64,
    pub junior_total: u64,
    pub status: u8,
}

/// One investor's cumulative commitment to one tranche of one pool.
/// Repeated subscriptions accumulate into the same record.
#[derive(Clone, Copy, Debug, PartialEq, Eq)]
pub struct Subscription {
    pub user: u64,
    pub subscription_type: Tranche,
    pub amount: u64,
    pub status: SubscriptionStatus,
    pub subscribed_at: i64,
}

/// The senior sub-ledger: total deposits fixed at funding completion, and
/// the cumulative senior entitlement satisfied by the waterfall.
#[derive(Clone, Copy, Debug, PartialEq, Eq)]
pub struct SeniorPool {
    pub grow_token: u64,
    pub total_deposits: u64,
    pub repaid_amount: u64,
}

/// The first-loss sub-ledger: junior deposits fixed at funding completion,
/// and the cumulative amount consumed — both as shortfall top-ups during
/// repayment and as principal shares marked spent at final redemption.
#[derive(Clone, Copy, Debug, PartialEq, Eq)]
pub struct FirstLossPool {
    pub junior_nft: u64,
    pub total_deposits: u64,
    pub repaid_amount: u64,
}

/// The junior-interest sub-ledger: cumulative residual interest credited by
/// the waterfall, and the cumulative amount claimed by positions.
#[derive(Clone, Copy, Debug, PartialEq, Eq)]
pub struct JuniorInterestPool {
    pub junior_nft: u64,
    pub total_interest: u64,
    pub distributed_interest: u64,
}

/// One period's accepted repayment. At most one record exists per period.
#[derive(Clone, Copy, Debug, PartialEq, Eq)]
pub struct RepaymentRecord {
    pub period: u64,
    pub amount: u64,
    pub repaid_at: i64,
    pub status: RepaymentStatus,
}

/// One junior position: its principal share fixed at issuance, the interest
/// claimed so far, and the one-shot principal-withdrawal flag.
#[derive(Clone, Copy, Debug, PartialEq, Eq)]
pub struct JuniorNFTMetadata {
    pub nft_id: u64,
    pub owner: u64,
    pub principal: u64,
    pub claimed_interest: u64,
    pub principal_withdrawn: bool,
    pub created_at: i64,
}

/// A pool together with everything it exclusively owns: its four
/// sub-ledgers, its repayment records, the asset balance held in its
/// funding vault, and the outstanding senior yield-token supply.
#[derive(Clone, Debug, PartialEq, Eq)]
pub struct PoolState {
    pub pool: AssetPool,
    pub funding: Funding,
    pub senior_pool: SeniorPool,
    pub first_loss_pool: FirstLossPool,
    pub junior_interest_pool: JuniorInterestPool,
    pub records: Vec<RepaymentRecord>,
    pub vault_balance: u64,
    pub grow_supply: u64,
}

/// Whether some record in `records` is for `period`.
pub open spec fn has_period(records: Seq<RepaymentRecord>, period: u64) -> bool {
    exists|i: int| 0 <= i < records.len() && records[i].period == period
}

impl PoolState {
    /// What is left of the first-loss buffer.
    pub open spec fn first_loss_remaining(self) -> int {
        self.first_loss_pool.total_deposits - self.first_loss_pool.repaid_amount
    }

    /// Residual interest credited to juniors but not yet claimed.
    pub open spec fn undistributed_interest(self) -> int {
        self.junior_interest_pool.total_interest
            - self.junior_interest_pool.distributed_interest
    }

    /// Whether a repayment for `period` has already been recorded.
    pub fn period_recorded(&self, period: u64) -> (b: bool)
        ensures
            b == has_period(self.records@, period),
    {
        let mut i: usize = 0;
        while i < self.records.len()
            invariant
                0 <= i <= self.records.len(),
                forall|j: int| 0 <= j < i ==> self.records@[j].period != period,
            decreases self.records.len() - i,
        {
            if self.records[i].period == period {
                return true;
            }
            i = i + 1;
        }
        false
    }
}

} // verus!
