//! Pool lifecycle: creation with full parameter validation, administrative
//! approval, and the one-shot initialization of the sub-ledgers a pool
//! exclusively owns.

use vstd::prelude::*;

use crate::constants::MAX_ANNUAL_RATE;
use crate::constants::MAX_EARLY_EXIT_FEE;
use crate::constants::MAX_FUNDING_PERIOD;
use crate::constants::MAX_JUNIOR_RATIO;
use crate::constants::MAX_PLATFORM_FEE;
use crate::constants::MAX_REPAYMENT_COUNT;
use crate::constants::MAX_REPAYMENT_PERIOD;
use crate::constants::MIN_FUNDING_PERIOD;
use crate::constants::MIN_JUNIOR_RATIO;
use crate::constants::MIN_REPAYMENT_PERIOD;
use crate::errors::PencilError;
use crate::state::AssetPool;
use crate::state::AssetWhitelist;
use crate::state::FirstLossPool;
use crate::state::Funding;
use crate::state::JuniorInterestPool;
use crate::state::PoolState;
use crate::state::PoolStatus;
use crate::state::SeniorPool;
use crate::state::SystemConfig;

verus! {

/// Which error, if any, rejects a pool-creation request, in the order the
/// request is validated.
pub open spec fn create_pool_check(
    config: SystemConfig,
    whitelist: AssetWhitelist,
    asset_address: u64,
    name: Seq<u8>,
    platform_fee: u16,
    senior_early_before_exit_fee: u16,
    senior_early_after_exit_fee: u16,
    junior_early_before_exit_fee: u16,
    min_junior_ratio: u16,
    repayment_rate: u16,
    senior_fixed_rate: u16,
    repayment_period: u64,
    repayment_count: u64,
    total_amount: u64,
    min_amount: u64,
    funding_start_time: i64,
    funding_end_time: i64,
) -> Option<PencilError> {
    if config.paused {
        Some(PencilError::SystemPaused)
    } else if !whitelist.assets@.contains(asset_address) {
        Some(PencilError::AssetNotSupported)
    } else if name.len() == 0 || name.len() > 64 {
        Some(PencilError::InvalidStringLength)
    } else if platform_fee > MAX_PLATFORM_FEE {
        Some(PencilError::InvalidPlatformFee)
    } else if senior_early_before_exit_fee > MAX_EARLY_EXIT_FEE {
        Some(PencilError::InvalidEarlyExitFee)
    } else if senior_early_after_exit_fee > MAX_EARLY_EXIT_FEE {
        Some(PencilError::InvalidEarlyExitFee)
    } else if junior_early_before_exit_fee > MAX_EARLY_EXIT_FEE {
        Some(PencilError::InvalidEarlyExitFee)
    } else if min_junior_ratio < MIN_JUNIOR_RATIO || min_junior_ratio > MAX_JUNIOR_RATIO {
        Some(PencilError::InvalidMinJuniorRatio)
    } else if repayment_rate == 0 || repayment_rate > MAX_ANNUAL_RATE {
        Some(PencilError::InvalidRepaymentRate)
    } else if senior_fixed_rate == 0 || senior_fixed_rate > MAX_ANNUAL_RATE {
        Some(PencilError::InvalidSeniorFixedRate)
    } else if repayment_period < MIN_REPAYMENT_PERIOD || repayment_period > MAX_REPAYMENT_PERIOD {
        Some(PencilError::InvalidRepaymentPeriod)
    } else if repayment_count == 0 || repayment_count > MAX_REPAYMENT_COUNT {
        Some(PencilError::InvalidRepaymentCount)
    } else if total_amount == 0 {
        Some(PencilError::InvalidFundingParams)
    } else if min_amount == 0 || min_amount > total_amount {
        Some(PencilError::InvalidFundingParams)
    } else if funding_start_time <= 0 || funding_end_time <= funding_start_time {
        Some(PencilError::InvalidTimeParameters)
    } else if funding_end_time - funding_start_time < MIN_FUNDING_PERIOD || funding_end_time
        - funding_start_time > MAX_FUNDING_PERIOD {
        Some(PencilError::InvalidTimeParameters)
    } else {
        None
    }
}

/// Creates a pool in `Created` status with zeroed running totals, after
/// validating every fee, rate, ratio, schedule and window parameter
/// against its cap.
pub fn create_asset_pool(
    config: &SystemConfig,
    whitelist: &AssetWhitelist,
    creator: u64,
    asset_address: u64,
    system_config_id: u64,
    name: Vec<u8>,
    platform_fee: u16,
    senior_early_before_exit_fee: u16,
    senior_early_after_exit_fee: u16,
    junior_early_before_exit_fee: u16,
    min_junior_ratio: u16,
    repayment_rate: u16,
    senior_fixed_rate: u16,
    repayment_period: u64,
    repayment_count: u64,
    total_amount: u64,
    min_amount: u64,
    funding_start_time: i64,
    funding_end_time: i64,
    now: i64,
) -> (r: Result<AssetPool, PencilError>)
    ensures
        ({
            let check = create_pool_check(
                *config,
                *whitelist,
                asset_address,
                name@,
                platform_fee,
                senior_early_before_exit_fee,
                senior_early_after_exit_fee,
                junior_early_before_exit_fee,
                min_junior_ratio,
                repayment_rate,
                senior_fixed_rate,
                repayment_period,
                repayment_count,
                total_amount,
                min_amount,
                funding_start_time,
                funding_end_time,
            );
            match check {
                Some(e) => r == Err::<AssetPool, PencilError>(e),
                None => {
                    &&& r is Ok
                    &&& r->Ok_0 == (AssetPool {
                        name,
                        status: PoolStatus::Created,
                        asset_address,
                        system_config: system_config_id,
                        platform_fee,
                        senior_early_before_exit_fee,
                        senior_early_after_exit_fee,
                        junior_early_before_exit_fee,
                        min_junior_ratio,
                        repayment_rate,
                        senior_fixed_rate,
                        repayment_period,
                        repayment_count,
                        total_amount,
                        min_amount,
                        funding_start_time,
                        funding_end_time,
                        senior_amount: 0u64,
                        junior_amount: 0u64,
                        repaid_amount: 0u64,
                        creator,
                        created_at: now,
                        related_accounts_initialized: false,
                    })
                    &&& r->Ok_0.wf_params()
                },
            }
        }),
{
    if config.paused {
        return Err(PencilError::SystemPaused);
    }
    if !whitelist.contains(asset_address) {
        return Err(PencilError::AssetNotSupported);
    }
    if name.len() == 0 || name.len() > 64 {
        return Err(PencilError::InvalidStringLength);
    }
    if platform_fee > MAX_PLATFORM_FEE {
        return Err(PencilError::InvalidPlatformFee);
    }
    if senior_early_before_exit_fee > MAX_EARLY_EXIT_FEE {
        return Err(PencilError::InvalidEarlyExitFee);
    }
    if senior_early_after_exit_fee > MAX_EARLY_EXIT_FEE {
        return Err(PencilError::InvalidEarlyExitFee);
    }
    if junior_early_before_exit_fee > MAX_EARLY_EXIT_FEE {
        return Err(PencilError::InvalidEarlyExitFee);
    }
    if min_junior_ratio < MIN_JUNIOR_RATIO || min_junior_ratio > MAX_JUNIOR_RATIO {
        return Err(PencilError::InvalidMinJuniorRatio);
    }
    if repayment_rate == 0 || repayment_rate > MAX_ANNUAL_RATE {
        return Err(PencilError::InvalidRepaymentRate);
    }
    if senior_fixed_rate == 0 || senior_fixed_rate > MAX_ANNUAL_RATE {
        return Err(PencilError::InvalidSeniorFixedRate);
    }
    if repayment_period < MIN_REPAYMENT_PERIOD || repayment_period > MAX_REPAYMENT_PERIOD {
        return Err(PencilError::InvalidRepaymentPeriod);
    }
    if repayment_count == 0 || repayment_count > MAX_REPAYMENT_COUNT {
        return Err(PencilError::InvalidRepaymentCount);
    }
    if total_amount == 0 {
        return Err(PencilError::InvalidFundingParams);
    }
    if min_amount == 0 || min_amount > total_amount {
        return Err(PencilError::InvalidFundingParams);
    }
    if funding_start_time <= 0 || funding_end_time <= funding_start_time {
        return Err(PencilError::InvalidTimeParameters);
    }
    let window: i64 = funding_end_time - funding_start_time;
    if window < MIN_FUNDING_PERIOD || window > MAX_FUNDING_PERIOD {
        return Err(PencilError::InvalidTimeParameters);
    }
    Ok(
        AssetPool {
            name,
            status: PoolStatus::Created,
            asset_address,
            system_config: system_config_id,
            platform_fee,
            senior_early_before_exit_fee,
            senior_early_after_exit_fee,
            junior_early_before_exit_fee,
            min_junior_ratio,
            repayment_rate,
            senior_fixed_rate,
            repayment_period,
            repayment_count,
            total_amount,
            min_amount,
            funding_start_time,
            funding_end_time,
            senior_amount: 0,
            junior_amount: 0,
            repaid_amount: 0,
            creator,
            created_at: now,
            related_accounts_initialized: false,
        },
    )
}

/// Approves a created pool. Only the super admin may do so, and only once:
/// a pool that is no longer in `Created` status is rejected.
pub fn approve_asset_pool(config: &SystemConfig, pool: &mut AssetPool, admin: u64) -> (r: Result<
    (),
    PencilError,
>)
    ensures
        admin != config.super_admin ==> r == Err::<(), PencilError>(PencilError::Unauthorized)
            && *final(pool) == *old(pool),
        admin == config.super_admin && old(pool).status != PoolStatus::Created ==> r == Err::<
            (),
            PencilError,
        >(PencilError::AssetPoolAlreadyApproved) && *final(pool) == *old(pool),
        admin == config.super_admin && old(pool).status == PoolStatus::Created ==> r == Ok::<
            (),
            PencilError,
        >(()) && *final(pool) == (AssetPool { status: PoolStatus::Approved, ..*old(pool) }),
{
    if admin != config.super_admin {
        return Err(PencilError::Unauthorized);
    }
    if pool.status != PoolStatus::Created {
        return Err(PencilError::AssetPoolAlreadyApproved);
    }
    pool.status = PoolStatus::Approved;
    Ok(())
}

/// Assembles an approved pool with its freshly zeroed sub-ledgers, an empty
/// repayment record list, an empty vault and no yield tokens outstanding,
/// and marks the pool initialized. This happens exactly once per pool: a
/// pool that is not `Approved`, or that was already initialized, is handed
/// back unchanged beside the error.
pub fn initialize_related_accounts(pool: AssetPool, grow_token: u64, junior_nft: u64) -> (r: Result<
    PoolState,
    (AssetPool, PencilError),
>)
    ensures
        pool.status != PoolStatus::Approved ==> r == Err::<PoolState, (AssetPool, PencilError)>(
            (pool, PencilError::AssetPoolNotApproved),
        ),
        pool.status == PoolStatus::Approved && pool.related_accounts_initialized ==> r == Err::<
            PoolState,
            (AssetPool, PencilError),
        >((pool, PencilError::RelatedAccountsAlreadyInitialized)),
        pool.status == PoolStatus::Approved && !pool.related_accounts_initialized ==> {
            &&& r is Ok
            &&& r->Ok_0.pool == (AssetPool { related_accounts_initialized: true, ..pool })
            &&& r->Ok_0.funding == (Funding {
                asset_address: pool.asset_address,
                senior_total: 0u64,
                junior_total: 0u64,
                status: 0u8,
            })
            &&& r->Ok_0.senior_pool == (SeniorPool {
                grow_token,
                total_deposits: 0u64,
                repaid_amount: 0u64,
            })
            &&& r->Ok_0.first_loss_pool == (FirstLossPool {
                junior_nft,
                total_deposits: 0u64,
                repaid_amount: 0u64,
            })
            &&& r->Ok_0.junior_interest_pool == (JuniorInterestPool {
                junior_nft,
                total_interest: 0u64,
                distributed_interest: 0u64,
            })
            &&& r->Ok_0.records@ == Seq::<crate::state::RepaymentRecord>::empty()
            &&& r->Ok_0.vault_balance == 0u64
            &&& r->Ok_0.grow_supply == 0u64
        },
{
    if pool.status != PoolStatus::Approved {
        return Err((pool, PencilError::AssetPoolNotApproved));
    }
    if pool.related_accounts_initialized {
        return Err((pool, PencilError::RelatedAccountsAlreadyInitialized));
    }
    let asset_address: u64 = pool.asset_address;
    let mut pool = pool;
    pool.related_accounts_initialized = true;
    Ok(
        PoolState {
            pool,
            funding: Funding { asset_address, senior_total: 0, junior_total: 0, status: 0 },
            senior_pool: SeniorPool { grow_token, total_deposits: 0, repaid_amount: 0 },
            first_loss_pool: FirstLossPool { junior_nft, total_deposits: 0, repaid_amount: 0 },
            junior_interest_pool: JuniorInterestPool {
                junior_nft,
                total_interest: 0,
                distributed_interest: 0,
            },
            records: Vec::new(),
            vault_balance: 0,
            grow_supply: 0,
        },
    )
}

} // verus!
