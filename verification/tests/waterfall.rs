use pencil::asset_pool::approve_asset_pool;
use pencil::asset_pool::create_asset_pool;
use pencil::asset_pool::initialize_related_accounts;
use pencil::errors::PencilError;
use pencil::funding::complete_funding;
use pencil::funding::subscribe_junior;
use pencil::funding::subscribe_senior;
use pencil::repayment::calculate_per_period_amount;
use pencil::repayment::calculate_platform_fee;
use pencil::repayment::calculate_senior_amount;
use pencil::repayment::repay;
use pencil::state::AssetPool;
use pencil::state::AssetWhitelist;
use pencil::state::FirstLossPool;
use pencil::state::Funding;
use pencil::state::JuniorInterestPool;
use pencil::state::PoolState;
use pencil::state::PoolStatus;
use pencil::state::RepaymentStatus;
use pencil::state::SeniorPool;
use pencil::state::Subscription;
use pencil::state::SubscriptionStatus;
use pencil::state::SystemConfig;
use pencil::state::Tranche;
use pencil::system_config::initialize_system_config;

fn config() -> SystemConfig {
    initialize_system_config(1, 2, 200, 300, 500, 400, 2000).unwrap()
}

fn whitelist() -> AssetWhitelist {
    AssetWhitelist { system_config: 99, assets: vec![7] }
}

fn fresh_sub() -> Subscription {
    Subscription {
        user: 0,
        subscription_type: Tranche::Senior,
        amount: 0,
        status: SubscriptionStatus::Pending,
        subscribed_at: 0,
    }
}

fn funded_state(senior: u64, junior: u64) -> PoolState {
    let c = config();
    let wl = whitelist();
    let mut pool = create_asset_pool(
        &c,
        &wl,
        5,
        7,
        99,
        b"alpha".to_vec(),
        200,
        300,
        500,
        400,
        2000,
        500,
        800,
        30,
        10,
        100_000,
        5_000,
        1_000,
        87_400,
        500,
    )
    .unwrap();
    approve_asset_pool(&c, &mut pool, 1).unwrap();
    let mut state = initialize_related_accounts(pool, 11, 12).unwrap();
    let mut ssub = fresh_sub();
    let mut jsub = fresh_sub();
    subscribe_senior(&c, &wl, &mut state, &mut ssub, 21, senior, 2_000).unwrap();
    subscribe_junior(&c, &wl, &mut state, &mut jsub, 22, junior, 2_000).unwrap();
    complete_funding(&mut state, 87_401).unwrap();
    state
}

/// A hand-assembled repaying pool for exercising the shortfall paths:
/// senior due 1000 per period, and a first-loss buffer with `remaining`
/// still unconsumed.
fn shortfall_state(vault: u64, first_loss_remaining: u64) -> PoolState {
    PoolState {
        pool: AssetPool {
            name: b"manual".to_vec(),
            status: PoolStatus::Repaying,
            asset_address: 7,
            system_config: 99,
            platform_fee: 200,
            senior_early_before_exit_fee: 300,
            senior_early_after_exit_fee: 500,
            junior_early_before_exit_fee: 400,
            min_junior_ratio: 2000,
            repayment_rate: 500,
            senior_fixed_rate: 1000,
            repayment_period: 30,
            repayment_count: 10,
            total_amount: 100_000,
            min_amount: 5_000,
            funding_start_time: 1_000,
            funding_end_time: 87_400,
            senior_amount: 5_000,
            junior_amount: 10_000,
            repaid_amount: 0,
            creator: 5,
            created_at: 500,
            related_accounts_initialized: true,
        },
        funding: Funding { asset_address: 7, senior_total: 0, junior_total: 0, status: 0 },
        senior_pool: SeniorPool { grow_token: 11, total_deposits: 5_000, repaid_amount: 0 },
        first_loss_pool: FirstLossPool {
            junior_nft: 12,
            total_deposits: 10_000,
            repaid_amount: 10_000 - first_loss_remaining,
        },
        junior_interest_pool: JuniorInterestPool {
            junior_nft: 12,
            total_interest: 0,
            distributed_interest: 0,
        },
        records: vec![],
        vault_balance: vault,
        grow_supply: 5_000,
    }
}

#[test]
fn per_period_and_senior_due_formulas() {
    // total 100_000 over 10 periods at 5%: 10_000 + 5_000
    assert_eq!(calculate_per_period_amount(100_000, 10, 500).unwrap(), 15_000);
    // platform fee 2% of 15_000
    assert_eq!(calculate_platform_fee(15_000, 200).unwrap(), 300);
    // senior 70_000 over 10 periods at 8%: 7_000 + 5_600
    assert_eq!(calculate_senior_amount(70_000, 10, 800).unwrap(), 12_600);
    assert_eq!(calculate_per_period_amount(100_000, 0, 500), Err(
        PencilError::InvalidRepaymentCount
    ));
    assert_eq!(calculate_senior_amount(100_000, 0, 500), Err(PencilError::InvalidRepaymentCount));
}

#[test]
fn waterfall_distributes_fee_senior_and_junior_interest() {
    let c = config();
    let wl = whitelist();
    let mut state = funded_state(70_000, 30_000);
    let ev = repay(&c, &wl, &mut state, 15_000, 1, 87_401).unwrap();
    assert_eq!(ev.period, 1);
    assert_eq!(ev.total_amount, 15_000);
    assert_eq!(ev.platform_fee, 300);
    assert_eq!(ev.senior_amount, 12_600);
    assert_eq!(ev.junior_interest, 2_100);
    assert_eq!(state.pool.repaid_amount, 15_000);
    assert_eq!(state.pool.status, PoolStatus::Repaying);
    assert_eq!(state.senior_pool.repaid_amount, 12_600);
    assert_eq!(state.first_loss_pool.repaid_amount, 0);
    assert_eq!(state.junior_interest_pool.total_interest, 2_100);
    assert_eq!(state.vault_balance, 100_000 + 15_000 - 300);
    assert_eq!(state.records.len(), 1);
    assert_eq!(state.records[0].period, 1);
    assert_eq!(state.records[0].amount, 15_000);
    assert_eq!(state.records[0].repaid_at, 87_401);
    assert_eq!(state.records[0].status, RepaymentStatus::Completed);
}

#[test]
fn duplicate_period_is_rejected_and_changes_nothing() {
    let c = config();
    let wl = whitelist();
    let mut state = funded_state(70_000, 30_000);
    repay(&c, &wl, &mut state, 15_000, 1, 87_401).unwrap();
    let before = state.clone();
    assert_eq!(
        repay(&c, &wl, &mut state, 15_000, 1, 87_401),
        Err(PencilError::RepaymentAlreadyCompleted)
    );
    assert_eq!(state, before);
    assert_eq!(state.pool.repaid_amount, 15_000);
}

#[test]
fn repayment_not_due_until_its_period() {
    let c = config();
    let wl = whitelist();
    let mut state = funded_state(70_000, 30_000);
    // at one second past the close only period 1 is due
    assert_eq!(
        repay(&c, &wl, &mut state, 15_000, 2, 87_401),
        Err(PencilError::RepaymentNotDue)
    );
    repay(&c, &wl, &mut state, 15_000, 1, 87_401).unwrap();
    // two period lengths later, period 2 is due
    repay(&c, &wl, &mut state, 15_000, 2, 87_400 + 60).unwrap();
    assert_eq!(state.pool.repaid_amount, 30_000);
}

#[test]
fn final_period_completes_the_pool() {
    let c = config();
    let wl = whitelist();
    let mut state = funded_state(70_000, 30_000);
    let late: i64 = 87_400 + 300;
    let mut period: u64 = 1;
    while period <= 10 {
        repay(&c, &wl, &mut state, 15_000, period, late).unwrap();
        period += 1;
    }
    assert_eq!(state.pool.status, PoolStatus::Completed);
    assert_eq!(state.pool.repaid_amount, 150_000);
    assert_eq!(state.senior_pool.repaid_amount, 126_000);
    assert_eq!(state.junior_interest_pool.total_interest, 21_000);
    assert_eq!(state.records.len(), 10);
}

#[test]
fn shortfall_draws_whole_buffer_and_degrades() {
    let c = config();
    let wl = whitelist();
    // available for senior: 700 - 300 = 400; due 1000; buffer 300
    let mut state = shortfall_state(700, 300);
    let ev = repay(&c, &wl, &mut state, 15_000, 1, 87_401).unwrap();
    assert_eq!(ev.platform_fee, 300);
    // senior receives exactly 400 + 300 = 700
    assert_eq!(ev.senior_amount, 700);
    assert_eq!(ev.junior_interest, 15_000 - 300 - 700);
    assert_eq!(state.senior_pool.repaid_amount, 700);
    // the buffer is fully drained
    assert_eq!(state.first_loss_pool.repaid_amount, 10_000);
    assert_eq!(state.vault_balance, 700 + 15_000 - 300);
}

#[test]
fn shortfall_covered_by_buffer_pays_senior_in_full() {
    let c = config();
    let wl = whitelist();
    // available 400, due 1000, buffer 1000: covered
    let mut state = shortfall_state(700, 1_000);
    let ev = repay(&c, &wl, &mut state, 15_000, 1, 87_401).unwrap();
    assert_eq!(ev.senior_amount, 1_000);
    assert_eq!(ev.junior_interest, 15_000 - 300 - 1_000);
    // the buffer covered the shortfall of 600
    assert_eq!(state.first_loss_pool.repaid_amount, 9_000 + 600);
}

#[test]
fn repay_rejects_bad_requests() {
    let c = config();
    let wl = whitelist();
    let mut state = funded_state(70_000, 30_000);
    assert_eq!(
        repay(&c, &wl, &mut state, 15_000, 0, 87_401),
        Err(PencilError::InvalidRepaymentPeriod)
    );
    assert_eq!(
        repay(&c, &wl, &mut state, 15_000, 11, 87_401),
        Err(PencilError::InvalidRepaymentPeriod)
    );
    assert_eq!(
        repay(&c, &wl, &mut state, 0, 1, 87_401),
        Err(PencilError::InvalidRepaymentAmount)
    );
    assert_eq!(
        repay(&c, &wl, &mut state, 14_999, 1, 87_401),
        Err(PencilError::InvalidRepaymentAmount)
    );
    let other_wl = AssetWhitelist { system_config: 99, assets: vec![8] };
    assert_eq!(
        repay(&c, &other_wl, &mut state, 15_000, 1, 87_401),
        Err(PencilError::AssetNotSupported)
    );
    let mut paused = c;
    paused.paused = true;
    assert_eq!(
        repay(&paused, &wl, &mut state, 15_000, 1, 87_401),
        Err(PencilError::SystemPaused)
    );
    let mut uninitialized = shortfall_state(700, 300);
    uninitialized.pool.related_accounts_initialized = false;
    assert_eq!(
        repay(&c, &wl, &mut uninitialized, 15_000, 1, 87_401),
        Err(PencilError::RelatedAccountsNotInitialized)
    );
    let mut approved_only = shortfall_state(700, 300);
    approved_only.pool.status = PoolStatus::Approved;
    assert_eq!(
        repay(&c, &wl, &mut approved_only, 15_000, 1, 87_401),
        Err(PencilError::InvalidAssetPoolStatus)
    );
    assert_eq!(state.pool.repaid_amount, 0);
    assert_eq!(state.vault_balance, 100_000);
}
