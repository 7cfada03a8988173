//! The repayment waterfall and the downstream entitlements: periodic
//! repayment distribution (platform fee, senior principal and interest,
//! first-loss top-up, residual junior interest), per-position interest
//! claims, final principal redemption, and senior early exit.

use vstd::prelude::*;

use crate::errors::PencilError;
use crate::state::AssetPool;
use crate::state::AssetWhitelist;
use crate::state::FirstLossPool;
use crate::state::JuniorInterestPool;
use crate::state::JuniorNFTMetadata;
use crate::state::PoolState;
use crate::state::PoolStatus;
use crate::state::RepaymentRecord;
use crate::state::RepaymentStatus;
use crate::state::SeniorPool;
use crate::state::SystemConfig;
use crate::state::has_period;
use crate::utils::calculate_fee;
use crate::utils::spec_fee;

verus! {

/// Notification of one distributed repayment.
#[derive(Clone, Copy, Debug, PartialEq, Eq)]
pub struct RepaymentDistributed {
    pub period: u64,
    pub total_amount: u64,
    pub platform_fee: u64,
    pub senior_amount: u64,
    pub junior_interest: u64,
    pub timestamp: i64,
}

/// Notification of one senior exit: the yield tokens burned, the fee kept,
/// and the net amount paid out.
#[derive(Clone, Copy, Debug, PartialEq, Eq)]
pub struct EarlyExitProcessed {
    pub user: u64,
    pub amount: u64,
    pub fee: u64,
    pub net_amount: u64,
    pub timestamp: i64,
}

/// Notification of one junior interest claim.
#[derive(Clone, Copy, Debug, PartialEq, Eq)]
pub struct InterestClaimed {
    pub user: u64,
    pub nft_id: u64,
    pub amount: u64,
    pub timestamp: i64,
}

/// Notification of one junior principal redemption.
#[derive(Clone, Copy, Debug, PartialEq, Eq)]
pub struct PrincipalWithdrawn {
    pub user: u64,
    pub nft_id: u64,
    pub amount: u64,
    pub timestamp: i64,
}

/// What one period owes in total: principal portion plus interest portion,
/// each rounded down independently.
pub open spec fn spec_per_period_due(
    total_amount: u64,
    repayment_count: u64,
    repayment_rate: u16,
) -> int {
    total_amount as int / repayment_count as int + total_amount * repayment_rate / 10000
}

/// What one period owes the senior tranche: senior principal portion plus
/// senior fixed-rate interest, each rounded down independently.
pub open spec fn spec_senior_due(
    senior_total: u64,
    repayment_count: u64,
    senior_fixed_rate: u16,
) -> int {
    senior_total as int / repayment_count as int + senior_total * senior_fixed_rate / 10000
}

/// The installment due at `now`: zero while the window is open, and once it
/// has closed, the number of whole period lengths elapsed — but never less
/// than one, so the first installment is immediately payable.
pub open spec fn spec_due_period(funding_end_time: i64, repayment_period: u64, now: i64) -> int {
    if now < funding_end_time {
        0
    } else {
        let count = if repayment_period > 0 {
            (now - funding_end_time) / repayment_period as int
        } else {
            0
        };
        if count > 0 {
            count
        } else {
            1
        }
    }
}

/// What the senior tranche actually receives: its full due when the vault
/// suffices or the first-loss buffer covers the shortfall, else everything
/// available plus the whole remaining buffer.
pub open spec fn spec_actual_senior(senior_due: int, available: int, first_loss_remaining: int) -> int {
    if available >= senior_due {
        senior_due
    } else if first_loss_remaining >= senior_due - available {
        senior_due
    } else {
        available + first_loss_remaining
    }
}

/// How much of the first-loss buffer one repayment consumes: nothing when
/// the vault covers the senior due, else the shortfall, capped at what
/// remains of the buffer.
pub open spec fn spec_first_loss_draw(
    senior_due: int,
    available: int,
    first_loss_remaining: int,
) -> int {
    if available >= senior_due {
        0
    } else if first_loss_remaining >= senior_due - available {
        senior_due - available
    } else {
        first_loss_remaining
    }
}

/// Bounds of the waterfall split: the senior tranche is never credited
/// more than its due, the buffer is never drawn beyond what remains of it,
/// the credit is exactly the smaller of the due and everything available
/// including the buffer, and whenever less than the full due is credited
/// the buffer has been fully drained.
pub proof fn lemma_waterfall_bounds(senior_due: int, available: int, first_loss_remaining: int)
    requires
        0 <= senior_due,
        0 <= available,
        0 <= first_loss_remaining,
    ensures
        spec_actual_senior(senior_due, available, first_loss_remaining) <= senior_due,
        spec_first_loss_draw(senior_due, available, first_loss_remaining)
            <= first_loss_remaining,
        spec_actual_senior(senior_due, available, first_loss_remaining) == crate::utils::spec_min_int(
            senior_due,
            available + first_loss_remaining,
        ),
        spec_actual_senior(senior_due, available, first_loss_remaining) < senior_due
            ==> spec_first_loss_draw(senior_due, available, first_loss_remaining)
            == first_loss_remaining,
{
}

/// The product of two `u64` values stays inside `u128`.
proof fn lemma_u64_square_fits(x: u64, y: u64)
    ensures
        x * y <= u64::MAX * u64::MAX,
{
    assert(x * y <= u64::MAX * u64::MAX) by (nonlinear_arith)
        requires
            0 <= x <= u64::MAX,
            0 <= y <= u64::MAX,
    ;
}

/// Computes the per-period total due, `total_amount / repayment_count +
/// total_amount * repayment_rate / 10000`, with widened intermediates.
pub fn calculate_per_period_amount(
    total_amount: u64,
    repayment_count: u64,
    repayment_rate: u16,
) -> (r: Result<u64, PencilError>)
    ensures
        r is Ok <==> repayment_count > 0 && total_amount * repayment_rate / 10000 <= u64::MAX
            && spec_per_period_due(total_amount, repayment_count, repayment_rate) <= u64::MAX,
        r is Ok ==> r->Ok_0 == spec_per_period_due(total_amount, repayment_count, repayment_rate),
        repayment_count == 0 ==> r == Err::<u64, PencilError>(PencilError::InvalidRepaymentCount),
        r is Err && repayment_count > 0 ==> r->Err_0 == PencilError::ArithmeticOverflow,
{
    if repayment_count == 0 {
        return Err(PencilError::InvalidRepaymentCount);
    }
    let principal_per_period: u64 = total_amount / repayment_count;
    let interest_per_period: u64 = match calculate_fee(total_amount, repayment_rate) {
        Ok(v) => v,
        Err(e) => {
            return Err(e);
        },
    };
    match principal_per_period.checked_add(interest_per_period) {
        Some(v) => Ok(v),
        None => Err(PencilError::ArithmeticOverflow),
    }
}

/// Computes the platform fee on one period's due amount.
pub fn calculate_platform_fee(per_period_amount: u64, platform_fee_rate: u16) -> (r: Result<
    u64,
    PencilError,
>)
    ensures
        r is Ok <==> spec_fee(per_period_amount, platform_fee_rate) <= u64::MAX,
        r is Ok ==> r->Ok_0 == spec_fee(per_period_amount, platform_fee_rate),
        r is Err ==> r->Err_0 == PencilError::ArithmeticOverflow,
{
    calculate_fee(per_period_amount, platform_fee_rate)
}

/// Computes the senior tranche's per-period due, `senior_total /
/// repayment_count + senior_total * senior_fixed_rate / 10000`, with
/// widened intermediates.
pub fn calculate_senior_amount(
    senior_total: u64,
    repayment_count: u64,
    senior_fixed_rate: u16,
) -> (r: Result<u64, PencilError>)
    ensures
        r is Ok <==> repayment_count > 0 && senior_total * senior_fixed_rate / 10000 <= u64::MAX
            && spec_senior_due(senior_total, repayment_count, senior_fixed_rate) <= u64::MAX,
        r is Ok ==> r->Ok_0 == spec_senior_due(senior_total, repayment_count, senior_fixed_rate),
        repayment_count == 0 ==> r == Err::<u64, PencilError>(PencilError::InvalidRepaymentCount),
        r is Err && repayment_count > 0 ==> r->Err_0 == PencilError::ArithmeticOverflow,
{
    if repayment_count == 0 {
        return Err(PencilError::InvalidRepaymentCount);
    }
    let senior_principal_per_period: u64 = senior_total / repayment_count;
    let senior_interest_per_period: u64 = match calculate_fee(senior_total, senior_fixed_rate) {
        Ok(v) => v,
        Err(e) => {
            return Err(e);
        },
    };
    match senior_principal_per_period.checked_add(senior_interest_per_period) {
        Some(v) => Ok(v),
        None => Err(PencilError::ArithmeticOverflow),
    }
}

/// The installment due at `now`, per [`spec_due_period`]: the elapsed time
/// since the window closed divided by the period length in seconds, but at
/// least one once the window has closed.
fn calculate_current_period(funding_end_time: i64, repayment_period: u64, now: i64) -> (p: u64)
    ensures
        p == spec_due_period(funding_end_time, repayment_period, now),
{
    if now < funding_end_time {
        return 0;
    }
    let elapsed: u64 = (now as i128 - funding_end_time as i128) as u64;
    let count: u64 = if repayment_period > 0 {
        elapsed / repayment_period
    } else {
        0
    };
    if count > 0 {
        count
    } else {
        1
    }
}

/// Which error, if any, rejects a repayment, in validation order.
pub open spec fn repay_check(
    config: SystemConfig,
    whitelist: AssetWhitelist,
    state: PoolState,
    amount: u64,
    period: u64,
    now: i64,
) -> Option<PencilError> {
    let pool = state.pool;
    let due = spec_per_period_due(pool.total_amount, pool.repayment_count, pool.repayment_rate);
    let fee = due * pool.platform_fee / 10000;
    let avail = state.vault_balance - fee;
    let sdue = spec_senior_due(pool.senior_amount, pool.repayment_count, pool.senior_fixed_rate);
    let flr = state.first_loss_remaining();
    let actual = spec_actual_senior(sdue, avail, flr);
    let flu = spec_first_loss_draw(sdue, avail, flr);
    let ji = amount - fee - actual;
    if config.paused {
        Some(PencilError::SystemPaused)
    } else if has_period(state.records@, period) {
        Some(PencilError::RepaymentAlreadyCompleted)
    } else if amount == 0 {
        Some(PencilError::InvalidRepaymentAmount)
    } else if !whitelist.assets@.contains(pool.asset_address) {
        Some(PencilError::AssetNotSupported)
    } else if pool.status != PoolStatus::Funded && pool.status != PoolStatus::Repaying {
        Some(PencilError::InvalidAssetPoolStatus)
    } else if !pool.related_accounts_initialized {
        Some(PencilError::RelatedAccountsNotInitialized)
    } else if period == 0 || period > pool.repayment_count {
        Some(PencilError::InvalidRepaymentPeriod)
    } else if period > spec_due_period(pool.funding_end_time, pool.repayment_period, now) {
        Some(PencilError::RepaymentNotDue)
    } else if pool.total_amount * pool.repayment_rate / 10000 > u64::MAX || due > u64::MAX {
        Some(PencilError::ArithmeticOverflow)
    } else if amount < due {
        Some(PencilError::InvalidRepaymentAmount)
    } else if fee > u64::MAX {
        Some(PencilError::ArithmeticOverflow)
    } else if state.vault_balance + amount > u64::MAX {
        Some(PencilError::ArithmeticOverflow)
    } else if avail < 0 {
        Some(PencilError::ArithmeticOverflow)
    } else if pool.senior_amount * pool.senior_fixed_rate / 10000 > u64::MAX || sdue > u64::MAX {
        Some(PencilError::ArithmeticOverflow)
    } else if avail < sdue && state.first_loss_pool.repaid_amount
        > state.first_loss_pool.total_deposits {
        Some(PencilError::ArithmeticOverflow)
    } else if state.senior_pool.repaid_amount + actual > u64::MAX {
        Some(PencilError::ArithmeticOverflow)
    } else if ji < 0 {
        Some(PencilError::ArithmeticOverflow)
    } else if state.junior_interest_pool.total_interest + ji > u64::MAX {
        Some(PencilError::ArithmeticOverflow)
    } else if pool.repaid_amount + amount > u64::MAX {
        Some(PencilError::ArithmeticOverflow)
    } else {
        None
    }
}

/// The pool status after an accepted repayment: `Repaying` after the first
/// accepted installment, `Completed` once the final period is paid.
pub open spec fn status_after_repay(pool: AssetPool, period: u64) -> PoolStatus {
    if period == pool.repayment_count {
        PoolStatus::Completed
    } else if pool.status == PoolStatus::Funded {
        PoolStatus::Repaying
    } else {
        pool.status
    }
}

/// Distributes one period's repayment through the waterfall.
///
/// `amount` enters the vault and must cover the per-period due. The
/// platform fee on the due leaves to the treasury; the senior tranche is
/// credited its due, measured against the balance the vault held before
/// this repayment (net of the fee), topped up from the first-loss buffer
/// when that balance cannot cover it (and degraded to everything available
/// when even the buffer cannot); what is left of `amount` is credited to
/// junior interest.
/// One record per period: a duplicate period is rejected and changes
/// nothing. The pool moves to `Repaying` on the first accepted installment
/// and to `Completed` on the final one.
pub fn repay(
    config: &SystemConfig,
    whitelist: &AssetWhitelist,
    state: &mut PoolState,
    amount: u64,
    period: u64,
    now: i64,
) -> (r: Result<RepaymentDistributed, PencilError>)
    ensures
        ({
            let pool = old(state).pool;
            let check = repay_check(*config, *whitelist, *old(state), amount, period, now);
            let due = spec_per_period_due(
                pool.total_amount,
                pool.repayment_count,
                pool.repayment_rate,
            );
            let fee = due * pool.platform_fee / 10000;
            let avail = old(state).vault_balance - fee;
            let sdue = spec_senior_due(
                pool.senior_amount,
                pool.repayment_count,
                pool.senior_fixed_rate,
            );
            let flr = old(state).first_loss_remaining();
            let actual = spec_actual_senior(sdue, avail, flr);
            let flu = spec_first_loss_draw(sdue, avail, flr);
            let ji = amount - fee - actual;
            match check {
                Some(e) => r == Err::<RepaymentDistributed, PencilError>(e) && *final(state)
                    == *old(state),
                None => {
                    &&& r == Ok::<RepaymentDistributed, PencilError>(
                        RepaymentDistributed {
                            period,
                            total_amount: amount,
                            platform_fee: fee as u64,
                            senior_amount: actual as u64,
                            junior_interest: ji as u64,
                            timestamp: now,
                        },
                    )
                    &&& final(state).pool == (AssetPool {
                        repaid_amount: (pool.repaid_amount + amount) as u64,
                        status: status_after_repay(pool, period),
                        ..pool
                    })
                    &&& final(state).senior_pool == (SeniorPool {
                        repaid_amount: (old(state).senior_pool.repaid_amount + actual) as u64,
                        ..old(state).senior_pool
                    })
                    &&& final(state).first_loss_pool == (FirstLossPool {
                        repaid_amount: (old(state).first_loss_pool.repaid_amount + flu) as u64,
                        ..old(state).first_loss_pool
                    })
                    &&& final(state).junior_interest_pool == (JuniorInterestPool {
                        total_interest: (old(state).junior_interest_pool.total_interest
                            + ji) as u64,
                        ..old(state).junior_interest_pool
                    })
                    &&& final(state).records@ == old(state).records@.push(
                        RepaymentRecord {
                            period,
                            amount,
                            repaid_at: now,
                            status: RepaymentStatus::Completed,
                        },
                    )
                    &&& final(state).vault_balance == old(state).vault_balance + amount
                        - fee
                    &&& final(state).funding == old(state).funding
                    &&& final(state).grow_supply == old(state).grow_supply
                },
            }
        }),
        r is Err ==> *final(state) == *old(state),
        !config.paused && has_period(old(state).records@, period) ==> r == Err::<
            RepaymentDistributed,
            PencilError,
        >(PencilError::RepaymentAlreadyCompleted) && *final(state) == *old(state),
        final(state).pool.repaid_amount >= old(state).pool.repaid_amount,
        final(state).senior_pool.repaid_amount >= old(state).senior_pool.repaid_amount,
        final(state).first_loss_pool.repaid_amount >= old(state).first_loss_pool.repaid_amount,
        final(state).junior_interest_pool.total_interest >= old(state).junior_interest_pool.total_interest,
        final(state).junior_interest_pool.distributed_interest == old(state).junior_interest_pool.distributed_interest,
        old(state).junior_interest_pool.distributed_interest <= old(state).junior_interest_pool.total_interest ==> final(state).junior_interest_pool.distributed_interest <= final(state).junior_interest_pool.total_interest,
{
    if config.paused {
        return Err(PencilError::SystemPaused);
    }
    if state.period_recorded(period) {
        return Err(PencilError::RepaymentAlreadyCompleted);
    }
    if amount == 0 {
        return Err(PencilError::InvalidRepaymentAmount);
    }
    if !whitelist.contains(state.pool.asset_address) {
        return Err(PencilError::AssetNotSupported);
    }
    if state.pool.status != PoolStatus::Funded && state.pool.status != PoolStatus::Repaying {
        return Err(PencilError::InvalidAssetPoolStatus);
    }
    if !state.pool.related_accounts_initialized {
        return Err(PencilError::RelatedAccountsNotInitialized);
    }
    if period == 0 || period > state.pool.repayment_count {
        return Err(PencilError::InvalidRepaymentPeriod);
    }
    let due_period: u64 = calculate_current_period(
        state.pool.funding_end_time,
        state.pool.repayment_period,
        now,
    );
    if period > due_period {
        return Err(PencilError::RepaymentNotDue);
    }
    let per_period_total: u64 = match calculate_per_period_amount(
        state.pool.total_amount,
        state.pool.repayment_count,
        state.pool.repayment_rate,
    ) {
        Ok(v) => v,
        Err(e) => {
            return Err(e);
        },
    };
    if amount < per_period_total {
        return Err(PencilError::InvalidRepaymentAmount);
    }
    let platform_fee: u64 = match calculate_platform_fee(per_period_total, state.pool.platform_fee) {
        Ok(v) => v,
        Err(e) => {
            return Err(e);
        },
    };
    let vault_after_in: u64 = match state.vault_balance.checked_add(amount) {
        Some(v) => v,
        None => {
            return Err(PencilError::ArithmeticOverflow);
        },
    };
    let available_for_senior: u64 = match state.vault_balance.checked_sub(platform_fee) {
        Some(v) => v,
        None => {
            return Err(PencilError::ArithmeticOverflow);
        },
    };
    let senior_due: u64 = match calculate_senior_amount(
        state.pool.senior_amount,
        state.pool.repayment_count,
        state.pool.senior_fixed_rate,
    ) {
        Ok(v) => v,
        Err(e) => {
            return Err(e);
        },
    };
    let mut actual_senior_amount: u64 = senior_due;
    let mut first_loss_used: u64 = 0;
    if available_for_senior < senior_due {
        let shortfall: u64 = senior_due - available_for_senior;
        let first_loss_available: u64 = match state.first_loss_pool.total_deposits.checked_sub(
            state.first_loss_pool.repaid_amount,
        ) {
            Some(v) => v,
            None => {
                return Err(PencilError::ArithmeticOverflow);
            },
        };
        if first_loss_available >= shortfall {
            first_loss_used = shortfall;
        } else {
            first_loss_used = first_loss_available;
            actual_senior_amount = available_for_senior + first_loss_used;
        }
    }
    let new_senior_repaid: u64 = match state.senior_pool.repaid_amount.checked_add(
        actual_senior_amount,
    ) {
        Some(v) => v,
        None => {
            return Err(PencilError::ArithmeticOverflow);
        },
    };
    let after_fee: u64 = match amount.checked_sub(platform_fee) {
        Some(v) => v,
        None => {
            return Err(PencilError::ArithmeticOverflow);
        },
    };
    let junior_interest: u64 = match after_fee.checked_sub(actual_senior_amount) {
        Some(v) => v,
        None => {
            return Err(PencilError::ArithmeticOverflow);
        },
    };
    let new_total_interest: u64 = match state.junior_interest_pool.total_interest.checked_add(
        junior_interest,
    ) {
        Some(v) => v,
        None => {
            return Err(PencilError::ArithmeticOverflow);
        },
    };
    let new_repaid: u64 = match state.pool.repaid_amount.checked_add(amount) {
        Some(v) => v,
        None => {
            return Err(PencilError::ArithmeticOverflow);
        },
    };
    state.senior_pool.repaid_amount = new_senior_repaid;
    state.first_loss_pool.repaid_amount = state.first_loss_pool.repaid_amount + first_loss_used;
    state.junior_interest_pool.total_interest = new_total_interest;
    state.records.push(
        RepaymentRecord { period, amount, repaid_at: now, status: RepaymentStatus::Completed },
    );
    state.pool.repaid_amount = new_repaid;
    if state.pool.status == PoolStatus::Funded {
        state.pool.status = PoolStatus::Repaying;
    }
    if period == state.pool.repayment_count {
        state.pool.status = PoolStatus::Completed;
    }
    state.vault_balance = vault_after_in - platform_fee;
    Ok(
        RepaymentDistributed {
            period,
            total_amount: amount,
            platform_fee,
            senior_amount: actual_senior_amount,
            junior_interest,
            timestamp: now,
        },
    )
}

/// One position's cumulative interest entitlement: the credited residual
/// interest, shared pro rata by principal over the junior total.
pub open spec fn spec_interest_share(state: PoolState, nft: JuniorNFTMetadata) -> int {
    state.junior_interest_pool.total_interest * nft.principal
        / state.first_loss_pool.total_deposits as int
}

/// Which error, if any, rejects an interest claim, in validation order.
pub open spec fn claim_check(
    config: SystemConfig,
    state: PoolState,
    nft: JuniorNFTMetadata,
    user: u64,
) -> Option<PencilError> {
    let share = spec_interest_share(state, nft);
    let claimable = share - nft.claimed_interest;
    if config.paused {
        Some(PencilError::SystemPaused)
    } else if nft.owner != user {
        Some(PencilError::Unauthorized)
    } else if state.first_loss_pool.total_deposits == 0 {
        Some(PencilError::InvalidPrincipalCalculation)
    } else if share > u64::MAX {
        Some(PencilError::ArithmeticOverflow)
    } else if claimable < 0 {
        Some(PencilError::ArithmeticOverflow)
    } else if claimable == 0 {
        Some(PencilError::NoInterestToClaim)
    } else if state.junior_interest_pool.distributed_interest
        > state.junior_interest_pool.total_interest {
        Some(PencilError::ArithmeticOverflow)
    } else if state.undistributed_interest() < claimable {
        Some(PencilError::InsufficientPoolFunds)
    } else if state.vault_balance < claimable {
        Some(PencilError::InsufficientVaultBalance)
    } else {
        None
    }
}

/// Pays a position the interest it is entitled to but has not claimed yet:
/// `total_interest * principal / junior_total - claimed_interest`. The
/// payout leaves the vault, is added to the ledger's distributed total and
/// to the position's claimed total. A position with nothing to claim, or a
/// ledger without enough undistributed interest, is rejected.
pub fn claim_junior_interest(
    config: &SystemConfig,
    state: &mut PoolState,
    nft: &mut JuniorNFTMetadata,
    user: u64,
    now: i64,
) -> (r: Result<InterestClaimed, PencilError>)
    ensures
        ({
            let check = claim_check(*config, *old(state), *old(nft), user);
            let share = spec_interest_share(*old(state), *old(nft));
            let claimable = share - old(nft).claimed_interest;
            match check {
                Some(e) => r == Err::<InterestClaimed, PencilError>(e) && *final(state) == *old(state) && *final(nft) == *old(nft),
                None => {
                    &&& r == Ok::<InterestClaimed, PencilError>(
                        InterestClaimed {
                            user,
                            nft_id: old(nft).nft_id,
                            amount: claimable as u64,
                            timestamp: now,
                        },
                    )
                    &&& *final(nft) == (JuniorNFTMetadata {
                        claimed_interest: share as u64,
                        ..*old(nft)
                    })
                    &&& *final(state) == (PoolState {
                        junior_interest_pool: JuniorInterestPool {
                            distributed_interest: (old(state).junior_interest_pool.distributed_interest + claimable) as u64,
                            ..old(state).junior_interest_pool
                        },
                        vault_balance: (old(state).vault_balance - claimable) as u64,
                        ..*old(state)
                    })
                },
            }
        }),
        r is Err ==> *final(state) == *old(state) && *final(nft) == *old(nft),
        final(nft).claimed_interest >= old(nft).claimed_interest,
        final(nft).principal_withdrawn == old(nft).principal_withdrawn,
        final(nft).principal == old(nft).principal,
        final(state).junior_interest_pool.distributed_interest >= old(state).junior_interest_pool.distributed_interest,
        final(state).junior_interest_pool.total_interest == old(state).junior_interest_pool.total_interest,
        final(state).pool.repaid_amount == old(state).pool.repaid_amount,
        old(state).junior_interest_pool.distributed_interest <= old(state).junior_interest_pool.total_interest ==> final(state).junior_interest_pool.distributed_interest <= final(state).junior_interest_pool.total_interest,
{
    if config.paused {
        return Err(PencilError::SystemPaused);
    }
    if nft.owner != user {
        return Err(PencilError::Unauthorized);
    }
    let junior_total_principal: u64 = state.first_loss_pool.total_deposits;
    if junior_total_principal == 0 {
        return Err(PencilError::InvalidPrincipalCalculation);
    }
    proof {
        lemma_u64_square_fits(state.junior_interest_pool.total_interest, nft.principal);
    }
    let share_wide: u128 = (state.junior_interest_pool.total_interest as u128) * (
    nft.principal as u128) / (junior_total_principal as u128);
    if share_wide > u64::MAX as u128 {
        return Err(PencilError::ArithmeticOverflow);
    }
    let nft_share: u64 = share_wide as u64;
    let claimable_interest: u64 = match nft_share.checked_sub(nft.claimed_interest) {
        Some(v) => v,
        None => {
            return Err(PencilError::ArithmeticOverflow);
        },
    };
    if claimable_interest == 0 {
        return Err(PencilError::NoInterestToClaim);
    }
    let undistributed_interest: u64 = match state
        .junior_interest_pool
        .total_interest
        .checked_sub(state.junior_interest_pool.distributed_interest) {
        Some(v) => v,
        None => {
            return Err(PencilError::ArithmeticOverflow);
        },
    };
    if undistributed_interest < claimable_interest {
        return Err(PencilError::InsufficientPoolFunds);
    }
    if state.vault_balance < claimable_interest {
        return Err(PencilError::InsufficientVaultBalance);
    }
    state.junior_interest_pool.distributed_interest =
        state.junior_interest_pool.distributed_interest + claimable_interest;
    nft.claimed_interest = nft.claimed_interest + claimable_interest;
    state.vault_balance = state.vault_balance - claimable_interest;
    Ok(
        InterestClaimed { user, nft_id: nft.nft_id, amount: claimable_interest, timestamp: now },
    )
}

/// Which error, if any, rejects a principal redemption, in validation
/// order.
pub open spec fn withdraw_principal_check(
    config: SystemConfig,
    state: PoolState,
    nft: JuniorNFTMetadata,
    user: u64,
) -> Option<PencilError> {
    let remaining = state.first_loss_remaining();
    let actual = state.vault_balance * nft.principal / remaining;
    if config.paused {
        Some(PencilError::SystemPaused)
    } else if state.pool.status != PoolStatus::Completed {
        Some(PencilError::InvalidAssetPoolStatus)
    } else if nft.owner != user {
        Some(PencilError::Unauthorized)
    } else if nft.principal_withdrawn {
        Some(PencilError::NoPrincipalToWithdraw)
    } else if nft.principal == 0 {
        Some(PencilError::InvalidPrincipalCalculation)
    } else if remaining < 0 {
        Some(PencilError::ArithmeticOverflow)
    } else if remaining == 0 {
        Some(PencilError::InvalidPrincipalCalculation)
    } else if actual > u64::MAX {
        Some(PencilError::ArithmeticOverflow)
    } else if state.vault_balance < actual {
        Some(PencilError::InsufficientVaultBalance)
    } else if state.first_loss_pool.repaid_amount + nft.principal > u64::MAX {
        Some(PencilError::ArithmeticOverflow)
    } else {
        None
    }
}

/// Redeems a position's principal once the pool is `Completed`: the payout
/// is pro rata against what remains in the vault, `vault_balance *
/// principal / (total_deposits - repaid_amount)`. The position's full
/// share — not the payout — is marked consumed on the first-loss ledger,
/// and the one-shot withdrawal flag flips.
pub fn withdraw_principal(
    config: &SystemConfig,
    state: &mut PoolState,
    nft: &mut JuniorNFTMetadata,
    user: u64,
    now: i64,
) -> (r: Result<PrincipalWithdrawn, PencilError>)
    ensures
        ({
            let check = withdraw_principal_check(*config, *old(state), *old(nft), user);
            let remaining = old(state).first_loss_remaining();
            let actual = old(state).vault_balance * old(nft).principal / remaining;
            match check {
                Some(e) => r == Err::<PrincipalWithdrawn, PencilError>(e) && *final(state) == *old(state) && *final(nft) == *old(nft),
                None => {
                    &&& r == Ok::<PrincipalWithdrawn, PencilError>(
                        PrincipalWithdrawn {
                            user,
                            nft_id: old(nft).nft_id,
                            amount: actual as u64,
                            timestamp: now,
                        },
                    )
                    &&& *final(nft) == (JuniorNFTMetadata {
                        principal_withdrawn: true,
                        ..*old(nft)
                    })
                    &&& *final(state) == (PoolState {
                        first_loss_pool: FirstLossPool {
                            repaid_amount: (old(state).first_loss_pool.repaid_amount + old(nft).principal) as u64,
                            ..old(state).first_loss_pool
                        },
                        vault_balance: (old(state).vault_balance - actual) as u64,
                        ..*old(state)
                    })
                },
            }
        }),
        r is Err ==> *final(state) == *old(state) && *final(nft) == *old(nft),
        old(nft).principal_withdrawn ==> final(nft).principal_withdrawn,
        r is Ok ==> !old(nft).principal_withdrawn && final(nft).principal_withdrawn,
        final(nft).claimed_interest == old(nft).claimed_interest,
        final(state).first_loss_pool.repaid_amount >= old(state).first_loss_pool.repaid_amount,
        final(state).junior_interest_pool == old(state).junior_interest_pool,
{
    if config.paused {
        return Err(PencilError::SystemPaused);
    }
    if state.pool.status != PoolStatus::Completed {
        return Err(PencilError::InvalidAssetPoolStatus);
    }
    if nft.owner != user {
        return Err(PencilError::Unauthorized);
    }
    if nft.principal_withdrawn {
        return Err(PencilError::NoPrincipalToWithdraw);
    }
    let user_shares: u64 = nft.principal;
    if user_shares == 0 {
        return Err(PencilError::InvalidPrincipalCalculation);
    }
    let total_remaining_shares: u64 = match state.first_loss_pool.total_deposits.checked_sub(
        state.first_loss_pool.repaid_amount,
    ) {
        Some(v) => v,
        None => {
            return Err(PencilError::ArithmeticOverflow);
        },
    };
    if total_remaining_shares == 0 {
        return Err(PencilError::InvalidPrincipalCalculation);
    }
    proof {
        lemma_u64_square_fits(state.vault_balance, user_shares);
    }
    let actual_wide: u128 = (state.vault_balance as u128) * (user_shares as u128) / (
    total_remaining_shares as u128);
    if actual_wide > u64::MAX as u128 {
        return Err(PencilError::ArithmeticOverflow);
    }
    let actual_amount: u64 = actual_wide as u64;
    if state.vault_balance < actual_amount {
        return Err(PencilError::InsufficientVaultBalance);
    }
    let new_repaid: u64 = match state.first_loss_pool.repaid_amount.checked_add(user_shares) {
        Some(v) => v,
        None => {
            return Err(PencilError::ArithmeticOverflow);
        },
    };
    state.first_loss_pool.repaid_amount = new_repaid;
    nft.principal_withdrawn = true;
    state.vault_balance = state.vault_balance - actual_amount;
    Ok(PrincipalWithdrawn { user, nft_id: nft.nft_id, amount: actual_amount, timestamp: now })
}

/// Which error, if any, rejects a senior exit before the pool-status
/// branch, in validation order.
pub open spec fn exit_check(
    config: SystemConfig,
    state: PoolState,
    user_grow_balance: u64,
    amount: u64,
) -> Option<PencilError> {
    let pool = state.pool;
    if config.paused {
        Some(PencilError::SystemPaused)
    } else if amount == 0 {
        Some(PencilError::InvalidEarlyExitAmount)
    } else if pool.status != PoolStatus::Funded && pool.status != PoolStatus::Repaying
        && pool.status != PoolStatus::Completed {
        Some(PencilError::InvalidAssetPoolStatus)
    } else if !pool.related_accounts_initialized {
        Some(PencilError::RelatedAccountsNotInitialized)
    } else if user_grow_balance < amount {
        Some(PencilError::InsufficientBalance)
    } else {
        None
    }
}

/// Which error, if any, rejects a pro-rata withdrawal from a completed
/// pool, in validation order.
pub open spec fn completed_withdraw_check(state: PoolState, amount: u64) -> Option<PencilError> {
    let actual = state.vault_balance * amount / state.grow_supply as int;
    if state.grow_supply == 0 {
        Some(PencilError::InvalidPrincipalCalculation)
    } else if state.grow_supply < amount {
        Some(PencilError::InsufficientBalance)
    } else if state.senior_pool.total_deposits < actual {
        Some(PencilError::ArithmeticOverflow)
    } else {
        None
    }
}

/// Pays a senior holder of a completed pool its pro-rata share of what
/// remains in the vault, `vault_balance * amount / grow_supply`, burning
/// `amount` yield tokens; the senior ledger's deposits shrink by the
/// payout.
fn handle_senior_withdraw_after_completion(
    state: &mut PoolState,
    user: u64,
    amount: u64,
    now: i64,
) -> (r: Result<EarlyExitProcessed, PencilError>)
    ensures
        ({
            let check = completed_withdraw_check(*old(state), amount);
            let actual = old(state).vault_balance * amount / old(state).grow_supply as int;
            match check {
                Some(e) => r == Err::<EarlyExitProcessed, PencilError>(e) && *final(state) == *old(state),
                None => {
                    &&& r == Ok::<EarlyExitProcessed, PencilError>(
                        EarlyExitProcessed {
                            user,
                            amount,
                            fee: 0u64,
                            net_amount: actual as u64,
                            timestamp: now,
                        },
                    )
                    &&& *final(state) == (PoolState {
                        senior_pool: SeniorPool {
                            total_deposits: (old(state).senior_pool.total_deposits
                                - actual) as u64,
                            ..old(state).senior_pool
                        },
                        vault_balance: (old(state).vault_balance - actual) as u64,
                        grow_supply: (old(state).grow_supply - amount) as u64,
                        ..*old(state)
                    })
                },
            }
        }),
        r is Err ==> *final(state) == *old(state),
{
    let grow_total_supply: u64 = state.grow_supply;
    if grow_total_supply == 0 {
        return Err(PencilError::InvalidPrincipalCalculation);
    }
    if grow_total_supply < amount {
        return Err(PencilError::InsufficientBalance);
    }
    let vault_balance: u64 = state.vault_balance;
    proof {
        lemma_u64_square_fits(vault_balance, amount);
        assert(vault_balance * amount <= grow_total_supply * vault_balance) by (nonlinear_arith)
            requires
                0 <= vault_balance,
                0 <= amount <= grow_total_supply,
        ;
        vstd::arithmetic::div_mod::lemma_multiply_divide_le(
            vault_balance * amount,
            grow_total_supply as int,
            vault_balance as int,
        );
    }
    let actual_wide: u128 = (vault_balance as u128) * (amount as u128) / (
    grow_total_supply as u128);
    let actual_amount: u64 = actual_wide as u64;
    let new_deposits: u64 = match state.senior_pool.total_deposits.checked_sub(actual_amount) {
        Some(v) => v,
        None => {
            return Err(PencilError::ArithmeticOverflow);
        },
    };
    state.grow_supply = grow_total_supply - amount;
    state.senior_pool.total_deposits = new_deposits;
    state.vault_balance = vault_balance - actual_amount;
    Ok(
        EarlyExitProcessed { user, amount, fee: 0, net_amount: actual_amount, timestamp: now },
    )
}

/// Which error, if any, rejects an early exit from a pool that is still
/// funded or repaying, in validation order.
pub open spec fn early_exit_inner_check(state: PoolState, amount: u64, now: i64) -> Option<
    PencilError,
> {
    let pool = state.pool;
    let rate = if now < pool.funding_end_time {
        pool.senior_early_before_exit_fee
    } else {
        pool.senior_early_after_exit_fee
    };
    let fee = amount * rate / 10000;
    let net = amount - fee;
    let vault0 = state.vault_balance;
    let flr = state.first_loss_remaining();
    let actual = spec_actual_senior(net, vault0 as int, flr);
    if fee > u64::MAX {
        Some(PencilError::ArithmeticOverflow)
    } else if net < 0 {
        Some(PencilError::ArithmeticOverflow)
    } else if state.grow_supply < amount {
        Some(PencilError::InsufficientBalance)
    } else if vault0 < net && state.first_loss_pool.repaid_amount
        > state.first_loss_pool.total_deposits {
        Some(PencilError::ArithmeticOverflow)
    } else if actual > u64::MAX {
        Some(PencilError::ArithmeticOverflow)
    } else if fee + actual > vault0 {
        Some(PencilError::InsufficientVaultBalance)
    } else if state.senior_pool.total_deposits < amount {
        Some(PencilError::ArithmeticOverflow)
    } else {
        None
    }
}

/// Lets a senior holder exit while the pool is funded or repaying, or take
/// its pro-rata share once the pool is completed.
///
/// Before completion: `amount` yield tokens are burned; the before-close or
/// after-close fee (by `now` against the window end) goes to the treasury;
/// the net refund is paid from the vault, drawing on the first-loss buffer
/// when the vault balance falls short and degrading to everything
/// available when even the buffer cannot cover it; the senior ledger's
/// deposits shrink by the full `amount`. After completion the exit is a
/// pure pro-rata redemption against the vault with no fee.
pub fn early_exit_senior(
    config: &SystemConfig,
    state: &mut PoolState,
    user: u64,
    user_grow_balance: u64,
    amount: u64,
    now: i64,
) -> (r: Result<EarlyExitProcessed, PencilError>)
    ensures
        ({
            let check = exit_check(*config, *old(state), user_grow_balance, amount);
            let pool = old(state).pool;
            let rate = if now < pool.funding_end_time {
                pool.senior_early_before_exit_fee
            } else {
                pool.senior_early_after_exit_fee
            };
            let fee = amount * rate / 10000;
            let net = amount - fee;
            let vault0 = old(state).vault_balance;
            let flr = old(state).first_loss_remaining();
            let actual = spec_actual_senior(net, vault0 as int, flr);
            let flu = spec_first_loss_draw(net, vault0 as int, flr);
            let completed_actual = old(state).vault_balance * amount / old(state).grow_supply as int;
            match check {
                Some(e) => r == Err::<EarlyExitProcessed, PencilError>(e) && *final(state) == *old(state),
                None => {
                    if pool.status == PoolStatus::Completed {
                        match completed_withdraw_check(*old(state), amount) {
                            Some(e) => r == Err::<EarlyExitProcessed, PencilError>(e) && *final(state) == *old(state),
                            None => {
                                &&& r == Ok::<EarlyExitProcessed, PencilError>(
                                    EarlyExitProcessed {
                                        user,
                                        amount,
                                        fee: 0u64,
                                        net_amount: completed_actual as u64,
                                        timestamp: now,
                                    },
                                )
                                &&& *final(state) == (PoolState {
                                    senior_pool: SeniorPool {
                                        total_deposits: (old(state).senior_pool.total_deposits
                                            - completed_actual) as u64,
                                        ..old(state).senior_pool
                                    },
                                    vault_balance: (old(state).vault_balance
                                        - completed_actual) as u64,
                                    grow_supply: (old(state).grow_supply - amount) as u64,
                                    ..*old(state)
                                })
                            },
                        }
                    } else {
                        match early_exit_inner_check(*old(state), amount, now) {
                            Some(e) => r == Err::<EarlyExitProcessed, PencilError>(e) && *final(state) == *old(state),
                            None => {
                                &&& r == Ok::<EarlyExitProcessed, PencilError>(
                                    EarlyExitProcessed {
                                        user,
                                        amount,
                                        fee: fee as u64,
                                        net_amount: actual as u64,
                                        timestamp: now,
                                    },
                                )
                                &&& *final(state) == (PoolState {
                                    senior_pool: SeniorPool {
                                        total_deposits: (old(state).senior_pool.total_deposits
                                            - amount) as u64,
                                        ..old(state).senior_pool
                                    },
                                    first_loss_pool: FirstLossPool {
                                        repaid_amount: (old(state).first_loss_pool.repaid_amount
                                            + flu) as u64,
                                        ..old(state).first_loss_pool
                                    },
                                    vault_balance: (vault0 - fee - actual) as u64,
                                    grow_supply: (old(state).grow_supply - amount) as u64,
                                    ..*old(state)
                                })
                            },
                        }
                    }
                },
            }
        }),
        r is Err ==> *final(state) == *old(state),
        final(state).first_loss_pool.repaid_amount >= old(state).first_loss_pool.repaid_amount,
        final(state).pool == old(state).pool,
        final(state).junior_interest_pool == old(state).junior_interest_pool,
        final(state).records == old(state).records,
{
    if config.paused {
        return Err(PencilError::SystemPaused);
    }
    if amount == 0 {
        return Err(PencilError::InvalidEarlyExitAmount);
    }
    if state.pool.status != PoolStatus::Funded && state.pool.status != PoolStatus::Repaying
        && state.pool.status != PoolStatus::Completed {
        return Err(PencilError::InvalidAssetPoolStatus);
    }
    if !state.pool.related_accounts_initialized {
        return Err(PencilError::RelatedAccountsNotInitialized);
    }
    if user_grow_balance < amount {
        return Err(PencilError::InsufficientBalance);
    }
    if state.pool.status == PoolStatus::Completed {
        return handle_senior_withdraw_after_completion(state, user, amount, now);
    }
    let early_exit_fee_rate: u16 = if now < state.pool.funding_end_time {
        state.pool.senior_early_before_exit_fee
    } else {
        state.pool.senior_early_after_exit_fee
    };
    let exit_fee: u64 = match calculate_fee(amount, early_exit_fee_rate) {
        Ok(v) => v,
        Err(e) => {
            return Err(e);
        },
    };
    let net_refund_amount: u64 = match amount.checked_sub(exit_fee) {
        Some(v) => v,
        None => {
            return Err(PencilError::ArithmeticOverflow);
        },
    };
    if state.grow_supply < amount {
        return Err(PencilError::InsufficientBalance);
    }
    let vault_balance: u64 = state.vault_balance;
    let mut actual_refund: u64 = net_refund_amount;
    let mut first_loss_used: u64 = 0;
    if vault_balance < net_refund_amount {
        let shortfall: u64 = net_refund_amount - vault_balance;
        let first_loss_available: u64 = match state.first_loss_pool.total_deposits.checked_sub(
            state.first_loss_pool.repaid_amount,
        ) {
            Some(v) => v,
            None => {
                return Err(PencilError::ArithmeticOverflow);
            },
        };
        if first_loss_available >= shortfall {
            first_loss_used = shortfall;
        } else {
            first_loss_used = first_loss_available;
            actual_refund = match vault_balance.checked_add(first_loss_used) {
                Some(v) => v,
                None => {
                    return Err(PencilError::ArithmeticOverflow);
                },
            };
        }
    }
    let total_out: u64 = match exit_fee.checked_add(actual_refund) {
        Some(v) => v,
        None => {
            return Err(PencilError::InsufficientVaultBalance);
        },
    };
    if total_out > vault_balance {
        return Err(PencilError::InsufficientVaultBalance);
    }
    let new_deposits: u64 = match state.senior_pool.total_deposits.checked_sub(amount) {
        Some(v) => v,
        None => {
            return Err(PencilError::ArithmeticOverflow);
        },
    };
    state.grow_supply = state.grow_supply - amount;
    state.first_loss_pool.repaid_amount = state.first_loss_pool.repaid_amount + first_loss_used;
    state.senior_pool.total_deposits = new_deposits;
    state.vault_balance = vault_balance - total_out;
    Ok(
        EarlyExitProcessed {
            user,
            amount,
            fee: exit_fee,
            net_amount: actual_refund,
            timestamp: now,
        },
    )
}

} // verus!
