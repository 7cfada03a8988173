//! The subscription ledger and funding lifecycle: tranche subscriptions
//! during the funding window, completion against the minimum-amount and
//! junior-ratio gates, token/position distribution, refunds after funding
//! failure, cancellation, and early withdrawal of subscriptions while the
//! window is open.

use vstd::prelude::*;

use crate::errors::PencilError;
use crate::state::AssetPool;
use crate::state::AssetWhitelist;
use crate::state::JuniorNFTMetadata;
use crate::state::PoolState;
use crate::state::PoolStatus;
use crate::state::Subscription;
use crate::state::SubscriptionStatus;
use crate::state::Tranche;

verus! {

/// Notification that token/position distribution finished.
#[derive(Clone, Copy, Debug, PartialEq, Eq)]
pub struct TokensDistributed {
    pub senior_amount: u64,
    pub junior_count: u64,
    pub timestamp: i64,
}

/// Notification of one completed funding-failure refund.
#[derive(Clone, Copy, Debug, PartialEq, Eq)]
pub struct RefundProcessed {
    pub user: u64,
    pub amount: u64,
    pub subscription_type: u8,
    pub timestamp: i64,
}

/// What one early withdrawal moved: the subscription decrement, the fee
/// kept by the treasury and the net amount returned to the investor.
#[derive(Clone, Copy, Debug, PartialEq, Eq)]
pub struct SubscriptionWithdrawal {
    pub amount: u64,
    pub fee: u64,
    pub net_amount: u64,
}

/// The pool's running total for one tranche.
pub open spec fn tranche_total(pool: AssetPool, tranche: Tranche) -> u64 {
    match tranche {
        Tranche::Senior => pool.senior_amount,
        Tranche::Junior => pool.junior_amount,
    }
}

/// Whether funding failed once the window closed: the minimum was missed,
/// or the junior ratio gate fails, or no junior capital exists at all.
pub open spec fn funding_failed(pool: AssetPool) -> bool {
    let total = pool.senior_amount + pool.junior_amount;
    if total < pool.min_amount {
        true
    } else if pool.junior_amount > 0 {
        pool.junior_amount * 10000 / total < pool.min_junior_ratio
    } else {
        true
    }
}

/// Which error, if any, rejects a subscription, in validation order.
pub open spec fn subscribe_check(
    config: crate::state::SystemConfig,
    whitelist: AssetWhitelist,
    state: PoolState,
    sub: Subscription,
    user: u64,
    amount: u64,
    now: i64,
    tranche: Tranche,
) -> Option<PencilError> {
    if amount == 0 {
        Some(PencilError::InvalidSubscriptionAmount)
    } else if config.paused {
        Some(PencilError::SystemPaused)
    } else if !whitelist.assets@.contains(state.pool.asset_address) {
        Some(PencilError::AssetNotSupported)
    } else if now < state.pool.funding_start_time {
        Some(PencilError::FundingNotStarted)
    } else if now > state.pool.funding_end_time {
        Some(PencilError::FundingEnded)
    } else if sub.amount != 0 && sub.user != user {
        Some(PencilError::Unauthorized)
    } else if sub.amount != 0 && sub.subscription_type != tranche {
        Some(PencilError::InvalidSubscriptionStatus)
    } else if sub.amount != 0 && sub.status != SubscriptionStatus::Pending {
        Some(PencilError::InvalidSubscriptionStatus)
    } else if sub.amount + amount > u64::MAX {
        Some(PencilError::ArithmeticOverflow)
    } else if tranche_total(state.pool, tranche) + amount > u64::MAX {
        Some(PencilError::ArithmeticOverflow)
    } else if state.vault_balance + amount > u64::MAX {
        Some(PencilError::ArithmeticOverflow)
    } else {
        None
    }
}

/// The subscription record after an accepted subscription: the first call
/// initializes it, later calls accumulate into it.
pub open spec fn subscribed(
    sub: Subscription,
    user: u64,
    amount: u64,
    now: i64,
    tranche: Tranche,
) -> Subscription {
    if sub.amount == 0 {
        Subscription {
            user,
            subscription_type: tranche,
            amount,
            status: SubscriptionStatus::Pending,
            subscribed_at: now,
        }
    } else {
        Subscription { amount: (sub.amount + amount) as u64, ..sub }
    }
}

/// Accepts `amount` into one tranche: accumulates the investor's record,
/// adds to the pool's tranche total and moves the amount into the vault.
fn subscribe_tranche(
    config: &crate::state::SystemConfig,
    whitelist: &AssetWhitelist,
    state: &mut PoolState,
    sub: &mut Subscription,
    user: u64,
    amount: u64,
    now: i64,
    tranche: Tranche,
) -> (r: Result<(), PencilError>)
    ensures
        ({
            let check = subscribe_check(
                *config,
                *whitelist,
                *old(state),
                *old(sub),
                user,
                amount,
                now,
                tranche,
            );
            match check {
                Some(e) => r == Err::<(), PencilError>(e) && *final(state) == *old(state)
                    && *final(sub) == *old(sub),
                None => {
                    &&& r == Ok::<(), PencilError>(())
                    &&& *final(sub) == subscribed(*old(sub), user, amount, now, tranche)
                    &&& final(state).pool == (match tranche {
                        Tranche::Senior => AssetPool {
                            senior_amount: (old(state).pool.senior_amount + amount) as u64,
                            ..old(state).pool
                        },
                        Tranche::Junior => AssetPool {
                            junior_amount: (old(state).pool.junior_amount + amount) as u64,
                            ..old(state).pool
                        },
                    })
                    &&& final(state).vault_balance == old(state).vault_balance + amount
                    &&& final(state).funding == old(state).funding
                    &&& final(state).senior_pool == old(state).senior_pool
                    &&& final(state).first_loss_pool == old(state).first_loss_pool
                    &&& final(state).junior_interest_pool == old(state).junior_interest_pool
                    &&& final(state).records == old(state).records
                    &&& final(state).grow_supply == old(state).grow_supply
                },
            }
        }),
{
    if amount == 0 {
        return Err(PencilError::InvalidSubscriptionAmount);
    }
    if config.paused {
        return Err(PencilError::SystemPaused);
    }
    if !whitelist.contains(state.pool.asset_address) {
        return Err(PencilError::AssetNotSupported);
    }
    if now < state.pool.funding_start_time {
        return Err(PencilError::FundingNotStarted);
    }
    if now > state.pool.funding_end_time {
        return Err(PencilError::FundingEnded);
    }
    if sub.amount != 0 && sub.user != user {
        return Err(PencilError::Unauthorized);
    }
    if sub.amount != 0 && sub.subscription_type != tranche {
        return Err(PencilError::InvalidSubscriptionStatus);
    }
    if sub.amount != 0 && sub.status != SubscriptionStatus::Pending {
        return Err(PencilError::InvalidSubscriptionStatus);
    }
    let new_sub_amount: u64 = match sub.amount.checked_add(amount) {
        Some(v) => v,
        None => {
            return Err(PencilError::ArithmeticOverflow);
        },
    };
    let tranche_amount: u64 = match tranche {
        Tranche::Senior => state.pool.senior_amount,
        Tranche::Junior => state.pool.junior_amount,
    };
    let new_tranche_amount: u64 = match tranche_amount.checked_add(amount) {
        Some(v) => v,
        None => {
            return Err(PencilError::ArithmeticOverflow);
        },
    };
    let new_vault: u64 = match state.vault_balance.checked_add(amount) {
        Some(v) => v,
        None => {
            return Err(PencilError::ArithmeticOverflow);
        },
    };
    if sub.amount == 0 {
        sub.user = user;
        sub.subscription_type = tranche;
        sub.amount = amount;
        sub.status = SubscriptionStatus::Pending;
        sub.subscribed_at = now;
    } else {
        sub.amount = new_sub_amount;
    }
    match tranche {
        Tranche::Senior => {
            state.pool.senior_amount = new_tranche_amount;
        },
        Tranche::Junior => {
            state.pool.junior_amount = new_tranche_amount;
        },
    }
    state.vault_balance = new_vault;
    Ok(())
}

/// Subscribes `amount` to the senior tranche during the funding window.
pub fn subscribe_senior(
    config: &crate::state::SystemConfig,
    whitelist: &AssetWhitelist,
    state: &mut PoolState,
    sub: &mut Subscription,
    user: u64,
    amount: u64,
    now: i64,
) -> (r: Result<(), PencilError>)
    ensures
        ({
            let check = subscribe_check(
                *config,
                *whitelist,
                *old(state),
                *old(sub),
                user,
                amount,
                now,
                Tranche::Senior,
            );
            match check {
                Some(e) => r == Err::<(), PencilError>(e) && *final(state) == *old(state)
                    && *final(sub) == *old(sub),
                None => {
                    &&& r == Ok::<(), PencilError>(())
                    &&& *final(sub) == subscribed(*old(sub), user, amount, now, Tranche::Senior)
                    &&& final(state).pool == (AssetPool {
                        senior_amount: (old(state).pool.senior_amount + amount) as u64,
                        ..old(state).pool
                    })
                    &&& final(state).vault_balance == old(state).vault_balance + amount
                    &&& final(state).funding == old(state).funding
                    &&& final(state).senior_pool == old(state).senior_pool
                    &&& final(state).first_loss_pool == old(state).first_loss_pool
                    &&& final(state).junior_interest_pool == old(state).junior_interest_pool
                    &&& final(state).records == old(state).records
                    &&& final(state).grow_supply == old(state).grow_supply
                },
            }
        }),
{
    subscribe_tranche(config, whitelist, state, sub, user, amount, now, Tranche::Senior)
}

/// Subscribes `amount` to the junior tranche during the funding window.
pub fn subscribe_junior(
    config: &crate::state::SystemConfig,
    whitelist: &AssetWhitelist,
    state: &mut PoolState,
    sub: &mut Subscription,
    user: u64,
    amount: u64,
    now: i64,
) -> (r: Result<(), PencilError>)
    ensures
        ({
            let check = subscribe_check(
                *config,
                *whitelist,
                *old(state),
                *old(sub),
                user,
                amount,
                now,
                Tranche::Junior,
            );
            match check {
                Some(e) => r == Err::<(), PencilError>(e) && *final(state) == *old(state)
                    && *final(sub) == *old(sub),
                None => {
                    &&& r == Ok::<(), PencilError>(())
                    &&& *final(sub) == subscribed(*old(sub), user, amount, now, Tranche::Junior)
                    &&& final(state).pool == (AssetPool {
                        junior_amount: (old(state).pool.junior_amount + amount) as u64,
                        ..old(state).pool
                    })
                    &&& final(state).vault_balance == old(state).vault_balance + amount
                    &&& final(state).funding == old(state).funding
                    &&& final(state).senior_pool == old(state).senior_pool
                    &&& final(state).first_loss_pool == old(state).first_loss_pool
                    &&& final(state).junior_interest_pool == old(state).junior_interest_pool
                    &&& final(state).records == old(state).records
                    &&& final(state).grow_supply == old(state).grow_supply
                },
            }
        }),
{
    subscribe_tranche(config, whitelist, state, sub, user, amount, now, Tranche::Junior)
}

/// Which error, if any, rejects funding completion, in validation order.
pub open spec fn complete_funding_check(state: PoolState, now: i64) -> Option<PencilError> {
    let pool = state.pool;
    let total = pool.senior_amount + pool.junior_amount;
    if pool.status != PoolStatus::Approved {
        Some(PencilError::InvalidAssetPoolStatus)
    } else if now <= pool.funding_end_time {
        Some(PencilError::FundingNotCompleted)
    } else if total > u64::MAX {
        Some(PencilError::ArithmeticOverflow)
    } else if total < pool.min_amount {
        Some(PencilError::FundingMinimumNotMet)
    } else if total == 0 {
        Some(PencilError::InvalidJuniorRatio)
    } else if pool.junior_amount * 10000 / total < pool.min_junior_ratio {
        Some(PencilError::InvalidJuniorRatio)
    } else {
        None
    }
}

/// Completes funding once the window has closed and both the minimum-amount
/// and junior-ratio gates hold: fixes the senior and first-loss ledgers'
/// total deposits at the pool's running totals and moves the pool to
/// `Funded`. On failure the pool is left unchanged, which is the trigger
/// for refunds and cancellation instead.
pub fn complete_funding(state: &mut PoolState, now: i64) -> (r: Result<(), PencilError>)
    ensures
        ({
            let check = complete_funding_check(*old(state), now);
            match check {
                Some(e) => r == Err::<(), PencilError>(e) && *final(state) == *old(state),
                None => {
                    &&& r == Ok::<(), PencilError>(())
                    &&& final(state).pool == (AssetPool {
                        status: PoolStatus::Funded,
                        ..old(state).pool
                    })
                    &&& final(state).senior_pool == (crate::state::SeniorPool {
                        total_deposits: old(state).pool.senior_amount,
                        ..old(state).senior_pool
                    })
                    &&& final(state).first_loss_pool == (crate::state::FirstLossPool {
                        total_deposits: old(state).pool.junior_amount,
                        ..old(state).first_loss_pool
                    })
                    &&& final(state).junior_interest_pool == old(state).junior_interest_pool
                    &&& final(state).funding == old(state).funding
                    &&& final(state).records == old(state).records
                    &&& final(state).vault_balance == old(state).vault_balance
                    &&& final(state).grow_supply == old(state).grow_supply
                },
            }
        }),
{
    if state.pool.status != PoolStatus::Approved {
        return Err(PencilError::InvalidAssetPoolStatus);
    }
    if now <= state.pool.funding_end_time {
        return Err(PencilError::FundingNotCompleted);
    }
    let total: u64 = match state.pool.senior_amount.checked_add(state.pool.junior_amount) {
        Some(v) => v,
        None => {
            return Err(PencilError::ArithmeticOverflow);
        },
    };
    if total < state.pool.min_amount {
        return Err(PencilError::FundingMinimumNotMet);
    }
    if total == 0 {
        return Err(PencilError::InvalidJuniorRatio);
    }
    let ratio: u128 = (state.pool.junior_amount as u128) * 10000u128 / (total as u128);
    if ratio < state.pool.min_junior_ratio as u128 {
        return Err(PencilError::InvalidJuniorRatio);
    }
    state.senior_pool.total_deposits = state.pool.senior_amount;
    state.first_loss_pool.total_deposits = state.pool.junior_amount;
    state.pool.status = PoolStatus::Funded;
    Ok(())
}

/// Which error, if any, rejects distributing to one subscription.
pub open spec fn distribute_check(
    state: PoolState,
    sub: Subscription,
    tranche: Tranche,
) -> Option<PencilError> {
    if state.pool.status != PoolStatus::Funded {
        Some(PencilError::InvalidAssetPoolStatus)
    } else if sub.subscription_type != tranche {
        Some(PencilError::InvalidSubscriptionStatus)
    } else if sub.status != SubscriptionStatus::Pending {
        Some(PencilError::InvalidSubscriptionStatus)
    } else {
        None
    }
}

/// Confirms one pending senior subscription by minting it yield tokens,
/// one per deposited unit; returns how many were minted.
pub fn distribute_senior_token(state: &mut PoolState, sub: &mut Subscription) -> (r: Result<
    u64,
    PencilError,
>)
    ensures
        ({
            let check = distribute_check(*old(state), *old(sub), Tranche::Senior);
            match check {
                Some(e) => r == Err::<u64, PencilError>(e) && *final(state) == *old(state)
                    && *final(sub) == *old(sub),
                None => {
                    if old(state).grow_supply + old(sub).amount > u64::MAX {
                        r == Err::<u64, PencilError>(PencilError::ArithmeticOverflow) && *final(state) == *old(state) && *final(sub) == *old(sub)
                    } else {
                        &&& r == Ok::<u64, PencilError>(old(sub).amount)
                        &&& *final(sub) == (Subscription {
                            status: SubscriptionStatus::Confirmed,
                            ..*old(sub)
                        })
                        &&& *final(state) == (PoolState {
                            grow_supply: (old(state).grow_supply + old(sub).amount) as u64,
                            ..*old(state)
                        })
                    }
                },
            }
        }),
{
    if state.pool.status != PoolStatus::Funded {
        return Err(PencilError::InvalidAssetPoolStatus);
    }
    if sub.subscription_type != Tranche::Senior {
        return Err(PencilError::InvalidSubscriptionStatus);
    }
    if sub.status != SubscriptionStatus::Pending {
        return Err(PencilError::InvalidSubscriptionStatus);
    }
    let minted: u64 = sub.amount;
    let new_supply: u64 = match state.grow_supply.checked_add(minted) {
        Some(v) => v,
        None => {
            return Err(PencilError::ArithmeticOverflow);
        },
    };
    state.grow_supply = new_supply;
    sub.status = SubscriptionStatus::Confirmed;
    Ok(minted)
}

/// Confirms one pending junior subscription by issuing its position: the
/// position's principal is the full subscribed amount, with no interest
/// claimed and principal not withdrawn.
pub fn distribute_junior_nft(
    state: &PoolState,
    sub: &mut Subscription,
    nft_id: u64,
    now: i64,
) -> (r: Result<JuniorNFTMetadata, PencilError>)
    ensures
        ({
            let check = distribute_check(*state, *old(sub), Tranche::Junior);
            match check {
                Some(e) => r == Err::<JuniorNFTMetadata, PencilError>(e) && *final(sub) == *old(sub),
                None => {
                    &&& r == Ok::<JuniorNFTMetadata, PencilError>(
                        JuniorNFTMetadata {
                            nft_id,
                            owner: old(sub).user,
                            principal: old(sub).amount,
                            claimed_interest: 0u64,
                            principal_withdrawn: false,
                            created_at: now,
                        },
                    )
                    &&& *final(sub) == (Subscription {
                        status: SubscriptionStatus::Confirmed,
                        ..*old(sub)
                    })
                },
            }
        }),
{
    if state.pool.status != PoolStatus::Funded {
        return Err(PencilError::InvalidAssetPoolStatus);
    }
    if sub.subscription_type != Tranche::Junior {
        return Err(PencilError::InvalidSubscriptionStatus);
    }
    if sub.status != SubscriptionStatus::Pending {
        return Err(PencilError::InvalidSubscriptionStatus);
    }
    let metadata = JuniorNFTMetadata {
        nft_id,
        owner: sub.user,
        principal: sub.amount,
        claimed_interest: 0,
        principal_withdrawn: false,
        created_at: now,
    };
    sub.status = SubscriptionStatus::Confirmed;
    Ok(metadata)
}

/// Acknowledges that all tokens and positions of a funded pool were handed
/// out; reports the totals for the audit sink.
pub fn finalize_token_distribution(
    state: &PoolState,
    _senior_count: u64,
    junior_count: u64,
    now: i64,
) -> (r: Result<TokensDistributed, PencilError>)
    ensures
        state.pool.status != PoolStatus::Funded ==> r == Err::<TokensDistributed, PencilError>(
            PencilError::InvalidAssetPoolStatus,
        ),
        state.pool.status == PoolStatus::Funded ==> r == Ok::<TokensDistributed, PencilError>(
            TokensDistributed {
                senior_amount: state.pool.senior_amount,
                junior_count,
                timestamp: now,
            },
        ),
{
    if state.pool.status != PoolStatus::Funded {
        return Err(PencilError::InvalidAssetPoolStatus);
    }
    Ok(TokensDistributed { senior_amount: state.pool.senior_amount, junior_count, timestamp: now })
}

/// Marks a pending subscription refunded; a record that is not pending is
/// rejected, which is the double-refund protection.
pub fn refund_subscription(sub: &mut Subscription, _subscription_type: u8) -> (r: Result<
    (),
    PencilError,
>)
    ensures
        old(sub).status != SubscriptionStatus::Pending ==> r == Err::<(), PencilError>(
            PencilError::RefundAlreadyProcessed,
        ) && *final(sub) == *old(sub),
        old(sub).status == SubscriptionStatus::Pending ==> r == Ok::<(), PencilError>(()) && *final(sub) == (Subscription { status: SubscriptionStatus::Refunded, ..*old(sub) }),
{
    if sub.status != SubscriptionStatus::Pending {
        return Err(PencilError::RefundAlreadyProcessed);
    }
    sub.status = SubscriptionStatus::Refunded;
    Ok(())
}

/// Which error, if any, rejects a funding-failure refund, in validation
/// order.
pub open spec fn process_refund_check(
    state: PoolState,
    sub: Subscription,
    user: u64,
    now: i64,
) -> Option<PencilError> {
    let pool = state.pool;
    if sub.user != user {
        Some(PencilError::Unauthorized)
    } else if sub.status != SubscriptionStatus::Pending {
        Some(PencilError::RefundAlreadyProcessed)
    } else if now <= pool.funding_end_time {
        Some(PencilError::FundingNotCompleted)
    } else if pool.senior_amount + pool.junior_amount > u64::MAX {
        Some(PencilError::ArithmeticOverflow)
    } else if !funding_failed(pool) {
        Some(PencilError::FundingTargetNotMet)
    } else if sub.amount == 0 {
        Some(PencilError::InvalidRefundAmount)
    } else if state.vault_balance < sub.amount {
        Some(PencilError::InsufficientVaultBalance)
    } else if tranche_total(pool, sub.subscription_type) < sub.amount {
        Some(PencilError::ArithmeticOverflow)
    } else {
        None
    }
}

/// Refunds one pending subscription in full after funding failed: the full
/// recorded amount leaves the vault back to the investor, the subscription
/// becomes `Refunded`, and the pool's tranche total is decremented.
pub fn process_refund(
    state: &mut PoolState,
    sub: &mut Subscription,
    user: u64,
    now: i64,
) -> (r: Result<RefundProcessed, PencilError>)
    ensures
        ({
            let check = process_refund_check(*old(state), *old(sub), user, now);
            match check {
                Some(e) => r == Err::<RefundProcessed, PencilError>(e) && *final(state) == *old(state) && *final(sub) == *old(sub),
                None => {
                    &&& r == Ok::<RefundProcessed, PencilError>(
                        RefundProcessed {
                            user,
                            amount: old(sub).amount,
                            subscription_type: (match old(sub).subscription_type {
                                Tranche::Senior => 0u8,
                                Tranche::Junior => 1u8,
                            }),
                            timestamp: now,
                        },
                    )
                    &&& *final(sub) == (Subscription {
                        status: SubscriptionStatus::Refunded,
                        ..*old(sub)
                    })
                    &&& final(state).pool == (match old(sub).subscription_type {
                        Tranche::Senior => AssetPool {
                            senior_amount: (old(state).pool.senior_amount - old(sub).amount) as u64,
                            ..old(state).pool
                        },
                        Tranche::Junior => AssetPool {
                            junior_amount: (old(state).pool.junior_amount - old(sub).amount) as u64,
                            ..old(state).pool
                        },
                    })
                    &&& final(state).vault_balance == old(state).vault_balance - old(sub).amount
                    &&& final(state).funding == old(state).funding
                    &&& final(state).senior_pool == old(state).senior_pool
                    &&& final(state).first_loss_pool == old(state).first_loss_pool
                    &&& final(state).junior_interest_pool == old(state).junior_interest_pool
                    &&& final(state).records == old(state).records
                    &&& final(state).grow_supply == old(state).grow_supply
                },
            }
        }),
{
    if sub.user != user {
        return Err(PencilError::Unauthorized);
    }
    if sub.status != SubscriptionStatus::Pending {
        return Err(PencilError::RefundAlreadyProcessed);
    }
    if now <= state.pool.funding_end_time {
        return Err(PencilError::FundingNotCompleted);
    }
    let total: u64 = match state.pool.senior_amount.checked_add(state.pool.junior_amount) {
        Some(v) => v,
        None => {
            return Err(PencilError::ArithmeticOverflow);
        },
    };
    let failed: bool = if total < state.pool.min_amount {
        true
    } else if state.pool.junior_amount > 0 {
        let ratio: u128 = (state.pool.junior_amount as u128) * 10000u128 / (total as u128);
        ratio < state.pool.min_junior_ratio as u128
    } else {
        true
    };
    if !failed {
        return Err(PencilError::FundingTargetNotMet);
    }
    let refund_amount: u64 = sub.amount;
    if refund_amount == 0 {
        return Err(PencilError::InvalidRefundAmount);
    }
    if state.vault_balance < refund_amount {
        return Err(PencilError::InsufficientVaultBalance);
    }
    let subscription_type: u8 = match sub.subscription_type {
        Tranche::Senior => 0u8,
        Tranche::Junior => 1u8,
    };
    match sub.subscription_type {
        Tranche::Senior => {
            let new_amount: u64 = match state.pool.senior_amount.checked_sub(refund_amount) {
                Some(v) => v,
                None => {
                    return Err(PencilError::ArithmeticOverflow);
                },
            };
            state.pool.senior_amount = new_amount;
        },
        Tranche::Junior => {
            let new_amount: u64 = match state.pool.junior_amount.checked_sub(refund_amount) {
                Some(v) => v,
                None => {
                    return Err(PencilError::ArithmeticOverflow);
                },
            };
            state.pool.junior_amount = new_amount;
        },
    }
    state.vault_balance = state.vault_balance - refund_amount;
    sub.status = SubscriptionStatus::Refunded;
    Ok(RefundProcessed { user, amount: refund_amount, subscription_type, timestamp: now })
}

/// Which error, if any, rejects cancelling a pool, in validation order.
pub open spec fn cancel_pool_check(
    state: PoolState,
    config: crate::state::SystemConfig,
    authority: u64,
    now: i64,
) -> Option<PencilError> {
    let pool = state.pool;
    if authority != pool.creator && authority != config.super_admin {
        Some(PencilError::Unauthorized)
    } else if pool.status != PoolStatus::Created && pool.status != PoolStatus::Approved
        && pool.status != PoolStatus::Funding {
        Some(PencilError::InvalidAssetPoolStatus)
    } else if now <= pool.funding_end_time {
        Some(PencilError::FundingNotCompleted)
    } else if pool.senior_amount + pool.junior_amount > u64::MAX {
        Some(PencilError::ArithmeticOverflow)
    } else if !funding_failed(pool) {
        Some(PencilError::FundingTargetNotMet)
    } else if state.vault_balance != 0 {
        Some(PencilError::InsufficientVaultBalance)
    } else {
        None
    }
}

/// Cancels a pool whose funding failed, once the window has closed and
/// every subscription has been refunded (witnessed by an empty vault).
/// Only the pool's creator or the super admin may do so. `Cancelled` is
/// terminal.
pub fn cancel_asset_pool(
    state: &mut PoolState,
    config: &crate::state::SystemConfig,
    authority: u64,
    now: i64,
) -> (r: Result<(), PencilError>)
    ensures
        ({
            let check = cancel_pool_check(*old(state), *config, authority, now);
            match check {
                Some(e) => r == Err::<(), PencilError>(e) && *final(state) == *old(state),
                None => {
                    &&& r == Ok::<(), PencilError>(())
                    &&& final(state).pool == (AssetPool {
                        status: PoolStatus::Cancelled,
                        ..old(state).pool
                    })
                    &&& final(state).funding == old(state).funding
                    &&& final(state).senior_pool == old(state).senior_pool
                    &&& final(state).first_loss_pool == old(state).first_loss_pool
                    &&& final(state).junior_interest_pool == old(state).junior_interest_pool
                    &&& final(state).records == old(state).records
                    &&& final(state).vault_balance == old(state).vault_balance
                    &&& final(state).grow_supply == old(state).grow_supply
                },
            }
        }),
{
    if authority != state.pool.creator && authority != config.super_admin {
        return Err(PencilError::Unauthorized);
    }
    if state.pool.status != PoolStatus::Created && state.pool.status != PoolStatus::Approved
        && state.pool.status != PoolStatus::Funding {
        return Err(PencilError::InvalidAssetPoolStatus);
    }
    if now <= state.pool.funding_end_time {
        return Err(PencilError::FundingNotCompleted);
    }
    let total: u64 = match state.pool.senior_amount.checked_add(state.pool.junior_amount) {
        Some(v) => v,
        None => {
            return Err(PencilError::ArithmeticOverflow);
        },
    };
    let failed: bool = if total < state.pool.min_amount {
        true
    } else if state.pool.junior_amount > 0 {
        let ratio: u128 = (state.pool.junior_amount as u128) * 10000u128 / (total as u128);
        ratio < state.pool.min_junior_ratio as u128
    } else {
        true
    };
    if !failed {
        return Err(PencilError::FundingTargetNotMet);
    }
    if state.vault_balance != 0 {
        return Err(PencilError::InsufficientVaultBalance);
    }
    state.pool.status = PoolStatus::Cancelled;
    Ok(())
}

/// Which error, if any, rejects an early withdrawal, in validation order.
pub open spec fn withdraw_check(
    config: crate::state::SystemConfig,
    state: PoolState,
    sub: Subscription,
    user: u64,
    amount: u64,
    now: i64,
    tranche: Tranche,
) -> Option<PencilError> {
    let fee_rate = match tranche {
        Tranche::Senior => config.senior_early_before_exit_fee_rate,
        Tranche::Junior => config.junior_early_before_exit_fee_rate,
    };
    if sub.subscription_type != tranche {
        Some(PencilError::InvalidSubscriptionStatus)
    } else if sub.user != user {
        Some(PencilError::Unauthorized)
    } else if sub.status != SubscriptionStatus::Pending {
        Some(PencilError::InvalidSubscriptionStatus)
    } else if amount == 0 {
        Some(PencilError::InvalidSubscriptionAmount)
    } else if amount > sub.amount {
        Some(PencilError::InsufficientBalance)
    } else if config.paused {
        Some(PencilError::SystemPaused)
    } else if now > state.pool.funding_end_time {
        Some(PencilError::FundingEnded)
    } else if amount * fee_rate / 10000 > u64::MAX {
        Some(PencilError::ArithmeticOverflow)
    } else if amount * fee_rate / 10000 > amount {
        Some(PencilError::ArithmeticOverflow)
    } else if tranche_total(state.pool, tranche) < amount {
        Some(PencilError::ArithmeticOverflow)
    } else if state.vault_balance < amount {
        Some(PencilError::InsufficientVaultBalance)
    } else {
        None
    }
}

/// Withdraws part of one tranche subscription while the window is open.
fn withdraw_tranche(
    config: &crate::state::SystemConfig,
    state: &mut PoolState,
    sub: &mut Subscription,
    user: u64,
    amount: u64,
    now: i64,
    tranche: Tranche,
) -> (r: Result<SubscriptionWithdrawal, PencilError>)
    ensures
        ({
            let check = withdraw_check(*config, *old(state), *old(sub), user, amount, now, tranche);
            let fee_rate = match tranche {
                Tranche::Senior => config.senior_early_before_exit_fee_rate,
                Tranche::Junior => config.junior_early_before_exit_fee_rate,
            };
            match check {
                Some(e) => r == Err::<SubscriptionWithdrawal, PencilError>(e) && *final(state)
                    == *old(state) && *final(sub) == *old(sub),
                None => {
                    let fee = amount * fee_rate / 10000;
                    &&& r == Ok::<SubscriptionWithdrawal, PencilError>(
                        SubscriptionWithdrawal {
                            amount,
                            fee: fee as u64,
                            net_amount: (amount - fee) as u64,
                        },
                    )
                    &&& *final(sub) == (Subscription {
                        amount: (old(sub).amount - amount) as u64,
                        ..*old(sub)
                    })
                    &&& final(state).pool == (match tranche {
                        Tranche::Senior => AssetPool {
                            senior_amount: (old(state).pool.senior_amount - amount) as u64,
                            ..old(state).pool
                        },
                        Tranche::Junior => AssetPool {
                            junior_amount: (old(state).pool.junior_amount - amount) as u64,
                            ..old(state).pool
                        },
                    })
                    &&& final(state).vault_balance == old(state).vault_balance - amount
                    &&& final(state).funding == old(state).funding
                    &&& final(state).senior_pool == old(state).senior_pool
                    &&& final(state).first_loss_pool == old(state).first_loss_pool
                    &&& final(state).junior_interest_pool == old(state).junior_interest_pool
                    &&& final(state).records == old(state).records
                    &&& final(state).grow_supply == old(state).grow_supply
                },
            }
        }),
{
    if sub.subscription_type != tranche {
        return Err(PencilError::InvalidSubscriptionStatus);
    }
    if sub.user != user {
        return Err(PencilError::Unauthorized);
    }
    if sub.status != SubscriptionStatus::Pending {
        return Err(PencilError::InvalidSubscriptionStatus);
    }
    if amount == 0 {
        return Err(PencilError::InvalidSubscriptionAmount);
    }
    if amount > sub.amount {
        return Err(PencilError::InsufficientBalance);
    }
    if config.paused {
        return Err(PencilError::SystemPaused);
    }
    if now > state.pool.funding_end_time {
        return Err(PencilError::FundingEnded);
    }
    let fee_rate: u16 = match tranche {
        Tranche::Senior => config.senior_early_before_exit_fee_rate,
        Tranche::Junior => config.junior_early_before_exit_fee_rate,
    };
    let fee: u64 = match crate::utils::calculate_fee(amount, fee_rate) {
        Ok(v) => v,
        Err(e) => {
            return Err(e);
        },
    };
    if fee > amount {
        return Err(PencilError::ArithmeticOverflow);
    }
    let net_amount: u64 = amount - fee;
    let tranche_amount: u64 = match tranche {
        Tranche::Senior => state.pool.senior_amount,
        Tranche::Junior => state.pool.junior_amount,
    };
    if tranche_amount < amount {
        return Err(PencilError::ArithmeticOverflow);
    }
    if state.vault_balance < amount {
        return Err(PencilError::InsufficientVaultBalance);
    }
    sub.amount = sub.amount - amount;
    match tranche {
        Tranche::Senior => {
            state.pool.senior_amount = state.pool.senior_amount - amount;
        },
        Tranche::Junior => {
            state.pool.junior_amount = state.pool.junior_amount - amount;
        },
    }
    state.vault_balance = state.vault_balance - amount;
    Ok(SubscriptionWithdrawal { amount, fee, net_amount })
}

/// Withdraws part of a senior subscription while the window is open: the
/// before-close senior fee is kept for the treasury, the rest returns to
/// the investor, and both the subscription and the pool's senior total are
/// reduced by the full `amount`.
pub fn withdraw_senior_subscription(
    config: &crate::state::SystemConfig,
    state: &mut PoolState,
    sub: &mut Subscription,
    user: u64,
    amount: u64,
    now: i64,
) -> (r: Result<SubscriptionWithdrawal, PencilError>)
    ensures
        ({
            let check = withdraw_check(
                *config,
                *old(state),
                *old(sub),
                user,
                amount,
                now,
                Tranche::Senior,
            );
            let fee = amount * config.senior_early_before_exit_fee_rate / 10000;
            match check {
                Some(e) => r == Err::<SubscriptionWithdrawal, PencilError>(e) && *final(state)
                    == *old(state) && *final(sub) == *old(sub),
                None => {
                    &&& r == Ok::<SubscriptionWithdrawal, PencilError>(
                        SubscriptionWithdrawal {
                            amount,
                            fee: fee as u64,
                            net_amount: (amount - fee) as u64,
                        },
                    )
                    &&& *final(sub) == (Subscription {
                        amount: (old(sub).amount - amount) as u64,
                        ..*old(sub)
                    })
                    &&& final(state).pool == (AssetPool {
                        senior_amount: (old(state).pool.senior_amount - amount) as u64,
                        ..old(state).pool
                    })
                    &&& final(state).vault_balance == old(state).vault_balance - amount
                    &&& final(state).funding == old(state).funding
                    &&& final(state).senior_pool == old(state).senior_pool
                    &&& final(state).first_loss_pool == old(state).first_loss_pool
                    &&& final(state).junior_interest_pool == old(state).junior_interest_pool
                    &&& final(state).records == old(state).records
                    &&& final(state).grow_supply == old(state).grow_supply
                },
            }
        }),
{
    withdraw_tranche(config, state, sub, user, amount, now, Tranche::Senior)
}

/// Withdraws part of a junior subscription while the window is open: the
/// before-close junior fee is kept for the treasury, the rest returns to
/// the investor, and both the subscription and the pool's junior total are
/// reduced by the full `amount`.
pub fn withdraw_junior_subscription(
    config: &crate::state::SystemConfig,
    state: &mut PoolState,
    sub: &mut Subscription,
    user: u64,
    amount: u64,
    now: i64,
) -> (r: Result<SubscriptionWithdrawal, PencilError>)
    ensures
        ({
            let check = withdraw_check(
                *config,
                *old(state),
                *old(sub),
                user,
                amount,
                now,
                Tranche::Junior,
            );
            let fee = amount * config.junior_early_before_exit_fee_rate / 10000;
            match check {
                Some(e) => r == Err::<SubscriptionWithdrawal, PencilError>(e) && *final(state)
                    == *old(state) && *final(sub) == *old(sub),
                None => {
                    &&& r == Ok::<SubscriptionWithdrawal, PencilError>(
                        SubscriptionWithdrawal {
                            amount,
                            fee: fee as u64,
                            net_amount: (amount - fee) as u64,
                        },
                    )
                    &&& *final(sub) == (Subscription {
                        amount: (old(sub).amount - amount) as u64,
                        ..*old(sub)
                    })
                    &&& final(state).pool == (AssetPool {
                        junior_amount: (old(state).pool.junior_amount - amount) as u64,
                        ..old(state).pool
                    })
                    &&& final(state).vault_balance == old(state).vault_balance - amount
                    &&& final(state).funding == old(state).funding
                    &&& final(state).senior_pool == old(state).senior_pool
                    &&& final(state).first_loss_pool == old(state).first_loss_pool
                    &&& final(state).junior_interest_pool == old(state).junior_interest_pool
                    &&& final(state).records == old(state).records
                    &&& final(state).grow_supply == old(state).grow_supply
                },
            }
        }),
{
    withdraw_tranche(config, state, sub, user, amount, now, Tranche::Junior)
}

} // verus!
