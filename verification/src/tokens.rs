//! Yield-token and junior-position issuance: minting and burning the
//! senior yield token against the pool's outstanding supply, and minting a
//! junior position with its principal fixed at issuance.

use vstd::prelude::*;

use crate::errors::PencilError;
use crate::state::JuniorNFTMetadata;
use crate::state::PoolState;
use crate::state::PoolStatus;

verus! {

/// Mints `amount` senior yield tokens of a funded pool, growing the
/// outstanding supply.
pub fn mint_grow_token(state: &mut PoolState, amount: u64) -> (r: Result<(), PencilError>)
    ensures
        old(state).pool.status != PoolStatus::Funded ==> r == Err::<(), PencilError>(
            PencilError::InvalidAssetPoolStatus,
        ) && *final(state) == *old(state),
        old(state).pool.status == PoolStatus::Funded && amount == 0 ==> r == Err::<(), PencilError>(
            PencilError::InvalidSubscriptionAmount,
        ) && *final(state) == *old(state),
        old(state).pool.status == PoolStatus::Funded && amount > 0 && old(state).grow_supply
            + amount > u64::MAX ==> r == Err::<(), PencilError>(PencilError::ArithmeticOverflow)
            && *final(state) == *old(state),
        old(state).pool.status == PoolStatus::Funded && amount > 0 && old(state).grow_supply
            + amount <= u64::MAX ==> r == Ok::<(), PencilError>(()) && *final(state) == (PoolState {
            grow_supply: (old(state).grow_supply + amount) as u64,
            ..*old(state)
        }),
{
    if state.pool.status != PoolStatus::Funded {
        return Err(PencilError::InvalidAssetPoolStatus);
    }
    if amount == 0 {
        return Err(PencilError::InvalidSubscriptionAmount);
    }
    let new_supply: u64 = match state.grow_supply.checked_add(amount) {
        Some(v) => v,
        None => {
            return Err(PencilError::ArithmeticOverflow);
        },
    };
    state.grow_supply = new_supply;
    Ok(())
}

/// Burns `amount` senior yield tokens held by a user, shrinking the
/// outstanding supply. A user balance or a supply below `amount` is
/// rejected.
pub fn burn_grow_token(state: &mut PoolState, user_balance: u64, amount: u64) -> (r: Result<
    (),
    PencilError,
>)
    ensures
        amount == 0 ==> r == Err::<(), PencilError>(PencilError::InvalidSubscriptionAmount)
            && *final(state) == *old(state),
        amount > 0 && user_balance < amount ==> r == Err::<(), PencilError>(
            PencilError::InsufficientBalance,
        ) && *final(state) == *old(state),
        amount > 0 && user_balance >= amount && old(state).grow_supply < amount ==> r == Err::<
            (),
            PencilError,
        >(PencilError::InsufficientBalance) && *final(state) == *old(state),
        amount > 0 && user_balance >= amount && old(state).grow_supply >= amount ==> r == Ok::<
            (),
            PencilError,
        >(()) && *final(state) == (PoolState {
            grow_supply: (old(state).grow_supply - amount) as u64,
            ..*old(state)
        }),
{
    if amount == 0 {
        return Err(PencilError::InvalidSubscriptionAmount);
    }
    if user_balance < amount {
        return Err(PencilError::InsufficientBalance);
    }
    if state.grow_supply < amount {
        return Err(PencilError::InsufficientBalance);
    }
    state.grow_supply = state.grow_supply - amount;
    Ok(())
}

/// Mints one junior position of a funded pool: supply one, its principal
/// fixed at issuance, nothing claimed and principal not withdrawn.
pub fn mint_junior_nft(
    state: &PoolState,
    nft_id: u64,
    recipient: u64,
    principal: u64,
    now: i64,
) -> (r: Result<JuniorNFTMetadata, PencilError>)
    ensures
        state.pool.status != PoolStatus::Funded ==> r == Err::<JuniorNFTMetadata, PencilError>(
            PencilError::InvalidAssetPoolStatus,
        ),
        state.pool.status == PoolStatus::Funded && principal == 0 ==> r == Err::<
            JuniorNFTMetadata,
            PencilError,
        >(PencilError::InvalidSubscriptionAmount),
        state.pool.status == PoolStatus::Funded && principal > 0 ==> r == Ok::<
            JuniorNFTMetadata,
            PencilError,
        >(
            JuniorNFTMetadata {
                nft_id,
                owner: recipient,
                principal,
                claimed_interest: 0u64,
                principal_withdrawn: false,
                created_at: now,
            },
        ),
{
    if state.pool.status != PoolStatus::Funded {
        return Err(PencilError::InvalidAssetPoolStatus);
    }
    if principal == 0 {
        return Err(PencilError::InvalidSubscriptionAmount);
    }
    Ok(
        JuniorNFTMetadata {
            nft_id,
            owner: recipient,
            principal,
            claimed_interest: 0,
            principal_withdrawn: false,
            created_at: now,
        },
    )
}

} // verus!
