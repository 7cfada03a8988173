//! The error taxonomy of the pool engine.
//!
//! Every operation either fully validates and commits, or returns one of
//! these errors and leaves all state unchanged. The kinds distinguish
//! parameter validation, authorization, lifecycle-state, arithmetic and
//! resource failures, so a caller can tell a permanently invalid request
//! from one that may succeed later.

use vstd::prelude::*;

verus! {

#[derive(Clone, Copy, Debug, PartialEq, Eq, Structural)]
pub enum PencilError {
    InvalidSystemConfig,
    InvalidAssetPool,
    InvalidFundingParams,
    FundingNotStarted,
    FundingEnded,
    FundingNotCompleted,
    InvalidSubscriptionAmount,
    InsufficientBalance,
    InsufficientSeniorAmount,
    InsufficientJuniorAmount,
    InvalidJuniorRatio,
    InvalidRepaymentAmount,
    InvalidRepaymentPeriod,
    InvalidRepaymentCount,
    RepaymentNotDue,
    RepaymentAlreadyCompleted,
    InvalidEarlyExitFee,
    InvalidPlatformFee,
    InvalidSeniorFixedRate,
    InvalidRepaymentRate,
    InvalidMinJuniorRatio,
    Unauthorized,
    InvalidAccount,
    InvalidTokenAccount,
    InvalidMint,
    TransferFailed,
    MintFailed,
    BurnFailed,
    InvalidNFT,
    NFTAlreadyClaimed,
    InvalidSubscriptionStatus,
    InvalidAssetPoolStatus,
    AssetPoolAlreadyApproved,
    AssetPoolNotApproved,
    FundingTargetNotMet,
    FundingMinimumNotMet,
    InvalidTimeParameters,
    ArithmeticOverflow,
    InvalidPoolAddress,
    InvalidTreasuryAddress,
    InsufficientPoolFunds,
    InvalidInterestCalculation,
    InvalidPrincipalCalculation,
    SubscriptionNotFound,
    RepaymentRecordNotFound,
    InvalidStringLength,
    DuplicateSubscription,
    InvalidRefundAmount,
    RefundAlreadyProcessed,
    InvalidClaimAmount,
    NoInterestToClaim,
    NoPrincipalToWithdraw,
    InvalidEarlyExitAmount,
    EarlyExitNotAllowed,
    InvalidTokenDecimals,
    PrecisionLoss,
    SystemPaused,
    InvalidAdminRole,
    InvalidFeeType,
    AssetNotSupported,
    RelatedAccountsAlreadyInitialized,
    RelatedAccountsNotInitialized,
    InsufficientVaultBalance,
    InvalidEarlyExitTiming,
    NFTNotOwnedByUser,
    PrincipalAlreadyWithdrawn,
    PoolNotEnded,
    InvalidPeriodCalculation,
}

} // verus!
