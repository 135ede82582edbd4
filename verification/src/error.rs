use vstd::prelude::*;

verus! {

/// Errors reported by the lending operations.
#[derive(Debug, Clone, Copy, PartialEq, Eq, Structural)]
pub enum LendingError {
    InvalidMarketAuthority,
    InvalidMarketOwner,
    InvalidAccountOwner,
    InvalidAmount,
    InvalidConfig,
    InvalidSigner,
    InvalidAccountInput,
    MathOverflow,
    InsufficientLiquidity,
    ReserveStale,
    WithdrawTooSmall,
    WithdrawTooLarge,
    BorrowTooSmall,
    BorrowTooLarge,
    RepayTooSmall,
    LiquidationTooSmall,
    ObligationHealthy,
    ObligationStale,
    ObligationReserveLimit,
    InvalidObligationOwner,
    ObligationDepositsEmpty,
    ObligationBorrowsEmpty,
    ObligationDepositsZero,
    ObligationBorrowsZero,
    InvalidObligationCollateral,
    InvalidObligationLiquidity,
    ObligationCollateralEmpty,
    ObligationLiquidityEmpty,
    NegativeInterestRate,
    InvalidOracleConfig,
    InsufficientProtocolFeesToRedeem,
    FlashBorrowCpi,
    NoFlashRepayFound,
    InvalidFlashRepay,
    FlashRepayCpi,
    MultipleFlashBorrows,
    FlashLoansDisabled,
    SwitchboardV2Error,
    CouldNotDeserializeScope,
    PriceTooOld,
    PriceTooDivergentFromTwap,
    InvalidTwapPrice,
    GlobalEmergencyMode,
    InvalidFlag,
    PriceNotValid,
    PriceIsBiggerThanHeuristic,
    PriceIsLowerThanHeuristic,
    PriceIsZero,
    PriceConfidenceTooWide,
    IntegerOverflow,
    NoFarmForReserve,
    IncorrectInstructionInPosition,
    NoPriceFound,
    InvalidTwapConfig,
    InvalidPythPriceAccount,
    InvalidSwitchboardAccount,
    InvalidScopePriceAccount,
    ObligationCollateralLtvZero,
    InvalidObligationSeedsValue,
    InvalidObligationId,
    InvalidBorrowRateCurvePoint,
    InvalidUtilizationRate,
    CannotSocializeObligationWithCollateral,
    ObligationEmpty,
    WithdrawalCapReached,
    LastTimestampGreaterThanCurrent,
    LiquidationSlippageError,
    IsolatedAssetTierViolation,
    InconsistentElevationGroup,
    InvalidElevationGroup,
    InvalidElevationGroupConfig,
    UnhealthyElevationGroupLtv,
    ElevationGroupNewLoansDisabled,
    ReserveDeprecated,
    ReferrerAccountNotInitialized,
    ReferrerAccountMintMissmatch,
    ReferrerAccountWrongAddress,
    ReferrerAccountReferrerMissmatch,
    ReferrerAccountMissing,
    InsufficientReferralFeesToRedeem,
    CpiDisabled,
    ShortUrlNotAsciiAlphanumeric,
    ReserveObsolete,
    ElevationGroupAlreadyActivated,
    ObligationInDeprecatedReserve,
    ReferrerStateOwnerMismatch,
    UserMetadataOwnerAlreadySet,
    CollateralNonLiquidatable,
    BorrowingDisabled,
    BorrowLimitExceeded,
    DepositLimitExceeded,
    BorrowingDisabledOutsideElevationGroup,
    NetValueRemainingTooSmall,
    WorseLTVBlocked,
    LiabilitiesBiggerThanAssets,
    ReserveTokenBalanceMismatch,
    ReserveVaultBalanceMismatch,
    ReserveAccountingMismatch,
    BorrowingAboveUtilizationRateDisabled,
    RepayTooSmallForFullLiquidation,
    LiquidationBorrowFactorPriority,
    LiquidationLowestLTVPriority,
    InvalidOrderConfiguration,
    OrderConfigurationNotSupportedByObligation,
    OrderIndexOutOfBounds,
    OrderCreationDisabled,
    ObligationOrderConditionNotMet,
    ObligationCurrentlyMarkedForDeleveraging,
    ObligationOwnershipTransferInProgress,
    ObligationOwnershipTransferNotInInitiatedState,
    ObligationOwnershipTransferNotApproved,
    ObligationInvalidPendingOwner,
    ObligationOrderOpportunityTypeMismatch,
    ObligationOrderCollateralMintMismatch,
    ObligationOrderDebtMintMismatch,
    OperationNotPermittedWithCurrentObligationOrders,
    ExpectationNotMet,
    InvalidObligationConfigUpdateSubject,
    OperationNotPermittedMarketImmutable,
    NonUpdatableOrderConfiguration,
    ElevationGroupDebtReserveAsCollateral,
    ObligationCollateralExceedsElevationGroupLimit,
    ObligationElevationGroupMultipleDebtReserve,
    ElevationGroupHasAnotherDebtReserve,
    ElevationGroupBorrowLimitExceeded,
    CannotCalculateReferralAmountDueToSlotsMismatch,
    DepositDisabledOutsideElevationGroup,
    ElevationGroupMaxCollateralReserveZero,
    ElevationGroupWithoutDebtReserve,
    LiquidationRewardTooSmall,
}

/// Result type of the lending operations.
pub type LendingResult<T> = Result<T, LendingError>;

} // verus!
