//! Updates of a reserve's configuration: the modes, and how each writes the
//! new value, read from raw little-endian bytes, into the configuration.

use crate::borrow_rate_curve::{BorrowRateCurve, CurvePoint};
use crate::config_items::{
    le_value, lemma_le_value_frame, pow256, read_pubkey, read_u16, read_u32, read_u64, write_le,
};
use crate::last_update::LastUpdate;
use crate::reserve::{Reserve, ReserveConfig, ReserveFees};
use crate::token_info::{
    PriceHeuristic, PythConfiguration, ScopeConfiguration, SwitchboardConfiguration, TokenInfo,
};
use crate::withdrawal_caps::WithdrawalCaps;
use crate::borrow_rate_curve::valid_points;
use crate::consts::FULL_BPS;
use crate::error::LendingError;
use crate::fraction::FRACTION_ONE_SCALED;
use crate::lending_market::LendingMarket;
use crate::lending_utils::{get_elevation_group, spec_operation_group};
use crate::pubkey::{is_default_key, Pubkey};
use vstd::prelude::*;
use vstd::utf8::valid_utf8;

verus! {

/// Which setting of a reserve an update changes.
#[derive(Clone, Copy, Debug, PartialEq, Eq, Structural)]
pub enum UpdateConfigMode {
    UpdateLoanToValuePct,
    UpdateMaxLiquidationBonusBps,
    UpdateLiquidationThresholdPct,
    UpdateProtocolLiquidationFee,
    UpdateProtocolTakeRate,
    UpdateFeesOriginationFee,
    UpdateFeesFlashLoanFee,
    DeprecatedUpdateFeesReferralFeeBps,
    UpdateDepositLimit,
    UpdateBorrowLimit,
    UpdateTokenInfoLowerHeuristic,
    UpdateTokenInfoUpperHeuristic,
    UpdateTokenInfoExpHeuristic,
    UpdateTokenInfoTwapDivergence,
    UpdateTokenInfoScopeTwap,
    UpdateTokenInfoScopeChain,
    UpdateTokenInfoName,
    UpdateTokenInfoPriceMaxAge,
    UpdateTokenInfoTwapMaxAge,
    UpdateScopePriceFeed,
    UpdatePythPrice,
    UpdateSwitchboardFeed,
    UpdateSwitchboardTwapFeed,
    UpdateBorrowRateCurve,
    UpdateEntireReserveConfig,
    UpdateDebtWithdrawalCap,
    UpdateDepositWithdrawalCap,
    DeprecatedUpdateDebtWithdrawalCapCurrentTotal,
    DeprecatedUpdateDepositWithdrawalCapCurrentTotal,
    UpdateBadDebtLiquidationBonusBps,
    UpdateMinLiquidationBonusBps,
    UpdateDeleveragingMarginCallPeriod,
    UpdateBorrowFactor,
    UpdateAssetTier,
    UpdateElevationGroup,
    UpdateDeleveragingThresholdDecreaseBpsPerDay,
    DeprecatedUpdateMultiplierSideBoost,
    DeprecatedUpdateMultiplierTagBoost,
    UpdateReserveStatus,
    UpdateFarmCollateral,
    UpdateFarmDebt,
    UpdateDisableUsageAsCollateralOutsideEmode,
    UpdateBlockBorrowingAboveUtilizationPct,
    UpdateBlockPriceUsage,
    UpdateBorrowLimitOutsideElevationGroup,
    UpdateBorrowLimitsInElevationGroupAgainstThisReserve,
    UpdateHostFixedInterestRateBps,
    UpdateAutodeleverageEnabled,
    UpdateDeleveragingBonusIncreaseBpsPerDay,
    UpdateProtocolOrderExecutionFee,
    UpdateProposerAuthorityLock,
    UpdateMinDeleveragingBonusBps,
}

impl UpdateConfigMode {
    /// The number that stands for the mode in an instruction.
    pub open spec fn code(self) -> u64 {
        match self {
            UpdateConfigMode::UpdateLoanToValuePct => 1,
            UpdateConfigMode::UpdateMaxLiquidationBonusBps => 2,
            UpdateConfigMode::UpdateLiquidationThresholdPct => 3,
            UpdateConfigMode::UpdateProtocolLiquidationFee => 4,
            UpdateConfigMode::UpdateProtocolTakeRate => 5,
            UpdateConfigMode::UpdateFeesOriginationFee => 6,
            UpdateConfigMode::UpdateFeesFlashLoanFee => 7,
            UpdateConfigMode::DeprecatedUpdateFeesReferralFeeBps => 8,
            UpdateConfigMode::UpdateDepositLimit => 9,
            UpdateConfigMode::UpdateBorrowLimit => 10,
            UpdateConfigMode::UpdateTokenInfoLowerHeuristic => 11,
            UpdateConfigMode::UpdateTokenInfoUpperHeuristic => 12,
            UpdateConfigMode::UpdateTokenInfoExpHeuristic => 13,
            UpdateConfigMode::UpdateTokenInfoTwapDivergence => 14,
            UpdateConfigMode::UpdateTokenInfoScopeTwap => 15,
            UpdateConfigMode::UpdateTokenInfoScopeChain => 16,
            UpdateConfigMode::UpdateTokenInfoName => 17,
            UpdateConfigMode::UpdateTokenInfoPriceMaxAge => 18,
            UpdateConfigMode::UpdateTokenInfoTwapMaxAge => 19,
            UpdateConfigMode::UpdateScopePriceFeed => 20,
            UpdateConfigMode::UpdatePythPrice => 21,
            UpdateConfigMode::UpdateSwitchboardFeed => 22,
            UpdateConfigMode::UpdateSwitchboardTwapFeed => 23,
            UpdateConfigMode::UpdateBorrowRateCurve => 24,
            UpdateConfigMode::UpdateEntireReserveConfig => 25,
            UpdateConfigMode::UpdateDebtWithdrawalCap => 26,
            UpdateConfigMode::UpdateDepositWithdrawalCap => 27,
            UpdateConfigMode::DeprecatedUpdateDebtWithdrawalCapCurrentTotal => 28,
            UpdateConfigMode::DeprecatedUpdateDepositWithdrawalCapCurrentTotal => 29,
            UpdateConfigMode::UpdateBadDebtLiquidationBonusBps => 30,
            UpdateConfigMode::UpdateMinLiquidationBonusBps => 31,
            UpdateConfigMode::UpdateDeleveragingMarginCallPeriod => 32,
            UpdateConfigMode::UpdateBorrowFactor => 33,
            UpdateConfigMode::UpdateAssetTier => 34,
            UpdateConfigMode::UpdateElevationGroup => 35,
            UpdateConfigMode::UpdateDeleveragingThresholdDecreaseBpsPerDay => 36,
            UpdateConfigMode::DeprecatedUpdateMultiplierSideBoost => 37,
            UpdateConfigMode::DeprecatedUpdateMultiplierTagBoost => 38,
            UpdateConfigMode::UpdateReserveStatus => 39,
            UpdateConfigMode::UpdateFarmCollateral => 40,
            UpdateConfigMode::UpdateFarmDebt => 41,
            UpdateConfigMode::UpdateDisableUsageAsCollateralOutsideEmode => 42,
            UpdateConfigMode::UpdateBlockBorrowingAboveUtilizationPct => 43,
            UpdateConfigMode::UpdateBlockPriceUsage => 44,
            UpdateConfigMode::UpdateBorrowLimitOutsideElevationGroup => 45,
            UpdateConfigMode::UpdateBorrowLimitsInElevationGroupAgainstThisReserve => 46,
            UpdateConfigMode::UpdateHostFixedInterestRateBps => 47,
            UpdateConfigMode::UpdateAutodeleverageEnabled => 48,
            UpdateConfigMode::UpdateDeleveragingBonusIncreaseBpsPerDay => 49,
            UpdateConfigMode::UpdateProtocolOrderExecutionFee => 50,
            UpdateConfigMode::UpdateProposerAuthorityLock => 51,
            UpdateConfigMode::UpdateMinDeleveragingBonusBps => 52,
        }
    }

    /// The mode that the number stands for, if any.
    pub fn try_from_u64(code: u64) -> (r: Option<Self>)
        ensures
            1 <= code <= 52 <==> r is Some,
            r matches Some(m) ==> m.code() == code,
    {
        match code {
            1 => Some(UpdateConfigMode::UpdateLoanToValuePct),
            2 => Some(UpdateConfigMode::UpdateMaxLiquidationBonusBps),
            3 => Some(UpdateConfigMode::UpdateLiquidationThresholdPct),
            4 => Some(UpdateConfigMode::UpdateProtocolLiquidationFee),
            5 => Some(UpdateConfigMode::UpdateProtocolTakeRate),
            6 => Some(UpdateConfigMode::UpdateFeesOriginationFee),
            7 => Some(UpdateConfigMode::UpdateFeesFlashLoanFee),
            8 => Some(UpdateConfigMode::DeprecatedUpdateFeesReferralFeeBps),
            9 => Some(UpdateConfigMode::UpdateDepositLimit),
            10 => Some(UpdateConfigMode::UpdateBorrowLimit),
            11 => Some(UpdateConfigMode::UpdateTokenInfoLowerHeuristic),
            12 => Some(UpdateConfigMode::UpdateTokenInfoUpperHeuristic),
            13 => Some(UpdateConfigMode::UpdateTokenInfoExpHeuristic),
            14 => Some(UpdateConfigMode::UpdateTokenInfoTwapDivergence),
            15 => Some(UpdateConfigMode::UpdateTokenInfoScopeTwap),
            16 => Some(UpdateConfigMode::UpdateTokenInfoScopeChain),
            17 => Some(UpdateConfigMode::UpdateTokenInfoName),
            18 => Some(UpdateConfigMode::UpdateTokenInfoPriceMaxAge),
            19 => Some(UpdateConfigMode::UpdateTokenInfoTwapMaxAge),
            20 => Some(UpdateConfigMode::UpdateScopePriceFeed),
            21 => Some(UpdateConfigMode::UpdatePythPrice),
            22 => Some(UpdateConfigMode::UpdateSwitchboardFeed),
            23 => Some(UpdateConfigMode::UpdateSwitchboardTwapFeed),
            24 => Some(UpdateConfigMode::UpdateBorrowRateCurve),
            25 => Some(UpdateConfigMode::UpdateEntireReserveConfig),
            26 => Some(UpdateConfigMode::UpdateDebtWithdrawalCap),
            27 => Some(UpdateConfigMode::UpdateDepositWithdrawalCap),
            28 => Some(UpdateConfigMode::DeprecatedUpdateDebtWithdrawalCapCurrentTotal),
            29 => Some(UpdateConfigMode::DeprecatedUpdateDepositWithdrawalCapCurrentTotal),
            30 => Some(UpdateConfigMode::UpdateBadDebtLiquidationBonusBps),
            31 => Some(UpdateConfigMode::UpdateMinLiquidationBonusBps),
            32 => Some(UpdateConfigMode::UpdateDeleveragingMarginCallPeriod),
            33 => Some(UpdateConfigMode::UpdateBorrowFactor),
            34 => Some(UpdateConfigMode::UpdateAssetTier),
            35 => Some(UpdateConfigMode::UpdateElevationGroup),
            36 => Some(UpdateConfigMode::UpdateDeleveragingThresholdDecreaseBpsPerDay),
            37 => Some(UpdateConfigMode::DeprecatedUpdateMultiplierSideBoost),
            38 => Some(UpdateConfigMode::DeprecatedUpdateMultiplierTagBoost),
            39 => Some(UpdateConfigMode::UpdateReserveStatus),
            40 => Some(UpdateConfigMode::UpdateFarmCollateral),
            41 => Some(UpdateConfigMode::UpdateFarmDebt),
            42 => Some(UpdateConfigMode::UpdateDisableUsageAsCollateralOutsideEmode),
            43 => Some(UpdateConfigMode::UpdateBlockBorrowingAboveUtilizationPct),
            44 => Some(UpdateConfigMode::UpdateBlockPriceUsage),
            45 => Some(UpdateConfigMode::UpdateBorrowLimitOutsideElevationGroup),
            46 => Some(UpdateConfigMode::UpdateBorrowLimitsInElevationGroupAgainstThisReserve),
            47 => Some(UpdateConfigMode::UpdateHostFixedInterestRateBps),
            48 => Some(UpdateConfigMode::UpdateAutodeleverageEnabled),
            49 => Some(UpdateConfigMode::UpdateDeleveragingBonusIncreaseBpsPerDay),
            50 => Some(UpdateConfigMode::UpdateProtocolOrderExecutionFee),
            51 => Some(UpdateConfigMode::UpdateProposerAuthorityLock),
            52 => Some(UpdateConfigMode::UpdateMinDeleveragingBonusBps),
            _ => None,
        }
    }
}

/// The modes that a reserve update carries out. The others are deprecated
/// endpoints that are refused, or name a setting whose update is not
/// defined here.
pub open spec fn reserve_update_supported(mode: UpdateConfigMode) -> bool {
    &&& !(mode is DeprecatedUpdateMultiplierSideBoost)
    &&& !(mode is DeprecatedUpdateMultiplierTagBoost)
    &&& !(mode is UpdateBlockPriceUsage)
    &&& !(mode is UpdateAutodeleverageEnabled)
    &&& !(mode is UpdateDeleveragingBonusIncreaseBpsPerDay)
    &&& !(mode is UpdateProtocolOrderExecutionFee)
    &&& !(mode is UpdateProposerAuthorityLock)
    &&& !(mode is UpdateMinDeleveragingBonusBps)
}

/// How many bytes of value a supported mode reads.
pub open spec fn reserve_update_len(mode: UpdateConfigMode) -> int {
    match mode {
        UpdateConfigMode::UpdateLoanToValuePct => 1,
        UpdateConfigMode::UpdateLiquidationThresholdPct => 1,
        UpdateConfigMode::UpdateProtocolLiquidationFee => 1,
        UpdateConfigMode::UpdateProtocolTakeRate => 1,
        UpdateConfigMode::UpdateAssetTier => 1,
        UpdateConfigMode::UpdateReserveStatus => 1,
        UpdateConfigMode::UpdateDisableUsageAsCollateralOutsideEmode => 1,
        UpdateConfigMode::UpdateBlockBorrowingAboveUtilizationPct => 1,
        UpdateConfigMode::UpdateMaxLiquidationBonusBps => 2,
        UpdateConfigMode::UpdateBadDebtLiquidationBonusBps => 2,
        UpdateConfigMode::UpdateMinLiquidationBonusBps => 2,
        UpdateConfigMode::UpdateHostFixedInterestRateBps => 2,
        UpdateConfigMode::UpdateDepositLimit => 8,
        UpdateConfigMode::UpdateFeesOriginationFee => 8,
        UpdateConfigMode::UpdateDeleveragingMarginCallPeriod => 8,
        UpdateConfigMode::UpdateDeleveragingThresholdDecreaseBpsPerDay => 8,
        UpdateConfigMode::DeprecatedUpdateDebtWithdrawalCapCurrentTotal => 8,
        UpdateConfigMode::DeprecatedUpdateDepositWithdrawalCapCurrentTotal => 8,
        UpdateConfigMode::UpdateBorrowLimit => 8,
        UpdateConfigMode::UpdateBorrowFactor => 8,
        UpdateConfigMode::UpdateBorrowLimitOutsideElevationGroup => 8,
        UpdateConfigMode::UpdateFeesFlashLoanFee => 8,
        UpdateConfigMode::UpdateTokenInfoTwapDivergence => 8,
        UpdateConfigMode::UpdateTokenInfoPriceMaxAge => 8,
        UpdateConfigMode::UpdateTokenInfoTwapMaxAge => 8,
        UpdateConfigMode::UpdateTokenInfoLowerHeuristic => 8,
        UpdateConfigMode::UpdateTokenInfoUpperHeuristic => 8,
        UpdateConfigMode::UpdateTokenInfoExpHeuristic => 8,
        UpdateConfigMode::UpdateTokenInfoScopeChain => 8,
        UpdateConfigMode::UpdateTokenInfoScopeTwap => 8,
        UpdateConfigMode::UpdateTokenInfoName => 32,
        UpdateConfigMode::UpdateScopePriceFeed => 32,
        UpdateConfigMode::UpdatePythPrice => 32,
        UpdateConfigMode::UpdateSwitchboardFeed => 32,
        UpdateConfigMode::UpdateSwitchboardTwapFeed => 32,
        UpdateConfigMode::UpdateFarmCollateral => 32,
        UpdateConfigMode::UpdateFarmDebt => 32,
        UpdateConfigMode::UpdateBorrowRateCurve => 88,
        UpdateConfigMode::UpdateDebtWithdrawalCap => 16,
        UpdateConfigMode::UpdateDepositWithdrawalCap => 16,
        UpdateConfigMode::UpdateElevationGroup => 20,
        UpdateConfigMode::UpdateBorrowLimitsInElevationGroupAgainstThisReserve => 256,
        UpdateConfigMode::UpdateEntireReserveConfig => RESERVE_CONFIG_ENCODED_LEN as int,
        _ => 0,
    }
}

/// Whether the value can be written: long enough for the mode, exactly the
/// length of the limits table for that mode, a capacity or a current total
/// that fits a signed
/// 64-bit integer, text names for a name change, and known statuses for a
/// status change.
pub open spec fn reserve_update_value_ok(old: Reserve, mode: UpdateConfigMode, v: Seq<u8>) -> bool {
    &&& v.len() >= reserve_update_len(mode)
    &&& mode is UpdateBorrowLimitsInElevationGroupAgainstThisReserve ==> v.len() == 256
    &&& (mode is UpdateDebtWithdrawalCap || mode is UpdateDepositWithdrawalCap
        || mode is DeprecatedUpdateDebtWithdrawalCapCurrentTotal
        || mode is DeprecatedUpdateDepositWithdrawalCapCurrentTotal) ==> le_value(
        v,
        0,
        8,
    ) <= i64::MAX
    &&& mode is UpdateTokenInfoName ==> valid_utf8(v.subrange(0, 32)) && valid_utf8(
        old.config.token_info.name@,
    )
    &&& mode is UpdateReserveStatus ==> v[0] <= 2 && old.config.status <= 2
}

/// The reserve's refresh record, marked stale.
pub open spec fn stale_marked(old: Reserve) -> LastUpdate {
    LastUpdate { stale: 1, ..old.last_update }
}

/// The reserve with configuration `c`, marked stale.
pub open spec fn with_config(old: Reserve, c: ReserveConfig) -> Reserve {
    Reserve { config: c, last_update: stale_marked(old), ..old }
}

/// Whether `chain` holds the four little-endian `u16` in the 8 bytes of `v`
/// from `start`.
pub open spec fn chain_encoded(v: Seq<u8>, start: int, chain: Seq<u16>) -> bool {
    &&& chain.len() == 4
    &&& forall|k: int| 0 <= k < 4 ==> #[trigger] chain[k] == le_value(v, start + 2 * k, 2)
}

/// Whether `points` holds the eleven curve points in the 88 bytes of `v`
/// from `start`: utilization then rate, each a little-endian `u32`.
pub open spec fn curve_encoded(v: Seq<u8>, start: int, points: Seq<CurvePoint>) -> bool {
    &&& points.len() == 11
    &&& forall|k: int|
        0 <= k < 11 ==> (#[trigger] points[k]).utilization_rate_bps == le_value(
            v,
            start + 8 * k,
            4,
        ) && points[k].borrow_rate_bps == le_value(v, start + 8 * k + 4, 4)
}

/// Whether `words` holds `n` little-endian `u64` in the `8 * n` bytes of `v`
/// from `start`.
pub open spec fn words_encoded(v: Seq<u8>, start: int, n: int, words: Seq<u64>) -> bool {
    &&& words.len() == n
    &&& forall|k: int| 0 <= k < n ==> #[trigger] words[k] == le_value(v, start + 8 * k, 8)
}

/// Whether `new` is `old` with the setting of `mode` replaced by the value
/// that `v` encodes and marked stale, and nothing else changed.
pub open spec fn reserve_config_updated(
    old: Reserve,
    new: Reserve,
    mode: UpdateConfigMode,
    v: Seq<u8>,
) -> bool {
    match mode {
        UpdateConfigMode::UpdateLoanToValuePct => new == with_config(old, ReserveConfig { loan_to_value_pct: v[0], ..old.config }),
        UpdateConfigMode::UpdateLiquidationThresholdPct => new == with_config(old, ReserveConfig { liquidation_threshold_pct: v[0], ..old.config }),
        UpdateConfigMode::UpdateProtocolLiquidationFee => new == with_config(old, ReserveConfig { protocol_liquidation_fee_pct: v[0], ..old.config }),
        UpdateConfigMode::UpdateProtocolTakeRate => new == with_config(old, ReserveConfig { protocol_take_rate_pct: v[0], ..old.config }),
        UpdateConfigMode::UpdateAssetTier => new == with_config(old, ReserveConfig { asset_tier: v[0], ..old.config }),
        UpdateConfigMode::UpdateReserveStatus => new == with_config(old, ReserveConfig { status: v[0], ..old.config }),
        UpdateConfigMode::UpdateDisableUsageAsCollateralOutsideEmode => new == with_config(old, ReserveConfig { disable_usage_as_coll_outside_emode: v[0], ..old.config }),
        UpdateConfigMode::UpdateMaxLiquidationBonusBps => new == with_config(old, ReserveConfig { max_liquidation_bonus_bps: le_value(v, 0, 2) as u16, ..old.config }),
        UpdateConfigMode::UpdateBadDebtLiquidationBonusBps => new == with_config(old, ReserveConfig { bad_debt_liquidation_bonus_bps: le_value(v, 0, 2) as u16, ..old.config }),
        UpdateConfigMode::UpdateMinLiquidationBonusBps => new == with_config(old, ReserveConfig { min_liquidation_bonus_bps: le_value(v, 0, 2) as u16, ..old.config }),
        UpdateConfigMode::UpdateHostFixedInterestRateBps => new == with_config(old, ReserveConfig { host_fixed_interest_rate_bps: le_value(v, 0, 2) as u16, ..old.config }),
        UpdateConfigMode::UpdateDepositLimit => new == with_config(old, ReserveConfig { deposit_limit: le_value(v, 0, 8) as u64, ..old.config }),
        UpdateConfigMode::UpdateBorrowLimit => new == with_config(old, ReserveConfig { borrow_limit: le_value(v, 0, 8) as u64, ..old.config }),
        UpdateConfigMode::UpdateBorrowFactor => new == with_config(old, ReserveConfig { borrow_factor_pct: le_value(v, 0, 8) as u64, ..old.config }),
        UpdateConfigMode::UpdateBorrowLimitOutsideElevationGroup => new == with_config(old, ReserveConfig { borrow_limit_outside_elevation_group: le_value(v, 0, 8) as u64, ..old.config }),
        UpdateConfigMode::UpdateFeesOriginationFee => new == with_config(old, ReserveConfig { fees: ReserveFees { origination_fee_sf: le_value(v, 0, 8) as u64, ..old.config.fees }, ..old.config }),
        UpdateConfigMode::DeprecatedUpdateFeesReferralFeeBps => new == with_config(old, old.config),
        UpdateConfigMode::UpdateEntireReserveConfig => {
                &&& config_encoded(v, new.config)
                &&& new == with_config(old, new.config)
            },
        UpdateConfigMode::UpdateDeleveragingMarginCallPeriod => new == with_config(old, ReserveConfig { deleveraging_margin_call_period_secs: le_value(v, 0, 8) as u64, ..old.config }),
        UpdateConfigMode::UpdateDeleveragingThresholdDecreaseBpsPerDay => new == with_config(old, ReserveConfig { deleveraging_threshold_decrease_bps_per_day: le_value(v, 0, 8) as u64, ..old.config }),
        UpdateConfigMode::UpdateBlockBorrowingAboveUtilizationPct => new == with_config(old, ReserveConfig { utilization_limit_block_borrowing_above_pct: v[0], ..old.config }),
        UpdateConfigMode::DeprecatedUpdateDebtWithdrawalCapCurrentTotal => new == with_config(old, ReserveConfig { debt_withdrawal_cap: WithdrawalCaps { current_total: le_value(v, 0, 8) as i64, ..old.config.debt_withdrawal_cap }, ..old.config }),
        UpdateConfigMode::DeprecatedUpdateDepositWithdrawalCapCurrentTotal => new == with_config(old, ReserveConfig { deposit_withdrawal_cap: WithdrawalCaps { current_total: le_value(v, 0, 8) as i64, ..old.config.deposit_withdrawal_cap }, ..old.config }),
        UpdateConfigMode::UpdateFeesFlashLoanFee => new == with_config(old, ReserveConfig { fees: ReserveFees { flash_loan_fee_sf: le_value(v, 0, 8) as u64, ..old.config.fees }, ..old.config }),
        UpdateConfigMode::UpdateTokenInfoTwapDivergence => new == with_config(old, ReserveConfig { token_info: TokenInfo { max_twap_divergence_bps: le_value(v, 0, 8) as u64, ..old.config.token_info }, ..old.config }),
        UpdateConfigMode::UpdateTokenInfoPriceMaxAge => new == with_config(old, ReserveConfig { token_info: TokenInfo { max_age_price_seconds: le_value(v, 0, 8) as u64, ..old.config.token_info }, ..old.config }),
        UpdateConfigMode::UpdateTokenInfoTwapMaxAge => new == with_config(old, ReserveConfig { token_info: TokenInfo { max_age_twap_seconds: le_value(v, 0, 8) as u64, ..old.config.token_info }, ..old.config }),
        UpdateConfigMode::UpdateTokenInfoLowerHeuristic => new == with_config(old, ReserveConfig { token_info: TokenInfo { heuristic: PriceHeuristic { lower: le_value(v, 0, 8) as u64, ..old.config.token_info.heuristic }, ..old.config.token_info }, ..old.config }),
        UpdateConfigMode::UpdateTokenInfoUpperHeuristic => new == with_config(old, ReserveConfig { token_info: TokenInfo { heuristic: PriceHeuristic { upper: le_value(v, 0, 8) as u64, ..old.config.token_info.heuristic }, ..old.config.token_info }, ..old.config }),
        UpdateConfigMode::UpdateTokenInfoExpHeuristic => new == with_config(old, ReserveConfig { token_info: TokenInfo { heuristic: PriceHeuristic { exp: le_value(v, 0, 8) as u64, ..old.config.token_info.heuristic }, ..old.config.token_info }, ..old.config }),
        UpdateConfigMode::UpdateTokenInfoScopeChain => {
                let c = new.config.token_info.scope_configuration.price_chain;
                &&& chain_encoded(v, 0, c@)
                &&& new == with_config(old, ReserveConfig { token_info: TokenInfo { scope_configuration: ScopeConfiguration { price_chain: c, ..old.config.token_info.scope_configuration }, ..old.config.token_info }, ..old.config })
            },
        UpdateConfigMode::UpdateTokenInfoScopeTwap => {
                let c = new.config.token_info.scope_configuration.twap_chain;
                &&& chain_encoded(v, 0, c@)
                &&& new == with_config(old, ReserveConfig { token_info: TokenInfo { scope_configuration: ScopeConfiguration { twap_chain: c, ..old.config.token_info.scope_configuration }, ..old.config.token_info }, ..old.config })
            },
        UpdateConfigMode::UpdateTokenInfoName => {
                &&& new.config.token_info.name@ == v.subrange(0, 32)
                &&& new == with_config(old, ReserveConfig { token_info: TokenInfo { name: new.config.token_info.name, ..old.config.token_info }, ..old.config })
            },
        UpdateConfigMode::UpdateScopePriceFeed => {
                let k = new.config.token_info.scope_configuration.price_feed;
                &&& k.bytes@ == v.subrange(0, 32)
                &&& new == with_config(old, ReserveConfig { token_info: TokenInfo { scope_configuration: ScopeConfiguration { price_feed: k, ..old.config.token_info.scope_configuration }, ..old.config.token_info }, ..old.config })
            },
        UpdateConfigMode::UpdatePythPrice => {
                let k = new.config.token_info.pyth_configuration.price;
                &&& k.bytes@ == v.subrange(0, 32)
                &&& new == with_config(old, ReserveConfig { token_info: TokenInfo { pyth_configuration: PythConfiguration { price: k, ..old.config.token_info.pyth_configuration }, ..old.config.token_info }, ..old.config })
            },
        UpdateConfigMode::UpdateSwitchboardFeed => {
                let k = new.config.token_info.switchboard_configuration.price_aggregator;
                &&& k.bytes@ == v.subrange(0, 32)
                &&& new == with_config(old, ReserveConfig { token_info: TokenInfo { switchboard_configuration: SwitchboardConfiguration { price_aggregator: k, ..old.config.token_info.switchboard_configuration }, ..old.config.token_info }, ..old.config })
            },
        UpdateConfigMode::UpdateSwitchboardTwapFeed => {
                let k = new.config.token_info.switchboard_configuration.twap_aggregator;
                &&& k.bytes@ == v.subrange(0, 32)
                &&& new == with_config(old, ReserveConfig { token_info: TokenInfo { switchboard_configuration: SwitchboardConfiguration { twap_aggregator: k, ..old.config.token_info.switchboard_configuration }, ..old.config.token_info }, ..old.config })
            },
        UpdateConfigMode::UpdateBorrowRateCurve => {
                &&& curve_encoded(v, 0, new.config.borrow_rate_curve.points@)
                &&& new == with_config(old, ReserveConfig { borrow_rate_curve: new.config.borrow_rate_curve, ..old.config })
            },
        UpdateConfigMode::UpdateDebtWithdrawalCap => new == with_config(old, ReserveConfig { debt_withdrawal_cap: WithdrawalCaps { config_capacity: le_value(v, 0, 8) as i64, config_interval_length_seconds: le_value(v, 8, 8) as u64, ..old.config.debt_withdrawal_cap }, ..old.config }),
        UpdateConfigMode::UpdateDepositWithdrawalCap => new == with_config(old, ReserveConfig { deposit_withdrawal_cap: WithdrawalCaps { config_capacity: le_value(v, 0, 8) as i64, config_interval_length_seconds: le_value(v, 8, 8) as u64, ..old.config.deposit_withdrawal_cap }, ..old.config }),
        UpdateConfigMode::UpdateElevationGroup => {
                &&& new.config.elevation_groups@ == v.subrange(0, 20)
                &&& new == with_config(old, ReserveConfig { elevation_groups: new.config.elevation_groups, ..old.config })
            },
        UpdateConfigMode::UpdateBorrowLimitsInElevationGroupAgainstThisReserve => {
                let limits = new.config.borrow_limit_against_this_collateral_in_elevation_group;
                &&& words_encoded(v, 0, 32, limits@)
                &&& new == with_config(old, ReserveConfig { borrow_limit_against_this_collateral_in_elevation_group: limits, ..old.config })
            },
        UpdateConfigMode::UpdateFarmCollateral => {
                &&& new.farm_collateral.bytes@ == v.subrange(0, 32)
                &&& new == (Reserve { farm_collateral: new.farm_collateral, last_update: stale_marked(old), ..old })
            },
        UpdateConfigMode::UpdateFarmDebt => {
                &&& new.farm_debt.bytes@ == v.subrange(0, 32)
                &&& new == (Reserve { farm_debt: new.farm_debt, last_update: stale_marked(old), ..old })
            },
        _ => false,
    }
}

fn read_chain(value: &[u8], start: usize) -> (r: [u16; 4])
    requires
        start + 8 <= value.len(),
    ensures
        chain_encoded(value@, start as int, r@),
{
    let r = [
        read_u16(value, start),
        read_u16(value, start + 2),
        read_u16(value, start + 4),
        read_u16(value, start + 6),
    ];
    proof {
        assert forall|k: int| 0 <= k < 4 implies #[trigger] r@[k] == le_value(
            value@,
            start + 2 * k,
            2,
        ) by {
            assert(k == 0 || k == 1 || k == 2 || k == 3);
        }
    }
    r
}

fn read_curve(value: &[u8], start: usize) -> (r: BorrowRateCurve)
    requires
        start + 88 <= value.len(),
    ensures
        curve_encoded(value@, start as int, r.points@),
{
    let mut points = [CurvePoint { utilization_rate_bps: 0, borrow_rate_bps: 0 };11];
    let mut k: usize = 0;
    while k < 11
        invariant
            0 <= k <= 11,
            start + 88 <= value.len(),
            points@.len() == 11,
            forall|j: int|
                0 <= j < k ==> (#[trigger] points@[j]).utilization_rate_bps == le_value(
                    value@,
                    start + 8 * j,
                    4,
                ) && points@[j].borrow_rate_bps == le_value(value@, start + 8 * j + 4, 4),
        decreases 11 - k,
    {
        let p = CurvePoint {
            utilization_rate_bps: read_u32(value, start + 8 * k),
            borrow_rate_bps: read_u32(value, start + 8 * k + 4),
        };
        points[k] = p;
        k = k + 1;
    }
    BorrowRateCurve { points }
}

fn read_limits(value: &[u8], start: usize) -> (r: [u64; 32])
    requires
        start + 256 <= value.len(),
    ensures
        words_encoded(value@, start as int, 32, r@),
{
    let mut limits = [0u64;32];
    let mut k: usize = 0;
    while k < 32
        invariant
            0 <= k <= 32,
            start + 256 <= value.len(),
            limits@.len() == 32,
            forall|j: int|
                0 <= j < k ==> #[trigger] limits@[j] == le_value(value@, start + 8 * j, 8),
        decreases 32 - k,
    {
        limits[k] = read_u64(value, start + 8 * k);
        k = k + 1;
    }
    limits
}

fn read_padding_words(value: &[u8], start: usize) -> (r: [u64; 20])
    requires
        start + 160 <= value.len(),
    ensures
        words_encoded(value@, start as int, 20, r@),
{
    let mut words = [0u64;20];
    let mut k: usize = 0;
    while k < 20
        invariant
            0 <= k <= 20,
            start + 160 <= value.len(),
            words@.len() == 20,
            forall|j: int|
                0 <= j < k ==> #[trigger] words@[j] == le_value(value@, start + 8 * j, 8),
        decreases 20 - k,
    {
        words[k] = read_u64(value, start + 8 * k);
        k = k + 1;
    }
    words
}

fn read_byte_array<const N: usize>(value: &[u8], start: usize) -> (r: [u8; N])
    requires
        start + N <= value.len(),
    ensures
        r@ == value@.subrange(start as int, start + N),
{
    let mut out: [u8; N] = crate::accounts::filled_array(0u8);
    let mut k: usize = 0;
    while k < N
        invariant
            0 <= k <= N,
            start + N <= value.len(),
            out@.len() == N,
            forall|j: int| 0 <= j < k ==> out@[j] == value@[start + j],
        decreases N - k,
    {
        out[k] = value[start + k];
        k = k + 1;
    }
    assert(out@ =~= value@.subrange(start as int, start + N));
    out
}

/// The length of an encoded reserve configuration.
pub const RESERVE_CONFIG_ENCODED_LEN: usize = 920;

/// Whether `c` is the reserve configuration that the first
/// [`RESERVE_CONFIG_ENCODED_LEN`] bytes of `v` encode: the fields in order,
/// integers little-endian, arrays element by element.
pub open spec fn config_encoded(v: Seq<u8>, c: ReserveConfig) -> bool {
    let t = c.token_info;
    &&& c.status == v[0]
    &&& c.asset_tier == v[1]
    &&& c.host_fixed_interest_rate_bps == le_value(v, 2, 2)
    &&& c.min_deleveraging_bonus_bps == le_value(v, 4, 2)
    &&& c.reserved_1@ == v.subrange(6, 13)
    &&& c.protocol_order_execution_fee_pct == v[13]
    &&& c.protocol_take_rate_pct == v[14]
    &&& c.protocol_liquidation_fee_pct == v[15]
    &&& c.loan_to_value_pct == v[16]
    &&& c.liquidation_threshold_pct == v[17]
    &&& c.min_liquidation_bonus_bps == le_value(v, 18, 2)
    &&& c.max_liquidation_bonus_bps == le_value(v, 20, 2)
    &&& c.bad_debt_liquidation_bonus_bps == le_value(v, 22, 2)
    &&& c.deleveraging_margin_call_period_secs == le_value(v, 24, 8)
    &&& c.deleveraging_threshold_decrease_bps_per_day == le_value(v, 32, 8)
    &&& c.fees.origination_fee_sf == le_value(v, 40, 8)
    &&& c.fees.flash_loan_fee_sf == le_value(v, 48, 8)
    &&& c.fees.padding@ == v.subrange(56, 64)
    &&& curve_encoded(v, 64, c.borrow_rate_curve.points@)
    &&& c.borrow_factor_pct == le_value(v, 152, 8)
    &&& c.deposit_limit == le_value(v, 160, 8)
    &&& c.borrow_limit == le_value(v, 168, 8)
    &&& t.name@ == v.subrange(176, 208)
    &&& t.heuristic.lower == le_value(v, 208, 8)
    &&& t.heuristic.upper == le_value(v, 216, 8)
    &&& t.heuristic.exp == le_value(v, 224, 8)
    &&& t.max_twap_divergence_bps == le_value(v, 232, 8)
    &&& t.max_age_price_seconds == le_value(v, 240, 8)
    &&& t.max_age_twap_seconds == le_value(v, 248, 8)
    &&& t.scope_configuration.price_feed.bytes@ == v.subrange(256, 288)
    &&& chain_encoded(v, 288, t.scope_configuration.price_chain@)
    &&& chain_encoded(v, 296, t.scope_configuration.twap_chain@)
    &&& t.switchboard_configuration.price_aggregator.bytes@ == v.subrange(304, 336)
    &&& t.switchboard_configuration.twap_aggregator.bytes@ == v.subrange(336, 368)
    &&& t.pyth_configuration.price.bytes@ == v.subrange(368, 400)
    &&& words_encoded(v, 400, 20, t._padding@)
    &&& c.deposit_withdrawal_cap.config_capacity == le_value(v, 560, 8) as i64
    &&& c.deposit_withdrawal_cap.current_total == le_value(v, 568, 8) as i64
    &&& c.deposit_withdrawal_cap.last_interval_start_timestamp == le_value(v, 576, 8)
    &&& c.deposit_withdrawal_cap.config_interval_length_seconds == le_value(v, 584, 8)
    &&& c.debt_withdrawal_cap.config_capacity == le_value(v, 592, 8) as i64
    &&& c.debt_withdrawal_cap.current_total == le_value(v, 600, 8) as i64
    &&& c.debt_withdrawal_cap.last_interval_start_timestamp == le_value(v, 608, 8)
    &&& c.debt_withdrawal_cap.config_interval_length_seconds == le_value(v, 616, 8)
    &&& c.elevation_groups@ == v.subrange(624, 644)
    &&& c.disable_usage_as_coll_outside_emode == v[644]
    &&& c.utilization_limit_block_borrowing_above_pct == v[645]
    &&& c.autodeleverage_enabled == v[646]
    &&& c.proposer_authority_locked == v[647]
    &&& c.borrow_limit_outside_elevation_group == le_value(v, 648, 8)
    &&& words_encoded(v, 656, 32, c.borrow_limit_against_this_collateral_in_elevation_group@)
    &&& c.deleveraging_bonus_increase_bps_per_day == le_value(v, 912, 8)
}

/// Decodes a reserve configuration from the first
/// [`RESERVE_CONFIG_ENCODED_LEN`] bytes of `value`.
pub fn read_reserve_config(value: &[u8]) -> (r: ReserveConfig)
    requires
        RESERVE_CONFIG_ENCODED_LEN <= value.len(),
    ensures
        config_encoded(value@, r),
{
    let deposit_capacity = read_u64(value, 560);
    let deposit_total = read_u64(value, 568);
    let debt_capacity = read_u64(value, 592);
    let debt_total = read_u64(value, 600);
    ReserveConfig {
        status: value[0],
        asset_tier: value[1],
        host_fixed_interest_rate_bps: read_u16(value, 2),
        min_deleveraging_bonus_bps: read_u16(value, 4),
        reserved_1: read_byte_array(value, 6),
        protocol_order_execution_fee_pct: value[13],
        protocol_take_rate_pct: value[14],
        protocol_liquidation_fee_pct: value[15],
        loan_to_value_pct: value[16],
        liquidation_threshold_pct: value[17],
        min_liquidation_bonus_bps: read_u16(value, 18),
        max_liquidation_bonus_bps: read_u16(value, 20),
        bad_debt_liquidation_bonus_bps: read_u16(value, 22),
        deleveraging_margin_call_period_secs: read_u64(value, 24),
        deleveraging_threshold_decrease_bps_per_day: read_u64(value, 32),
        fees: ReserveFees {
            origination_fee_sf: read_u64(value, 40),
            flash_loan_fee_sf: read_u64(value, 48),
            padding: read_byte_array(value, 56),
        },
        borrow_rate_curve: read_curve(value, 64),
        borrow_factor_pct: read_u64(value, 152),
        deposit_limit: read_u64(value, 160),
        borrow_limit: read_u64(value, 168),
        token_info: TokenInfo {
            name: read_byte_array(value, 176),
            heuristic: PriceHeuristic {
                lower: read_u64(value, 208),
                upper: read_u64(value, 216),
                exp: read_u64(value, 224),
            },
            max_twap_divergence_bps: read_u64(value, 232),
            max_age_price_seconds: read_u64(value, 240),
            max_age_twap_seconds: read_u64(value, 248),
            scope_configuration: ScopeConfiguration {
                price_feed: read_pubkey(value, 256),
                price_chain: read_chain(value, 288),
                twap_chain: read_chain(value, 296),
            },
            switchboard_configuration: SwitchboardConfiguration {
                price_aggregator: read_pubkey(value, 304),
                twap_aggregator: read_pubkey(value, 336),
            },
            pyth_configuration: PythConfiguration { price: read_pubkey(value, 368) },
            _padding: read_padding_words(value, 400),
        },
        deposit_withdrawal_cap: WithdrawalCaps {
            config_capacity: deposit_capacity as i64,
            current_total: deposit_total as i64,
            last_interval_start_timestamp: read_u64(value, 576),
            config_interval_length_seconds: read_u64(value, 584),
        },
        debt_withdrawal_cap: WithdrawalCaps {
            config_capacity: debt_capacity as i64,
            current_total: debt_total as i64,
            last_interval_start_timestamp: read_u64(value, 608),
            config_interval_length_seconds: read_u64(value, 616),
        },
        elevation_groups: read_byte_array(value, 624),
        disable_usage_as_coll_outside_emode: value[644],
        utilization_limit_block_borrowing_above_pct: value[645],
        autodeleverage_enabled: value[646],
        proposer_authority_locked: value[647],
        borrow_limit_outside_elevation_group: read_u64(value, 648),
        borrow_limit_against_this_collateral_in_elevation_group: read_limits(value, 656),
        deleveraging_bonus_increase_bps_per_day: read_u64(value, 912),
    }
}

/// A new value for a setting of a reserve, as an update instruction carries
/// it.
#[derive(Clone, Copy, Debug)]
pub enum UpdateReserveConfigValue {
    Bool(bool),
    U8(u8),
    U8Tuple(u8, u8),
    U16(u16),
    U64(u64),
    Pubkey(Pubkey),
    ScopeChain([u16; 4]),
    Name([u8; 32]),
    BorrowRateCurve(BorrowRateCurve),
    WithdrawalCap(u64, u64),
    ElevationGroups([u8; 20]),
    ElevationGroupBorrowLimits([u64; 32]),
}

impl UpdateReserveConfigValue {
    /// Whether `s` is exactly the raw bytes of the value: integers
    /// little-endian, arrays element by element, flags as one byte.
    pub open spec fn encoded_in(self, s: Seq<u8>) -> bool {
        match self {
            UpdateReserveConfigValue::Bool(b) => s.len() == 1 && s[0] == (if b {
                1u8
            } else {
                0u8
            }),
            UpdateReserveConfigValue::U8(x) => s.len() == 1 && s[0] == x,
            UpdateReserveConfigValue::U8Tuple(a, b) => s.len() == 2 && s[0] == a && s[1] == b,
            UpdateReserveConfigValue::U16(x) => s.len() == 2 && le_value(s, 0, 2) == x,
            UpdateReserveConfigValue::U64(x) => s.len() == 8 && le_value(s, 0, 8) == x,
            UpdateReserveConfigValue::Pubkey(k) => s == k.bytes@,
            UpdateReserveConfigValue::ScopeChain(c) => s.len() == 8 && chain_encoded(s, 0, c@),
            UpdateReserveConfigValue::Name(n) => s == n@,
            UpdateReserveConfigValue::BorrowRateCurve(c) => s.len() == 88 && curve_encoded(
                s,
                0,
                c.points@,
            ),
            UpdateReserveConfigValue::WithdrawalCap(cap, interval) => s.len() == 16 && le_value(
                s,
                0,
                8,
            ) == cap && le_value(s, 8, 8) == interval,
            UpdateReserveConfigValue::ElevationGroups(g) => s == g@,
            UpdateReserveConfigValue::ElevationGroupBorrowLimits(l) => s.len() == 256
                && words_encoded(s, 0, 32, l@),
        }
    }

    /// The raw bytes of the value; see [`UpdateReserveConfigValue::encoded_in`].
    pub fn to_raw_bytes(&self) -> (r: Vec<u8>)
        ensures
            self.encoded_in(r@),
    {
        let mut out: Vec<u8> = Vec::new();
        match self {
            UpdateReserveConfigValue::Bool(b) => {
                out.push(if *b {
                    1u8
                } else {
                    0u8
                });
            },
            UpdateReserveConfigValue::U8(x) => {
                out.push(*x);
            },
            UpdateReserveConfigValue::U8Tuple(a, b) => {
                out.push(*a);
                out.push(*b);
            },
            UpdateReserveConfigValue::U16(x) => {
                proof {
                    reveal_with_fuel(pow256, 3);
                }
                push_le(&mut out, *x as u64, 2);
            },
            UpdateReserveConfigValue::U64(x) => {
                proof {
                    reveal_with_fuel(pow256, 9);
                }
                push_le(&mut out, *x, 8);
            },
            UpdateReserveConfigValue::Pubkey(k) => {
                push_bytes(&mut out, &k.bytes);
                assert(out@ =~= k.bytes@);
            },
            UpdateReserveConfigValue::Name(n) => {
                push_bytes(&mut out, n);
                assert(out@ =~= n@);
            },
            UpdateReserveConfigValue::ElevationGroups(g) => {
                push_bytes(&mut out, g);
                assert(out@ =~= g@);
            },
            UpdateReserveConfigValue::ScopeChain(c) => {
                let mut k: usize = 0;
                while k < 4
                    invariant
                        0 <= k <= 4,
                        out@.len() == 2 * k,
                        forall|j: int|
                            0 <= j < k ==> le_value(out@, 2 * j, 2) == #[trigger] c@[j],
                    decreases 4 - k,
                {
                    proof {
                        reveal_with_fuel(pow256, 3);
                    }
                    let ghost before = out@;
                    push_le(&mut out, c[k] as u64, 2);
                    proof {
                        assert forall|j: int| 0 <= j < k + 1 implies le_value(out@, 2 * j, 2)
                            == #[trigger] c@[j] by {
                            if j < k {
                                lemma_le_value_frame(before, out@, 2 * j, 2);
                            }
                        }
                    }
                    k = k + 1;
                }
            },
            UpdateReserveConfigValue::BorrowRateCurve(c) => {
                let mut k: usize = 0;
                while k < 11
                    invariant
                        0 <= k <= 11,
                        out@.len() == 8 * k,
                        c.points@.len() == 11,
                        forall|j: int|
                            0 <= j < k ==> (#[trigger] c.points@[j]).utilization_rate_bps
                                == le_value(out@, 8 * j, 4) && c.points@[j].borrow_rate_bps
                                == le_value(out@, 8 * j + 4, 4),
                    decreases 11 - k,
                {
                    proof {
                        reveal_with_fuel(pow256, 5);
                    }
                    let ghost before = out@;
                    push_le(&mut out, c.points[k].utilization_rate_bps as u64, 4);
                    let ghost mid = out@;
                    push_le(&mut out, c.points[k].borrow_rate_bps as u64, 4);
                    proof {
                        lemma_le_value_frame(mid, out@, 8 * k, 4);
                        assert forall|j: int| 0 <= j < k + 1 implies (#[trigger] c.points@[j]).utilization_rate_bps
                            == le_value(out@, 8 * j, 4) && c.points@[j].borrow_rate_bps
                            == le_value(out@, 8 * j + 4, 4) by {
                            if j < k {
                                lemma_le_value_frame(before, out@, 8 * j, 4);
                                lemma_le_value_frame(before, out@, 8 * j + 4, 4);
                            }
                        }
                    }
                    k = k + 1;
                }
            },
            UpdateReserveConfigValue::WithdrawalCap(cap, interval) => {
                proof {
                    reveal_with_fuel(pow256, 9);
                }
                push_le(&mut out, *cap, 8);
                let ghost mid = out@;
                push_le(&mut out, *interval, 8);
                proof {
                    lemma_le_value_frame(mid, out@, 0, 8);
                }
            },
            UpdateReserveConfigValue::ElevationGroupBorrowLimits(l) => {
                let mut k: usize = 0;
                while k < 32
                    invariant
                        0 <= k <= 32,
                        out@.len() == 8 * k,
                        l@.len() == 32,
                        forall|j: int| 0 <= j < k ==> #[trigger] l@[j] == le_value(out@, 8 * j, 8),
                    decreases 32 - k,
                {
                    proof {
                        reveal_with_fuel(pow256, 9);
                    }
                    let ghost before = out@;
                    push_le(&mut out, l[k], 8);
                    proof {
                        assert forall|j: int| 0 <= j < k + 1 implies #[trigger] l@[j] == le_value(
                            out@,
                            8 * j,
                            8,
                        ) by {
                            if j < k {
                                lemma_le_value_frame(before, out@, 8 * j, 8);
                            }
                        }
                    }
                    k = k + 1;
                }
            },
        }
        out
    }
}

/// Two runs of `n` equal bytes, at `a` in `s` and at `b` in `t`, read the
/// same value.
proof fn lemma_le_value_shift(s: Seq<u8>, t: Seq<u8>, a: int, b: int, n: nat)
    requires
        0 <= a,
        0 <= b,
        a + n <= s.len(),
        b + n <= t.len(),
        s.subrange(a, a + n) == t.subrange(b, b + n),
    ensures
        le_value(s, a, n) == le_value(t, b, n),
    decreases n,
{
    if n > 0 {
        assert(s[a] == s.subrange(a, a + n)[0]);
        assert(t[b] == t.subrange(b, b + n)[0]);
        assert(s.subrange(a + 1, a + n) =~= s.subrange(a, a + n).subrange(1, n as int));
        assert(t.subrange(b + 1, b + n) =~= t.subrange(b, b + n).subrange(1, n as int));
        lemma_le_value_shift(s, t, a + 1, b + 1, (n - 1) as nat);
    }
}

/// Appends the `n` little-endian bytes of `x`.
fn push_le(out: &mut Vec<u8>, x: u64, n: usize)
    requires
        n <= 8,
        x < pow256(n as nat),
    ensures
        final(out)@.len() == old(out)@.len() + n,
        final(out)@.subrange(0, old(out)@.len() as int) == old(out)@,
        le_value(final(out)@, old(out)@.len() as int, n as nat) == x,
{
    let mut buf = [0u8;72];
    write_le(&mut buf, 0, n, x as u128);
    let ghost start = out@.len();
    let mut i: usize = 0;
    while i < n
        invariant
            0 <= i <= n <= 8,
            out@.len() == start + i,
            out@.subrange(0, start as int) == old(out)@,
            start == old(out)@.len(),
            out@.subrange(start as int, start + i) == buf@.subrange(0, i as int),
        decreases n - i,
    {
        let ghost before = out@;
        out.push(buf[i]);
        proof {
            assert(out@.subrange(0, start as int) =~= before.subrange(0, start as int));
            assert(out@.subrange(start as int, start + i + 1) =~= buf@.subrange(0, i + 1));
        }
        i = i + 1;
    }
    proof {
        lemma_le_value_shift(out@, buf@, start as int, 0, n as nat);
    }
}

/// Appends the bytes of `src`.
fn push_bytes(out: &mut Vec<u8>, src: &[u8])
    ensures
        final(out)@ == old(out)@ + src@,
{
    let mut i: usize = 0;
    while i < src.len()
        invariant
            0 <= i <= src@.len(),
            out@ == old(out)@ + src@.subrange(0, i as int),
        decreases src@.len() - i,
    {
        out.push(src[i]);
        proof {
            assert(src@.subrange(0, i + 1) =~= src@.subrange(0, i as int).push(src@[i as int]));
        }
        i = i + 1;
    }
    assert(src@.subrange(0, src@.len() as int) =~= src@);
}

/// Writes the new value of one setting of the reserve's configuration, read
/// from `value`, and marks the reserve stale.
pub fn update_reserve_config(reserve: &mut Reserve, mode: UpdateConfigMode, value: &[u8])
    requires
        reserve_update_supported(mode),
        reserve_update_value_ok(*old(reserve), mode, value@),
    ensures
        reserve_config_updated(*old(reserve), *final(reserve), mode, value@),
{
    match mode {
        UpdateConfigMode::UpdateLoanToValuePct => {
                reserve.config.loan_to_value_pct = value[0];
            },
        UpdateConfigMode::UpdateLiquidationThresholdPct => {
                reserve.config.liquidation_threshold_pct = value[0];
            },
        UpdateConfigMode::UpdateProtocolLiquidationFee => {
                reserve.config.protocol_liquidation_fee_pct = value[0];
            },
        UpdateConfigMode::UpdateProtocolTakeRate => {
                reserve.config.protocol_take_rate_pct = value[0];
            },
        UpdateConfigMode::UpdateAssetTier => {
                reserve.config.asset_tier = value[0];
            },
        UpdateConfigMode::UpdateReserveStatus => {
                reserve.config.status = value[0];
            },
        UpdateConfigMode::UpdateDisableUsageAsCollateralOutsideEmode => {
                reserve.config.disable_usage_as_coll_outside_emode = value[0];
            },
        UpdateConfigMode::UpdateMaxLiquidationBonusBps => {
                reserve.config.max_liquidation_bonus_bps = read_u16(value, 0);
            },
        UpdateConfigMode::UpdateBadDebtLiquidationBonusBps => {
                reserve.config.bad_debt_liquidation_bonus_bps = read_u16(value, 0);
            },
        UpdateConfigMode::UpdateMinLiquidationBonusBps => {
                reserve.config.min_liquidation_bonus_bps = read_u16(value, 0);
            },
        UpdateConfigMode::UpdateHostFixedInterestRateBps => {
                reserve.config.host_fixed_interest_rate_bps = read_u16(value, 0);
            },
        UpdateConfigMode::UpdateDepositLimit => {
                reserve.config.deposit_limit = read_u64(value, 0);
            },
        UpdateConfigMode::UpdateBorrowLimit => {
                reserve.config.borrow_limit = read_u64(value, 0);
            },
        UpdateConfigMode::UpdateBorrowFactor => {
                reserve.config.borrow_factor_pct = read_u64(value, 0);
            },
        UpdateConfigMode::UpdateBorrowLimitOutsideElevationGroup => {
                reserve.config.borrow_limit_outside_elevation_group = read_u64(value, 0);
            },
        UpdateConfigMode::UpdateFeesFlashLoanFee => {
                reserve.config.fees.flash_loan_fee_sf = read_u64(value, 0);
            },
        UpdateConfigMode::UpdateFeesOriginationFee => {
                reserve.config.fees.origination_fee_sf = read_u64(value, 0);
            },
        UpdateConfigMode::DeprecatedUpdateFeesReferralFeeBps => {},
        UpdateConfigMode::UpdateEntireReserveConfig => {
                reserve.config = read_reserve_config(value);
            },
        UpdateConfigMode::UpdateDeleveragingMarginCallPeriod => {
                reserve.config.deleveraging_margin_call_period_secs = read_u64(value, 0);
            },
        UpdateConfigMode::UpdateDeleveragingThresholdDecreaseBpsPerDay => {
                reserve.config.deleveraging_threshold_decrease_bps_per_day = read_u64(value, 0);
            },
        UpdateConfigMode::UpdateBlockBorrowingAboveUtilizationPct => {
                reserve.config.utilization_limit_block_borrowing_above_pct = value[0];
            },
        UpdateConfigMode::DeprecatedUpdateDebtWithdrawalCapCurrentTotal => {
                let total = read_u64(value, 0);
                reserve.config.debt_withdrawal_cap.current_total = total as i64;
            },
        UpdateConfigMode::DeprecatedUpdateDepositWithdrawalCapCurrentTotal => {
                let total = read_u64(value, 0);
                reserve.config.deposit_withdrawal_cap.current_total = total as i64;
            },
        UpdateConfigMode::UpdateTokenInfoTwapDivergence => {
                reserve.config.token_info.max_twap_divergence_bps = read_u64(value, 0);
            },
        UpdateConfigMode::UpdateTokenInfoPriceMaxAge => {
                reserve.config.token_info.max_age_price_seconds = read_u64(value, 0);
            },
        UpdateConfigMode::UpdateTokenInfoTwapMaxAge => {
                reserve.config.token_info.max_age_twap_seconds = read_u64(value, 0);
            },
        UpdateConfigMode::UpdateTokenInfoLowerHeuristic => {
                reserve.config.token_info.heuristic.lower = read_u64(value, 0);
            },
        UpdateConfigMode::UpdateTokenInfoUpperHeuristic => {
                reserve.config.token_info.heuristic.upper = read_u64(value, 0);
            },
        UpdateConfigMode::UpdateTokenInfoExpHeuristic => {
                reserve.config.token_info.heuristic.exp = read_u64(value, 0);
            },
        UpdateConfigMode::UpdateTokenInfoScopeChain => {
                reserve.config.token_info.scope_configuration.price_chain = read_chain(value, 0);
            },
        UpdateConfigMode::UpdateTokenInfoScopeTwap => {
                reserve.config.token_info.scope_configuration.twap_chain = read_chain(value, 0);
            },
        UpdateConfigMode::UpdateTokenInfoName => {
                reserve.config.token_info.name = read_pubkey(value, 0).bytes;
            },
        UpdateConfigMode::UpdateScopePriceFeed => {
                reserve.config.token_info.scope_configuration.price_feed = read_pubkey(value, 0);
            },
        UpdateConfigMode::UpdatePythPrice => {
                reserve.config.token_info.pyth_configuration.price = read_pubkey(value, 0);
            },
        UpdateConfigMode::UpdateSwitchboardFeed => {
                reserve.config.token_info.switchboard_configuration.price_aggregator = read_pubkey(value, 0);
            },
        UpdateConfigMode::UpdateSwitchboardTwapFeed => {
                reserve.config.token_info.switchboard_configuration.twap_aggregator = read_pubkey(value, 0);
            },
        UpdateConfigMode::UpdateBorrowRateCurve => {
                reserve.config.borrow_rate_curve = read_curve(value, 0);
            },
        UpdateConfigMode::UpdateDebtWithdrawalCap => {
                let capacity = read_u64(value, 0);
                let interval_length_seconds = read_u64(value, 8);
                reserve.config.debt_withdrawal_cap.config_capacity = capacity as i64;
                reserve.config.debt_withdrawal_cap.config_interval_length_seconds = interval_length_seconds;
            },
        UpdateConfigMode::UpdateDepositWithdrawalCap => {
                let capacity = read_u64(value, 0);
                let interval_length_seconds = read_u64(value, 8);
                reserve.config.deposit_withdrawal_cap.config_capacity = capacity as i64;
                reserve.config.deposit_withdrawal_cap.config_interval_length_seconds = interval_length_seconds;
            },
        UpdateConfigMode::UpdateElevationGroup => {
                reserve.config.elevation_groups = read_byte_array(value, 0);
            },
        UpdateConfigMode::UpdateBorrowLimitsInElevationGroupAgainstThisReserve => {
                reserve.config.borrow_limit_against_this_collateral_in_elevation_group = read_limits(value, 0);
            },
        UpdateConfigMode::UpdateFarmCollateral => {
                reserve.farm_collateral = read_pubkey(value, 0);
            },
        UpdateConfigMode::UpdateFarmDebt => {
                reserve.farm_debt = read_pubkey(value, 0);
            },
        _ => {
                return vstd::pervasive::unreached();
            },
    }
    reserve.last_update.mark_stale();
}

/// The checks of the groups `ids[i..]` a reserve belongs to: every id must
/// name a valid group (or none); a group needs a debt reserve, a limit on
/// collateral reserves, and, unless the reserve is the group's debt reserve,
/// a liquidation bonus at most the reserve's and an LTV and liquidation
/// threshold at least the reserve's.
pub open spec fn spec_groups_check(
    config: ReserveConfig,
    market: LendingMarket,
    reserve_address: Pubkey,
    ids: Seq<u8>,
    i: int,
) -> Result<(), LendingError>
    decreases ids.len() - i,
{
    if i >= ids.len() {
        Ok(())
    } else {
        match spec_operation_group(ids[i], market) {
            Err(e) => Err(e),
            Ok(None) => spec_groups_check(config, market, reserve_address, ids, i + 1),
            Ok(Some(g)) => if is_default_key(g.debt_reserve.bytes@) {
                Err(LendingError::InvalidConfig)
            } else if g.debt_reserve.bytes@ != reserve_address.bytes@ && (g.max_liquidation_bonus_bps
                > config.max_liquidation_bonus_bps || g.liquidation_threshold_pct
                < config.liquidation_threshold_pct || g.ltv_pct < config.loan_to_value_pct) {
                Err(LendingError::InvalidConfig)
            } else if g.max_reserves_as_collateral == 0 {
                Err(LendingError::InvalidConfig)
            } else {
                spec_groups_check(config, market, reserve_address, ids, i + 1)
            },
        }
    }
}

/// The checks a reserve's configuration must pass, in order: LTV below
/// 100%, liquidation bonus at most 100%, liquidation threshold between the
/// LTV and 100%, origination fee below 100%, protocol fees at most 100%, a
/// valid price source and time-weighted average configuration, a bad-debt
/// bonus below 1%, a minimal bonus at most the maximal one, a borrow factor
/// of at least 100%, a nonzero deleveraging threshold decrease, no LTV for
/// isolated debt, no borrowing of isolated collateral, a borrow limit at
/// least the one outside groups (when that is set), valid groups, and a well
/// formed borrow rate curve.
pub open spec fn spec_reserve_config_check(
    config: ReserveConfig,
    market: LendingMarket,
    reserve_address: Pubkey,
) -> Result<(), LendingError> {
    if config.loan_to_value_pct >= 100 {
        Err(LendingError::InvalidConfig)
    } else if config.max_liquidation_bonus_bps > FULL_BPS {
        Err(LendingError::InvalidConfig)
    } else if config.liquidation_threshold_pct < config.loan_to_value_pct
        || config.liquidation_threshold_pct > 100 {
        Err(LendingError::InvalidConfig)
    } else if config.fees.origination_fee_sf >= FRACTION_ONE_SCALED {
        Err(LendingError::InvalidConfig)
    } else if config.protocol_liquidation_fee_pct > 100 {
        Err(LendingError::InvalidConfig)
    } else if config.protocol_take_rate_pct > 100 {
        Err(LendingError::InvalidConfig)
    } else if !config.token_info.spec_is_valid() {
        Err(LendingError::InvalidOracleConfig)
    } else if !config.token_info.spec_is_twap_config_valid() {
        Err(LendingError::InvalidTwapConfig)
    } else if config.bad_debt_liquidation_bonus_bps >= 100 {
        Err(LendingError::InvalidConfig)
    } else if config.min_liquidation_bonus_bps > config.max_liquidation_bonus_bps {
        Err(LendingError::InvalidConfig)
    } else if config.borrow_factor_pct < 100 {
        Err(LendingError::InvalidConfig)
    } else if config.deleveraging_threshold_decrease_bps_per_day == 0 {
        Err(LendingError::InvalidConfig)
    } else if config.asset_tier == 2 && !(config.loan_to_value_pct == 0
        && config.liquidation_threshold_pct == 0) {
        Err(LendingError::InvalidConfig)
    } else if config.asset_tier == 1 && config.borrow_limit != 0 {
        Err(LendingError::InvalidConfig)
    } else if config.borrow_limit_outside_elevation_group != u64::MAX && config.borrow_limit
        < config.borrow_limit_outside_elevation_group {
        Err(LendingError::InvalidConfig)
    } else if spec_groups_check(config, market, reserve_address, config.elevation_groups@, 0) is Err {
        spec_groups_check(config, market, reserve_address, config.elevation_groups@, 0)
    } else if !valid_points(config.borrow_rate_curve.points@) {
        Err(LendingError::InvalidBorrowRateCurvePoint)
    } else {
        Ok(())
    }
}

/// Whether a configuration passes the checks that come before its asset
/// tier is read (see [`spec_reserve_config_check`]).
pub open spec fn reaches_asset_tier_check(config: ReserveConfig) -> bool {
    &&& config.loan_to_value_pct < 100
    &&& config.max_liquidation_bonus_bps <= FULL_BPS
    &&& config.loan_to_value_pct <= config.liquidation_threshold_pct <= 100
    &&& config.fees.origination_fee_sf < FRACTION_ONE_SCALED
    &&& config.protocol_liquidation_fee_pct <= 100
    &&& config.protocol_take_rate_pct <= 100
    &&& config.token_info.spec_is_valid()
    &&& config.token_info.spec_is_twap_config_valid()
    &&& config.bad_debt_liquidation_bonus_bps < 100
    &&& config.min_liquidation_bonus_bps <= config.max_liquidation_bonus_bps
    &&& config.borrow_factor_pct >= 100
    &&& config.deleveraging_threshold_decrease_bps_per_day != 0
}

/// Checks a reserve's configuration against the market; see
/// [`spec_reserve_config_check`]. A configuration that reaches the check of
/// its asset tier must name a known tier.
pub fn validate_reserve_config(
    config: &ReserveConfig,
    market: &LendingMarket,
    reserve_address: Pubkey,
) -> (r: Result<(), LendingError>)
    requires
        reaches_asset_tier_check(*config) ==> config.asset_tier < 3,
    ensures
        r == spec_reserve_config_check(*config, *market, reserve_address),
{
    if config.loan_to_value_pct >= 100 {
        return Err(LendingError::InvalidConfig);
    }
    if config.max_liquidation_bonus_bps > FULL_BPS {
        return Err(LendingError::InvalidConfig);
    }
    if config.liquidation_threshold_pct < config.loan_to_value_pct
        || config.liquidation_threshold_pct > 100 {
        return Err(LendingError::InvalidConfig);
    }
    if (config.fees.origination_fee_sf as u128) >= FRACTION_ONE_SCALED {
        return Err(LendingError::InvalidConfig);
    }
    if config.protocol_liquidation_fee_pct > 100 {
        return Err(LendingError::InvalidConfig);
    }
    if config.protocol_take_rate_pct > 100 {
        return Err(LendingError::InvalidConfig);
    }
    if !config.token_info.is_valid() {
        return Err(LendingError::InvalidOracleConfig);
    }
    if !config.token_info.is_twap_config_valid() {
        return Err(LendingError::InvalidTwapConfig);
    }
    if config.bad_debt_liquidation_bonus_bps >= 100 {
        return Err(LendingError::InvalidConfig);
    }
    if config.min_liquidation_bonus_bps > config.max_liquidation_bonus_bps {
        return Err(LendingError::InvalidConfig);
    }
    if config.borrow_factor_pct < 100 {
        return Err(LendingError::InvalidConfig);
    }
    if config.deleveraging_threshold_decrease_bps_per_day == 0 {
        return Err(LendingError::InvalidConfig);
    }
    if config.get_asset_tier() == crate::reserve::AssetTier::IsolatedDebt && !(
    config.loan_to_value_pct == 0 && config.liquidation_threshold_pct == 0) {
        return Err(LendingError::InvalidConfig);
    }
    if config.get_asset_tier() == crate::reserve::AssetTier::IsolatedCollateral
        && config.borrow_limit != 0 {
        return Err(LendingError::InvalidConfig);
    }
    if config.borrow_limit_outside_elevation_group != u64::MAX && config.borrow_limit
        < config.borrow_limit_outside_elevation_group {
        return Err(LendingError::InvalidConfig);
    }
    let ghost ids = config.elevation_groups@;
    let mut i: usize = 0;
    while i < 20
        invariant
            0 <= i <= 20,
            ids == config.elevation_groups@,
            ids.len() == 20,
            spec_groups_check(*config, *market, reserve_address, ids, 0) == spec_groups_check(
                *config,
                *market,
                reserve_address,
                ids,
                i as int,
            ),
            spec_reserve_config_check(*config, *market, reserve_address) == match spec_groups_check(
                *config,
                *market,
                reserve_address,
                ids,
                0,
            ) {
                Err(e) => Err(e),
                Ok(()) => if !valid_points(config.borrow_rate_curve.points@) {
                    Err(LendingError::InvalidBorrowRateCurvePoint)
                } else {
                    Ok(())
                },
            },
        decreases 20 - i,
    {
        let elevation_group_id = config.elevation_groups[i];
        match get_elevation_group(elevation_group_id, market) {
            Err(e) => {
                return Err(e);
            },
            Ok(None) => {},
            Ok(Some(elevation_group)) => {
                if elevation_group.debt_reserve.is_default() {
                    return Err(LendingError::InvalidConfig);
                }
                if !elevation_group.debt_reserve.key_eq(&reserve_address) {
                    if elevation_group.max_liquidation_bonus_bps > config.max_liquidation_bonus_bps {
                        return Err(LendingError::InvalidConfig);
                    }
                    if elevation_group.liquidation_threshold_pct < config.liquidation_threshold_pct {
                        return Err(LendingError::InvalidConfig);
                    }
                    if elevation_group.ltv_pct < config.loan_to_value_pct {
                        return Err(LendingError::InvalidConfig);
                    }
                }
                if elevation_group.max_reserves_as_collateral == 0 {
                    return Err(LendingError::InvalidConfig);
                }
            },
        }
        i = i + 1;
    }
    assert(spec_groups_check(*config, *market, reserve_address, ids, 20) == Ok::<(), LendingError>(()));
    assert(spec_reserve_config_check(*config, *market, reserve_address) == if !valid_points(
        config.borrow_rate_curve.points@,
    ) {
        Err(LendingError::InvalidBorrowRateCurvePoint)
    } else {
        Ok(())
    });
    let r = config.borrow_rate_curve.validate();
    match r {
        Ok(()) => Ok(()),
        Err(e) => Err(e),
    }
}

} // verus!
