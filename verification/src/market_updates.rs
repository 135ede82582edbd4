//! Updates of a market's configuration: the modes, the encoding of the new
//! value into the fixed-size value buffer, the checks on each new value and
//! the update itself.

use crate::config_items::{
    read_u16, read_u64, check_bool, check_gte, check_in_range, check_not_zero, check_valid_bps, check_valid_pct,
    group_encoded_at, le_value, pow256, read_elevation_group, read_le, read_pubkey, write_le,
};
use crate::consts::{ELEVATION_GROUP_NONE, FULL_BPS, MAX_NUM_ELEVATION_GROUPS, MIN_INITIAL_DEPOSIT_AMOUNT};
use crate::error::LendingError;
use crate::fraction::{bps_val, pct_val, scale, spec_mul, Fraction};
use crate::lending_market::{ElevationGroup, LendingMarket};
use crate::pubkey::{is_default_key, Pubkey};
use vstd::prelude::*;

verus! {

/// Length of the value buffer of a short update.
pub const VALUE_BYTE_ARRAY_LEN_SHORT_UPDATE: usize = 32;

/// Length of the value buffer of a market update.
pub const VALUE_BYTE_MAX_ARRAY_LEN_MARKET_UPDATE: usize = 72;

/// Which setting of a market an update changes.
#[derive(Clone, Copy, Debug, PartialEq, Eq, Structural)]
pub enum UpdateLendingMarketMode {
    UpdateOwner,
    UpdateEmergencyMode,
    UpdateLiquidationCloseFactor,
    UpdateLiquidationMaxValue,
    DeprecatedUpdateGlobalUnhealthyBorrow,
    UpdateGlobalAllowedBorrow,
    UpdateRiskCouncil,
    UpdateMinFullLiquidationThreshold,
    UpdateInsolvencyRiskLtv,
    UpdateElevationGroup,
    UpdateReferralFeeBps,
    DeprecatedUpdateMultiplierPoints,
    UpdatePriceRefreshTriggerToMaxAgePct,
    UpdateAutodeleverageEnabled,
    UpdateBorrowingDisabled,
    UpdateMinNetValueObligationPostAction,
    UpdateMinValueLtvSkipPriorityLiqCheck,
    UpdateMinValueBfSkipPriorityLiqCheck,
    UpdatePaddingFields,
    UpdateName,
    UpdateIndividualAutodeleverageMarginCallPeriodSecs,
    UpdateInitialDepositAmount,
    UpdateObligationOrderExecutionEnabled,
    UpdateImmutableFlag,
    UpdateObligationOrderCreationEnabled,
    UpdateProposerAuthority,
    UpdatePriceTriggeredLiquidationDisabled,
}

impl UpdateLendingMarketMode {
    /// The number that stands for the mode in an instruction.
    pub open spec fn code(self) -> u64 {
        match self {
            UpdateLendingMarketMode::UpdateOwner => 0,
            UpdateLendingMarketMode::UpdateEmergencyMode => 1,
            UpdateLendingMarketMode::UpdateLiquidationCloseFactor => 2,
            UpdateLendingMarketMode::UpdateLiquidationMaxValue => 3,
            UpdateLendingMarketMode::DeprecatedUpdateGlobalUnhealthyBorrow => 4,
            UpdateLendingMarketMode::UpdateGlobalAllowedBorrow => 5,
            UpdateLendingMarketMode::UpdateRiskCouncil => 6,
            UpdateLendingMarketMode::UpdateMinFullLiquidationThreshold => 7,
            UpdateLendingMarketMode::UpdateInsolvencyRiskLtv => 8,
            UpdateLendingMarketMode::UpdateElevationGroup => 9,
            UpdateLendingMarketMode::UpdateReferralFeeBps => 10,
            UpdateLendingMarketMode::DeprecatedUpdateMultiplierPoints => 11,
            UpdateLendingMarketMode::UpdatePriceRefreshTriggerToMaxAgePct => 12,
            UpdateLendingMarketMode::UpdateAutodeleverageEnabled => 13,
            UpdateLendingMarketMode::UpdateBorrowingDisabled => 14,
            UpdateLendingMarketMode::UpdateMinNetValueObligationPostAction => 15,
            UpdateLendingMarketMode::UpdateMinValueLtvSkipPriorityLiqCheck => 16,
            UpdateLendingMarketMode::UpdateMinValueBfSkipPriorityLiqCheck => 17,
            UpdateLendingMarketMode::UpdatePaddingFields => 18,
            UpdateLendingMarketMode::UpdateName => 19,
            UpdateLendingMarketMode::UpdateIndividualAutodeleverageMarginCallPeriodSecs => 20,
            UpdateLendingMarketMode::UpdateInitialDepositAmount => 21,
            UpdateLendingMarketMode::UpdateObligationOrderExecutionEnabled => 22,
            UpdateLendingMarketMode::UpdateImmutableFlag => 23,
            UpdateLendingMarketMode::UpdateObligationOrderCreationEnabled => 24,
            UpdateLendingMarketMode::UpdateProposerAuthority => 25,
            UpdateLendingMarketMode::UpdatePriceTriggeredLiquidationDisabled => 26,
        }
    }

    /// The mode that the number stands for, if any.
    pub fn try_from_u64(code: u64) -> (r: Option<Self>)
        ensures
            code <= 26 <==> r is Some,
            r matches Some(m) ==> m.code() == code,
    {
        match code {
            0 => Some(UpdateLendingMarketMode::UpdateOwner),
            1 => Some(UpdateLendingMarketMode::UpdateEmergencyMode),
            2 => Some(UpdateLendingMarketMode::UpdateLiquidationCloseFactor),
            3 => Some(UpdateLendingMarketMode::UpdateLiquidationMaxValue),
            4 => Some(UpdateLendingMarketMode::DeprecatedUpdateGlobalUnhealthyBorrow),
            5 => Some(UpdateLendingMarketMode::UpdateGlobalAllowedBorrow),
            6 => Some(UpdateLendingMarketMode::UpdateRiskCouncil),
            7 => Some(UpdateLendingMarketMode::UpdateMinFullLiquidationThreshold),
            8 => Some(UpdateLendingMarketMode::UpdateInsolvencyRiskLtv),
            9 => Some(UpdateLendingMarketMode::UpdateElevationGroup),
            10 => Some(UpdateLendingMarketMode::UpdateReferralFeeBps),
            11 => Some(UpdateLendingMarketMode::DeprecatedUpdateMultiplierPoints),
            12 => Some(UpdateLendingMarketMode::UpdatePriceRefreshTriggerToMaxAgePct),
            13 => Some(UpdateLendingMarketMode::UpdateAutodeleverageEnabled),
            14 => Some(UpdateLendingMarketMode::UpdateBorrowingDisabled),
            15 => Some(UpdateLendingMarketMode::UpdateMinNetValueObligationPostAction),
            16 => Some(UpdateLendingMarketMode::UpdateMinValueLtvSkipPriorityLiqCheck),
            17 => Some(UpdateLendingMarketMode::UpdateMinValueBfSkipPriorityLiqCheck),
            18 => Some(UpdateLendingMarketMode::UpdatePaddingFields),
            19 => Some(UpdateLendingMarketMode::UpdateName),
            20 => Some(UpdateLendingMarketMode::UpdateIndividualAutodeleverageMarginCallPeriodSecs),
            21 => Some(UpdateLendingMarketMode::UpdateInitialDepositAmount),
            22 => Some(UpdateLendingMarketMode::UpdateObligationOrderExecutionEnabled),
            23 => Some(UpdateLendingMarketMode::UpdateImmutableFlag),
            24 => Some(UpdateLendingMarketMode::UpdateObligationOrderCreationEnabled),
            25 => Some(UpdateLendingMarketMode::UpdateProposerAuthority),
            26 => Some(UpdateLendingMarketMode::UpdatePriceTriggeredLiquidationDisabled),
            _ => None,
        }
    }

    /// The modes in use, in the order of their numbers.
    pub fn iter_without_deprecated() -> (r: Vec<Self>)
        ensures
            r@.len() == 25,
            forall|i: int, j: int| 0 <= i < j < r@.len() ==> r@[i].code() < r@[j].code(),
            forall|i: int| 0 <= i < r@.len() ==> !(#[trigger] r@[i]).spec_is_deprecated(),
            forall|m: Self| !m.spec_is_deprecated() ==> r@.contains(m),
    {
        let mut v: Vec<Self> = Vec::new();
        let mut code: u64 = 0;
        while code <= 26
            invariant
                code <= 27,
                forall|i: int, j: int| 0 <= i < j < v@.len() ==> v@[i].code() < v@[j].code(),
                forall|i: int| 0 <= i < v@.len() ==> v@[i].code() < code,
                forall|i: int| 0 <= i < v@.len() ==> !(#[trigger] v@[i]).spec_is_deprecated(),
                forall|m: Self| !m.spec_is_deprecated() && m.code() < code ==> v@.contains(m),
                v@.len() == code - (if code > 11 {
                    2int
                } else if code > 4 {
                    1int
                } else {
                    0int
                }),
            decreases 27 - code,
        {
            let m = Self::try_from_u64(code).unwrap();
            if !m.is_deprecated() {
                let ghost before = v@;
                v.push(m);
                proof {
                    assert forall|x: Self| !x.spec_is_deprecated() && x.code() < code + 1 implies v@.contains(x) by {
                        if x.code() == code {
                            assert(x == m);
                            assert(v@[v@.len() - 1] == m);
                        } else {
                            assert(before.contains(x));
                            let i = choose|i: int| 0 <= i < before.len() && before[i] == x;
                            assert(v@[i] == x);
                        }
                    }
                }
            } else {
                proof {
                    assert forall|x: Self| !x.spec_is_deprecated() && x.code() < code + 1 implies v@.contains(x) by {
                        if x.code() == code {
                            assert(x == m);
                        }
                    }
                }
            }
            code = code + 1;
        }
        v
    }

    /// Whether the mode is kept only so that old numbers stay reserved.
    pub open spec fn spec_is_deprecated(self) -> bool {
        ||| self is DeprecatedUpdateMultiplierPoints
        ||| self is DeprecatedUpdateGlobalUnhealthyBorrow
    }

    /// Whether the mode is kept only so that old numbers stay reserved.
    pub fn is_deprecated(&self) -> (r: bool)
        ensures
            r == self.spec_is_deprecated(),
    {
        match self {
            UpdateLendingMarketMode::DeprecatedUpdateMultiplierPoints => true,
            UpdateLendingMarketMode::DeprecatedUpdateGlobalUnhealthyBorrow => true,
            _ => false,
        }
    }
}

/// A new value for a market setting, before it is encoded.
#[derive(Clone, Copy, Debug)]
pub enum UpdateLendingMarketConfigValue {
    Bool(bool),
    U8(u8),
    U8Array([u8; 8]),
    U16(u16),
    U64(u64),
    U128(u128),
    Pubkey(Pubkey),
    ElevationGroup(ElevationGroup),
    Name([u8; 32]),
}

/// Whether every byte of `s` from `k` on is zero.
pub open spec fn zeros_from(s: Seq<u8>, k: int) -> bool {
    forall|j: int| k <= j < s.len() ==> s[j] == 0
}

impl UpdateLendingMarketConfigValue {
    /// Whether `s` is the encoding of the value: its bytes first, integers
    /// little-endian, then zeros.
    pub open spec fn encoded_in(self, s: Seq<u8>) -> bool {
        &&& s.len() == 72
        &&& match self {
            UpdateLendingMarketConfigValue::Bool(b) => s[0] == (if b {
                1u8
            } else {
                0u8
            }) && zeros_from(s, 1),
            UpdateLendingMarketConfigValue::U8(x) => s[0] == x && zeros_from(s, 1),
            UpdateLendingMarketConfigValue::U8Array(a) => s.subrange(0, 8) == a@ && zeros_from(s, 8),
            UpdateLendingMarketConfigValue::U16(x) => le_value(s, 0, 2) == x && zeros_from(s, 2),
            UpdateLendingMarketConfigValue::U64(x) => le_value(s, 0, 8) == x && zeros_from(s, 8),
            UpdateLendingMarketConfigValue::U128(x) => le_value(s, 0, 16) == x && zeros_from(s, 16),
            UpdateLendingMarketConfigValue::Pubkey(k) => s.subrange(0, 32) == k.bytes@ && zeros_from(
                s,
                32,
            ),
            UpdateLendingMarketConfigValue::ElevationGroup(g) => group_encoded_at(s, 0, g),
            UpdateLendingMarketConfigValue::Name(n) => s.subrange(0, 32) == n@ && zeros_from(s, 32),
        }
    }

    /// The value laid out in a market update's value buffer.
    pub fn to_bytes(&self) -> (r: [u8; 72])
        ensures
            self.encoded_in(r@),
    {
        let mut val = [0u8;72];
        assert(zeros_from(val@, 0));
        match self {
            UpdateLendingMarketConfigValue::Bool(v) => {
                val[0] = if *v {
                    1
                } else {
                    0
                };
            },
            UpdateLendingMarketConfigValue::U8(v) => {
                val[0] = *v;
            },
            UpdateLendingMarketConfigValue::U16(v) => {
                proof {
                    reveal_with_fuel(pow256, 3);
                }
                write_le(&mut val, 0, 2, *v as u128);
            },
            UpdateLendingMarketConfigValue::U64(v) => {
                proof {
                    reveal_with_fuel(pow256, 9);
                }
                write_le(&mut val, 0, 8, *v as u128);
            },
            UpdateLendingMarketConfigValue::U128(v) => {
                proof {
                    crate::config_items::lemma_pow256_16();
                }
                write_le(&mut val, 0, 16, *v);
            },
            UpdateLendingMarketConfigValue::Pubkey(v) => {
                copy_bytes(&mut val, 0, &v.bytes);
            },
            UpdateLendingMarketConfigValue::ElevationGroup(v) => {
                write_elevation_group(&mut val, v);
            },
            UpdateLendingMarketConfigValue::U8Array(value) => {
                copy_bytes(&mut val, 0, value);
            },
            UpdateLendingMarketConfigValue::Name(v) => {
                copy_bytes(&mut val, 0, v);
            },
        }
        val
    }
}

/// Copies `src` into `buf` from `start`, leaving the other bytes as they were.
fn copy_bytes(buf: &mut [u8; 72], start: usize, src: &[u8])
    requires
        start + src@.len() <= 72,
    ensures
        final(buf)@.subrange(start as int, start + src@.len()) == src@,
        forall|j: int|
            0 <= j < 72 && !(start <= j < start + src@.len()) ==> final(buf)@[j] == old(buf)@[j],
{
    let n = src.len();
    let mut i: usize = 0;
    while i < n
        invariant
            0 <= i <= n,
            n == src@.len(),
            start + n <= 72,
            buf@.len() == 72,
            forall|j: int| 0 <= j < i ==> buf@[start + j] == src@[j],
            forall|j: int| 0 <= j < 72 && !(start <= j < start + i) ==> buf@[j] == old(buf)@[j],
        decreases n - i,
    {
        buf[start + i] = src[i];
        i = i + 1;
    }
    assert(buf@.subrange(start as int, start + n) =~= src@);
}

/// Lays out an elevation group from the start of `buf`.
fn write_elevation_group(buf: &mut [u8; 72], g: &ElevationGroup)
    ensures
        group_encoded_at(final(buf)@, 0, *g),
{
    proof {
        reveal_with_fuel(pow256, 9);
    }
    write_le(buf, 0, 2, g.max_liquidation_bonus_bps as u128);
    let ghost s0 = buf@;
    buf[2] = g.id;
    buf[3] = g.ltv_pct;
    buf[4] = g.liquidation_threshold_pct;
    buf[5] = g.allow_new_loans;
    buf[6] = g.max_reserves_as_collateral;
    buf[7] = g.padding_0;
    copy_bytes(buf, 8, &g.debt_reserve.bytes);
    let ghost s1 = buf@;
    write_le(buf, 40, 8, g.padding_1[0] as u128);
    let ghost s2 = buf@;
    write_le(buf, 48, 8, g.padding_1[1] as u128);
    let ghost s3 = buf@;
    write_le(buf, 56, 8, g.padding_1[2] as u128);
    let ghost s4 = buf@;
    write_le(buf, 64, 8, g.padding_1[3] as u128);
    proof {
        let s = buf@;
        crate::config_items::lemma_le_value_frame(s0, s, 0, 2);
        crate::config_items::lemma_le_value_frame(s2, s, 40, 8);
        crate::config_items::lemma_le_value_frame(s3, s, 48, 8);
        crate::config_items::lemma_le_value_frame(s4, s, 56, 8);
        assert(s.subrange(8, 40) =~= s1.subrange(8, 40));
    }
}

/// Whether a new elevation group with these fields breaks the rules for
/// groups: an id past the largest group, a group without a liquidation
/// threshold, limits of 100% or more, an LTV above the threshold, a bonus
/// above 100%, a group without debt reserve or collateral, or a threshold
/// whose liquidation with the full bonus would take more than all collateral.
pub open spec fn group_invalid(
    id: int,
    ltv_pct: int,
    liquidation_threshold_pct: int,
    max_liquidation_bonus_bps: int,
    max_reserves_as_collateral: int,
    debt_reserve_unset: bool,
) -> bool {
    ||| id > MAX_NUM_ELEVATION_GROUPS
    ||| (id != ELEVATION_GROUP_NONE && liquidation_threshold_pct == 0)
    ||| liquidation_threshold_pct >= 100
    ||| ltv_pct >= 100
    ||| ltv_pct > liquidation_threshold_pct
    ||| max_liquidation_bonus_bps > FULL_BPS
    ||| (id != ELEVATION_GROUP_NONE && (debt_reserve_unset || max_reserves_as_collateral == 0))
    ||| pct_val(liquidation_threshold_pct) + spec_mul(
        pct_val(liquidation_threshold_pct),
        bps_val(max_liquidation_bonus_bps),
    ) > scale()
}

/// [`group_invalid`] of a group.
pub open spec fn spec_group_invalid(g: ElevationGroup) -> bool {
    group_invalid(
        g.id as int,
        g.ltv_pct as int,
        g.liquidation_threshold_pct as int,
        g.max_liquidation_bonus_bps as int,
        g.max_reserves_as_collateral as int,
        is_default_key(g.debt_reserve.bytes@),
    )
}

proof fn lemma_bonus_product_bound(lt: int, bonus: int)
    requires
        0 <= lt < 100,
        0 <= bonus <= 10000,
    ensures
        0 <= pct_val(lt) < scale(),
        0 <= bps_val(bonus) <= scale(),
        0 <= spec_mul(pct_val(lt), bps_val(bonus)) <= scale(),
{
    let a = pct_val(lt);
    let b = bps_val(bonus);
    assert(0 <= a < scale()) by (nonlinear_arith)
        requires
            a == lt * scale() / 100,
            0 <= lt < 100,
            scale() > 0,
    ;
    assert(0 <= b <= scale()) by (nonlinear_arith)
        requires
            b == bonus * scale() / 10000,
            0 <= bonus <= 10000,
            scale() > 0,
    ;
    assert(0 <= a * b <= scale() * scale()) by (nonlinear_arith)
        requires
            0 <= a <= scale(),
            0 <= b <= scale(),
    ;
    assert(0 <= a * b / scale() <= scale()) by (nonlinear_arith)
        requires
            0 <= a * b <= scale() * scale(),
            scale() > 0,
    ;
}

/// Checks a new elevation group against the rules for groups.
pub fn validate_new_elevation_group(elevation_group: &ElevationGroup) -> (r: Result<
    (),
    LendingError,
>)
    ensures
        spec_group_invalid(*elevation_group) ==> r == Err::<(), LendingError>(
            LendingError::InvalidElevationGroupConfig,
        ),
        !spec_group_invalid(*elevation_group) ==> r is Ok,
{
    if elevation_group.id > MAX_NUM_ELEVATION_GROUPS {
        return Err(LendingError::InvalidElevationGroupConfig);
    }
    if elevation_group.id != ELEVATION_GROUP_NONE && elevation_group.liquidation_threshold_pct == 0 {
        return Err(LendingError::InvalidElevationGroupConfig);
    }
    if elevation_group.liquidation_threshold_pct >= 100 || elevation_group.ltv_pct >= 100
        || elevation_group.ltv_pct > elevation_group.liquidation_threshold_pct
        || elevation_group.max_liquidation_bonus_bps > FULL_BPS {
        return Err(LendingError::InvalidElevationGroupConfig);
    }
    if elevation_group.id != ELEVATION_GROUP_NONE && (elevation_group.debt_reserve.is_default()
        || elevation_group.max_reserves_as_collateral == 0) {
        return Err(LendingError::InvalidElevationGroupConfig);
    }
    proof {
        lemma_bonus_product_bound(
            elevation_group.liquidation_threshold_pct as int,
            elevation_group.max_liquidation_bonus_bps as int,
        );
    }
    let threshold = Fraction::from_percent(elevation_group.liquidation_threshold_pct as u64);
    let bonus = Fraction::from_bps(elevation_group.max_liquidation_bonus_bps as u64);
    let taken = threshold.add(threshold.mul(bonus));
    if taken.bits > Fraction::one().bits {
        return Err(LendingError::InvalidElevationGroupConfig);
    }
    Ok(())
}

/// Whether an update in this mode is defined: not one of the deprecated
/// modes, and not one of the modes whose setting this market does not hold.
pub open spec fn update_supported(mode: UpdateLendingMarketMode) -> bool {
    &&& !mode.spec_is_deprecated()
    &&& !(mode is UpdateProposerAuthority)
    &&& !(mode is UpdatePriceTriggeredLiquidationDisabled)
}

/// The error that refuses an update, if any: a frozen market refuses every
/// update, and each setting has its own check on the new value.
pub open spec fn market_update_error(
    m: LendingMarket,
    mode: UpdateLendingMarketMode,
    v: Seq<u8>,
) -> Option<LendingError> {
    if m.immutable != 0 {
        Some(LendingError::OperationNotPermittedMarketImmutable)
    } else {
        match mode {
            UpdateLendingMarketMode::UpdateEmergencyMode
            | UpdateLendingMarketMode::UpdateAutodeleverageEnabled
            | UpdateLendingMarketMode::UpdateBorrowingDisabled
            | UpdateLendingMarketMode::UpdateObligationOrderExecutionEnabled
            | UpdateLendingMarketMode::UpdateImmutableFlag
            | UpdateLendingMarketMode::UpdateObligationOrderCreationEnabled => if v[0] > 1 {
                Some(LendingError::InvalidFlag)
            } else {
                None
            },
            UpdateLendingMarketMode::UpdateLiquidationCloseFactor
            | UpdateLendingMarketMode::UpdateInsolvencyRiskLtv => if !(5 <= v[0] <= 100) {
                Some(LendingError::InvalidConfig)
            } else {
                None
            },
            UpdateLendingMarketMode::UpdateLiquidationMaxValue
            | UpdateLendingMarketMode::UpdateMinFullLiquidationThreshold
            | UpdateLendingMarketMode::UpdateIndividualAutodeleverageMarginCallPeriodSecs => if le_value(
                v,
                0,
                8,
            ) == 0 {
                Some(LendingError::InvalidConfig)
            } else {
                None
            },
            UpdateLendingMarketMode::UpdateInitialDepositAmount => if le_value(v, 0, 8)
                < MIN_INITIAL_DEPOSIT_AMOUNT {
                Some(LendingError::InvalidConfig)
            } else {
                None
            },
            UpdateLendingMarketMode::UpdateReferralFeeBps => if le_value(v, 0, 2) > 10000 {
                Some(LendingError::InvalidConfig)
            } else {
                None
            },
            UpdateLendingMarketMode::UpdatePriceRefreshTriggerToMaxAgePct => if v[0] > 100 {
                Some(LendingError::InvalidConfig)
            } else {
                None
            },
            UpdateLendingMarketMode::UpdateElevationGroup => if group_invalid(
                v[2] as int,
                v[3] as int,
                v[4] as int,
                le_value(v, 0, 2) as int,
                v[6] as int,
                is_default_key(v.subrange(8, 40)),
            ) || v[2] == ELEVATION_GROUP_NONE {
                Some(LendingError::InvalidElevationGroupConfig)
            } else {
                None
            },
            _ => None,
        }
    }
}

/// Whether `new` is `old` with the setting of `mode` replaced by the value
/// that `v` encodes, and nothing else changed.
pub open spec fn market_updated(
    old: LendingMarket,
    new: LendingMarket,
    mode: UpdateLendingMarketMode,
    v: Seq<u8>,
) -> bool {
    match mode {
        UpdateLendingMarketMode::UpdateOwner => new.lending_market_owner_cached.bytes@ == v.subrange(
            0,
            32,
        ) && new == (LendingMarket {
            lending_market_owner_cached: new.lending_market_owner_cached,
            ..old
        }),
        UpdateLendingMarketMode::UpdateEmergencyMode => new == (LendingMarket {
            emergency_mode: v[0],
            ..old
        }),
        UpdateLendingMarketMode::UpdateLiquidationCloseFactor => new == (LendingMarket {
            liquidation_max_debt_close_factor_pct: v[0],
            ..old
        }),
        UpdateLendingMarketMode::UpdateLiquidationMaxValue => new == (LendingMarket {
            max_liquidatable_debt_market_value_at_once: le_value(v, 0, 8) as u64,
            ..old
        }),
        UpdateLendingMarketMode::UpdateGlobalAllowedBorrow => new == (LendingMarket {
            global_allowed_borrow_value: le_value(v, 0, 8) as u64,
            ..old
        }),
        UpdateLendingMarketMode::UpdateMinFullLiquidationThreshold => new == (LendingMarket {
            min_full_liquidation_value_threshold: le_value(v, 0, 8) as u64,
            ..old
        }),
        UpdateLendingMarketMode::UpdateRiskCouncil => new.risk_council.bytes@ == v.subrange(0, 32)
            && new == (LendingMarket { risk_council: new.risk_council, ..old }),
        UpdateLendingMarketMode::UpdateInsolvencyRiskLtv => new == (LendingMarket {
            insolvency_risk_unhealthy_ltv_pct: v[0],
            ..old
        }),
        UpdateLendingMarketMode::UpdateElevationGroup => {
            let i = v[2] - 1;
            &&& group_encoded_at(v, 0, new.elevation_groups@[i])
            &&& new.elevation_groups@ == old.elevation_groups@.update(i, new.elevation_groups@[i])
            &&& new == (LendingMarket { elevation_groups: new.elevation_groups, ..old })
        },
        UpdateLendingMarketMode::UpdateReferralFeeBps => new == (LendingMarket {
            referral_fee_bps: le_value(v, 0, 2) as u16,
            ..old
        }),
        UpdateLendingMarketMode::UpdatePriceRefreshTriggerToMaxAgePct => new == (LendingMarket {
            price_refresh_trigger_to_max_age_pct: v[0],
            ..old
        }),
        UpdateLendingMarketMode::UpdateAutodeleverageEnabled => new == (LendingMarket {
            autodeleverage_enabled: v[0],
            ..old
        }),
        UpdateLendingMarketMode::UpdateBorrowingDisabled => new == (LendingMarket {
            borrow_disabled: v[0],
            ..old
        }),
        UpdateLendingMarketMode::UpdateMinNetValueObligationPostAction => new == (LendingMarket {
            min_net_value_in_obligation_sf: le_value(v, 0, 16) as u128,
            ..old
        }),
        UpdateLendingMarketMode::UpdateMinValueLtvSkipPriorityLiqCheck => new == (LendingMarket {
            min_value_skip_liquidation_ltv_checks: le_value(v, 0, 8) as u64,
            ..old
        }),
        UpdateLendingMarketMode::UpdateMinValueBfSkipPriorityLiqCheck => new == (LendingMarket {
            min_value_skip_liquidation_bf_checks: le_value(v, 0, 8) as u64,
            ..old
        }),
        UpdateLendingMarketMode::UpdatePaddingFields => {
            &&& new.reserved0@ == Seq::new(8, |j: int| 0u8)
            &&& new.reserved1@ == Seq::new(8, |j: int| 0u8)
            &&& new == (LendingMarket {
                reserved0: new.reserved0,
                reserved1: new.reserved1,
                ..old
            })
        },
        UpdateLendingMarketMode::UpdateName => new.name@ == v.subrange(0, 32) && new == (
        LendingMarket { name: new.name, ..old }),
        UpdateLendingMarketMode::UpdateIndividualAutodeleverageMarginCallPeriodSecs => new == (
        LendingMarket { individual_autodeleverage_margin_call_period_secs: le_value(v, 0, 8) as u64, ..old }),
        UpdateLendingMarketMode::UpdateInitialDepositAmount => new == (LendingMarket {
            min_initial_deposit_amount: le_value(v, 0, 8) as u64,
            ..old
        }),
        UpdateLendingMarketMode::UpdateObligationOrderExecutionEnabled => new == (LendingMarket {
            obligation_order_execution_enabled: v[0],
            ..old
        }),
        UpdateLendingMarketMode::UpdateImmutableFlag => new == (LendingMarket {
            immutable: v[0],
            ..old
        }),
        UpdateLendingMarketMode::UpdateObligationOrderCreationEnabled => new == (LendingMarket {
            obligation_order_creation_enabled: v[0],
            ..old
        }),
        _ => false,
    }
}

/// Applies an update of the market's configuration: `value` holds the new
/// value, encoded as [`UpdateLendingMarketConfigValue::to_bytes`] lays it out.
/// A refused update leaves the market as it was.
pub fn update_lending_market(
    market: &mut LendingMarket,
    mode: UpdateLendingMarketMode,
    value: &[u8; 72],
) -> (r: Result<(), LendingError>)
    requires
        old(market).immutable == 0 ==> update_supported(mode),
    ensures
        match market_update_error(*old(market), mode, value@) {
            Some(e) => r == Err::<(), LendingError>(e) && *final(market) == *old(market),
            None => r is Ok && market_updated(*old(market), *final(market), mode, value@),
        },
{
    if market.is_immutable() {
        return Err(LendingError::OperationNotPermittedMarketImmutable);
    }
    let bytes: &[u8] = value.as_slice();
    match mode {
        UpdateLendingMarketMode::UpdateOwner => {
            market.lending_market_owner_cached = read_pubkey(bytes, 0);
        },
        UpdateLendingMarketMode::UpdateEmergencyMode => {
            if let Err(e) = check_bool(value[0] as u128) {
                return Err(e);
            }
            market.emergency_mode = value[0];
        },
        UpdateLendingMarketMode::UpdateLiquidationCloseFactor => {
            if let Err(e) = check_in_range(5, 100, value[0] as u128) {
                return Err(e);
            }
            market.liquidation_max_debt_close_factor_pct = value[0];
        },
        UpdateLendingMarketMode::UpdateLiquidationMaxValue => {
            let v = read_u64(bytes, 0);
            if let Err(e) = check_not_zero(v as u128) {
                return Err(e);
            }
            market.max_liquidatable_debt_market_value_at_once = v;
        },
        UpdateLendingMarketMode::UpdateGlobalAllowedBorrow => {
            market.global_allowed_borrow_value = read_u64(bytes, 0);
        },
        UpdateLendingMarketMode::UpdateMinFullLiquidationThreshold => {
            let v = read_u64(bytes, 0);
            if let Err(e) = check_not_zero(v as u128) {
                return Err(e);
            }
            market.min_full_liquidation_value_threshold = v;
        },
        UpdateLendingMarketMode::UpdateRiskCouncil => {
            market.risk_council = read_pubkey(bytes, 0);
        },
        UpdateLendingMarketMode::UpdateInsolvencyRiskLtv => {
            if let Err(e) = check_in_range(5, 100, value[0] as u128) {
                return Err(e);
            }
            market.insolvency_risk_unhealthy_ltv_pct = value[0];
        },
        UpdateLendingMarketMode::UpdateElevationGroup => {
            let group = read_elevation_group(bytes, 0);
            if let Err(e) = validate_new_elevation_group(&group) {
                return Err(e);
            }
            if let Err(e) = market.set_elevation_group(group) {
                return Err(e);
            }
        },
        UpdateLendingMarketMode::UpdateReferralFeeBps => {
            let v = read_u16(bytes, 0);
            if let Err(e) = check_valid_bps(v as u128) {
                return Err(e);
            }
            market.referral_fee_bps = v;
        },
        UpdateLendingMarketMode::UpdatePriceRefreshTriggerToMaxAgePct => {
            if let Err(e) = check_valid_pct(value[0] as u128) {
                return Err(e);
            }
            market.price_refresh_trigger_to_max_age_pct = value[0];
        },
        UpdateLendingMarketMode::UpdateAutodeleverageEnabled => {
            if let Err(e) = check_bool(value[0] as u128) {
                return Err(e);
            }
            market.autodeleverage_enabled = value[0];
        },
        UpdateLendingMarketMode::UpdateBorrowingDisabled => {
            if let Err(e) = check_bool(value[0] as u128) {
                return Err(e);
            }
            market.borrow_disabled = value[0];
        },
        UpdateLendingMarketMode::UpdateMinNetValueObligationPostAction => {
            proof {
                crate::config_items::lemma_le_value_bound(bytes@, 0, 16);
                crate::config_items::lemma_pow256_16();
            }
            market.min_net_value_in_obligation_sf = read_le(bytes, 0, 16);
        },
        UpdateLendingMarketMode::UpdateMinValueLtvSkipPriorityLiqCheck => {
            market.min_value_skip_liquidation_ltv_checks = read_u64(bytes, 0);
        },
        UpdateLendingMarketMode::UpdateMinValueBfSkipPriorityLiqCheck => {
            market.min_value_skip_liquidation_bf_checks = read_u64(bytes, 0);
        },
        UpdateLendingMarketMode::UpdatePaddingFields => {
            market.reserved0 = [0u8;8];
            market.reserved1 = [0u8;8];
            assert(market.reserved0@ =~= Seq::new(8, |j: int| 0u8));
            assert(market.reserved1@ =~= Seq::new(8, |j: int| 0u8));
        },
        UpdateLendingMarketMode::UpdateName => {
            market.name = read_pubkey(bytes, 0).bytes;
        },
        UpdateLendingMarketMode::UpdateIndividualAutodeleverageMarginCallPeriodSecs => {
            let v = read_u64(bytes, 0);
            if let Err(e) = check_not_zero(v as u128) {
                return Err(e);
            }
            market.individual_autodeleverage_margin_call_period_secs = v;
        },
        UpdateLendingMarketMode::UpdateInitialDepositAmount => {
            let v = read_u64(bytes, 0);
            if let Err(e) = check_gte(MIN_INITIAL_DEPOSIT_AMOUNT as u128, v as u128) {
                return Err(e);
            }
            market.min_initial_deposit_amount = v;
        },
        UpdateLendingMarketMode::UpdateObligationOrderExecutionEnabled => {
            if let Err(e) = check_bool(value[0] as u128) {
                return Err(e);
            }
            market.obligation_order_execution_enabled = value[0];
        },
        UpdateLendingMarketMode::UpdateImmutableFlag => {
            if let Err(e) = check_bool(value[0] as u128) {
                return Err(e);
            }
            market.immutable = value[0];
        },
        UpdateLendingMarketMode::UpdateObligationOrderCreationEnabled => {
            if let Err(e) = check_bool(value[0] as u128) {
                return Err(e);
            }
            market.obligation_order_creation_enabled = value[0];
        },
        _ => {
            return vstd::pervasive::unreached();
        },
    }
    Ok(())
}

} // verus!
