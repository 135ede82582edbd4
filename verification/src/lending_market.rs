//! Market-wide configuration: owners, liquidation limits, elevation groups and
//! feature switches.

use crate::consts::ELEVATION_GROUP_NONE;
use crate::error::LendingError;
use crate::pubkey::Pubkey;
use vstd::prelude::*;

verus! {

/// A group of reserves with its own, usually higher, LTV limits.
#[derive(Clone, Copy, Debug)]
pub struct ElevationGroup {
    pub max_liquidation_bonus_bps: u16,
    pub id: u8,
    pub ltv_pct: u8,
    pub liquidation_threshold_pct: u8,
    pub allow_new_loans: u8,
    pub max_reserves_as_collateral: u8,
    pub padding_0: u8,
    pub debt_reserve: Pubkey,
    pub padding_1: [u64; 4],
}

impl ElevationGroup {
    /// Whether the group refuses new loans.
    pub fn new_loans_disabled(&self) -> (r: bool)
        ensures
            r == (self.allow_new_loans == 0),
    {
        self.allow_new_loans == 0
    }

    /// The group's slot in the market's table: its id minus one.
    pub fn get_index(&self) -> (r: usize)
        requires
            self.id >= 1,
        ensures
            r == self.id - 1,
    {
        (self.id - 1) as usize
    }
}

impl Default for ElevationGroup {
    /// An all-zero group, except that it admits any number of collateral
    /// reserves.
    fn default() -> (r: Self)
        ensures
            r.max_liquidation_bonus_bps == 0,
            r.id == 0,
            r.ltv_pct == 0,
            r.liquidation_threshold_pct == 0,
            r.allow_new_loans == 0,
            r.max_reserves_as_collateral == u8::MAX,
            r.padding_0 == 0,
            crate::pubkey::is_default_key(r.debt_reserve.bytes@),
            r.padding_1@ == seq![0u64, 0u64, 0u64, 0u64],
    {
        let r = ElevationGroup {
            max_liquidation_bonus_bps: 0,
            id: 0,
            ltv_pct: 0,
            liquidation_threshold_pct: 0,
            allow_new_loans: 0,
            max_reserves_as_collateral: u8::MAX,
            padding_0: 0,
            debt_reserve: Pubkey::default_key(),
            padding_1: [0u64;4],
        };
        assert(r.padding_1@ =~= seq![0u64, 0u64, 0u64, 0u64]);
        r
    }
}

/// A lending market.
#[derive(Clone, Copy, Debug)]
pub struct LendingMarket {
    pub version: u64,
    pub bump_seed: u64,
    pub lending_market_owner: Pubkey,
    pub lending_market_owner_cached: Pubkey,
    pub quote_currency: [u8; 32],
    pub referral_fee_bps: u16,
    pub emergency_mode: u8,
    pub autodeleverage_enabled: u8,
    pub borrow_disabled: u8,
    pub price_refresh_trigger_to_max_age_pct: u8,
    pub liquidation_max_debt_close_factor_pct: u8,
    pub insolvency_risk_unhealthy_ltv_pct: u8,
    pub min_full_liquidation_value_threshold: u64,
    pub max_liquidatable_debt_market_value_at_once: u64,
    pub reserved0: [u8; 8],
    pub global_allowed_borrow_value: u64,
    pub risk_council: Pubkey,
    pub reserved1: [u8; 8],
    pub elevation_groups: [ElevationGroup; 32],
    pub elevation_group_padding: [u64; 90],
    pub min_net_value_in_obligation_sf: u128,
    pub min_value_skip_liquidation_ltv_checks: u64,
    pub name: [u8; 32],
    pub min_value_skip_liquidation_bf_checks: u64,
    pub individual_autodeleverage_margin_call_period_secs: u64,
    pub min_initial_deposit_amount: u64,
    pub obligation_order_execution_enabled: u8,
    pub immutable: u8,
    pub obligation_order_creation_enabled: u8,
    pub padding2: [u8; 5],
    pub padding1: [u64; 169],
}

/// What a new market starts with.
#[derive(Clone, Copy, Debug)]
pub struct InitLendingMarketParams {
    pub bump_seed: u8,
    pub lending_market_owner: Pubkey,
    pub quote_currency: [u8; 32],
}

impl LendingMarket {
    /// The elevation group with the given id: none for the "no group" id,
    /// an error for an id past the table.
    pub fn get_elevation_group(&self, id: u8) -> (r: Result<Option<&ElevationGroup>, LendingError>)
        ensures
            id == ELEVATION_GROUP_NONE ==> r == Ok::<Option<&ElevationGroup>, LendingError>(None),
            1 <= id <= 32 ==> r == Ok::<Option<&ElevationGroup>, LendingError>(
                Some(&self.elevation_groups@[id - 1]),
            ),
            id > 32 ==> r == Err::<Option<&ElevationGroup>, LendingError>(
                LendingError::InvalidElevationGroup,
            ),
    {
        if id == ELEVATION_GROUP_NONE {
            Ok(None)
        } else if ((id - 1) as usize) < 32 {
            Ok(Some(&self.elevation_groups[(id - 1) as usize]))
        } else {
            Err(LendingError::InvalidElevationGroup)
        }
    }

    /// Stores a group in the slot of its id; the "no group" id is an error.
    pub fn set_elevation_group(&mut self, elevation_group: ElevationGroup) -> (r: Result<
        (),
        LendingError,
    >)
        requires
            elevation_group.id <= 32,
        ensures
            elevation_group.id == ELEVATION_GROUP_NONE ==> r == Err::<(), LendingError>(
                LendingError::InvalidElevationGroupConfig,
            ) && *final(self) == *old(self),
            elevation_group.id != ELEVATION_GROUP_NONE ==> r is Ok && final(self).elevation_groups@
                == old(self).elevation_groups@.update(elevation_group.id - 1, elevation_group)
                && *final(self) == (LendingMarket {
                elevation_groups: final(self).elevation_groups,
                ..*old(self)
            }),
    {
        if elevation_group.id == ELEVATION_GROUP_NONE {
            return Err(LendingError::InvalidElevationGroupConfig);
        }
        let index = elevation_group.get_index();
        self.elevation_groups[index] = elevation_group;
        Ok(())
    }

    /// Whether borrowing is disabled market-wide.
    pub fn is_borrowing_disabled(&self) -> (r: bool)
        ensures
            r == (self.borrow_disabled != 0),
    {
        self.borrow_disabled != 0
    }

    /// Whether auto-deleveraging is enabled.
    pub fn is_autodeleverage_enabled(&self) -> (r: bool)
        ensures
            r == (self.autodeleverage_enabled != 0),
    {
        self.autodeleverage_enabled != 0
    }

    /// Whether obligation orders may be executed.
    pub fn is_obligation_order_execution_enabled(&self) -> (r: bool)
        ensures
            r == (self.obligation_order_execution_enabled != 0),
    {
        self.obligation_order_execution_enabled != 0
    }

    /// Whether new obligation orders may be created.
    pub fn is_obligation_order_creation_enabled(&self) -> (r: bool)
        ensures
            r == (self.obligation_order_creation_enabled != 0),
    {
        self.obligation_order_creation_enabled != 0
    }

    /// Whether the market's configuration is frozen.
    pub fn is_immutable(&self) -> (r: bool)
        ensures
            r == (self.immutable != 0),
    {
        self.immutable != 0
    }
}

} // verus!
