//! The program-wide configuration: its admin, the admin waiting to take over,
//! and the collector of protocol fees.

use crate::config_items::read_pubkey;
use crate::pubkey::{is_default_key, Pubkey};
use vstd::prelude::*;

verus! {

/// The program-wide configuration.
#[derive(Clone, Copy, Debug)]
pub struct GlobalConfig {
    pub global_admin: Pubkey,
    pub pending_admin: Pubkey,
    pub fee_collector: Pubkey,
    pub padding: [u8; 928],
}

/// Which setting of the program-wide configuration an update changes.
#[derive(Clone, Copy, Debug, PartialEq, Eq, Structural)]
pub enum UpdateGlobalConfigMode {
    PendingAdmin,
    FeeCollector,
}

/// A value too short for the setting that it should hold.
#[derive(Clone, Copy, Debug, PartialEq, Eq, Structural)]
pub enum ConfigValueError {
    UnexpectedLength,
}

impl UpdateGlobalConfigMode {
    /// The mode that the number stands for, if any.
    pub fn try_from_u8(code: u8) -> (r: Option<Self>)
        ensures
            code == 0 ==> r == Some(UpdateGlobalConfigMode::PendingAdmin),
            code == 1 ==> r == Some(UpdateGlobalConfigMode::FeeCollector),
            code > 1 ==> r is None,
    {
        match code {
            0 => Some(UpdateGlobalConfigMode::PendingAdmin),
            1 => Some(UpdateGlobalConfigMode::FeeCollector),
            _ => None,
        }
    }
}

/// Whether `new` is `old` with the setting of `mode` replaced by the address
/// in the first 32 bytes of `v`.
pub open spec fn global_config_updated(
    old: GlobalConfig,
    new: GlobalConfig,
    mode: UpdateGlobalConfigMode,
    v: Seq<u8>,
) -> bool {
    match mode {
        UpdateGlobalConfigMode::PendingAdmin => new.pending_admin.bytes@ == v.subrange(0, 32) && new
            == (GlobalConfig { pending_admin: new.pending_admin, ..old }),
        UpdateGlobalConfigMode::FeeCollector => new.fee_collector.bytes@ == v.subrange(0, 32) && new
            == (GlobalConfig { fee_collector: new.fee_collector, ..old }),
    }
}

impl GlobalConfig {
    /// Hands every role to the first admin.
    pub fn init(&mut self, initial_admin: Pubkey)
        ensures
            *final(self) == (GlobalConfig {
                global_admin: initial_admin,
                pending_admin: initial_admin,
                fee_collector: initial_admin,
                ..*old(self)
            }),
    {
        self.global_admin = initial_admin;
        self.pending_admin = initial_admin;
        self.fee_collector = initial_admin;
    }

    /// Replaces the setting of `mode` by the address in the first 32 bytes of
    /// `value`; a shorter value is refused and changes nothing.
    pub fn update_value(&mut self, mode: UpdateGlobalConfigMode, value: &[u8]) -> (r: Result<
        (),
        ConfigValueError,
    >)
        ensures
            value@.len() < 32 ==> r == Err::<(), ConfigValueError>(
                ConfigValueError::UnexpectedLength,
            ) && *final(self) == *old(self),
            value@.len() >= 32 ==> r is Ok && global_config_updated(
                *old(self),
                *final(self),
                mode,
                value@,
            ),
    {
        if value.len() < 32 {
            return Err(ConfigValueError::UnexpectedLength);
        }
        let key = read_pubkey(value, 0);
        match mode {
            UpdateGlobalConfigMode::PendingAdmin => {
                self.pending_admin = key;
            },
            UpdateGlobalConfigMode::FeeCollector => {
                self.fee_collector = key;
            },
        }
        Ok(())
    }

    /// The pending admin becomes the admin.
    pub fn apply_pending_admin(&mut self) -> (r: Result<(), ConfigValueError>)
        ensures
            r is Ok,
            *final(self) == (GlobalConfig { global_admin: old(self).pending_admin, ..*old(self) }),
    {
        self.global_admin = self.pending_admin;
        Ok(())
    }
}

impl Default for GlobalConfig {
    /// The all-zero configuration.
    fn default() -> (r: Self)
        ensures
            is_default_key(r.global_admin.bytes@),
            is_default_key(r.pending_admin.bytes@),
            is_default_key(r.fee_collector.bytes@),
            r.padding@ == Seq::new(928, |i: int| 0u8),
    {
        let r = GlobalConfig {
            global_admin: Pubkey::default_key(),
            pending_admin: Pubkey::default_key(),
            fee_collector: Pubkey::default_key(),
            padding: [0u8;928],
        };
        assert(r.padding@ =~= Seq::new(928, |i: int| 0u8));
        r
    }
}

} // verus!
