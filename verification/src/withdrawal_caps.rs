//! Rate limits on withdrawals: an accumulator of withdrawn amounts that is
//! reset at the start of every configured interval.

use crate::error::LendingError;
use vstd::prelude::*;

verus! {

/// A withdrawal cap and its running accumulator.
#[derive(Clone, Copy, Debug, PartialEq, Eq, Structural)]
pub struct WithdrawalCaps {
    pub config_capacity: i64,
    pub current_total: i64,
    pub last_interval_start_timestamp: u64,
    pub config_interval_length_seconds: u64,
}

#[derive(Clone, Copy, Debug, PartialEq, Eq, Structural)]
enum WithdrawalCapAction {
    Add,
    Remove,
}

#[derive(Clone, Copy, Debug, PartialEq, Eq, Structural)]
enum WithdrawalCapOverflowAction {
    SaturatingOverflow,
    ErrorOnOverflow,
}

/// Whether an operation keeps or resets the accumulator.
#[derive(Clone, Copy, Debug, PartialEq, Eq, Structural)]
pub enum WithdrawalCapAccumulatorAction {
    KeepAccumulator,
    ResetAccumulator,
}

impl From<WithdrawalCapAccumulatorAction> for bool {
    fn from(a: WithdrawalCapAccumulatorAction) -> (r: bool) {
        match a {
            WithdrawalCapAccumulatorAction::KeepAccumulator => false,
            WithdrawalCapAccumulatorAction::ResetAccumulator => true,
        }
    }
}

impl vstd::std_specs::convert::FromSpecImpl<WithdrawalCapAccumulatorAction> for bool {
    open spec fn obeys_from_spec() -> bool {
        true
    }

    open spec fn from_spec(a: WithdrawalCapAccumulatorAction) -> bool {
        a == WithdrawalCapAccumulatorAction::ResetAccumulator
    }
}

impl From<bool> for WithdrawalCapAccumulatorAction {
    fn from(b: bool) -> (r: WithdrawalCapAccumulatorAction) {
        if b {
            WithdrawalCapAccumulatorAction::ResetAccumulator
        } else {
            WithdrawalCapAccumulatorAction::KeepAccumulator
        }
    }
}

impl vstd::std_specs::convert::FromSpecImpl<bool> for WithdrawalCapAccumulatorAction {
    open spec fn obeys_from_spec() -> bool {
        true
    }

    open spec fn from_spec(b: bool) -> WithdrawalCapAccumulatorAction {
        if b {
            WithdrawalCapAccumulatorAction::ResetAccumulator
        } else {
            WithdrawalCapAccumulatorAction::KeepAccumulator
        }
    }
}

/// The accumulator after adding (or removing) an amount, either clamped to
/// the `i64` range or failing when it leaves it.
pub open spec fn spec_update_counter(total: i64, requested: u64, add: bool, saturating: bool) -> Result<
    i64,
    LendingError,
> {
    if requested > i64::MAX {
        if saturating {
            Err(LendingError::MathOverflow)
        } else {
            Err(LendingError::IntegerOverflow)
        }
    } else {
        let v = if add {
            total + requested
        } else {
            total - requested
        };
        if i64::MIN <= v <= i64::MAX {
            Ok(v as i64)
        } else if saturating {
            Ok(
                if v > i64::MAX {
                    i64::MAX
                } else {
                    i64::MIN
                },
            )
        } else {
            Err(LendingError::MathOverflow)
        }
    }
}

/// How much may still be withdrawn at `timestamp`.
pub open spec fn spec_remaining(caps: WithdrawalCaps, timestamp: u64) -> int {
    if caps.config_interval_length_seconds == 0 {
        u64::MAX as int
    } else if caps.config_capacity < 0 {
        0
    } else {
        let elapsed = if timestamp >= caps.last_interval_start_timestamp {
            timestamp - caps.last_interval_start_timestamp
        } else {
            0
        };
        let current = if elapsed >= caps.config_interval_length_seconds {
            0
        } else {
            caps.current_total as int
        };
        if current <= caps.config_capacity {
            caps.config_capacity - current
        } else {
            0
        }
    }
}

/// The caps at the start of the check: a new interval starts when the
/// previous one has fully elapsed.
pub open spec fn spec_rolled_caps(caps: WithdrawalCaps, timestamp: u64) -> WithdrawalCaps {
    if caps.config_interval_length_seconds <= timestamp - caps.last_interval_start_timestamp {
        WithdrawalCaps { current_total: 0, last_interval_start_timestamp: timestamp, ..caps }
    } else {
        caps
    }
}

fn update_counter(
    caps: &mut WithdrawalCaps,
    requested_amount: u64,
    action: WithdrawalCapAction,
    overflow_action: WithdrawalCapOverflowAction,
) -> (r: Result<(), LendingError>)
    ensures
        match spec_update_counter(
            old(caps).current_total,
            requested_amount,
            action == WithdrawalCapAction::Add,
            overflow_action == WithdrawalCapOverflowAction::SaturatingOverflow,
        ) {
            Ok(t) => r == Ok::<(), LendingError>(()) && *final(caps) == WithdrawalCaps { current_total: t, ..*old(caps) },
            Err(e) => r == Err::<(), LendingError>(e) && *final(caps) == *old(caps),
        },
{
    let saturating = overflow_action == WithdrawalCapOverflowAction::SaturatingOverflow;
    if requested_amount > i64::MAX as u64 {
        if saturating {
            return Err(LendingError::MathOverflow);
        } else {
            return Err(LendingError::IntegerOverflow);
        }
    }
    let requested = requested_amount as i64;
    match action {
        WithdrawalCapAction::Add => {
            if saturating {
                caps.current_total = match caps.current_total.checked_add(requested) {
                    Some(t) => t,
                    None => i64::MAX,
                };
                Ok(())
            } else {
                match caps.current_total.checked_add(requested) {
                    Some(t) => {
                        caps.current_total = t;
                        Ok(())
                    },
                    None => Err(LendingError::MathOverflow),
                }
            }
        },
        WithdrawalCapAction::Remove => {
            if saturating {
                caps.current_total = match caps.current_total.checked_sub(requested) {
                    Some(t) => t,
                    None => i64::MIN,
                };
                Ok(())
            } else {
                match caps.current_total.checked_sub(requested) {
                    Some(t) => {
                        caps.current_total = t;
                        Ok(())
                    },
                    None => Err(LendingError::MathOverflow),
                }
            }
        },
    }
}

fn check_last_interval_elapsed(caps: &mut WithdrawalCaps, curr_timestamp: u64) -> (r: Result<
    bool,
    LendingError,
>)
    ensures
        *final(caps) == *old(caps),
        old(caps).last_interval_start_timestamp > curr_timestamp ==> r == Err::<bool, LendingError>(
            LendingError::LastTimestampGreaterThanCurrent,
        ),
        old(caps).last_interval_start_timestamp <= curr_timestamp ==> r == Ok::<bool, LendingError>(
            old(caps).config_interval_length_seconds <= curr_timestamp
                - old(caps).last_interval_start_timestamp,
        ),
{
    if caps.last_interval_start_timestamp > curr_timestamp {
        return Err(LendingError::LastTimestampGreaterThanCurrent);
    }
    Ok(caps.config_interval_length_seconds <= curr_timestamp.saturating_sub(
        caps.last_interval_start_timestamp,
    ))
}

fn reset_current_interval_and_counter(caps: &mut WithdrawalCaps, curr_timestamp: u64)
    ensures
        *final(caps) == (WithdrawalCaps {
            current_total: 0,
            last_interval_start_timestamp: curr_timestamp,
            ..*old(caps)
        }),
{
    caps.current_total = 0;
    caps.last_interval_start_timestamp = curr_timestamp;
}

/// What `add_to_withdrawal_accum` / `sub_from_withdrawal_accum` do to the caps.
pub open spec fn spec_check_and_update(
    caps: WithdrawalCaps,
    requested_amount: u64,
    timestamp: u64,
    add: bool,
) -> (WithdrawalCaps, Result<(), LendingError>) {
    if caps.config_interval_length_seconds != 0 {
        if caps.last_interval_start_timestamp > timestamp {
            (caps, Err(LendingError::LastTimestampGreaterThanCurrent))
        } else {
            let rolled = spec_rolled_caps(caps, timestamp);
            if add && requested_amount > spec_remaining(rolled, timestamp) {
                (rolled, Err(LendingError::WithdrawalCapReached))
            } else {
                match spec_update_counter(rolled.current_total, requested_amount, add, false) {
                    Ok(t) => (WithdrawalCaps { current_total: t, ..rolled }, Ok(())),
                    Err(e) => (rolled, Err(e)),
                }
            }
        }
    } else {
        match spec_update_counter(caps.current_total, requested_amount, add, true) {
            Ok(t) => (WithdrawalCaps { current_total: t, ..caps }, Ok(())),
            Err(e) => (caps, Err(e)),
        }
    }
}

/// Records a withdrawal of `requested_amount`; an error when it exceeds what
/// the cap still allows in the current interval.
pub fn add_to_withdrawal_accum(
    caps: &mut WithdrawalCaps,
    requested_amount: u64,
    curr_timestamp: u64,
) -> (r: Result<(), LendingError>)
    ensures
        (*final(caps), r) == spec_check_and_update(
            *old(caps),
            requested_amount,
            curr_timestamp,
            true,
        ),
{
    check_and_update_withdrawal_caps(caps, requested_amount, curr_timestamp, WithdrawalCapAction::Add)
}

/// Records a deposit of `requested_amount`, which frees withdrawal capacity.
pub fn sub_from_withdrawal_accum(
    caps: &mut WithdrawalCaps,
    requested_amount: u64,
    curr_timestamp: u64,
) -> (r: Result<(), LendingError>)
    ensures
        (*final(caps), r) == spec_check_and_update(
            *old(caps),
            requested_amount,
            curr_timestamp,
            false,
        ),
{
    check_and_update_withdrawal_caps(
        caps,
        requested_amount,
        curr_timestamp,
        WithdrawalCapAction::Remove,
    )
}

/// How much may still be withdrawn at `timestamp`: unlimited when no interval
/// is configured, nothing when the capacity is negative, otherwise the
/// capacity minus what was withdrawn in the current interval.
pub fn remaining_withdrawal_caps_amount(caps: &WithdrawalCaps, timestamp: u64) -> (r: u64)
    ensures
        r == spec_remaining(*caps, timestamp),
{
    if caps.config_interval_length_seconds == 0 {
        return u64::MAX;
    }
    if caps.config_capacity < 0 {
        return 0;
    }
    let time_spent_within_current_interval_seconds = timestamp.saturating_sub(
        caps.last_interval_start_timestamp,
    );
    let interval_elapsed = time_spent_within_current_interval_seconds
        >= caps.config_interval_length_seconds;
    let current_total = if interval_elapsed {
        0
    } else {
        caps.current_total
    };
    if current_total <= caps.config_capacity {
        let remaining_amount = caps.config_capacity as i128 - current_total as i128;
        remaining_amount as u64
    } else {
        0
    }
}

fn check_and_update_withdrawal_caps(
    caps: &mut WithdrawalCaps,
    requested_amount: u64,
    curr_timestamp: u64,
    action: WithdrawalCapAction,
) -> (r: Result<(), LendingError>)
    ensures
        (*final(caps), r) == spec_check_and_update(
            *old(caps),
            requested_amount,
            curr_timestamp,
            action == WithdrawalCapAction::Add,
        ),
{
    if caps.config_interval_length_seconds != 0 {
        if check_last_interval_elapsed(caps, curr_timestamp)? {
            reset_current_interval_and_counter(caps, curr_timestamp);
        }
        if action == WithdrawalCapAction::Add && requested_amount
            > remaining_withdrawal_caps_amount(caps, curr_timestamp) {
            return Err(LendingError::WithdrawalCapReached);
        }
        update_counter(
            caps,
            requested_amount,
            action,
            WithdrawalCapOverflowAction::ErrorOnOverflow,
        )
    } else {
        update_counter(
            caps,
            requested_amount,
            action,
            WithdrawalCapOverflowAction::SaturatingOverflow,
        )
    }
}

} // verus!
