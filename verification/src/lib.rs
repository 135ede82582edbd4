//! Verified core of a lending protocol: fixed-point arithmetic, interest-rate
//! curves, reserve and obligation accounting, liquidation and order maths.

pub mod error;
pub mod fraction;
pub mod consts;
pub mod secs;
pub mod slots;
pub mod borrow_rate_curve;
pub mod pubkey;
pub mod last_update;
pub mod withdrawal_caps;
pub mod accounts;
pub mod types;
pub mod validation;
pub mod wide;
pub mod big_fraction;
pub mod reserve;
pub mod obligation_order_operations;
pub mod obligation;
pub mod lending_market;
pub mod liquidation_operations;
pub mod order_operations;
pub mod refs;
pub mod laws;
pub mod config_items;
pub mod market_updates;
pub mod global_config;
pub mod borrow_order_operations;
pub mod withdraw_ticket;
pub mod referral;
pub mod token_info;
pub mod price_checks;
pub mod permissioning;
pub mod reserve_updates;
pub mod lending_operations;
pub mod lending_utils;
pub mod reserve_operations;
pub mod obligation_operations;
pub mod obligation_refresh;
pub mod liquidation_flow;
pub mod lending_checks;
pub mod elevation_request;
