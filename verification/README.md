# klend

A verified library for the core of a lending market: reserves of tokens,
obligations that deposit collateral and borrow against it, interest accrual,
liquidation, orders on obligations, and the configuration updates of markets
and reserves. Every executable function in `src/` carries a Verus contract
and is proved against it.

## Layout

- `src/fraction.rs`, `src/big_fraction.rs`, `src/wide.rs`: fixed-point
  arithmetic with 60 fractional bits, and the wide integers it needs.
- `src/reserve.rs`, `src/reserve_operations.rs`, `src/reserve_updates.rs`:
  reserves, their liquidity and collateral, interest accrual, deposits and
  redemptions, and configuration updates read from raw bytes.
- `src/obligation.rs`, `src/obligation_operations.rs`,
  `src/obligation_refresh.rs`: obligations, deposits, borrows, repayments,
  withdrawals, and the refresh of their values.
- `src/liquidation_operations.rs`, `src/liquidation_flow.rs`: liquidation
  amounts and the liquidation of an unhealthy obligation.
- `src/lending_utils.rs`, `src/lending_checks.rs`: checks shared by the
  operations, elevation-group debt tracking, and the checks of the accounts
  an instruction is given.
- `src/market_updates.rs`, `src/lending_market.rs`, `src/global_config.rs`:
  the market and its configuration updates.
- `src/obligation_order_operations.rs`, `src/order_operations.rs`,
  `src/borrow_order_operations.rs`: orders on obligations and borrow orders.
- `src/laws.rs`: properties that relate several functions, stated as proof
  functions.

Tests live in `tests/`. `fixed` is the only outside crate; it does the
fixed-point multiplication and division.
