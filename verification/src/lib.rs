//! A custodial vault authority and delegated-trading engine.
//!
//! A vault is a per-owner record that tracks a claim on a fungible-token
//! balance. The owner may deposit and withdraw freely, and may delegate a
//! narrowly-scoped, revocable permission to a trading bot to swap tokens on
//! the owner's behalf through an external liquidity router. This crate holds
//! the authorization and safety state machine: who may move funds, under what
//! preconditions, with what arithmetic and economic bounds, and with what
//! audit trail. The token ledger that actually holds balances and the swap
//! router that executes trades are external collaborators; the host invokes
//! them and hands their reported values to the functions here.

pub mod authority;
pub mod ops;
pub mod registry;
pub mod state;
pub mod trade;
