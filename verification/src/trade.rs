//! Delegated trade execution: the checks that guard the vault's funds, the
//! slippage floor, and the audit record of each successful trade.
//!
//! A trade is a single-shot operation: gate, authorize, validate and check
//! the balance first, then let the host invoke the external swap router
//! under the vault's derived authority, then hold the realized output to the
//! slippage floor and emit the audit record. The router call is the one
//! point where funds leave exclusive vault control, so every check completes
//! before it, and a failure anywhere reverts the whole operation.

use vstd::prelude::*;

use crate::state::{is_zero_id, AccountId, TradeExecuted, VaultAccount, VaultError};

verus! {

/// When a trade request passes every check that precedes the router call:
/// the vault is active, the caller holds the delegation slot, the amounts
/// are positive, the routing payload and router reference are present, and
/// the ledger-reported input holding balance covers `amount_in`.
pub open spec fn trade_checks_pass(
    v: VaultAccount,
    caller: AccountId,
    amount_in: u64,
    minimum_amount_out: u64,
    route_data: Seq<u8>,
    router: AccountId,
    vault_balance: u64,
) -> bool {
    &&& v.is_active
    &&& v.bot_authority == Some(caller)
    &&& amount_in > 0
    &&& minimum_amount_out > 0
    &&& route_data.len() > 0
    &&& !is_zero_id(router)
    &&& vault_balance >= amount_in
}

/// The error a rejected trade request reports: the first failing check, in
/// the order the checks run (gate, authorize, validate, balance).
pub open spec fn trade_reject_reason(
    v: VaultAccount,
    caller: AccountId,
    amount_in: u64,
    minimum_amount_out: u64,
    route_data: Seq<u8>,
    router: AccountId,
    vault_balance: u64,
) -> VaultError
    recommends
        !trade_checks_pass(v, caller, amount_in, minimum_amount_out, route_data, router, vault_balance),
{
    if !v.is_active {
        VaultError::VaultInactive
    } else if v.bot_authority != Some(caller) {
        VaultError::UnauthorizedBot
    } else if amount_in == 0 || minimum_amount_out == 0 {
        VaultError::InvalidAmount
    } else if route_data.len() == 0 || is_zero_id(router) {
        VaultError::InvalidRouteData
    } else {
        VaultError::InsufficientFunds
    }
}

/// The audit record a successful trade emits.
pub open spec fn trade_record(
    vault_key: AccountId,
    caller: AccountId,
    input_mint: AccountId,
    output_mint: AccountId,
    amount_in: u64,
    realized_amount_out: u64,
    minimum_amount_out: u64,
    now: i64,
) -> TradeExecuted {
    TradeExecuted {
        vault: vault_key,
        bot_authority: caller,
        input_mint,
        output_mint,
        amount_in,
        amount_out: realized_amount_out,
        minimum_amount_out,
        timestamp: now,
    }
}

/// Runs every check that must pass before the router may be invoked:
/// gate, authorize, validate, balance. Mutates nothing; on `Ok` the host may
/// hand the routing payload to the router under the vault's derived
/// authority.
pub fn authorize_trade(
    vault: &VaultAccount,
    caller: &AccountId,
    amount_in: u64,
    minimum_amount_out: u64,
    route_data: &Vec<u8>,
    router: &AccountId,
    vault_balance: u64,
) -> (r: Result<(), VaultError>)
    ensures
        r is Ok <==> trade_checks_pass(
            *vault,
            *caller,
            amount_in,
            minimum_amount_out,
            route_data@,
            *router,
            vault_balance,
        ),
        r matches Err(e) ==> e == trade_reject_reason(
            *vault,
            *caller,
            amount_in,
            minimum_amount_out,
            route_data@,
            *router,
            vault_balance,
        ),
{
    if !vault.is_active {
        return Err(VaultError::VaultInactive);
    }
    let authorized = match &vault.bot_authority {
        Some(delegate) => crate::state::account_id_eq(delegate, caller),
        None => false,
    };
    if !authorized {
        return Err(VaultError::UnauthorizedBot);
    }
    if amount_in == 0 || minimum_amount_out == 0 {
        return Err(VaultError::InvalidAmount);
    }
    if route_data.len() == 0 || crate::state::account_id_is_zero(router) {
        return Err(VaultError::InvalidRouteData);
    }
    if vault_balance < amount_in {
        return Err(VaultError::InsufficientFunds);
    }
    Ok(())
}

/// Settles an executed swap: holds the realized output to the slippage
/// floor, and on success emits the audit record. `realized_amount_out` is
/// the output amount the router actually delivered, as observed by the host
/// (the growth of the vault's output holding). A shortfall fails the whole
/// operation with `SlippageExceeded` and the host reverts the swap.
pub fn settle_trade(
    vault_key: &AccountId,
    caller: &AccountId,
    input_mint: &AccountId,
    output_mint: &AccountId,
    amount_in: u64,
    minimum_amount_out: u64,
    realized_amount_out: u64,
    now: i64,
) -> (r: Result<TradeExecuted, VaultError>)
    ensures
        r is Ok <==> realized_amount_out >= minimum_amount_out,
        r matches Ok(rec) ==> rec == trade_record(
            *vault_key,
            *caller,
            *input_mint,
            *output_mint,
            amount_in,
            realized_amount_out,
            minimum_amount_out,
            now,
        ),
        r matches Err(e) ==> e == VaultError::SlippageExceeded,
{
    if realized_amount_out < minimum_amount_out {
        return Err(VaultError::SlippageExceeded);
    }
    Ok(TradeExecuted {
        vault: *vault_key,
        bot_authority: *caller,
        input_mint: *input_mint,
        output_mint: *output_mint,
        amount_in,
        amount_out: realized_amount_out,
        minimum_amount_out,
        timestamp: now,
    })
}

/// The whole trade operation, end to end, given the outcome the router
/// reported: every pre-router check in order, then the slippage floor, then
/// the audit record. `realized_amount_out` is the output the router
/// delivered for this routing payload; the host obtains it between
/// `authorize_trade` and `settle_trade`, and the whole operation reverts if
/// the router itself fails. The vault record is never mutated by a trade.
pub fn bot_trade(
    vault: &VaultAccount,
    vault_key: &AccountId,
    caller: &AccountId,
    input_mint: &AccountId,
    output_mint: &AccountId,
    amount_in: u64,
    minimum_amount_out: u64,
    route_data: &Vec<u8>,
    router: &AccountId,
    vault_balance: u64,
    realized_amount_out: u64,
    now: i64,
) -> (r: Result<TradeExecuted, VaultError>)
    ensures
        r is Ok <==> trade_checks_pass(
            *vault,
            *caller,
            amount_in,
            minimum_amount_out,
            route_data@,
            *router,
            vault_balance,
        ) && realized_amount_out >= minimum_amount_out,
        r matches Ok(rec) ==> rec == trade_record(
            *vault_key,
            *caller,
            *input_mint,
            *output_mint,
            amount_in,
            realized_amount_out,
            minimum_amount_out,
            now,
        ),
        !trade_checks_pass(
            *vault,
            *caller,
            amount_in,
            minimum_amount_out,
            route_data@,
            *router,
            vault_balance,
        ) ==> r == Err::<TradeExecuted, VaultError>(trade_reject_reason(
            *vault,
            *caller,
            amount_in,
            minimum_amount_out,
            route_data@,
            *router,
            vault_balance,
        )),
        r matches Err(e) ==> e == (if trade_checks_pass(
            *vault,
            *caller,
            amount_in,
            minimum_amount_out,
            route_data@,
            *router,
            vault_balance,
        ) {
            VaultError::SlippageExceeded
        } else {
            trade_reject_reason(
                *vault,
                *caller,
                amount_in,
                minimum_amount_out,
                route_data@,
                *router,
                vault_balance,
            )
        }),
{
    match authorize_trade(vault, caller, amount_in, minimum_amount_out, route_data, router, vault_balance) {
        Ok(()) => {},
        Err(e) => {
            return Err(e);
        },
    }
    settle_trade(
        vault_key,
        caller,
        input_mint,
        output_mint,
        amount_in,
        minimum_amount_out,
        realized_amount_out,
        now,
    )
}

/// A trade by any caller the delegation slot does not name is rejected as
/// `UnauthorizedBot` — also when the slot is empty — whatever the amounts,
/// payload or balance, provided the vault is active (otherwise the active
/// check runs first and rejects with `VaultInactive`).
pub proof fn unauthorized_bot_rejected(
    v: VaultAccount,
    caller: AccountId,
    amount_in: u64,
    minimum_amount_out: u64,
    route_data: Seq<u8>,
    router: AccountId,
    vault_balance: u64,
)
    requires
        v.is_active,
        v.bot_authority != Some(caller),
    ensures
        !trade_checks_pass(v, caller, amount_in, minimum_amount_out, route_data, router, vault_balance),
        trade_reject_reason(v, caller, amount_in, minimum_amount_out, route_data, router, vault_balance)
            == VaultError::UnauthorizedBot,
{
}

/// A trade against an inactive vault is rejected as `VaultInactive`,
/// whatever the delegation state and the other arguments.
pub proof fn inactive_vault_rejects_trade(
    v: VaultAccount,
    caller: AccountId,
    amount_in: u64,
    minimum_amount_out: u64,
    route_data: Seq<u8>,
    router: AccountId,
    vault_balance: u64,
)
    requires
        !v.is_active,
    ensures
        !trade_checks_pass(v, caller, amount_in, minimum_amount_out, route_data, router, vault_balance),
        trade_reject_reason(v, caller, amount_in, minimum_amount_out, route_data, router, vault_balance)
            == VaultError::VaultInactive,
{
}

/// Deactivation leaves the vault with no delegate and trading disabled, and
/// every subsequent trade request — in particular one by the previously
/// delegated bot — is rejected as `VaultInactive`.
pub proof fn deactivation_blocks_trades(
    v: VaultAccount,
    caller: AccountId,
    amount_in: u64,
    minimum_amount_out: u64,
    route_data: Seq<u8>,
    router: AccountId,
    vault_balance: u64,
)
    ensures
        crate::ops::deactivated(v).bot_authority is None,
        !crate::ops::deactivated(v).is_active,
        !trade_checks_pass(
            crate::ops::deactivated(v),
            caller,
            amount_in,
            minimum_amount_out,
            route_data,
            router,
            vault_balance,
        ),
        trade_reject_reason(
            crate::ops::deactivated(v),
            caller,
            amount_in,
            minimum_amount_out,
            route_data,
            router,
            vault_balance,
        ) == VaultError::VaultInactive,
{
}

} // verus!
