//! Owner-facing operations on one vault record: creation, custody
//! (deposit / withdraw), delegation management, and the emergency stop.
//!
//! Every operation is an atomically-applied transaction issued by an
//! authenticated caller. The host authenticates the caller and, for the
//! owner-only operations here, admits only the vault's owner before the
//! operation runs; the token ledger that actually moves balances is invoked
//! by the host, which reverts the whole operation if the ledger refuses.

use vstd::prelude::*;

use crate::state::{AccountId, VaultAccount, VaultError};

verus! {

/// Deposit ceiling used for a guarded launch: 1,000 whole tokens at
/// 6-decimal precision, in base units.
pub const CANARY_DEPOSIT_CAP: u64 = 1_000_000_000;

/// `v` with its bookkeeping counter replaced by `t` and all other fields kept.
pub open spec fn with_total(v: VaultAccount, t: u64) -> VaultAccount {
    VaultAccount { total_deposited: t, ..v }
}

/// `v` with trading disabled and the delegation slot cleared.
pub open spec fn deactivated(v: VaultAccount) -> VaultAccount {
    VaultAccount { is_active: false, bot_authority: None, ..v }
}

/// When a deposit of `amount` under the (optional) cap `cap` is accepted.
pub open spec fn deposit_accepted(v: VaultAccount, amount: u64, cap: Option<u64>) -> bool {
    &&& v.is_active
    &&& amount > 0
    &&& v.total_deposited + amount <= u64::MAX
    &&& (cap matches Some(c) ==> v.total_deposited + amount <= c)
}

/// The error a rejected deposit reports: the first failing check, in the
/// order the checks run.
pub open spec fn deposit_reject_reason(v: VaultAccount, amount: u64, cap: Option<u64>) -> VaultError
    recommends
        !deposit_accepted(v, amount, cap),
{
    if !v.is_active {
        VaultError::VaultInactive
    } else if amount == 0 {
        VaultError::InvalidAmount
    } else if v.total_deposited + amount > u64::MAX {
        VaultError::Overflow
    } else {
        VaultError::DepositCapExceeded
    }
}

/// When a withdrawal of `amount` is accepted, `vault_balance` being the
/// token ledger's reported balance of the vault's holding account.
///
/// Withdrawal is deliberately not gated on `is_active`: the owner can always
/// recover funds, even after the emergency stop.
pub open spec fn withdraw_accepted(v: VaultAccount, amount: u64, vault_balance: u64) -> bool {
    &&& amount > 0
    &&& vault_balance >= amount
    &&& v.total_deposited >= amount
}

/// The error a rejected withdrawal reports: the first failing check, in the
/// order the checks run.
pub open spec fn withdraw_reject_reason(v: VaultAccount, amount: u64, vault_balance: u64) -> VaultError
    recommends
        !withdraw_accepted(v, amount, vault_balance),
{
    if amount == 0 {
        VaultError::InvalidAmount
    } else if vault_balance < amount {
        VaultError::InsufficientFunds
    } else {
        VaultError::Underflow
    }
}

/// The record a fresh vault starts from: nothing deposited, no delegate,
/// active, created at `now`, with `bump` reproducing the vault's derived
/// signing authority.
pub open spec fn initialize_vault_record(owner: AccountId, now: i64, bump: u8) -> VaultAccount {
    VaultAccount {
        owner,
        total_deposited: 0,
        bot_authority: None,
        is_active: true,
        created_at: now,
        bump,
    }
}

/// Creates a fresh vault record for `owner`.
pub fn initialize_vault(owner: AccountId, now: i64, bump: u8) -> (v: VaultAccount)
    ensures
        v == initialize_vault_record(owner, now, bump),
{
    VaultAccount { owner, total_deposited: 0, bot_authority: None, is_active: true, created_at: now, bump }
}

/// Records a deposit of `amount` base units, after the ledger has moved the
/// funds into the vault's holding account.
///
/// The counter is raised by exactly `amount` on success; on any failure the
/// record is left untouched and the host reverts the ledger transfer. With
/// `cap` configured, the counter may not end above it.
pub fn deposit(vault: &mut VaultAccount, amount: u64, cap: Option<u64>) -> (r: Result<(), VaultError>)
    ensures
        r is Ok <==> deposit_accepted(*old(vault), amount, cap),
        r is Ok ==> final(vault).total_deposited == old(vault).total_deposited + amount,
        r is Ok ==> *final(vault) == with_total(*old(vault), final(vault).total_deposited),
        r is Err ==> *final(vault) == *old(vault),
        r matches Err(e) ==> e == deposit_reject_reason(*old(vault), amount, cap),
{
    if !vault.is_active {
        return Err(VaultError::VaultInactive);
    }
    if amount == 0 {
        return Err(VaultError::InvalidAmount);
    }
    let new_total = match vault.total_deposited.checked_add(amount) {
        Some(t) => t,
        None => {
            return Err(VaultError::Overflow);
        },
    };
    match cap {
        Some(c) => {
            if new_total > c {
                return Err(VaultError::DepositCapExceeded);
            }
        },
        None => {},
    }
    vault.total_deposited = new_total;
    Ok(())
}

/// Records a withdrawal of `amount` base units, checked against the token
/// ledger's reported holding balance `vault_balance`.
///
/// The counter is lowered by exactly `amount` on success and never goes
/// below zero; on any failure the record is left untouched.
pub fn withdraw(vault: &mut VaultAccount, amount: u64, vault_balance: u64) -> (r: Result<
    (),
    VaultError,
>)
    ensures
        r is Ok <==> withdraw_accepted(*old(vault), amount, vault_balance),
        r is Ok ==> final(vault).total_deposited == old(vault).total_deposited - amount,
        r is Ok ==> *final(vault) == with_total(*old(vault), final(vault).total_deposited),
        r is Err ==> *final(vault) == *old(vault),
        r matches Err(e) ==> e == withdraw_reject_reason(*old(vault), amount, vault_balance),
{
    if amount == 0 {
        return Err(VaultError::InvalidAmount);
    }
    if vault_balance < amount {
        return Err(VaultError::InsufficientFunds);
    }
    let new_total = match vault.total_deposited.checked_sub(amount) {
        Some(t) => t,
        None => {
            return Err(VaultError::Underflow);
        },
    };
    vault.total_deposited = new_total;
    Ok(())
}

/// Sets `delegate` as the sole identity permitted to invoke trade execution,
/// overwriting any prior delegate.
pub fn grant_bot_authority(vault: &mut VaultAccount, delegate: AccountId)
    ensures
        *final(vault) == (VaultAccount { bot_authority: Some(delegate), ..*old(vault) }),
{
    vault.bot_authority = Some(delegate);
}

/// Clears the delegation slot. Idempotent: valid even with no delegate set.
pub fn revoke_bot_authority(vault: &mut VaultAccount)
    ensures
        *final(vault) == (VaultAccount { bot_authority: None, ..*old(vault) }),
{
    vault.bot_authority = None;
}

/// Emergency stop: blocks all further bot trades and clears the delegation
/// slot. Leaves `total_deposited` untouched, never fails, and is idempotent.
pub fn deactivate_vault(vault: &mut VaultAccount)
    ensures
        *final(vault) == deactivated(*old(vault)),
        !final(vault).is_active,
        final(vault).bot_authority is None,
        final(vault).total_deposited == old(vault).total_deposited,
{
    vault.is_active = false;
    vault.bot_authority = None;
}

/// A zero-amount deposit into an active vault is always rejected as
/// `InvalidAmount`, whatever the cap; `deposit` then leaves the record
/// untouched. (On an inactive vault the active check runs first and the
/// rejection is `VaultInactive` instead.)
pub proof fn zero_deposit_rejected(v: VaultAccount, cap: Option<u64>)
    requires
        v.is_active,
    ensures
        !deposit_accepted(v, 0, cap),
        deposit_reject_reason(v, 0, cap) == VaultError::InvalidAmount,
{
}

/// A zero-amount withdrawal is always rejected as `InvalidAmount`, whatever
/// the ledger balance; `withdraw` then leaves the record untouched.
pub proof fn zero_withdraw_rejected(v: VaultAccount, vault_balance: u64)
    ensures
        !withdraw_accepted(v, 0, vault_balance),
        withdraw_reject_reason(v, 0, vault_balance) == VaultError::InvalidAmount,
{
}

} // verus!
